use vstd::prelude::*;
use crate::layout::{le_bytes, push_word};
use crate::resolution::Resolution;
use crate::tile_map::TileMap;

verus! {

/// The width of the display buffer is a multiple of this many pixels.
pub const WIDTH_STEP: u32 = 64;

/// The height of the display buffer is a multiple of this many pixels, and
/// one work group of the shader covers a square of this side.
pub const HEIGHT_STEP: u32 = 16;

/// The next multiple of `step` above `extent`; a multiple of `step` goes to
/// the one after it.
pub open spec fn spec_round_up(extent: nat, step: nat) -> nat
    recommends
        step > 0,
{
    (extent + step - extent % step) as nat
}

/// The size of the display buffer for a window: the width brought up to
/// the next multiple of 64, the height to the next multiple of 16.
pub open spec fn spec_virtual_size(size: Resolution) -> (nat, nat) {
    (spec_round_up(size.width as nat, 64), spec_round_up(size.height as nat, 16))
}

/// The display buffer is a whole number of steps along each axis, larger
/// than the window, and no more than one step larger.
pub proof fn lemma_virtual_size(size: Resolution)
    ensures
        spec_virtual_size(size).0 % 64 == 0,
        spec_virtual_size(size).1 % 16 == 0,
        size.width < spec_virtual_size(size).0 <= size.width + 64,
        size.height < spec_virtual_size(size).1 <= size.height + 16,
{
}

/// The size of the display buffer for a window.
pub fn virtual_size(size: Resolution) -> (padded: Resolution)
    requires
        size.width <= u32::MAX - 64,
        size.height <= u32::MAX - 16,
    ensures
        (padded.width as nat, padded.height as nat) == spec_virtual_size(size),
        padded.width % 64 == 0,
        padded.height % 16 == 0,
        size.width < padded.width <= size.width + 64,
        size.height < padded.height <= size.height + 16,
{
    proof {
        lemma_virtual_size(size);
    }
    Resolution {
        width: size.width + WIDTH_STEP - (size.width % WIDTH_STEP),
        height: size.height + HEIGHT_STEP - (size.height % HEIGHT_STEP),
    }
}

/// The bytes of the display buffer: four for each pixel.
pub fn display_buffer_size(padded: Resolution) -> (bytes: u64)
    requires
        padded.width * padded.height * 4 <= u64::MAX,
    ensures
        bytes == padded.width * padded.height * 4,
{
    assert(padded.width * padded.height <= padded.width * padded.height * 4)
        by (nonlinear_arith)
        requires
            padded.width >= 0,
            padded.height >= 0,
    ;
    let cells: u64 = padded.width as u64 * padded.height as u64;
    cells * 4
}

/// The work groups of one frame along each axis: one for each square of 16
/// pixels of the display buffer.
pub fn dispatch_size(padded: Resolution) -> (groups: (u32, u32, u32))
    ensures
        groups == (padded.width / 16, padded.height / 16, 1u32),
{
    (padded.width / HEIGHT_STEP, padded.height / HEIGHT_STEP, 1)
}

/// What the compute shader is told about the frame.
#[derive(Clone, Copy, Debug, PartialEq, Eq, Structural)]
pub struct Parameters {
    pub padded_screen_width: u32,
    pub map_width: u32,
    pub map_height: u32,
    pub atlas_byte_width: u32,
    pub atlas_size: u32,
    pub tile_size: u32,
}

/// The size of packed `Parameters` in bytes.
pub const PARAMETERS_SIZE: usize = 24;

impl Parameters {
    /// The six words in field order, each least significant byte first.
    pub open spec fn spec_bytes(self) -> Seq<u8> {
        le_bytes(self.padded_screen_width) + le_bytes(self.map_width) + le_bytes(self.map_height)
            + le_bytes(self.atlas_byte_width) + le_bytes(self.atlas_size) + le_bytes(
            self.tile_size,
        )
    }

    /// Packs the parameters into the byte layout of the uniform buffer.
    pub fn to_bytes(&self) -> (bytes: Vec<u8>)
        ensures
            bytes@ == self.spec_bytes(),
            bytes@.len() == PARAMETERS_SIZE,
    {
        let mut bytes: Vec<u8> = Vec::new();
        push_word(&mut bytes, self.padded_screen_width);
        push_word(&mut bytes, self.map_width);
        push_word(&mut bytes, self.map_height);
        push_word(&mut bytes, self.atlas_byte_width);
        push_word(&mut bytes, self.atlas_size);
        push_word(&mut bytes, self.tile_size);
        bytes
    }

    /// The parameters after a change of map: the width is the map's, the
    /// height the rows that its layout fills, and the rest stays.
    pub fn with_map(self, map: &TileMap) -> (changed: Parameters)
        ensures
            changed == (Parameters {
                map_width: map@.width,
                map_height: if map@.width == 0 {
                    0
                } else {
                    (map@.layout.len() as u32) / map@.width
                },
                ..self
            }),
    {
        Parameters { map_width: map.width(), map_height: map.rows(), ..self }
    }

    /// The parameters after a resize: the padded width is the new one, and
    /// the rest stays.
    pub fn with_width(self, padded: Resolution) -> (changed: Parameters)
        ensures
            changed == (Parameters { padded_screen_width: padded.width, ..self }),
    {
        Parameters { padded_screen_width: padded.width, ..self }
    }
}

/// The contents of the map buffer: the layout of the map, or a single zero
/// byte where there is no map yet.
pub fn map_buffer_contents(map: Option<&TileMap>) -> (contents: Vec<u8>)
    ensures
        contents@ == match map {
            Some(m) => m@.layout,
            None => seq![0u8],
        },
{
    match map {
        Some(m) => {
            let layout: &[u8] = m.layout();
            let mut contents: Vec<u8> = Vec::new();
            contents.extend_from_slice(layout);
            assert(contents@ =~= m@.layout);
            contents
        },
        None => {
            let mut contents: Vec<u8> = Vec::new();
            contents.push(0);
            assert(contents@ =~= seq![0u8]);
            contents
        },
    }
}

} // verus!

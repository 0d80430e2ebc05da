use vstd::prelude::*;
use crate::chunk::CHUNK_SIZE;
use crate::layout::{le_bytes, push_word};
use crate::tile::TILE_SIZE;

verus! {

/// The bit pattern of the single-precision number one.
pub const ONE: u32 = 0x3f800000;

/// The bit pattern of the single-precision number one half.
pub const HALF: u32 = 0x3f000000;

/// The globals of the variant that tells its shaders the grid as well: the
/// resolution, the pixels of a tile and the tiles of a chunk.
#[derive(Clone, Copy, Debug)]
pub struct GridGlobals {
    pub resolution: [u32; 2],
    pub tile_size: u32,
    pub chunk_size: u32,
}

impl GridGlobals {
    /// The four words in field order, each least significant byte first.
    pub open spec fn spec_bytes(&self) -> Seq<u8> {
        le_bytes(self.resolution@[0]) + le_bytes(self.resolution@[1]) + le_bytes(self.tile_size)
            + le_bytes(self.chunk_size)
    }

    pub fn new(resolution: [u32; 2]) -> (globals: GridGlobals)
        ensures
            globals.resolution@ == resolution@,
            globals.tile_size == TILE_SIZE,
            globals.chunk_size == CHUNK_SIZE,
    {
        GridGlobals { resolution, tile_size: TILE_SIZE, chunk_size: CHUNK_SIZE }
    }

    /// Packs the globals into the byte layout of the uniform buffer.
    pub fn to_bytes(&self) -> (bytes: Vec<u8>)
        ensures
            bytes@ == self.spec_bytes(),
            bytes@.len() == 16,
    {
        let mut bytes: Vec<u8> = Vec::new();
        push_word(&mut bytes, self.resolution[0]);
        push_word(&mut bytes, self.resolution[1]);
        push_word(&mut bytes, self.tile_size);
        push_word(&mut bytes, self.chunk_size);
        bytes
    }
}

/// The record of the single entity that the fixed scene shows.
#[derive(Clone, Copy, Debug)]
pub struct EntityLocals {
    pub position: [u32; 2],
    pub atlas_position: [u32; 2],
    pub color: u32,
    pub detail: u32,
}

impl EntityLocals {
    /// The entity of the fixed scene: at the origin, showing the first cell
    /// of the sheet, white in both colours.
    pub fn new() -> (locals: EntityLocals)
        ensures
            locals.position@ == seq![0u32, 0u32],
            locals.atlas_position@ == seq![0u32, 0u32],
            locals.color == u32::MAX,
            locals.detail == u32::MAX,
    {
        let locals = EntityLocals {
            position: [0, 0],
            atlas_position: [0, 0],
            color: u32::MAX,
            detail: u32::MAX,
        };
        assert(locals.position@ =~= seq![0u32, 0u32]);
        assert(locals.atlas_position@ =~= seq![0u32, 0u32]);
        locals
    }
}

/// The record of one light of the fixed scene. The position and the
/// magnitude are single-precision numbers, held as their bit patterns.
#[derive(Clone, Copy, Debug, PartialEq, Eq, Structural)]
pub struct LightingLocals {
    pub x: u32,
    pub y: u32,
    pub color: u32,
    pub magnitude: u32,
}

impl LightingLocals {
    /// The three lights of the fixed scene.
    pub open spec fn spec_new() -> Seq<LightingLocals> {
        seq![
            LightingLocals { x: 0, y: 0, color: 0x000000ff, magnitude: ONE },
            LightingLocals { x: ONE, y: 0, color: 0x00ff0000, magnitude: ONE },
            LightingLocals { x: HALF, y: ONE, color: 0x0000ff00, magnitude: ONE },
        ]
    }

    /// The three lights of the fixed scene: one at the origin, one a unit
    /// to the right, one half a unit right and a unit up, each of one
    /// colour channel and of magnitude one.
    pub fn new() -> (locals: [LightingLocals; 3])
        ensures
            locals@ == LightingLocals::spec_new(),
    {
        let locals: [LightingLocals; 3] = [
            LightingLocals { x: 0, y: 0, color: 0x000000ff, magnitude: ONE },
            LightingLocals { x: ONE, y: 0, color: 0x00ff0000, magnitude: ONE },
            LightingLocals { x: HALF, y: ONE, color: 0x0000ff00, magnitude: ONE },
        ];
        assert(locals@ =~= LightingLocals::spec_new());
        locals
    }
}

/// The record of the single chunk that the fixed scene shows: its place and
/// its tiles, four rows of four tiles to each of the 64 words.
#[derive(Clone, Copy, Debug)]
pub struct ChunkLocals {
    pub position: [u32; 2],
    pub layout: [u128; 64],
}

/// A word of four rows of wall.
pub const WALL: u128 = 0x81818181;

/// A word with wall in its upper half.
pub const LEFT: u128 = 0x81810000;

/// A word with wall in its lower half.
pub const RIGHT: u128 = 0x00008181;

/// A word of two pillars.
pub const PILLARS: u128 = 0x81808180;

impl ChunkLocals {
    /// The word at `index` of the fixed chunk: wall along the first and the
    /// last four words, wall at both ends of each four between, and the
    /// pillars and the block inside.
    pub open spec fn spec_word(index: int) -> u128 {
        if index < 4 || index >= 60 {
            WALL
        } else if index % 4 == 0 {
            LEFT
        } else if index % 4 == 3 {
            RIGHT
        } else if index == 9 || index == 18 {
            PILLARS
        } else if index == 37 {
            WALL
        } else {
            0
        }
    }

    /// The chunk of the fixed scene.
    pub fn new() -> (locals: ChunkLocals)
        ensures
            locals.position@ == seq![0u32, 0u32],
            locals.layout@.len() == 64,
            forall|i: int| 0 <= i < 64 ==> #[trigger] locals.layout@[i] == ChunkLocals::spec_word(i),
    {
        let mut layout: [u128; 64] = [0;64];
        let mut i: usize = 0;
        while i < 64
            invariant
                i <= 64,
                layout@.len() == 64,
                forall|k: int| 0 <= k < i ==> #[trigger] layout@[k] == ChunkLocals::spec_word(k),
            decreases 64 - i,
        {
            let word: u128 = if i < 4 || i >= 60 {
                WALL
            } else if i % 4 == 0 {
                LEFT
            } else if i % 4 == 3 {
                RIGHT
            } else if i == 9 || i == 18 {
                PILLARS
            } else if i == 37 {
                WALL
            } else {
                0
            };
            layout[i] = word;
            i = i + 1;
        }
        let locals = ChunkLocals { position: [0, 0], layout };
        assert(locals.position@ =~= seq![0u32, 0u32]);
        locals
    }
}

} // verus!

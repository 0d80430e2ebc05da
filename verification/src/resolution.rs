use vstd::prelude::*;
use crate::layout::{le_bytes, push_word};

verus! {

/// The size of the viewport in pixels.
#[derive(Clone, Copy, Debug, PartialEq, Eq, Structural)]
pub struct Resolution {
    pub width: u32,
    pub height: u32,
}

impl Resolution {
    /// Whether either side is zero, as it is while a window is minimised.
    pub open spec fn spec_is_empty(&self) -> bool {
        self.width == 0 || self.height == 0
    }

    pub fn is_empty(&self) -> (empty: bool)
        ensures
            empty == self.spec_is_empty(),
    {
        self.width == 0 || self.height == 0
    }
}

/// The values that every shader reads, rewritten on each resize.
#[derive(Clone, Copy, Debug)]
pub struct Globals {
    pub resolution: [u32; 2],
}

/// The size of a packed `Globals` in bytes.
pub const GLOBALS_SIZE: usize = 8;

impl Globals {
    /// The packed form of the globals for a resolution: the width, then the
    /// height, each as four bytes, least significant first.
    pub open spec fn spec_bytes(resolution: Resolution) -> Seq<u8> {
        le_bytes(resolution.width) + le_bytes(resolution.height)
    }

    pub fn new(resolution: Resolution) -> (globals: Globals)
        ensures
            globals.resolution@ == seq![resolution.width, resolution.height],
    {
        let globals = Globals { resolution: [resolution.width, resolution.height] };
        assert(globals.resolution@ =~= seq![resolution.width, resolution.height]);
        globals
    }

    /// The resolution that the globals carry.
    pub fn size(&self) -> (resolution: Resolution)
        ensures
            resolution.width == self.resolution@[0],
            resolution.height == self.resolution@[1],
    {
        Resolution { width: self.resolution[0], height: self.resolution[1] }
    }

    /// Packs the globals into the byte layout of the uniform buffer.
    pub fn to_bytes(&self) -> (bytes: Vec<u8>)
        ensures
            bytes@ == Globals::spec_bytes(
                (Resolution { width: self.resolution@[0], height: self.resolution@[1] }),
            ),
            bytes@.len() == GLOBALS_SIZE,
    {
        let mut bytes: Vec<u8> = Vec::new();
        push_word(&mut bytes, self.resolution[0]);
        push_word(&mut bytes, self.resolution[1]);
        bytes
    }
}

} // verus!

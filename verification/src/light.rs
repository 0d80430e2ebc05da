use vstd::prelude::*;
use crate::layout::{le_bytes, pad_to, push_word, zeros};

verus! {

/// The bytes that one light takes in the instance buffer.
pub const LIGHT_STRIDE: usize = 256;

/// A point light: where it stands, its colour and how strong it is. The
/// position is a pair of single-precision numbers, held as their bit
/// patterns.
#[derive(Copy, Clone, Debug)]
pub struct Light {
    position: [u32; 2],
    color: [u8; 3],
    magnitude: u8,
}

/// The mathematical content of a `Light`.
pub struct LightRecord {
    pub position: Seq<u32>,
    pub color: Seq<u8>,
    pub magnitude: u8,
}

impl LightRecord {
    /// The fields of the record in order: two words, three colour bytes and
    /// the magnitude.
    pub open spec fn fields(self) -> Seq<u8> {
        le_bytes(self.position[0]) + le_bytes(self.position[1]) + seq![
            self.color[0],
            self.color[1],
            self.color[2],
            self.magnitude,
        ]
    }

    /// The record as it lies in the instance buffer: its fields, then zeros
    /// up to the stride.
    pub open spec fn bytes(self) -> Seq<u8> {
        self.fields() + zeros(256 - 12)
    }
}

impl View for Light {
    type V = LightRecord;

    closed spec fn view(&self) -> LightRecord {
        LightRecord { position: self.position@, color: self.color@, magnitude: self.magnitude }
    }
}

impl Light {
    pub fn new(position: [u32; 2], color: [u8; 3], magnitude: u8) -> (light: Light)
        ensures
            light@.position == position@,
            light@.color == color@,
            light@.magnitude == magnitude,
    {
        Light { position, color, magnitude }
    }

    pub fn position(&self) -> (position: [u32; 2])
        ensures
            position@ == self@.position,
    {
        self.position
    }

    pub fn color(&self) -> (color: [u8; 3])
        ensures
            color@ == self@.color,
    {
        self.color
    }

    pub fn magnitude(&self) -> (magnitude: u8)
        ensures
            magnitude == self@.magnitude,
    {
        self.magnitude
    }

    /// Packs the light into the byte layout that the lighting shader reads.
    pub fn to_bytes(&self) -> (bytes: Vec<u8>)
        ensures
            bytes@ == self@.bytes(),
            bytes@.len() == LIGHT_STRIDE,
    {
        let mut bytes: Vec<u8> = Vec::new();
        push_word(&mut bytes, self.position[0]);
        push_word(&mut bytes, self.position[1]);
        bytes.push(self.color[0]);
        bytes.push(self.color[1]);
        bytes.push(self.color[2]);
        bytes.push(self.magnitude);
        assert(bytes@ =~= self@.fields());
        pad_to(&mut bytes, LIGHT_STRIDE);
        bytes
    }
}

impl Default for Light {
    /// A light at the origin, black and of no strength.
    fn default() -> (light: Light)
        ensures
            light@.position == seq![0u32, 0u32],
            light@.color == seq![0u8, 0u8, 0u8],
            light@.magnitude == 0,
    {
        let light = Light { position: [0, 0], color: [0, 0, 0], magnitude: 0 };
        assert(light@.position =~= seq![0u32, 0u32]);
        assert(light@.color =~= seq![0u8, 0u8, 0u8]);
        light
    }
}

} // verus!

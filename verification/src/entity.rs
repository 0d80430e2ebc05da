use vstd::prelude::*;
use crate::layout::{le_bytes, pad_to, push_word, zeros};

verus! {

/// The bytes that one entity takes in the instance buffer.
pub const ENTITY_STRIDE: usize = 256;

/// A sprite: where it stands, which cells of the sprite sheet it shows, and
/// its two colours. The position is a pair of single-precision numbers,
/// held as their bit patterns.
#[derive(Clone, Copy, Debug)]
pub struct Entity {
    position: [u32; 2],
    atlas_position: [u32; 2],
    size: [u32; 2],
    color: u32,
    detail: u32,
}

/// The mathematical content of an `Entity`.
pub struct EntityRecord {
    pub position: Seq<u32>,
    pub atlas_position: Seq<u32>,
    pub size: Seq<u32>,
    pub color: u32,
    pub detail: u32,
}

impl EntityRecord {
    /// The eight words of the record in field order.
    pub open spec fn words(self) -> Seq<u8> {
        le_bytes(self.position[0]) + le_bytes(self.position[1]) + le_bytes(
            self.atlas_position[0],
        ) + le_bytes(self.atlas_position[1]) + le_bytes(self.size[0]) + le_bytes(self.size[1])
            + le_bytes(self.color) + le_bytes(self.detail)
    }

    /// The record as it lies in the instance buffer: its words, then zeros
    /// up to the stride.
    pub open spec fn bytes(self) -> Seq<u8> {
        self.words() + zeros(256 - 32)
    }
}

impl View for Entity {
    type V = EntityRecord;

    closed spec fn view(&self) -> EntityRecord {
        EntityRecord {
            position: self.position@,
            atlas_position: self.atlas_position@,
            size: self.size@,
            color: self.color,
            detail: self.detail,
        }
    }
}

impl Entity {
    /// Makes an entity. Where no detail colour is given, the detail colour
    /// is the colour.
    pub fn new(
        position: [u32; 2],
        atlas_position: [u32; 2],
        size: [u32; 2],
        color: u32,
        detail: Option<u32>,
    ) -> (entity: Entity)
        ensures
            entity@.position == position@,
            entity@.atlas_position == atlas_position@,
            entity@.size == size@,
            entity@.color == color,
            entity@.detail == match detail {
                Some(d) => d,
                None => color,
            },
    {
        let detail: u32 = match detail {
            Some(d) => d,
            None => color,
        };
        Entity { position, atlas_position, size, color, detail }
    }

    pub fn position(&self) -> (position: [u32; 2])
        ensures
            position@ == self@.position,
    {
        self.position
    }

    pub fn atlas_position(&self) -> (atlas_position: [u32; 2])
        ensures
            atlas_position@ == self@.atlas_position,
    {
        self.atlas_position
    }

    pub fn size(&self) -> (size: [u32; 2])
        ensures
            size@ == self@.size,
    {
        self.size
    }

    pub fn color(&self) -> (color: u32)
        ensures
            color == self@.color,
    {
        self.color
    }

    pub fn detail(&self) -> (detail: u32)
        ensures
            detail == self@.detail,
    {
        self.detail
    }

    /// Packs the entity into the byte layout that the entity shader reads.
    pub fn to_bytes(&self) -> (bytes: Vec<u8>)
        ensures
            bytes@ == self@.bytes(),
            bytes@.len() == ENTITY_STRIDE,
    {
        let mut bytes: Vec<u8> = Vec::new();
        push_word(&mut bytes, self.position[0]);
        push_word(&mut bytes, self.position[1]);
        push_word(&mut bytes, self.atlas_position[0]);
        push_word(&mut bytes, self.atlas_position[1]);
        push_word(&mut bytes, self.size[0]);
        push_word(&mut bytes, self.size[1]);
        push_word(&mut bytes, self.color);
        push_word(&mut bytes, self.detail);
        assert(bytes@ =~= self@.words());
        pad_to(&mut bytes, ENTITY_STRIDE);
        bytes
    }
}

} // verus!

use vstd::prelude::*;
use crate::entity::Entity;
use crate::error::Error;
use crate::light::Light;

verus! {

/// The bytes between one instance and the next. Instances are picked by a
/// dynamic offset into a uniform buffer, which has to be a multiple of this.
pub const INSTANCE_STRIDE: u32 = 256;

/// The number of instances that a buffer holds unless it is made larger.
pub const MIN_INSTANCE_COUNT: u32 = 16;

/// The most instances that a buffer can hold: the offset of each has to fit
/// in 32 bits.
pub const MAX_INSTANCE_COUNT: u32 = 16777215;

/// The offset in bytes of the instance at `index`.
pub open spec fn spec_offset(index: nat) -> nat {
    index * 256
}

/// The bytes of a run of entities: one packed record after the other.
pub open spec fn spec_entity_bytes(entities: Seq<Entity>) -> Seq<u8> {
    Seq::new(256 * entities.len(), |i: int| entities[i / 256]@.bytes()[i % 256])
}

/// The bytes of a run of lights: one packed record after the other.
pub open spec fn spec_light_bytes(lights: Seq<Light>) -> Seq<u8> {
    Seq::new(256 * lights.len(), |i: int| lights[i / 256]@.bytes()[i % 256])
}

/// Two equal lights take two slots: their bytes are the record twice over,
/// the second a stride after the first.
pub proof fn lemma_equal_lights_take_two_slots(light: Light)
    ensures
        spec_light_bytes(seq![light, light]) == light@.bytes() + light@.bytes(),
        spec_light_bytes(seq![light, light]).len() == 2 * spec_light_bytes(seq![light]).len(),
{
    assert(spec_light_bytes(seq![light, light]) =~= light@.bytes() + light@.bytes());
}

/// A buffer of a fixed number of instance slots, the number of slots in use
/// and the bytes that were last written to them.
#[derive(Debug)]
pub struct InstanceBuffer {
    capacity: u32,
    count: u32,
    data: Vec<u8>,
}

/// The mathematical content of an `InstanceBuffer`.
pub struct InstanceBufferView {
    pub capacity: u32,
    pub count: u32,
    pub data: Seq<u8>,
}

impl View for InstanceBuffer {
    type V = InstanceBufferView;

    closed spec fn view(&self) -> InstanceBufferView {
        InstanceBufferView { capacity: self.capacity, count: self.count, data: self.data@ }
    }
}

impl InstanceBuffer {
    /// No more slots are in use than there are, every offset fits in 32
    /// bits, and the bytes are those of the slots in use.
    pub open spec fn wf(&self) -> bool {
        &&& self@.capacity <= MAX_INSTANCE_COUNT
        &&& self@.count <= self@.capacity
        &&& self@.data.len() == spec_offset(self@.count as nat)
    }

    /// An empty buffer of `MIN_INSTANCE_COUNT` slots.
    pub fn new() -> (buffer: InstanceBuffer)
        ensures
            buffer.wf(),
            buffer@.capacity == MIN_INSTANCE_COUNT,
            buffer@.count == 0,
            buffer@.data == Seq::<u8>::empty(),
    {
        InstanceBuffer { capacity: MIN_INSTANCE_COUNT, count: 0, data: Vec::new() }
    }

    /// An empty buffer of `capacity` slots, or of the most that a buffer can
    /// hold where `capacity` is more than that.
    pub fn with_capacity(capacity: u32) -> (buffer: InstanceBuffer)
        ensures
            buffer.wf(),
            buffer@.capacity == if capacity <= MAX_INSTANCE_COUNT {
                capacity
            } else {
                MAX_INSTANCE_COUNT
            },
            buffer@.count == 0,
            buffer@.data == Seq::<u8>::empty(),
    {
        let capacity: u32 = if capacity <= MAX_INSTANCE_COUNT {
            capacity
        } else {
            MAX_INSTANCE_COUNT
        };
        InstanceBuffer { capacity, count: 0, data: Vec::new() }
    }

    pub fn capacity(&self) -> (capacity: u32)
        ensures
            capacity == self@.capacity,
    {
        self.capacity
    }

    /// The number of slots in use, which is the number of draw calls.
    pub fn count(&self) -> (count: u32)
        ensures
            count == self@.count,
    {
        self.count
    }

    /// The bytes to copy to the start of the instance buffer.
    pub fn data(&self) -> (data: &Vec<u8>)
        ensures
            data@ == self@.data,
    {
        &self.data
    }

    /// The size in bytes of the whole buffer, used slots and free ones.
    pub fn byte_size(&self) -> (bytes: u64)
        requires
            self.wf(),
        ensures
            bytes == spec_offset(self@.capacity as nat),
    {
        self.capacity as u64 * INSTANCE_STRIDE as u64
    }

    /// The dynamic offset that selects the instance at `index`.
    pub fn offset(&self, index: u32) -> (offset: u32)
        requires
            self.wf(),
            index < self@.count,
        ensures
            offset == spec_offset(index as nat),
            offset + INSTANCE_STRIDE <= self@.data.len(),
    {
        index * INSTANCE_STRIDE
    }

    /// Empties the buffer and gives it `capacity` slots. Fails, and leaves
    /// the buffer as it is, exactly where `capacity` is more than
    /// `MAX_INSTANCE_COUNT`.
    pub fn reallocate(&mut self, capacity: u32) -> (done: bool)
        requires
            old(self).wf(),
        ensures
            final(self).wf(),
            done == (capacity <= MAX_INSTANCE_COUNT),
            done ==> final(self)@ == (InstanceBufferView {
                capacity,
                count: 0,
                data: Seq::<u8>::empty(),
            }),
            !done ==> *final(self) == *old(self),
    {
        if capacity > MAX_INSTANCE_COUNT {
            return false;
        }
        self.capacity = capacity;
        self.count = 0;
        self.data = Vec::new();
        true
    }

    /// Replaces what the buffer holds by the given entities, in their order.
    /// A run that is longer than the capacity is rejected, and the buffer
    /// stays as it was.
    pub fn write_entities(&mut self, entities: &[Entity]) -> (res: Result<(), Error>)
        requires
            old(self).wf(),
        ensures
            final(self).wf(),
            final(self)@.capacity == old(self)@.capacity,
            res is Ok <==> entities@.len() <= old(self)@.capacity,
            res is Ok ==> final(self)@.count == entities@.len() && final(self)@.data
                == spec_entity_bytes(entities@),
            res matches Err(e) ==> {
                &&& *final(self) == *old(self)
                &&& e == (Error::InstanceOverflow {
                    instances: entities.len(),
                    slots: old(self)@.capacity,
                })
            },
    {
        let count: usize = entities.len();
        if count > self.capacity as usize {
            return Err(Error::InstanceOverflow { instances: count, slots: self.capacity });
        }
        let mut data: Vec<u8> = Vec::new();
        let mut i: usize = 0;
        while i < count
            invariant
                i <= count,
                count == entities@.len(),
                data@.len() == 256 * i,
                forall|k: int|
                    0 <= k < 256 * i ==> #[trigger] data@[k] == entities@[k / 256]@.bytes()[k
                        % 256],
            decreases count - i,
        {
            let mut record: Vec<u8> = entities[i].to_bytes();
            let ghost before = data@;
            data.append(&mut record);
            assert forall|k: int| 0 <= k < 256 * (i + 1) implies #[trigger] data@[k]
                == entities@[k / 256]@.bytes()[k % 256] by {
                if k < 256 * i {
                    assert(data@[k] == before[k]);
                } else {
                    assert(k / 256 == i);
                    assert(k % 256 == k - 256 * i);
                }
            }
            i = i + 1;
        }
        assert(data@ =~= spec_entity_bytes(entities@));
        self.count = count as u32;
        self.data = data;
        Ok(())
    }

    /// Replaces what the buffer holds by the given lights, in their order.
    /// Lights that are equal are all kept: each gets a slot and a draw call
    /// of its own. A run that is longer than the capacity is rejected, and
    /// the buffer stays as it was.
    pub fn write_lights(&mut self, lights: &[Light]) -> (res: Result<(), Error>)
        requires
            old(self).wf(),
        ensures
            final(self).wf(),
            final(self)@.capacity == old(self)@.capacity,
            res is Ok <==> lights@.len() <= old(self)@.capacity,
            res is Ok ==> final(self)@.count == lights@.len() && final(self)@.data
                == spec_light_bytes(lights@),
            res matches Err(e) ==> {
                &&& *final(self) == *old(self)
                &&& e == (Error::InstanceOverflow {
                    instances: lights.len(),
                    slots: old(self)@.capacity,
                })
            },
    {
        let count: usize = lights.len();
        if count > self.capacity as usize {
            return Err(Error::InstanceOverflow { instances: count, slots: self.capacity });
        }
        let mut data: Vec<u8> = Vec::new();
        let mut i: usize = 0;
        while i < count
            invariant
                i <= count,
                count == lights@.len(),
                data@.len() == 256 * i,
                forall|k: int|
                    0 <= k < 256 * i ==> #[trigger] data@[k] == lights@[k / 256]@.bytes()[k % 256],
            decreases count - i,
        {
            let mut record: Vec<u8> = lights[i].to_bytes();
            let ghost before = data@;
            data.append(&mut record);
            assert forall|k: int| 0 <= k < 256 * (i + 1) implies #[trigger] data@[k]
                == lights@[k / 256]@.bytes()[k % 256] by {
                if k < 256 * i {
                    assert(data@[k] == before[k]);
                } else {
                    assert(k / 256 == i);
                    assert(k % 256 == k - 256 * i);
                }
            }
            i = i + 1;
        }
        assert(data@ =~= spec_light_bytes(lights@));
        self.count = count as u32;
        self.data = data;
        Ok(())
    }
}

} // verus!

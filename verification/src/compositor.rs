use vstd::prelude::*;
use crate::chunk::{Chunk, ChunkWindow};
use crate::chunk_store::{spec_chunk_bytes, ChunkStore, ChunkStoreView};
use crate::entity::Entity;
use crate::error::Error;
use crate::frame::{render, spec_render, Command, SurfaceStatus};
use crate::instance::{spec_entity_bytes, spec_light_bytes, InstanceBuffer, InstanceBufferView};
use crate::light::Light;
use crate::resolution::{Globals, Resolution};

verus! {

/// What a resize did.
#[derive(Clone, Copy, Debug, PartialEq, Eq, Structural)]
pub enum Resize {
    /// A side was zero: nothing was touched.
    Ignored,
    /// The resolution is the one that was there: nothing was made again.
    Unchanged,
    /// The resolution changed: the surface has to be configured again, the
    /// offscreen texture and what binds it made again, the chunk buffer
    /// allocated again and the globals written.
    Resized,
}

/// The host side of the renderer: the viewport, and what was last written
/// for the chunk pass, the entity pass and the lighting pass.
#[derive(Debug)]
pub struct Compositor {
    resolution: Resolution,
    chunks: ChunkStore,
    entities: InstanceBuffer,
    lights: InstanceBuffer,
}

/// The mathematical content of a `Compositor`.
pub struct CompositorView {
    /// The size of the surface, and of the offscreen texture.
    pub resolution: Resolution,
    pub chunks: ChunkStoreView,
    pub entities: InstanceBufferView,
    pub lights: InstanceBufferView,
}

impl View for Compositor {
    type V = CompositorView;

    closed spec fn view(&self) -> CompositorView {
        CompositorView {
            resolution: self.resolution,
            chunks: self.chunks@,
            entities: self.entities@,
            lights: self.lights@,
        }
    }
}

impl CompositorView {
    /// The state after a resize: unchanged where a side is zero or the
    /// resolution is the one that is there; else the new resolution with an
    /// emptied chunk window of its size, the instances kept.
    pub open spec fn resize(self, resolution: Resolution) -> CompositorView {
        if resolution.spec_is_empty() || resolution == self.resolution {
            self
        } else {
            CompositorView {
                resolution,
                chunks: ChunkStoreView {
                    window: ChunkWindow::spec_for(resolution),
                    data: Seq::empty(),
                },
                entities: self.entities,
                lights: self.lights,
            }
        }
    }

    /// What a resize reports.
    pub open spec fn resize_outcome(self, resolution: Resolution) -> Resize {
        if resolution.spec_is_empty() {
            Resize::Ignored
        } else if resolution == self.resolution {
            Resize::Unchanged
        } else {
            Resize::Resized
        }
    }

    /// The bytes of the globals buffer.
    pub open spec fn globals(self) -> Seq<u8> {
        Globals::spec_bytes(self.resolution)
    }
}

/// A resize to a resolution with a zero side changes nothing.
pub proof fn lemma_zero_resize_is_noop(state: CompositorView, resolution: Resolution)
    requires
        resolution.width == 0 || resolution.height == 0,
    ensures
        state.resize(resolution) == state,
        state.resize_outcome(resolution) == Resize::Ignored,
{
}

/// Resizing twice to one resolution gives what resizing once gives, the
/// bytes of the globals included, and the second resize makes nothing again.
pub proof fn lemma_resize_is_idempotent(state: CompositorView, resolution: Resolution)
    ensures
        state.resize(resolution).resize(resolution) == state.resize(resolution),
        state.resize(resolution).resize(resolution).globals() == state.resize(
            resolution,
        ).globals(),
        state.resize(resolution).resize_outcome(resolution) != Resize::Resized,
{
}

impl Compositor {
    /// The chunk window is that of the resolution, and each part is well
    /// formed.
    pub open spec fn wf(&self) -> bool {
        &&& self@.chunks.window == ChunkWindow::spec_for(self@.resolution)
        &&& self@.chunks.data.len() <= self@.chunks.window.spec_byte_size()
        &&& self@.entities.capacity <= crate::instance::MAX_INSTANCE_COUNT
        &&& self@.entities.count <= self@.entities.capacity
        &&& self@.entities.data.len() == 256 * self@.entities.count
        &&& self@.lights.capacity <= crate::instance::MAX_INSTANCE_COUNT
        &&& self@.lights.count <= self@.lights.capacity
        &&& self@.lights.data.len() == 256 * self@.lights.count
    }

    /// A compositor for a viewport, with nothing written yet.
    pub fn new(resolution: Resolution) -> (compositor: Compositor)
        ensures
            compositor.wf(),
            compositor@.resolution == resolution,
            compositor@.chunks.data == Seq::<u8>::empty(),
            compositor@.entities.count == 0,
            compositor@.entities.capacity == crate::instance::MIN_INSTANCE_COUNT,
            compositor@.lights.count == 0,
            compositor@.lights.capacity == crate::instance::MIN_INSTANCE_COUNT,
    {
        Compositor {
            resolution,
            chunks: ChunkStore::new(resolution),
            entities: InstanceBuffer::new(),
            lights: InstanceBuffer::new(),
        }
    }

    pub fn resolution(&self) -> (resolution: Resolution)
        ensures
            resolution == self@.resolution,
    {
        self.resolution
    }

    /// The bytes of the globals buffer for the present resolution.
    pub fn globals(&self) -> (bytes: Vec<u8>)
        ensures
            bytes@ == self@.globals(),
    {
        Globals::new(self.resolution).to_bytes()
    }

    pub fn chunks(&self) -> (chunks: &ChunkStore)
        ensures
            chunks@ == self@.chunks,
    {
        &self.chunks
    }

    pub fn entities(&self) -> (entities: &InstanceBuffer)
        ensures
            entities@ == self@.entities,
    {
        &self.entities
    }

    pub fn lights(&self) -> (lights: &InstanceBuffer)
        ensures
            lights@ == self@.lights,
    {
        &self.lights
    }

    /// Replaces the whole chunk window by the given chunks; rejected, with
    /// nothing changed, exactly where they are more than the window holds.
    pub fn write_chunks(&mut self, chunks: &[Chunk]) -> (res: Result<(), Error>)
        requires
            old(self).wf(),
        ensures
            final(self).wf(),
            res is Ok <==> chunks@.len() <= old(self)@.chunks.window.spec_capacity(),
            res is Ok ==> final(self)@ == (CompositorView {
                chunks: ChunkStoreView {
                    window: old(self)@.chunks.window,
                    data: spec_chunk_bytes(chunks@),
                },
                ..old(self)@
            }),
            res matches Err(e) ==> final(self)@ == old(self)@ && e == (Error::ChunkOverflow {
                chunks: chunks.len(),
                capacity: old(self)@.chunks.window.spec_capacity() as u64,
            }),
    {
        self.chunks.write_chunks(chunks)
    }

    /// Replaces the entities by the given ones, in their order; rejected,
    /// with nothing changed, exactly where they are more than the buffer
    /// holds.
    pub fn write_entities(&mut self, entities: &[Entity]) -> (res: Result<(), Error>)
        requires
            old(self).wf(),
        ensures
            final(self).wf(),
            res is Ok <==> entities@.len() <= old(self)@.entities.capacity,
            res is Ok ==> final(self)@ == (CompositorView {
                entities: InstanceBufferView {
                    capacity: old(self)@.entities.capacity,
                    count: entities@.len() as u32,
                    data: spec_entity_bytes(entities@),
                },
                ..old(self)@
            }),
            res matches Err(e) ==> final(self)@ == old(self)@ && e == (Error::InstanceOverflow {
                instances: entities.len(),
                slots: old(self)@.entities.capacity,
            }),
    {
        self.entities.write_entities(entities)
    }

    /// Replaces the lights by the given ones, in their order, equal ones
    /// included; rejected, with nothing changed, exactly where they are more
    /// than the buffer holds.
    pub fn write_lights(&mut self, lights: &[Light]) -> (res: Result<(), Error>)
        requires
            old(self).wf(),
        ensures
            final(self).wf(),
            res is Ok <==> lights@.len() <= old(self)@.lights.capacity,
            res is Ok ==> final(self)@ == (CompositorView {
                lights: InstanceBufferView {
                    capacity: old(self)@.lights.capacity,
                    count: lights@.len() as u32,
                    data: spec_light_bytes(lights@),
                },
                ..old(self)@
            }),
            res matches Err(e) ==> final(self)@ == old(self)@ && e == (Error::InstanceOverflow {
                instances: lights.len(),
                slots: old(self)@.lights.capacity,
            }),
    {
        self.lights.write_lights(lights)
    }

    /// Takes a new resolution. Nothing is touched where a side is zero, and
    /// nothing is made again where the resolution is the one that is
    /// there; else the chunk window is sized anew and emptied.
    pub fn resize(&mut self, resolution: Resolution) -> (outcome: Resize)
        requires
            old(self).wf(),
        ensures
            final(self).wf(),
            final(self)@ == old(self)@.resize(resolution),
            outcome == old(self)@.resize_outcome(resolution),
    {
        if resolution.is_empty() {
            return Resize::Ignored;
        }
        if resolution.width == self.resolution.width && resolution.height
            == self.resolution.height {
            return Resize::Unchanged;
        }
        self.resolution = resolution;
        self.chunks = ChunkStore::new(resolution);
        Resize::Resized
    }

    /// The commands of the next frame, from the outcome of acquiring the
    /// surface and the instances that are written.
    pub fn render(&self, status: SurfaceStatus) -> (res: Result<Vec<Command>, Error>)
        requires
            self.wf(),
        ensures
            match (
                res,
                spec_render(status, self@.entities.count as nat, self@.lights.count as nat),
            ) {
                (Ok(commands), Ok(expected)) => commands@ == expected,
                (Err(e), Err(expected)) => e == expected,
                _ => false,
            },
    {
        render(status, self.entities.count(), self.lights.count())
    }
}

} // verus!

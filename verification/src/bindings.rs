use vstd::prelude::*;
use crate::chunk::ChunkWindow;
use crate::instance::InstanceBuffer;
use crate::material::MATERIAL_COUNT;
use crate::tile::TILE_SIZE;

verus! {

/// The shader stages that see a binding.
#[derive(Clone, Copy, Debug, PartialEq, Eq, Structural)]
pub enum Stages {
    Fragment,
    VertexFragment,
}

/// What is bound at a slot.
#[derive(Clone, Copy, Debug, PartialEq, Eq, Structural)]
pub enum Resource {
    /// A uniform buffer. With `dynamic`, a draw picks one record of it by
    /// an offset; `min_size` is the least size of what is bound, zero for
    /// no demand.
    Uniform { dynamic: bool, min_size: u64 },
    /// A storage buffer that shaders only read.
    Storage { min_size: u64 },
    /// A texture that is read cell by cell, without filtering.
    Texture { layered: bool },
}

/// One slot of a bind group layout.
#[derive(Clone, Copy, Debug, PartialEq, Eq, Structural)]
pub struct Binding {
    pub binding: u32,
    pub stages: Stages,
    pub resource: Resource,
}

/// The size of the packed globals in bytes.
pub const GLOBALS_BYTES: u64 = 8;

/// The size of the record that places a chunk, padded to the stride.
pub const CHUNK_LOCALS_BYTES: u64 = 256;

/// The size of the tile catalog in the buffer: 256 entries of twelve bytes.
pub const TILE_TABLE_BYTES: u64 = 3072;

/// The slot of the globals, which every layout but the entities' has first.
pub open spec fn spec_globals_binding() -> Binding {
    Binding {
        binding: 0,
        stages: Stages::VertexFragment,
        resource: Resource::Uniform { dynamic: false, min_size: 8 },
    }
}

/// The layout of the chunk pass: the globals, the place of the chunk, the
/// chunk window, the tile catalog and the tile sheet.
pub open spec fn spec_chunk_layout(window: ChunkWindow) -> Seq<Binding> {
    seq![
        spec_globals_binding(),
        Binding {
            binding: 1,
            stages: Stages::Fragment,
            resource: Resource::Uniform { dynamic: true, min_size: 256 },
        },
        Binding {
            binding: 2,
            stages: Stages::Fragment,
            resource: Resource::Storage { min_size: window.spec_byte_size() as u64 },
        },
        Binding {
            binding: 3,
            stages: Stages::Fragment,
            resource: Resource::Storage { min_size: 3072 },
        },
        Binding {
            binding: 4,
            stages: Stages::Fragment,
            resource: Resource::Texture { layered: false },
        },
    ]
}

/// The layout of the entity pass: the entity, picked by offset, and the
/// sprite sheet.
pub open spec fn spec_entity_layout() -> Seq<Binding> {
    seq![
        Binding {
            binding: 0,
            stages: Stages::VertexFragment,
            resource: Resource::Uniform { dynamic: true, min_size: 0 },
        },
        Binding {
            binding: 1,
            stages: Stages::Fragment,
            resource: Resource::Texture { layered: false },
        },
    ]
}

/// The layout of the lighting pass: the globals, the light, picked by
/// offset, and the offscreen texture of the first pass.
pub open spec fn spec_lighting_layout() -> Seq<Binding> {
    seq![
        spec_globals_binding(),
        Binding {
            binding: 1,
            stages: Stages::VertexFragment,
            resource: Resource::Uniform { dynamic: true, min_size: 0 },
        },
        Binding {
            binding: 2,
            stages: Stages::Fragment,
            resource: Resource::Texture { layered: false },
        },
    ]
}

pub fn globals_binding() -> (binding: Binding)
    ensures
        binding == spec_globals_binding(),
{
    Binding {
        binding: 0,
        stages: Stages::VertexFragment,
        resource: Resource::Uniform { dynamic: false, min_size: GLOBALS_BYTES },
    }
}

pub fn chunk_layout(window: ChunkWindow) -> (layout: Vec<Binding>)
    requires
        window.wf(),
    ensures
        layout@ == spec_chunk_layout(window),
{
    let mut layout: Vec<Binding> = Vec::new();
    layout.push(globals_binding());
    layout.push(
        Binding {
            binding: 1,
            stages: Stages::Fragment,
            resource: Resource::Uniform { dynamic: true, min_size: CHUNK_LOCALS_BYTES },
        },
    );
    layout.push(
        Binding {
            binding: 2,
            stages: Stages::Fragment,
            resource: Resource::Storage { min_size: window.byte_size() },
        },
    );
    layout.push(
        Binding {
            binding: 3,
            stages: Stages::Fragment,
            resource: Resource::Storage { min_size: TILE_TABLE_BYTES },
        },
    );
    layout.push(
        Binding {
            binding: 4,
            stages: Stages::Fragment,
            resource: Resource::Texture { layered: false },
        },
    );
    assert(layout@ =~= spec_chunk_layout(window));
    layout
}

pub fn entity_layout() -> (layout: Vec<Binding>)
    ensures
        layout@ == spec_entity_layout(),
{
    let mut layout: Vec<Binding> = Vec::new();
    layout.push(
        Binding {
            binding: 0,
            stages: Stages::VertexFragment,
            resource: Resource::Uniform { dynamic: true, min_size: 0 },
        },
    );
    layout.push(
        Binding {
            binding: 1,
            stages: Stages::Fragment,
            resource: Resource::Texture { layered: false },
        },
    );
    assert(layout@ =~= spec_entity_layout());
    layout
}

pub fn lighting_layout() -> (layout: Vec<Binding>)
    ensures
        layout@ == spec_lighting_layout(),
{
    let mut layout: Vec<Binding> = Vec::new();
    layout.push(globals_binding());
    layout.push(
        Binding {
            binding: 1,
            stages: Stages::VertexFragment,
            resource: Resource::Uniform { dynamic: true, min_size: 0 },
        },
    );
    layout.push(
        Binding {
            binding: 2,
            stages: Stages::Fragment,
            resource: Resource::Texture { layered: false },
        },
    );
    assert(layout@ =~= spec_lighting_layout());
    layout
}

/// The sizes in bytes of the buffers that a renderer allocates.
#[derive(Clone, Copy, Debug, PartialEq, Eq, Structural)]
pub struct BufferSizes {
    pub globals: u64,
    pub chunk_locals: u64,
    pub chunk_data: u64,
    pub tile_data: u64,
    pub entity_locals: u64,
    pub lighting_locals: u64,
}

/// The sizes of the buffers for a chunk window and two instance buffers:
/// the chunk data is the window with its border, and each instance buffer
/// has a stride for each of its slots.
pub fn buffer_sizes(window: ChunkWindow, entities: &InstanceBuffer, lights: &InstanceBuffer) -> (sizes:
    BufferSizes)
    requires
        window.wf(),
        entities.wf(),
        lights.wf(),
    ensures
        sizes == (BufferSizes {
            globals: 8,
            chunk_locals: 256,
            chunk_data: window.spec_byte_size() as u64,
            tile_data: 3072,
            entity_locals: (256 * entities@.capacity) as u64,
            lighting_locals: (256 * lights@.capacity) as u64,
        }),
{
    BufferSizes {
        globals: GLOBALS_BYTES,
        chunk_locals: CHUNK_LOCALS_BYTES,
        chunk_data: window.byte_size(),
        tile_data: TILE_TABLE_BYTES,
        entity_locals: entities.byte_size(),
        lighting_locals: lights.byte_size(),
    }
}

/// The size of the material texture: each layer is a square of four tiles
/// a side, and there is a layer for each material.
pub fn material_extent() -> (extent: (u32, u32, u32))
    ensures
        extent == (64u32, 64u32, MATERIAL_COUNT),
{
    (TILE_SIZE * 4, TILE_SIZE * 4, MATERIAL_COUNT)
}

/// One attribute of a vertex: its slot in the shader and where its two
/// single-precision numbers lie in the vertex.
#[derive(Clone, Copy, Debug, PartialEq, Eq, Structural)]
pub struct VertexAttribute {
    pub shader_location: u32,
    pub offset: u64,
}

/// The bytes of one vertex: a position and a texture coordinate, of two
/// single-precision numbers each.
pub const VERTEX_STRIDE: u64 = 16;

/// The attributes of a vertex: the position at the start, the texture
/// coordinate after it.
pub fn vertex_attributes() -> (attributes: [VertexAttribute; 2])
    ensures
        attributes@ == seq![
            VertexAttribute { shader_location: 0, offset: 0 },
            VertexAttribute { shader_location: 1, offset: 8 },
        ],
        forall|i: int| 0 <= i < 2 ==> (#[trigger] attributes@[i]).offset + 8 <= VERTEX_STRIDE,
{
    let attributes: [VertexAttribute; 2] = [
        VertexAttribute { shader_location: 0, offset: 0 },
        VertexAttribute { shader_location: 1, offset: 4 * 2 },
    ];
    assert(attributes@ =~= seq![
        VertexAttribute { shader_location: 0, offset: 0 },
        VertexAttribute { shader_location: 1, offset: 8 },
    ]);
    attributes
}

/// The corners of the quad that every draw uses, as indices of two
/// triangles into four vertices.
pub fn square_indices() -> (indices: [u16; 6])
    ensures
        indices@ == seq![0u16, 1u16, 2u16, 2u16, 1u16, 3u16],
{
    let indices: [u16; 6] = [0, 1, 2, 2, 1, 3];
    assert(indices@ =~= seq![0u16, 1u16, 2u16, 2u16, 1u16, 3u16]);
    indices
}

} // verus!

use tile_compositor::bindings::{
    buffer_sizes, chunk_layout, entity_layout, globals_binding, lighting_layout, material_extent,
    square_indices, vertex_attributes, Binding, BufferSizes, Resource, Stages, VertexAttribute,
    VERTEX_STRIDE,
};
use tile_compositor::camera::Camera;
use tile_compositor::chunk::ChunkWindow;
use tile_compositor::compute_view::{
    dispatch_size, display_buffer_size, map_buffer_contents, virtual_size, Parameters,
};
use tile_compositor::instance::InstanceBuffer;
use tile_compositor::light::Light;
use tile_compositor::locals::{ChunkLocals, EntityLocals, GridGlobals, LightingLocals};
use tile_compositor::resolution::Resolution;
use tile_compositor::tile::Tile;
use tile_compositor::tile_map::TileMap;
use tile_compositor::time::Time;
use tile_compositor::world::{World, WorldRecord};

#[test]
fn map_layout_is_flat_and_padded_to_four() {
    let rows = vec![
        [Tile::Wall, Tile::Planks, Tile::Void],
        [Tile::Planks, Tile::Wall, Tile::Wall],
    ];
    let light = Light::new([0, 0], [1, 2, 3], 4);
    let map = TileMap::new(rows, vec![light]);
    assert_eq!(map.layout(), &[1, 2, 0, 2, 1, 1, 0, 0]);
    assert_eq!(map.width(), 3);
    assert_eq!(map.height(), 8);
    assert_eq!(map.width, 3);
    assert_eq!(map.height, 8);
    assert_eq!(map.lights().len(), 1);
    assert_eq!(map.rows(), 2);
}

#[test]
fn map_of_whole_words_gets_no_padding() {
    let map = TileMap::new(vec![[Tile::Wall; 4], [Tile::Planks; 4]], vec![]);
    assert_eq!(map.layout(), &[1, 1, 1, 1, 2, 2, 2, 2]);
    assert_eq!(map.height(), 8);
    let empty = TileMap::new(Vec::<[Tile; 5]>::new(), vec![]);
    assert!(empty.layout().is_empty());
    assert_eq!((empty.width(), empty.height()), (5, 0));
    let narrow = TileMap::new(vec![[Tile::Wall; 0]; 3], vec![]);
    assert!(narrow.layout().is_empty());
    assert_eq!(narrow.rows(), 0);
    let single = TileMap::new(vec![[Tile::Planks; 1]], vec![]);
    assert_eq!(single.layout(), &[2, 0, 0, 0]);
}

#[test]
fn world_keeps_only_name_and_seed() {
    let mut world = World::new("World".to_string(), 7);
    assert!(world.is_bare());
    world.chunks.push([[1; 16]; 16]);
    world.lights.push(Light::new([0, 0], [255, 0, 0], 255));
    assert!(!world.is_bare());
    let record = world.record();
    assert_eq!(record.name, "World");
    assert_eq!(record.seed, 7);
    let back = world.round_trip();
    assert_eq!(back.name, "World");
    assert_eq!(back.seed, 7);
    assert!(back.is_bare());
    assert!(back.chunks.is_empty() && back.entities.is_empty() && back.lights.is_empty());
}

#[test]
fn world_record_round_trips_through_json() {
    let mut world = World::new("a \"quoted\" name".to_string(), u32::MAX);
    world.chunks.push([[2; 16]; 16]);
    let record = world.record();
    let mut fields = serde_json::Map::new();
    fields.insert("name".to_string(), serde_json::Value::from(record.name));
    fields.insert("seed".to_string(), serde_json::Value::from(record.seed));
    fields.insert("chunks".to_string(), serde_json::Value::from(vec![1, 2, 3]));
    let text = serde_json::to_string(&serde_json::Value::Object(fields)).unwrap();
    let parsed: serde_json::Value = serde_json::from_str(&text).unwrap();
    let read = WorldRecord {
        name: parsed["name"].as_str().unwrap().to_string(),
        seed: parsed["seed"].as_u64().unwrap() as u32,
    };
    let back = World::restore(read);
    assert_eq!(back.name, world.name);
    assert_eq!(back.seed, world.seed);
    assert!(back.is_bare());
}

#[test]
fn camera_starts_at_the_origin() {
    assert_eq!(Camera::default().position(), [0, 0]);
    assert_eq!(Camera::new([3, 4]).position(), [3, 4]);
}

#[test]
fn time_counts_from_the_start_and_from_the_last_call() {
    let mut time = Time::new(1_000);
    assert_eq!(time.elapsed_time(1_000), 0);
    assert_eq!(time.elapsed_time(1_500), 500);
    assert_eq!(time.delta_time(1_200), 200);
    assert_eq!(time.delta_time(1_250), 50);
    assert_eq!(time.elapsed_time(1_250), 250);
    assert_eq!(time.delta_time(1_000), 0);
    assert_eq!(time.delta_time(1_010), 10);
    assert_eq!(time.elapsed_time(999), 0);
}

#[test]
fn virtual_size_goes_to_the_next_step() {
    let padded = virtual_size(Resolution { width: 1280, height: 720 });
    assert_eq!(padded, Resolution { width: 1344, height: 736 });
    assert_eq!(
        virtual_size(Resolution { width: 0, height: 0 }),
        Resolution { width: 64, height: 16 }
    );
    assert_eq!(
        virtual_size(Resolution { width: 63, height: 15 }),
        Resolution { width: 64, height: 16 }
    );
    assert_eq!(
        virtual_size(Resolution { width: 65, height: 17 }),
        Resolution { width: 128, height: 32 }
    );
    assert_eq!(display_buffer_size(padded), 1344 * 736 * 4);
    assert_eq!(dispatch_size(padded), (84, 46, 1));
}

#[test]
fn parameters_pack_in_field_order() {
    let parameters = Parameters {
        padded_screen_width: 1344,
        map_width: 0,
        map_height: 0,
        atlas_byte_width: 4,
        atlas_size: 64,
        tile_size: 16,
    };
    let bytes = parameters.to_bytes();
    assert_eq!(bytes.len(), 24);
    assert_eq!(&bytes[0..4], &1344u32.to_le_bytes());
    assert_eq!(&bytes[12..16], &[4, 0, 0, 0]);
    assert_eq!(&bytes[16..20], &[64, 0, 0, 0]);
    assert_eq!(&bytes[20..24], &[16, 0, 0, 0]);
    let map = TileMap::new(vec![[Tile::Wall; 4]; 3], vec![]);
    let changed = parameters.with_map(&map);
    assert_eq!(changed.map_width, 4);
    assert_eq!(changed.map_height, 3);
    assert_eq!(changed.atlas_size, 64);
    assert_eq!(
        changed.with_width(Resolution { width: 128, height: 32 }).padded_screen_width,
        128
    );
    assert_eq!(map_buffer_contents(Some(&map)), vec![1; 12]);
    assert_eq!(map_buffer_contents(None), vec![0]);
}

#[test]
fn fixed_scene_records() {
    let globals = GridGlobals::new([1280, 720]);
    assert_eq!((globals.tile_size, globals.chunk_size), (16, 16));
    assert_eq!(globals.to_bytes().len(), 16);
    assert_eq!(&globals.to_bytes()[8..], &[16, 0, 0, 0, 16, 0, 0, 0]);
    let entity = EntityLocals::new();
    assert_eq!(entity.position, [0, 0]);
    assert_eq!(entity.atlas_position, [0, 0]);
    assert_eq!((entity.color, entity.detail), (u32::MAX, u32::MAX));
    let lights = LightingLocals::new();
    assert_eq!(
        lights,
        [
            LightingLocals {
                x: 0.0f32.to_bits(),
                y: 0.0f32.to_bits(),
                color: 0x000000ff,
                magnitude: 1.0f32.to_bits()
            },
            LightingLocals {
                x: 1.0f32.to_bits(),
                y: 0.0f32.to_bits(),
                color: 0x00ff0000,
                magnitude: 1.0f32.to_bits()
            },
            LightingLocals {
                x: 0.5f32.to_bits(),
                y: 1.0f32.to_bits(),
                color: 0x0000ff00,
                magnitude: 1.0f32.to_bits()
            },
        ]
    );
}

#[test]
fn fixed_chunk_layout() {
    let chunk = ChunkLocals::new();
    assert_eq!(chunk.position, [0, 0]);
    let expected: [u128; 64] = [
        0x81818181, 0x81818181, 0x81818181, 0x81818181,
        0x81810000, 0, 0, 0x00008181,
        0x81810000, 0x81808180, 0, 0x00008181,
        0x81810000, 0, 0, 0x00008181,
        0x81810000, 0, 0x81808180, 0x00008181,
        0x81810000, 0, 0, 0x00008181,
        0x81810000, 0, 0, 0x00008181,
        0x81810000, 0, 0, 0x00008181,
        0x81810000, 0, 0, 0x00008181,
        0x81810000, 0x81818181, 0, 0x00008181,
        0x81810000, 0, 0, 0x00008181,
        0x81810000, 0, 0, 0x00008181,
        0x81810000, 0, 0, 0x00008181,
        0x81810000, 0, 0, 0x00008181,
        0x81810000, 0, 0, 0x00008181,
        0x81818181, 0x81818181, 0x81818181, 0x81818181,
    ];
    assert_eq!(chunk.layout, expected);
}

#[test]
fn layouts_list_their_slots() {
    let globals = Binding {
        binding: 0,
        stages: Stages::VertexFragment,
        resource: Resource::Uniform { dynamic: false, min_size: 8 },
    };
    assert_eq!(globals_binding(), globals);
    let window = ChunkWindow::for_resolution(Resolution { width: 1280, height: 720 });
    let chunk = chunk_layout(window);
    assert_eq!(chunk.len(), 5);
    assert_eq!(chunk[0], globals);
    assert_eq!(chunk[1].resource, Resource::Uniform { dynamic: true, min_size: 256 });
    assert_eq!(chunk[2].resource, Resource::Storage { min_size: 256 * 48 });
    assert_eq!(chunk[3].resource, Resource::Storage { min_size: 3072 });
    assert_eq!(chunk[4].resource, Resource::Texture { layered: false });
    for (i, slot) in chunk.iter().enumerate() {
        assert_eq!(slot.binding, i as u32);
    }
    let entity = entity_layout();
    assert_eq!(entity.len(), 2);
    assert_eq!(entity[0].resource, Resource::Uniform { dynamic: true, min_size: 0 });
    assert_eq!(entity[0].stages, Stages::VertexFragment);
    assert_eq!(entity[1].stages, Stages::Fragment);
    let lighting = lighting_layout();
    assert_eq!(lighting.len(), 3);
    assert_eq!(lighting[0], globals);
    assert_eq!(lighting[1].resource, Resource::Uniform { dynamic: true, min_size: 0 });
    assert_eq!(lighting[2].resource, Resource::Texture { layered: false });
}

#[test]
fn buffers_are_sized_from_the_window_and_the_slots() {
    let window = ChunkWindow::for_resolution(Resolution { width: 1280, height: 720 });
    let entities = InstanceBuffer::new();
    let lights = InstanceBuffer::with_capacity(3);
    assert_eq!(
        buffer_sizes(window, &entities, &lights),
        BufferSizes {
            globals: 8,
            chunk_locals: 256,
            chunk_data: 12288,
            tile_data: 3072,
            entity_locals: 4096,
            lighting_locals: 768,
        }
    );
    assert_eq!(Tile::table_bytes().len(), 3072);
    assert_eq!(&Tile::table_bytes()[12..24], &[2, 0, 0, 0, 255, 255, 255, 255, 0, 0, 255, 255]);
    assert_eq!(&Tile::table_bytes()[36..48], &[0; 12]);
    assert_eq!(Tile::Planks.data().to_bytes(), vec![3, 0, 0, 0, 255, 255, 255, 255, 220, 220, 220, 255]);
    assert_eq!(material_extent(), (64, 64, 5));
}

#[test]
fn quad_vertices() {
    assert_eq!(VERTEX_STRIDE, 16);
    assert_eq!(
        vertex_attributes(),
        [
            VertexAttribute { shader_location: 0, offset: 0 },
            VertexAttribute { shader_location: 1, offset: 8 },
        ]
    );
    assert_eq!(square_indices(), [0, 1, 2, 2, 1, 3]);
}

use tile_compositor::chunk::Chunk;
use tile_compositor::compositor::{Compositor, Resize};
use tile_compositor::entity::Entity;
use tile_compositor::error::Error;
use tile_compositor::frame::{
    frame, lighting_pass, render, unlit_pass, Blend, ClearColor, Command, Pipeline, SurfaceStatus,
    Target,
};
use tile_compositor::light::Light;
use tile_compositor::resolution::Resolution;
use tile_compositor::tile::Tile;

fn viewport() -> Resolution {
    Resolution { width: 1280, height: 720 }
}

fn lighting_draws(commands: &[Command]) -> Vec<u32> {
    let mut offsets = Vec::new();
    for command in commands {
        if let Command::Draw { pipeline: Pipeline::Lighting, offset } = command {
            offsets.push(*offset);
        }
    }
    offsets
}

#[test]
fn lights_add_and_sprites_cover() {
    assert_eq!(Pipeline::Lighting.blend(), Blend::Additive);
    assert_eq!(Pipeline::Chunk.blend(), Blend::Alpha);
    assert_eq!(Pipeline::Entity.blend(), Blend::Alpha);
}

#[test]
fn unlit_pass_draws_tiles_then_each_entity() {
    assert_eq!(
        unlit_pass(2),
        vec![
            Command::BeginPass { target: Target::Unlit, clear: ClearColor::Ambient },
            Command::SetPipeline { pipeline: Pipeline::Chunk },
            Command::Draw { pipeline: Pipeline::Chunk, offset: 0 },
            Command::SetPipeline { pipeline: Pipeline::Entity },
            Command::SetScissor { x: 0, y: 0, width: 16, height: 16 },
            Command::Draw { pipeline: Pipeline::Entity, offset: 0 },
            Command::SetScissor { x: 0, y: 0, width: 16, height: 16 },
            Command::Draw { pipeline: Pipeline::Entity, offset: 256 },
            Command::EndPass,
        ]
    );
}

#[test]
fn lighting_pass_draws_each_light() {
    assert_eq!(
        lighting_pass(3),
        vec![
            Command::BeginPass { target: Target::Surface, clear: ClearColor::Black },
            Command::SetPipeline { pipeline: Pipeline::Lighting },
            Command::Draw { pipeline: Pipeline::Lighting, offset: 0 },
            Command::Draw { pipeline: Pipeline::Lighting, offset: 256 },
            Command::Draw { pipeline: Pipeline::Lighting, offset: 512 },
            Command::EndPass,
        ]
    );
}

#[test]
fn a_frame_is_both_passes_then_submit_and_present() {
    let commands = frame(1, 1);
    let mut expected = unlit_pass(1);
    expected.extend(lighting_pass(1));
    expected.push(Command::Submit);
    expected.push(Command::Present);
    assert_eq!(commands, expected);
    assert_eq!(commands.iter().filter(|c| **c == Command::Submit).count(), 1);
    assert_eq!(commands.last(), Some(&Command::Present));
}

#[test]
fn transient_failures_skip_the_frame() {
    assert_eq!(render(SurfaceStatus::Timeout, 3, 4), Ok(vec![]));
    assert_eq!(render(SurfaceStatus::Outdated, 3, 4), Ok(vec![]));
}

#[test]
fn fatal_failures_abort_the_frame() {
    assert_eq!(render(SurfaceStatus::Lost, 3, 4), Err(Error::SurfaceLost));
    assert_eq!(render(SurfaceStatus::OutOfMemory, 3, 4), Err(Error::OutOfMemory));
    assert!(Error::SurfaceLost.is_fatal());
    assert!(Error::OutOfMemory.is_fatal());
    assert_eq!(render(SurfaceStatus::Ready, 3, 4), Ok(frame(3, 4)));
}

#[test]
fn no_lights_leave_the_surface_black() {
    let mut compositor = Compositor::new(viewport());
    let wall: Chunk = [[Tile::Wall.code(); 16]; 16];
    assert_eq!(compositor.write_chunks(&[wall]), Ok(()));
    let entity = Entity::new([0, 0], [0, 0], [1, 1], u32::MAX, None);
    assert_eq!(compositor.write_entities(&[entity]), Ok(()));
    assert_eq!(compositor.write_lights(&[]), Ok(()));
    let commands = compositor.render(SurfaceStatus::Ready).unwrap();
    let start = commands
        .iter()
        .position(|c| matches!(c, Command::BeginPass { target: Target::Surface, .. }))
        .unwrap();
    assert_eq!(
        &commands[start..],
        &[
            Command::BeginPass { target: Target::Surface, clear: ClearColor::Black },
            Command::SetPipeline { pipeline: Pipeline::Lighting },
            Command::EndPass,
            Command::Submit,
            Command::Present,
        ]
    );
    assert!(lighting_draws(&commands).is_empty());
}

#[test]
fn two_equal_lights_are_both_drawn() {
    let light = Light::new([0.5f32.to_bits(), 0.5f32.to_bits()], [200, 100, 50], 255);
    let mut one = Compositor::new(viewport());
    assert_eq!(one.write_lights(&[light]), Ok(()));
    let mut two = Compositor::new(viewport());
    assert_eq!(two.write_lights(&[light, light]), Ok(()));
    let single = lighting_draws(&one.render(SurfaceStatus::Ready).unwrap());
    let double = lighting_draws(&two.render(SurfaceStatus::Ready).unwrap());
    assert_eq!(single, vec![0]);
    assert_eq!(double, vec![0, 256]);
    assert_eq!(double.len(), 2 * single.len());
    assert_eq!(two.lights().count(), 2);
    let data = two.lights().data();
    assert_eq!(&data[..256], &one.lights().data()[..]);
    assert_eq!(&data[256..], &one.lights().data()[..]);
    assert_eq!(Pipeline::Lighting.blend(), Blend::Additive);
}

#[test]
fn a_void_chunk_alone_draws_only_the_clear_colors() {
    let void: Chunk = [[Tile::Void.code(); 16]; 16];
    let mut compositor = Compositor::new(viewport());
    assert_eq!(compositor.write_chunks(&[void]), Ok(()));
    assert_eq!(compositor.write_entities(&[]), Ok(()));
    assert_eq!(compositor.write_lights(&[]), Ok(()));
    assert_eq!(compositor.chunks().data(), &vec![0u8; 256]);
    assert_eq!(
        compositor.render(SurfaceStatus::Ready),
        Ok(vec![
            Command::BeginPass { target: Target::Unlit, clear: ClearColor::Ambient },
            Command::SetPipeline { pipeline: Pipeline::Chunk },
            Command::Draw { pipeline: Pipeline::Chunk, offset: 0 },
            Command::SetPipeline { pipeline: Pipeline::Entity },
            Command::EndPass,
            Command::BeginPass { target: Target::Surface, clear: ClearColor::Black },
            Command::SetPipeline { pipeline: Pipeline::Lighting },
            Command::EndPass,
            Command::Submit,
            Command::Present,
        ])
    );
}

#[test]
fn resize_to_a_zero_side_touches_nothing() {
    let mut compositor = Compositor::new(viewport());
    let wall: Chunk = [[1; 16]; 16];
    assert_eq!(compositor.write_chunks(&[wall]), Ok(()));
    let globals = compositor.globals();
    let window = compositor.chunks().window();
    for empty in [
        Resolution { width: 0, height: 720 },
        Resolution { width: 1280, height: 0 },
        Resolution { width: 0, height: 0 },
    ] {
        assert_eq!(compositor.resize(empty), Resize::Ignored);
        assert_eq!(compositor.resolution(), viewport());
        assert_eq!(compositor.globals(), globals);
        assert_eq!(compositor.chunks().window(), window);
        assert_eq!(compositor.chunks().data().len(), 256);
    }
}

#[test]
fn resize_twice_is_resize_once() {
    let mut compositor = Compositor::new(viewport());
    let wall: Chunk = [[1; 16]; 16];
    assert_eq!(compositor.write_chunks(&[wall]), Ok(()));
    let light = Light::new([0, 0], [1, 1, 1], 1);
    assert_eq!(compositor.write_lights(&[light]), Ok(()));
    let larger = Resolution { width: 1920, height: 1080 };
    assert_eq!(compositor.resize(larger), Resize::Resized);
    let globals = compositor.globals();
    let window = compositor.chunks().window();
    assert_eq!(globals, vec![0x80, 0x07, 0, 0, 0x38, 0x04, 0, 0]);
    assert_eq!(window.per_row, 9);
    assert_eq!(window.per_column, 6);
    assert!(compositor.chunks().data().is_empty());
    assert_eq!(compositor.lights().count(), 1);
    assert_eq!(compositor.write_chunks(&[wall]), Ok(()));
    assert_eq!(compositor.resize(larger), Resize::Unchanged);
    assert_eq!(compositor.resolution(), larger);
    assert_eq!(compositor.globals(), globals);
    assert_eq!(compositor.chunks().window(), window);
    assert_eq!(compositor.chunks().data().len(), 256);
    assert_eq!(compositor.lights().count(), 1);
}

#[test]
fn writes_through_the_compositor_are_rejected_over_capacity() {
    let mut compositor = Compositor::new(Resolution { width: 1, height: 1 });
    let capacity = compositor.chunks().window().capacity();
    assert_eq!(capacity, 16);
    let void: Chunk = [[0; 16]; 16];
    assert_eq!(
        compositor.write_chunks(&vec![void; 17]),
        Err(Error::ChunkOverflow { chunks: 17, capacity: 16 })
    );
    let entity = Entity::new([0, 0], [0, 0], [1, 1], 0, None);
    assert_eq!(
        compositor.write_entities(&vec![entity; 17]),
        Err(Error::InstanceOverflow { instances: 17, slots: 16 })
    );
    assert_eq!(compositor.entities().count(), 0);
    assert_eq!(compositor.write_entities(&vec![entity; 16]), Ok(()));
    assert_eq!(compositor.entities().count(), 16);
}

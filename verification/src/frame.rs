use vstd::prelude::*;
use crate::error::Error;
use crate::instance::MAX_INSTANCE_COUNT;

verus! {

/// Where a pass draws to.
#[derive(Clone, Copy, Debug, PartialEq, Eq, Structural)]
pub enum Target {
    /// The offscreen colour texture of the viewport's size.
    Unlit,
    /// The image that is presented.
    Surface,
}

/// What a pass clears its target to.
#[derive(Clone, Copy, Debug, PartialEq, Eq, Structural)]
pub enum ClearColor {
    /// A dark floor, so that geometry shows faintly where no light falls.
    Ambient,
    Black,
}

#[derive(Clone, Copy, Debug, PartialEq, Eq, Structural)]
pub enum Pipeline {
    Chunk,
    Entity,
    Lighting,
}

/// How a pipeline combines what it draws with what is there.
#[derive(Clone, Copy, Debug, PartialEq, Eq, Structural)]
pub enum Blend {
    /// Over what is there, by the alpha of what is drawn.
    Alpha,
    /// Added to what is there; the alpha of what is drawn replaces the old.
    Additive,
}

/// One step of a frame.
#[derive(Clone, Copy, Debug, PartialEq, Eq, Structural)]
pub enum Command {
    BeginPass { target: Target, clear: ClearColor },
    SetPipeline { pipeline: Pipeline },
    SetScissor { x: u32, y: u32, width: u32, height: u32 },
    /// One quad, with the instance at `offset` bytes bound.
    Draw { pipeline: Pipeline, offset: u32 },
    EndPass,
    Submit,
    Present,
}

/// What came of asking the surface for its next image.
#[derive(Clone, Copy, Debug, PartialEq, Eq, Structural)]
pub enum SurfaceStatus {
    Ready,
    Timeout,
    Outdated,
    Lost,
    OutOfMemory,
}

impl Pipeline {
    pub open spec fn spec_blend(self) -> Blend {
        match self {
            Pipeline::Chunk => Blend::Alpha,
            Pipeline::Entity => Blend::Alpha,
            Pipeline::Lighting => Blend::Additive,
        }
    }

    /// Lights add up; tiles and sprites cover what is under them.
    pub fn blend(self) -> (blend: Blend)
        ensures
            blend == self.spec_blend(),
    {
        match self {
            Pipeline::Chunk => Blend::Alpha,
            Pipeline::Entity => Blend::Alpha,
            Pipeline::Lighting => Blend::Additive,
        }
    }
}

/// The scissor and the draw of each of `count` entities, in their order.
pub open spec fn spec_entity_draws(count: nat) -> Seq<Command> {
    Seq::new(
        2 * count,
        |i: int|
            if i % 2 == 0 {
                Command::SetScissor { x: 0, y: 0, width: 16, height: 16 }
            } else {
                Command::Draw { pipeline: Pipeline::Entity, offset: ((i / 2) * 256) as u32 }
            },
    )
}

/// The draw of each of `count` lights, in their order.
pub open spec fn spec_light_draws(count: nat) -> Seq<Command> {
    Seq::new(
        count,
        |i: int| Command::Draw { pipeline: Pipeline::Lighting, offset: (i * 256) as u32 },
    )
}

/// The first pass: the tile window as one quad and then every entity, into
/// the offscreen texture, over the ambient floor.
pub open spec fn spec_unlit_pass(entities: nat) -> Seq<Command> {
    seq![
        Command::BeginPass { target: Target::Unlit, clear: ClearColor::Ambient },
        Command::SetPipeline { pipeline: Pipeline::Chunk },
        Command::Draw { pipeline: Pipeline::Chunk, offset: 0 },
        Command::SetPipeline { pipeline: Pipeline::Entity },
    ] + spec_entity_draws(entities) + seq![Command::EndPass]
}

/// The second pass: every light as one quad, into the presented image,
/// over black.
pub open spec fn spec_lighting_pass(lights: nat) -> Seq<Command> {
    seq![
        Command::BeginPass { target: Target::Surface, clear: ClearColor::Black },
        Command::SetPipeline { pipeline: Pipeline::Lighting },
    ] + spec_light_draws(lights) + seq![Command::EndPass]
}

/// A whole frame: both passes, then one submission and the presentation.
pub open spec fn spec_frame(entities: nat, lights: nat) -> Seq<Command> {
    spec_unlit_pass(entities) + spec_lighting_pass(lights) + seq![
        Command::Submit,
        Command::Present,
    ]
}

/// What a frame does for each outcome of acquiring the surface: it is drawn
/// when the surface is ready, skipped without error when the surface timed
/// out or is outdated, and given up when the surface is lost or memory is
/// out.
pub open spec fn spec_render(status: SurfaceStatus, entities: nat, lights: nat) -> Result<
    Seq<Command>,
    Error,
> {
    match status {
        SurfaceStatus::Ready => Ok(spec_frame(entities, lights)),
        SurfaceStatus::Timeout => Ok(Seq::empty()),
        SurfaceStatus::Outdated => Ok(Seq::empty()),
        SurfaceStatus::Lost => Err(Error::SurfaceLost),
        SurfaceStatus::OutOfMemory => Err(Error::OutOfMemory),
    }
}

/// With no light, the lighting pass clears the presented image to black and
/// draws nothing on it, whatever the first pass drew.
pub proof fn lemma_no_lights_leaves_black(entities: nat)
    ensures
        spec_lighting_pass(0) == seq![
            Command::BeginPass { target: Target::Surface, clear: ClearColor::Black },
            Command::SetPipeline { pipeline: Pipeline::Lighting },
            Command::EndPass,
        ],
        spec_frame(entities, 0) == spec_unlit_pass(entities) + spec_lighting_pass(0) + seq![
            Command::Submit,
            Command::Present,
        ],
{
    assert(spec_lighting_pass(0) =~= seq![
        Command::BeginPass { target: Target::Surface, clear: ClearColor::Black },
        Command::SetPipeline { pipeline: Pipeline::Lighting },
        Command::EndPass,
    ]);
}

/// Every light is drawn once, each from a slot of its own and with the
/// additive blend: the light at `index` is the draw at place `2 + index` of
/// the lighting pass, bound at `index` strides.
pub proof fn lemma_every_light_is_drawn(lights: nat, index: nat)
    requires
        index < lights,
        lights <= MAX_INSTANCE_COUNT,
    ensures
        spec_lighting_pass(lights).len() == lights + 3,
        spec_lighting_pass(lights)[2 + index as int] == (Command::Draw {
            pipeline: Pipeline::Lighting,
            offset: (index * 256) as u32,
        }),
        (index * 256) as u32 == index * 256,
        Pipeline::Lighting.spec_blend() == Blend::Additive,
{
}

/// With no entity, the first pass draws the tile window and nothing else.
pub proof fn lemma_no_entities_draws_tiles_only()
    ensures
        spec_unlit_pass(0) == seq![
            Command::BeginPass { target: Target::Unlit, clear: ClearColor::Ambient },
            Command::SetPipeline { pipeline: Pipeline::Chunk },
            Command::Draw { pipeline: Pipeline::Chunk, offset: 0 },
            Command::SetPipeline { pipeline: Pipeline::Entity },
            Command::EndPass,
        ],
{
    assert(spec_unlit_pass(0) =~= seq![
        Command::BeginPass { target: Target::Unlit, clear: ClearColor::Ambient },
        Command::SetPipeline { pipeline: Pipeline::Chunk },
        Command::Draw { pipeline: Pipeline::Chunk, offset: 0 },
        Command::SetPipeline { pipeline: Pipeline::Entity },
        Command::EndPass,
    ]);
}

/// The commands of the first pass.
pub fn unlit_pass(entities: u32) -> (commands: Vec<Command>)
    requires
        entities <= MAX_INSTANCE_COUNT,
    ensures
        commands@ == spec_unlit_pass(entities as nat),
{
    let mut commands: Vec<Command> = Vec::new();
    commands.push(Command::BeginPass { target: Target::Unlit, clear: ClearColor::Ambient });
    commands.push(Command::SetPipeline { pipeline: Pipeline::Chunk });
    commands.push(Command::Draw { pipeline: Pipeline::Chunk, offset: 0 });
    commands.push(Command::SetPipeline { pipeline: Pipeline::Entity });
    let ghost head = commands@;
    let mut i: u32 = 0;
    while i < entities
        invariant
            i <= entities,
            entities <= MAX_INSTANCE_COUNT,
            commands@ == head + spec_entity_draws(i as nat),
        decreases entities - i,
    {
        commands.push(Command::SetScissor { x: 0, y: 0, width: 16, height: 16 });
        commands.push(Command::Draw { pipeline: Pipeline::Entity, offset: i * 256 });
        i = i + 1;
        assert(commands@ =~= head + spec_entity_draws(i as nat));
    }
    commands.push(Command::EndPass);
    assert(commands@ =~= spec_unlit_pass(entities as nat));
    commands
}

/// The commands of the second pass.
pub fn lighting_pass(lights: u32) -> (commands: Vec<Command>)
    requires
        lights <= MAX_INSTANCE_COUNT,
    ensures
        commands@ == spec_lighting_pass(lights as nat),
{
    let mut commands: Vec<Command> = Vec::new();
    commands.push(Command::BeginPass { target: Target::Surface, clear: ClearColor::Black });
    commands.push(Command::SetPipeline { pipeline: Pipeline::Lighting });
    let ghost head = commands@;
    let mut i: u32 = 0;
    while i < lights
        invariant
            i <= lights,
            lights <= MAX_INSTANCE_COUNT,
            commands@ == head + spec_light_draws(i as nat),
        decreases lights - i,
    {
        commands.push(Command::Draw { pipeline: Pipeline::Lighting, offset: i * 256 });
        i = i + 1;
        assert(commands@ =~= head + spec_light_draws(i as nat));
    }
    commands.push(Command::EndPass);
    assert(commands@ =~= spec_lighting_pass(lights as nat));
    commands
}

/// The commands of a whole frame.
pub fn frame(entities: u32, lights: u32) -> (commands: Vec<Command>)
    requires
        entities <= MAX_INSTANCE_COUNT,
        lights <= MAX_INSTANCE_COUNT,
    ensures
        commands@ == spec_frame(entities as nat, lights as nat),
{
    let mut commands: Vec<Command> = unlit_pass(entities);
    let mut second: Vec<Command> = lighting_pass(lights);
    commands.append(&mut second);
    commands.push(Command::Submit);
    commands.push(Command::Present);
    assert(commands@ =~= spec_frame(entities as nat, lights as nat));
    commands
}

/// Decides a frame from the outcome of acquiring the surface.
pub fn render(status: SurfaceStatus, entities: u32, lights: u32) -> (res: Result<
    Vec<Command>,
    Error,
>)
    requires
        entities <= MAX_INSTANCE_COUNT,
        lights <= MAX_INSTANCE_COUNT,
    ensures
        match (res, spec_render(status, entities as nat, lights as nat)) {
            (Ok(commands), Ok(expected)) => commands@ == expected,
            (Err(e), Err(expected)) => e == expected,
            _ => false,
        },
{
    match status {
        SurfaceStatus::Ready => Ok(frame(entities, lights)),
        SurfaceStatus::Timeout => Ok(Vec::new()),
        SurfaceStatus::Outdated => Ok(Vec::new()),
        SurfaceStatus::Lost => Err(Error::SurfaceLost),
        SurfaceStatus::OutOfMemory => Err(Error::OutOfMemory),
    }
}

} // verus!

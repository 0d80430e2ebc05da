use vstd::prelude::*;
use crate::chunk::Chunk;
use crate::entity::Entity;
use crate::light::Light;

verus! {

/// The aggregate that a renderer is fed from. Only the name and the seed
/// are kept when a world is stored; the chunks, entities and lights are
/// made by the game while it runs.
#[derive(Debug)]
pub struct World {
    pub name: String,
    pub seed: u32,
    pub chunks: Vec<Chunk>,
    pub entities: Vec<Entity>,
    pub lights: Vec<Light>,
}

/// What is kept of a world when it is stored.
#[derive(Debug)]
pub struct WorldRecord {
    pub name: String,
    pub seed: u32,
}

impl World {
    /// Whether nothing that is left out of a stored world is present.
    pub open spec fn spec_is_bare(&self) -> bool {
        &&& self.chunks@.len() == 0
        &&& self.entities@.len() == 0
        &&& self.lights@.len() == 0
    }

    /// A world with a name and a seed and nothing in it.
    pub fn new(name: String, seed: u32) -> (world: World)
        ensures
            world.name@ == name@,
            world.seed == seed,
            world.spec_is_bare(),
    {
        World { name, seed, chunks: Vec::new(), entities: Vec::new(), lights: Vec::new() }
    }

    /// What is stored of the world: its name and its seed, whatever else it
    /// holds.
    pub fn record(&self) -> (record: WorldRecord)
        ensures
            record.name@ == self.name@,
            record.seed == self.seed,
    {
        WorldRecord { name: self.name.clone(), seed: self.seed }
    }

    /// The world that a stored record stands for: its name and seed, and
    /// nothing else.
    pub fn restore(record: WorldRecord) -> (world: World)
        ensures
            world.name@ == record.name@,
            world.seed == record.seed,
            world.spec_is_bare(),
    {
        World::new(record.name, record.seed)
    }

    /// Whether the world holds no chunk, no entity and no light.
    pub fn is_bare(&self) -> (bare: bool)
        ensures
            bare == self.spec_is_bare(),
    {
        self.chunks.len() == 0 && self.entities.len() == 0 && self.lights.len() == 0
    }

    /// Stores the world and reads it back: the name and the seed come back
    /// as they were, and the chunks, entities and lights come back empty,
    /// whatever the world held.
    pub fn round_trip(&self) -> (world: World)
        ensures
            world.name@ == self.name@,
            world.seed == self.seed,
            world.spec_is_bare(),
    {
        World::restore(self.record())
    }
}

} // verus!

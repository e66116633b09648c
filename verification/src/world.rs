//! The world store: entities and their components.
//!
//! An entity is a fixed-schema record with a position, an optional particle
//! component (velocity plus kind) and an optional force source.  Entities
//! are identified by their index in the store; that index is the stable
//! identity the self-exclusion rule compares.

use vstd::prelude::*;

verus! {

/// A 2D vector with saturating 64-bit integer components.
#[derive(Clone, Copy, Debug, PartialEq, Eq, Structural)]
pub struct Vec2 {
    pub x: i64,
    pub y: i64,
}

impl Vec2 {
    /// The zero vector.
    pub fn zero() -> (r: Vec2)
        ensures
            r == (Vec2 { x: 0, y: 0 }),
    {
        Vec2 { x: 0, y: 0 }
    }
}

/// The kind tag of a particle.
#[derive(Clone, Copy, Debug, PartialEq, Eq, Structural)]
pub enum ParticleType {
    Neutral,
    Negative,
}

/// A force law, anchored at the position of the entity that carries it.
///
/// Both laws act component-wise through the sign of the offset from the
/// anchor, so a query exactly at the anchor feels no force.
#[derive(Clone, Copy, Debug, PartialEq, Eq, Structural)]
pub enum ForceLaw {
    /// Magnitude grows with the squared distance: `-(d2 / k)` per component
    /// toward the anchor, `k >= 1`.
    GlobalRepulsive { k: i64 },
    /// Magnitude decays with the squared distance: `m / (1 + d2)` per
    /// component away from the anchor, `m >= 0`.  The denominator is at
    /// least one, so the law is finite everywhere.
    ParticleSourcedRepulsive { m: i64 },
}

/// The particle component: a mutable velocity and a kind tag.
#[derive(Clone, Copy, Debug, PartialEq, Eq, Structural)]
pub struct Particle {
    pub velocity: Vec2,
    pub kind: ParticleType,
}

/// One entity of the world store.
#[derive(Clone, Copy, Debug, PartialEq, Eq)]
pub struct Entity {
    pub position: Vec2,
    pub particle: Option<Particle>,
    pub source: Option<ForceLaw>,
}

/// Whether the entity carries a particle component.
pub open spec fn is_particle(e: Entity) -> bool {
    e.particle is Some
}

/// The velocity of the entity's particle component, zero if it has none.
pub open spec fn vel_of(e: Entity) -> Vec2 {
    match e.particle {
        Some(p) => p.velocity,
        None => Vec2 { x: 0, y: 0 },
    }
}

/// The kind of the entity's particle component, `Neutral` if it has none.
pub open spec fn kind_of(e: Entity) -> ParticleType {
    match e.particle {
        Some(p) => p.kind,
        None => ParticleType::Neutral,
    }
}

/// The constants of every force law are in range: `k` positive so the
/// quotient is defined, `m` non-negative so the magnitude is.
pub open spec fn law_wf(law: ForceLaw) -> bool {
    match law {
        ForceLaw::GlobalRepulsive { k } => k >= 1,
        ForceLaw::ParticleSourcedRepulsive { m } => m >= 0,
    }
}

/// The store that owns all entities.
pub struct World {
    entities: Vec<Entity>,
}

impl View for World {
    type V = Seq<Entity>;

    closed spec fn view(&self) -> Seq<Entity> {
        self.entities@
    }
}

impl World {
    /// An empty store.
    pub fn new() -> (w: World)
        ensures
            w@ =~= Seq::<Entity>::empty(),
    {
        World { entities: Vec::new() }
    }

    /// The number of entities ever created in this store.
    pub fn len(&self) -> (n: usize)
        ensures
            n == self@.len(),
    {
        self.entities.len()
    }

    /// Creates a bare entity at `position` and returns its identity.
    pub fn create(&mut self, position: Vec2) -> (id: usize)
        ensures
            id == old(self)@.len(),
            final(self)@ =~= old(self)@.push(
                Entity { position, particle: None, source: None },
            ),
    {
        let id = self.entities.len();
        self.entities.push(Entity { position, particle: None, source: None });
        id
    }

    /// Attaches a particle component to an entity that has none yet.
    /// Attaching twice is a caller error and is rejected by contract.
    pub fn attach_particle(&mut self, id: usize, particle: Particle)
        requires
            id < old(self)@.len(),
            old(self)@[id as int].particle is None,
        ensures
            final(self)@ =~= old(self)@.update(
                id as int,
                Entity { particle: Some(particle), ..old(self)@[id as int] },
            ),
    {
        let e = self.entities[id];
        self.entities.set(id, Entity { particle: Some(particle), ..e });
    }

    /// Attaches a force source to an entity that has none yet.
    /// Attaching twice is a caller error and is rejected by contract.
    pub fn attach_source(&mut self, id: usize, law: ForceLaw)
        requires
            id < old(self)@.len(),
            old(self)@[id as int].source is None,
        ensures
            final(self)@ =~= old(self)@.update(
                id as int,
                Entity { source: Some(law), ..old(self)@[id as int] },
            ),
    {
        let e = self.entities[id];
        self.entities.set(id, Entity { source: Some(law), ..e });
    }

    /// Reads one entity by identity.
    pub fn get(&self, id: usize) -> (e: Entity)
        requires
            id < self@.len(),
        ensures
            e == self@[id as int],
    {
        self.entities[id]
    }

    /// Overwrites one entity by identity; the engine's update phases use
    /// this to write back resolved velocities and integrated positions.
    pub(crate) fn set(&mut self, id: usize, e: Entity)
        requires
            id < old(self)@.len(),
        ensures
            final(self)@ =~= old(self)@.update(id as int, e),
    {
        self.entities.set(id, e);
    }
}

} // verus!

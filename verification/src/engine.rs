//! The physics engine: force accumulation, position integration, the
//! substep scheduler and the spawner.
//!
//! The whole per-tick pipeline is specified as a pure function over the
//! entity sequence (`spec_tick`) and the executable engine is proved to
//! compute exactly that function, which makes the simulation deterministic
//! by construction.

use vstd::prelude::*;

use crate::scalar::{clamp64, sat_add, sat_mul, sat_sub, sgn};
use crate::scalar::{div_pos_i64, sat_add_i64, sat_mul_i64, sat_sub_i64, sgn_i64};
use crate::world::{is_particle, kind_of, law_wf, vel_of};
use crate::world::{Entity, ForceLaw, Particle, ParticleType, Vec2, World};

verus! {

/// Divisor of the squared distance in the global field law.
pub const GLOBAL_FIELD_K: i64 = 1000;

/// Magnitude numerator of the particle-sourced field law.
pub const PARTICLE_FIELD_M: i64 = 1_000_000;

/// The squared distance between `p` and `c`, saturating.
pub open spec fn offset_sq(p: Vec2, c: Vec2) -> i64 {
    let dx = sat_sub(p.x, c.x);
    let dy = sat_sub(p.y, c.y);
    sat_add(sat_mul(dx, dx), sat_mul(dy, dy))
}

/// The force a law anchored at `c` exerts on a query position `p`.
///
/// Both laws act per component through the sign of `p - c`, so at `p == c`
/// the force is the zero vector; the particle-sourced denominator
/// `1 + d2` is at least one, so no division by zero can occur.
pub open spec fn spec_force(law: ForceLaw, p: Vec2, c: Vec2) -> Vec2 {
    let dx = sat_sub(p.x, c.x);
    let dy = sat_sub(p.y, c.y);
    let d2 = offset_sq(p, c);
    match law {
        ForceLaw::GlobalRepulsive { k } => {
            let mag = clamp64(d2 as int / k as int);
            Vec2 {
                x: sat_sub(0, sat_mul(mag, sgn(dx))),
                y: sat_sub(0, sat_mul(mag, sgn(dy))),
            }
        },
        ForceLaw::ParticleSourcedRepulsive { m } => {
            let mag = clamp64(m as int / sat_add(1, d2) as int);
            Vec2 { x: sat_mul(mag, sgn(dx)), y: sat_mul(mag, sgn(dy)) }
        },
    }
}

/// The square of an `i64` is non-negative, also after clamping.
proof fn lemma_sat_square_nonneg(a: i64)
    ensures
        sat_mul(a, a) >= 0,
{
    assert(a * a >= 0) by (nonlinear_arith);
}

/// The saturating squared distance is non-negative.
proof fn lemma_offset_sq_nonneg(p: Vec2, c: Vec2)
    ensures
        offset_sq(p, c) >= 0,
{
    lemma_sat_square_nonneg(sat_sub(p.x, c.x));
    lemma_sat_square_nonneg(sat_sub(p.y, c.y));
}

/// Evaluates a force law; the executable twin of `spec_force`.
pub fn eval_force(law: ForceLaw, p: Vec2, c: Vec2) -> (f: Vec2)
    requires
        law_wf(law),
    ensures
        f == spec_force(law, p, c),
{
    let dx = sat_sub_i64(p.x, c.x);
    let dy = sat_sub_i64(p.y, c.y);
    let d2 = sat_add_i64(sat_mul_i64(dx, dx), sat_mul_i64(dy, dy));
    proof {
        lemma_offset_sq_nonneg(p, c);
    }
    match law {
        ForceLaw::GlobalRepulsive { k } => {
            let mag = div_pos_i64(d2, k);
            Vec2 {
                x: sat_sub_i64(0, sat_mul_i64(mag, sgn_i64(dx))),
                y: sat_sub_i64(0, sat_mul_i64(mag, sgn_i64(dy))),
            }
        },
        ForceLaw::ParticleSourcedRepulsive { m } => {
            let mag = div_pos_i64(m, sat_add_i64(1, d2));
            Vec2 { x: sat_mul_i64(mag, sgn_i64(dx)), y: sat_mul_i64(mag, sgn_i64(dy)) }
        },
    }
}

/// One velocity kick: `v + force * dt`, component-wise and saturating.
pub open spec fn vel_kick(v: Vec2, law: ForceLaw, p: Vec2, c: Vec2, dt: i64) -> Vec2 {
    let f = spec_force(law, p, c);
    Vec2 { x: sat_add(v.x, sat_mul(f.x, dt)), y: sat_add(v.y, sat_mul(f.y, dt)) }
}

/// The velocity of entity `i` after the sources among entities
/// `0 .. n` have acted on it, in index order, skipping `i` itself.
pub open spec fn accum_vel(es: Seq<Entity>, i: int, n: int, dt: i64) -> Vec2
    decreases n,
{
    if n <= 0 {
        vel_of(es[i])
    } else {
        let prev = accum_vel(es, i, n - 1, dt);
        let j = n - 1;
        match es[j].source {
            Some(law) => if j != i {
                vel_kick(prev, law, es[i].position, es[j].position, dt)
            } else {
                prev
            },
            None => prev,
        }
    }
}

/// The entity with its particle velocity replaced; unchanged if it is no
/// particle.
pub open spec fn set_vel(e: Entity, v: Vec2) -> Entity {
    match e.particle {
        Some(p) => Entity { particle: Some(Particle { velocity: v, kind: p.kind }), ..e },
        None => e,
    }
}

/// The force accumulation phase: every particle's velocity is resolved
/// against all sources; positions, sources and kinds are untouched.
pub open spec fn accum_step(es: Seq<Entity>, dt: i64) -> Seq<Entity> {
    Seq::new(es.len(), |i: int| set_vel(es[i], accum_vel(es, i, es.len() as int, dt)))
}

/// The entity advanced by its own velocity: `position + velocity * dt`.
pub open spec fn moved(e: Entity, dt: i64) -> Entity {
    if is_particle(e) {
        Entity {
            position: Vec2 {
                x: sat_add(e.position.x, sat_mul(vel_of(e).x, dt)),
                y: sat_add(e.position.y, sat_mul(vel_of(e).y, dt)),
            },
            ..e
        }
    } else {
        e
    }
}

/// The position integration phase.
pub open spec fn move_step(es: Seq<Entity>, dt: i64) -> Seq<Entity> {
    Seq::new(es.len(), |i: int| moved(es[i], dt))
}

/// One substep: force accumulation, then position integration, so each
/// position update reflects this substep's updated velocity.
pub open spec fn substep(es: Seq<Entity>, dt: i64) -> Seq<Entity> {
    move_step(accum_step(es, dt), dt)
}

/// `n` substeps in order, each using the full `dt`.
pub open spec fn substeps(es: Seq<Entity>, dt: i64, n: int) -> Seq<Entity>
    decreases n,
{
    if n <= 0 {
        es
    } else {
        substep(substeps(es, dt, n - 1), dt)
    }
}

/// An externally produced request: spawn one particle of `kind` at
/// `position`.
#[derive(Clone, Copy, Debug, PartialEq, Eq, Structural)]
pub struct SpawnRequest {
    pub position: Vec2,
    pub kind: ParticleType,
}

/// The entity a request gives rise to: velocity zero, and for a negative
/// particle its own attached repulsive source.
pub open spec fn spawned_entity(r: SpawnRequest) -> Entity {
    Entity {
        position: r.position,
        particle: Some(Particle { velocity: Vec2 { x: 0, y: 0 }, kind: r.kind }),
        source: if r.kind is Negative {
            Some(ForceLaw::ParticleSourcedRepulsive { m: PARTICLE_FIELD_M })
        } else {
            None
        },
    }
}

/// The store after all requests have been consumed, in order.
pub open spec fn spawn_all(es: Seq<Entity>, rs: Seq<SpawnRequest>) -> Seq<Entity>
    decreases rs.len(),
{
    if rs.len() == 0 {
        es
    } else {
        spawn_all(es, rs.drop_last()).push(spawned_entity(rs.last()))
    }
}

/// How many times the accumulate-then-integrate pair runs in one tick at
/// a given speed: exactly the speed multiplier, with the full frame time
/// each repetition (never `dt / speed`).
pub open spec fn substep_count(speed: int) -> int {
    speed
}

/// One whole tick: spawn every queued request, then run one substep per
/// unit of simulation speed, each with the full frame time `dt`.
pub open spec fn spec_tick(es: Seq<Entity>, speed: int, dt: i64, rs: Seq<SpawnRequest>) -> Seq<
    Entity,
> {
    substeps(spawn_all(es, rs), dt, substep_count(speed))
}

/// Every force law in the store has well-formed constants, a neutral
/// particle carries no source, and a negative particle carries its own
/// particle-sourced one.
pub open spec fn entity_wf(e: Entity) -> bool {
    &&& match e.source {
        Some(law) => law_wf(law),
        None => true,
    }
    &&& is_particle(e) && kind_of(e) is Neutral ==> e.source is None
    &&& is_particle(e) && kind_of(e) is Negative ==> e.source matches Some(
        ForceLaw::ParticleSourcedRepulsive { .. },
    )
}

/// Well-formedness of a whole store.
pub open spec fn entities_wf(es: Seq<Entity>) -> bool {
    forall|i: int| 0 <= i < es.len() ==> entity_wf(#[trigger] es[i])
}

/// The `(position, kind)` pairs of all particles, in store order.
pub open spec fn particle_list(es: Seq<Entity>) -> Seq<(Vec2, ParticleType)>
    decreases es.len(),
{
    if es.len() == 0 {
        Seq::empty()
    } else {
        let rest = particle_list(es.drop_last());
        match es.last().particle {
            Some(p) => rest.push((es.last().position, p.kind)),
            None => rest,
        }
    }
}

/// The `(identity, anchor, law)` triples of all force sources, in store
/// order.
pub open spec fn source_list(es: Seq<Entity>) -> Seq<(usize, Vec2, ForceLaw)>
    decreases es.len(),
{
    if es.len() == 0 {
        Seq::empty()
    } else {
        let rest = source_list(es.drop_last());
        match es.last().source {
            Some(law) => rest.push(((es.len() - 1) as usize, es.last().position, law)),
            None => rest,
        }
    }
}

/// The process-wide positive simulation-speed multiplier.
pub struct SimulationSpeed(pub u32);

/// The simulation engine: the world store plus the speed, the running
/// particle counter and a cumulative count of executed substeps.
pub struct Engine {
    world: World,
    speed: SimulationSpeed,
    counter: u32,
    substeps_run: u64,
}

impl Engine {
    /// The entities of the world store.
    pub closed spec fn entities(&self) -> Seq<Entity> {
        self.world@
    }

    /// The current speed multiplier.
    pub closed spec fn speed_val(&self) -> u32 {
        self.speed.0
    }

    /// The number of particles ever spawned.
    pub closed spec fn count(&self) -> u32 {
        self.counter
    }

    /// The number of substeps executed since construction.
    pub closed spec fn substeps_done(&self) -> u64 {
        self.substeps_run
    }

    /// The engine invariant: the store is well-formed.
    pub open spec fn wf(&self) -> bool {
        entities_wf(self.entities())
    }

    /// A fresh engine as the simulation starts it: one standalone global
    /// field anchored at the origin, speed one, nothing spawned yet.
    pub fn new() -> (e: Engine)
        ensures
            e.entities() == seq![
                Entity {
                    position: Vec2 { x: 0, y: 0 },
                    particle: None,
                    source: Some(ForceLaw::GlobalRepulsive { k: GLOBAL_FIELD_K }),
                },
            ],
            e.speed_val() == 1,
            e.count() == 0,
            e.substeps_done() == 0,
            e.wf(),
    {
        let mut world = World::new();
        let id = world.create(Vec2 { x: 0, y: 0 });
        world.attach_source(id, ForceLaw::GlobalRepulsive { k: GLOBAL_FIELD_K });
        let e = Engine { world, speed: SimulationSpeed(1), counter: 0, substeps_run: 0 };
        proof {
            assert(e.entities() =~= seq![
                Entity {
                    position: Vec2 { x: 0, y: 0 },
                    particle: None,
                    source: Some(ForceLaw::GlobalRepulsive { k: GLOBAL_FIELD_K }),
                },
            ]);
        }
        e
    }

    /// Consumes the queued spawn requests in order: each creates one
    /// particle at the requested position with velocity zero, a negative
    /// one additionally gets its own attached repulsive source, and the
    /// particle counter grows by exactly one per request.
    #[verifier::loop_isolation(false)]
    pub fn spawn_particles(&mut self, requests: &Vec<SpawnRequest>)
        requires
            old(self).wf(),
            old(self).count() + requests@.len() <= u32::MAX,
        ensures
            final(self).wf(),
            final(self).entities() == spawn_all(old(self).entities(), requests@),
            final(self).count() == old(self).count() + requests@.len(),
            final(self).speed_val() == old(self).speed_val(),
            final(self).substeps_done() == old(self).substeps_done(),
    {
        let ghost es0 = self.world@;
        let mut i: usize = 0;
        while i < requests.len()
            invariant
                i <= requests@.len(),
                self.world@ == spawn_all(es0, requests@.subrange(0, i as int)),
                entities_wf(self.world@),
                self.counter == old(self).count() + i,
                self.speed.0 == old(self).speed_val(),
                self.substeps_run == old(self).substeps_done(),
            decreases requests@.len() - i,
        {
            let ghost es_i = self.world@;
            let r = requests[i];
            let id = self.world.create(r.position);
            self.world.attach_particle(id, Particle { velocity: Vec2::zero(), kind: r.kind });
            match r.kind {
                ParticleType::Negative => {
                    self.world.attach_source(
                        id,
                        ForceLaw::ParticleSourcedRepulsive { m: PARTICLE_FIELD_M },
                    );
                },
                ParticleType::Neutral => {},
            }
            self.counter = self.counter + 1;
            i = i + 1;
            proof {
                assert(self.world@ =~= es_i.push(spawned_entity(r)));
                assert(requests@.subrange(0, i as int).drop_last() =~= requests@.subrange(
                    0,
                    i as int - 1,
                ));
                assert(requests@.subrange(0, i as int).last() == r);
            }
        }
        proof {
            assert(requests@.subrange(0, requests@.len() as int) =~= requests@);
        }
    }

    /// The force accumulation phase: for every particle `i` and every
    /// source-carrying entity `j != i` (identity comparison on the store
    /// index), the velocity of `i` gains `force * dt`; a particle's own
    /// attached source is excluded.  Positions, sources and kinds are
    /// untouched.
    #[verifier::loop_isolation(false)]
    pub fn update_velocity(&mut self, dt: i64)
        requires
            old(self).wf(),
        ensures
            final(self).wf(),
            final(self).entities() == accum_step(old(self).entities(), dt),
            final(self).count() == old(self).count(),
            final(self).speed_val() == old(self).speed_val(),
            final(self).substeps_done() == old(self).substeps_done(),
    {
        let ghost es0 = self.world@;
        let n = self.world.len();
        let mut i: usize = 0;
        while i < n
            invariant
                i <= n,
                self.world@.len() == es0.len(),
                forall|k: int| i <= k < es0.len() ==> self.world@[k] == es0[k],
                forall|k: int|
                    0 <= k < i ==> self.world@[k] == set_vel(
                        es0[k],
                        accum_vel(es0, k, es0.len() as int, dt),
                    ),
                self.counter == old(self).count(),
                self.speed.0 == old(self).speed_val(),
                self.substeps_run == old(self).substeps_done(),
            decreases n - i,
        {
            let e_i = self.world.get(i);
            if let Some(p) = e_i.particle {
                let mut v = p.velocity;
                let mut j: usize = 0;
                while j < n
                    invariant
                        j <= n,
                        v == accum_vel(es0, i as int, j as int, dt),
                    decreases n - j,
                {
                    if j != i {
                        let e_j = self.world.get(j);
                        proof {
                            assert(e_j.source == es0[j as int].source);
                            assert(e_j.position == es0[j as int].position);
                            assert(entity_wf(es0[j as int]));
                        }
                        if let Some(law) = e_j.source {
                            let f = eval_force(law, e_i.position, e_j.position);
                            v =
                            Vec2 {
                                x: sat_add_i64(v.x, sat_mul_i64(f.x, dt)),
                                y: sat_add_i64(v.y, sat_mul_i64(f.y, dt)),
                            };
                        }
                    }
                    proof {
                        assert(v == accum_vel(es0, i as int, j + 1, dt));
                    }
                    j = j + 1;
                }
                self.world.set(
                    i,
                    Entity {
                        position: e_i.position,
                        particle: Some(Particle { velocity: v, kind: p.kind }),
                        source: e_i.source,
                    },
                );
            }
            i = i + 1;
        }
        proof {
            assert(self.world@ =~= accum_step(es0, dt));
            assert forall|k: int| 0 <= k < es0.len() implies entity_wf(
                #[trigger] self.world@[k],
            ) by {
                assert(entity_wf(es0[k]));
            }
        }
    }

    /// The position integration phase: every particle advances by its own
    /// velocity scaled by `dt`; entities without a particle component do
    /// not move.
    #[verifier::loop_isolation(false)]
    pub fn update_positions(&mut self, dt: i64)
        requires
            old(self).wf(),
        ensures
            final(self).wf(),
            final(self).entities() == move_step(old(self).entities(), dt),
            final(self).count() == old(self).count(),
            final(self).speed_val() == old(self).speed_val(),
            final(self).substeps_done() == old(self).substeps_done(),
    {
        let ghost es0 = self.world@;
        let n = self.world.len();
        let mut i: usize = 0;
        while i < n
            invariant
                i <= n,
                self.world@.len() == es0.len(),
                forall|k: int| i <= k < es0.len() ==> self.world@[k] == es0[k],
                forall|k: int| 0 <= k < i ==> self.world@[k] == moved(es0[k], dt),
                self.counter == old(self).count(),
                self.speed.0 == old(self).speed_val(),
                self.substeps_run == old(self).substeps_done(),
            decreases n - i,
        {
            let e = self.world.get(i);
            if let Some(p) = e.particle {
                self.world.set(
                    i,
                    Entity {
                        position: Vec2 {
                            x: sat_add_i64(e.position.x, sat_mul_i64(p.velocity.x, dt)),
                            y: sat_add_i64(e.position.y, sat_mul_i64(p.velocity.y, dt)),
                        },
                        particle: e.particle,
                        source: e.source,
                    },
                );
            }
            i = i + 1;
        }
        proof {
            assert(self.world@ =~= move_step(es0, dt));
            assert forall|k: int| 0 <= k < es0.len() implies entity_wf(
                #[trigger] self.world@[k],
            ) by {
                assert(entity_wf(es0[k]));
            }
        }
    }

    /// One external tick.  The spawner runs first and consumes every
    /// request, then the scheduler reads the current speed `s` and runs
    /// the accumulate-then-integrate pair exactly `s` times, each
    /// invocation with the full frame time `dt` (raising the speed
    /// multiplies the displacement per tick; it does not refine the time
    /// resolution).  With speed zero the pipeline runs zero times and the
    /// simulation freezes.
    #[verifier::loop_isolation(false)]
    pub fn tick(&mut self, dt: i64, requests: &Vec<SpawnRequest>)
        requires
            old(self).wf(),
            old(self).count() + requests@.len() <= u32::MAX,
            old(self).substeps_done() + old(self).speed_val() <= u64::MAX,
        ensures
            final(self).wf(),
            final(self).entities() == spec_tick(
                old(self).entities(),
                old(self).speed_val() as int,
                dt,
                requests@,
            ),
            final(self).count() == old(self).count() + requests@.len(),
            final(self).speed_val() == old(self).speed_val(),
            final(self).substeps_done() == old(self).substeps_done() + substep_count(
                old(self).speed_val() as int,
            ),
    {
        self.spawn_particles(requests);
        let ghost es1 = self.entities();
        let s = self.speed.0;
        let mut done: u32 = 0;
        while done < s
            invariant
                done <= s,
                self.wf(),
                self.entities() == substeps(es1, dt, done as int),
                self.counter == old(self).count() + requests@.len(),
                self.speed.0 == old(self).speed_val(),
                self.substeps_run == old(self).substeps_done() + done,
            decreases s - done,
        {
            self.update_velocity(dt);
            self.update_positions(dt);
            self.substeps_run = self.substeps_run + 1;
            done = done + 1;
        }
    }

    /// The number of particles ever spawned, monotonic, for display.
    pub fn particle_count(&self) -> (n: u32)
        ensures
            n == self.count(),
    {
        self.counter
    }

    /// The current speed multiplier, for display.
    pub fn simulation_speed(&self) -> (s: u32)
        ensures
            s == self.speed_val(),
    {
        self.speed.0
    }

    /// The cumulative number of executed substeps.
    pub fn substeps_executed(&self) -> (n: u64)
        ensures
            n == self.substeps_done(),
    {
        self.substeps_run
    }

    /// The number of entities in the store.
    pub fn entity_count(&self) -> (n: usize)
        ensures
            n == self.entities().len(),
    {
        self.world.len()
    }

    /// Reads one entity by identity.
    pub fn entity(&self, id: usize) -> (e: Entity)
        requires
            id < self.entities().len(),
        ensures
            e == self.entities()[id as int],
    {
        self.world.get(id)
    }

    /// Sets the speed multiplier; speed is mutated only by external
    /// control, never by the physics systems.
    pub fn set_speed(&mut self, s: u32)
        ensures
            final(self).speed_val() == s,
            final(self).entities() == old(self).entities(),
            final(self).count() == old(self).count(),
            final(self).substeps_done() == old(self).substeps_done(),
    {
        self.speed.0 = s;
    }

    /// Doubles the speed multiplier (the external "+" control).
    pub fn speed_up(&mut self)
        requires
            old(self).speed_val() * 2 <= u32::MAX,
        ensures
            final(self).speed_val() == old(self).speed_val() * 2,
            final(self).entities() == old(self).entities(),
            final(self).count() == old(self).count(),
            final(self).substeps_done() == old(self).substeps_done(),
    {
        self.speed.0 = self.speed.0 * 2;
    }

    /// Halves the speed multiplier with a floor of one (the external "-"
    /// control).
    pub fn speed_down(&mut self)
        ensures
            final(self).speed_val() == if old(self).speed_val() > 1 {
                old(self).speed_val() / 2
            } else {
                old(self).speed_val()
            },
            final(self).entities() == old(self).entities(),
            final(self).count() == old(self).count(),
            final(self).substeps_done() == old(self).substeps_done(),
    {
        if self.speed.0 > 1 {
            self.speed.0 = self.speed.0 / 2;
        }
    }

    /// A read-only snapshot of every particle's position and kind, in
    /// store order, for rendering.
    #[verifier::loop_isolation(false)]
    pub fn particles(&self) -> (out: Vec<(Vec2, ParticleType)>)
        ensures
            out@ == particle_list(self.entities()),
    {
        let ghost es = self.world@;
        let n = self.world.len();
        let mut out: Vec<(Vec2, ParticleType)> = Vec::new();
        let mut i: usize = 0;
        while i < n
            invariant
                i <= n,
                out@ == particle_list(es.subrange(0, i as int)),
            decreases n - i,
        {
            let e = self.world.get(i);
            if let Some(p) = e.particle {
                out.push((e.position, p.kind));
            }
            i = i + 1;
            proof {
                assert(es.subrange(0, i as int).drop_last() =~= es.subrange(0, i as int - 1));
            }
        }
        proof {
            assert(es.subrange(0, es.len() as int) =~= es);
        }
        out
    }

    /// The force field registry: a read-only query returning every
    /// `(identity, anchor, law)` triple currently in the store.
    #[verifier::loop_isolation(false)]
    pub fn sources(&self) -> (out: Vec<(usize, Vec2, ForceLaw)>)
        ensures
            out@ == source_list(self.entities()),
    {
        let ghost es = self.world@;
        let n = self.world.len();
        let mut out: Vec<(usize, Vec2, ForceLaw)> = Vec::new();
        let mut i: usize = 0;
        while i < n
            invariant
                i <= n,
                out@ == source_list(es.subrange(0, i as int)),
            decreases n - i,
        {
            let e = self.world.get(i);
            if let Some(law) = e.source {
                out.push((i, e.position, law));
            }
            i = i + 1;
            proof {
                assert(es.subrange(0, i as int).drop_last() =~= es.subrange(0, i as int - 1));
            }
        }
        proof {
            assert(es.subrange(0, es.len() as int) =~= es);
        }
        out
    }

    /// An engine over a caller-built store; speed one, nothing counted yet.
    pub fn from_world(world: World) -> (e: Engine)
        requires
            entities_wf(world@),
        ensures
            e.entities() == world@,
            e.speed_val() == 1,
            e.count() == 0,
            e.substeps_done() == 0,
            e.wf(),
    {
        Engine { world, speed: SimulationSpeed(1), counter: 0, substeps_run: 0 }
    }
}

} // verus!

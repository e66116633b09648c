//! Proved properties of the engine that relate several of its functions:
//! freezing without force sources, self-exclusion, the speed-to-substep
//! ratio, the kind/source invariant, determinism, and the frozen tick at
//! speed zero.

use vstd::prelude::*;

use crate::engine::{
    accum_step, accum_vel, entities_wf, entity_wf, move_step, moved, set_vel, spawn_all, spec_tick,
    substep, substep_count, substeps, SpawnRequest,
};
use crate::world::{is_particle, kind_of, vel_of, Entity, Vec2};

verus! {

/// With no sources among the first `n` entities considered, accumulation
/// leaves a particle's velocity untouched.
proof fn lemma_accum_vel_no_sources(es: Seq<Entity>, i: int, n: int, dt: i64)
    requires
        0 <= i < es.len(),
        n <= es.len(),
        forall|k: int| 0 <= k < es.len() ==> (#[trigger] es[k]).source is None,
    ensures
        accum_vel(es, i, n, dt) == vel_of(es[i]),
    decreases n,
{
    if n > 0 {
        lemma_accum_vel_no_sources(es, i, n - 1, dt);
    }
}

/// One substep over a store with no force sources: every velocity is
/// unchanged, sources, kinds and particle components stay, a particle at
/// rest does not move, and a non-particle entity is untouched entirely.
proof fn lemma_substep_no_sources(es: Seq<Entity>, dt: i64)
    requires
        forall|k: int| 0 <= k < es.len() ==> (#[trigger] es[k]).source is None,
    ensures
        substep(es, dt).len() == es.len(),
        forall|k: int|
            0 <= k < es.len() ==> (#[trigger] substep(es, dt)[k]).source == es[k].source,
        forall|k: int| 0 <= k < es.len() ==> vel_of(#[trigger] substep(es, dt)[k]) == vel_of(es[k]),
        forall|k: int|
            0 <= k < es.len() ==> is_particle(#[trigger] substep(es, dt)[k]) == is_particle(es[k]),
        forall|k: int| 0 <= k < es.len() ==> kind_of(#[trigger] substep(es, dt)[k]) == kind_of(
            es[k],
        ),
        forall|k: int|
            0 <= k < es.len() && vel_of(es[k]) == (Vec2 { x: 0, y: 0 }) ==> (#[trigger] substep(
                es,
                dt,
            )[k]).position == es[k].position,
        forall|k: int|
            0 <= k < es.len() && !is_particle(es[k]) ==> #[trigger] substep(es, dt)[k] == es[k],
    decreases es.len(),
{
    assert forall|k: int| 0 <= k < es.len() implies #[trigger] accum_step(es, dt)[k] == es[k] by {
        lemma_accum_vel_no_sources(es, k, es.len() as int, dt);
    }
    assert(accum_step(es, dt) =~= es);
    assert forall|k: int|
        0 <= k < es.len() && vel_of(es[k]) == (Vec2 { x: 0, y: 0 }) implies (#[trigger] substep(
        es,
        dt,
    )[k]).position == es[k].position by {
        assert(moved(es[k], dt).position == es[k].position);
    }
}

/// A particle in a world with no force sources in scope keeps its
/// velocity through any number of substeps; if it is at rest it keeps
/// its position too, and a non-particle entity is untouched entirely.
pub proof fn lemma_no_sources_freezes(es: Seq<Entity>, dt: i64, n: int)
    requires
        forall|k: int| 0 <= k < es.len() ==> (#[trigger] es[k]).source is None,
    ensures
        substeps(es, dt, n).len() == es.len(),
        forall|k: int|
            0 <= k < es.len() ==> (#[trigger] substeps(es, dt, n)[k]).source == es[k].source,
        forall|k: int| 0 <= k < es.len() ==> vel_of(#[trigger] substeps(es, dt, n)[k]) == vel_of(
            es[k],
        ),
        forall|k: int|
            0 <= k < es.len() ==> is_particle(#[trigger] substeps(es, dt, n)[k]) == is_particle(
                es[k],
            ),
        forall|k: int| 0 <= k < es.len() ==> kind_of(#[trigger] substeps(es, dt, n)[k]) == kind_of(
            es[k],
        ),
        forall|k: int|
            0 <= k < es.len() && vel_of(es[k]) == (Vec2 { x: 0, y: 0 }) ==> (#[trigger] substeps(
                es,
                dt,
                n,
            )[k]).position == es[k].position,
        forall|k: int|
            0 <= k < es.len() && !is_particle(es[k]) ==> #[trigger] substeps(es, dt, n)[k] == es[k],
    decreases n,
{
    if n > 0 {
        lemma_no_sources_freezes(es, dt, n - 1);
        lemma_substep_no_sources(substeps(es, dt, n - 1), dt);
    }
}

/// Self-exclusion over a prefix of the sources.
proof fn lemma_self_exclusion_n(es: Seq<Entity>, i: int, n: int, dt: i64)
    requires
        0 <= i < es.len(),
        n <= es.len(),
    ensures
        accum_vel(es, i, n, dt) == accum_vel(
            es.update(i, Entity { source: None, ..es[i] }),
            i,
            n,
            dt,
        ),
    decreases n,
{
    if n > 0 {
        lemma_self_exclusion_n(es, i, n - 1, dt);
    }
}

/// Self-exclusion: a particle's own attached force source never
/// contributes to that particle's velocity, at any position — removing
/// that source changes nothing about the velocity the accumulation phase
/// resolves for it.
pub proof fn lemma_self_exclusion(es: Seq<Entity>, i: int, dt: i64)
    requires
        0 <= i < es.len(),
    ensures
        accum_vel(es, i, es.len() as int, dt) == accum_vel(
            es.update(i, Entity { source: None, ..es[i] }),
            i,
            es.len() as int,
            dt,
        ),
        is_particle(es[i]) ==> vel_of(accum_step(es, dt)[i]) == vel_of(
            accum_step(es.update(i, Entity { source: None, ..es[i] }), dt)[i],
        ),
{
    lemma_self_exclusion_n(es, i, es.len() as int, dt);
    let stripped = es.update(i, Entity { source: None, ..es[i] });
    if is_particle(es[i]) {
        assert(vel_of(set_vel(es[i], accum_vel(es, i, es.len() as int, dt))) == accum_vel(
            es,
            i,
            es.len() as int,
            dt,
        ));
        assert(vel_of(set_vel(stripped[i], accum_vel(stripped, i, stripped.len() as int, dt)))
            == accum_vel(stripped, i, stripped.len() as int, dt));
    }
}

/// Raising the speed from `s` to `2 s` exactly doubles the number of
/// accumulate-then-integrate repetitions a tick executes; the per-substep
/// frame time is not reduced.
pub proof fn lemma_speed_doubles_substep_count(speed: int)
    ensures
        substep_count(2 * speed) == 2 * substep_count(speed),
{
}

/// Substeps compose: running `a + b` substeps is running `a` and then
/// `b`.  In particular a tick at speed `2 s` (with nothing spawned)
/// leaves the store exactly as two speed-`s` ticks with the same frame
/// time would.
pub proof fn lemma_substeps_compose(es: Seq<Entity>, dt: i64, a: int, b: int)
    requires
        0 <= a,
        0 <= b,
    ensures
        substeps(es, dt, a + b) == substeps(substeps(es, dt, a), dt, b),
    decreases b,
{
    if b > 0 {
        lemma_substeps_compose(es, dt, a, b - 1);
    }
}

/// A neutral particle carries no attached force source; a negative
/// particle always carries one.
pub proof fn lemma_kind_determines_source(es: Seq<Entity>, i: int)
    requires
        entities_wf(es),
        0 <= i < es.len(),
        is_particle(es[i]),
    ensures
        kind_of(es[i]) is Neutral ==> es[i].source is None,
        kind_of(es[i]) is Negative ==> es[i].source is Some,
{
    assert(entity_wf(es[i]));
}

/// One external input to a tick: the speed in force that tick, the frame
/// time, and the ordered spawn requests.
pub struct TickInput {
    pub speed: u32,
    pub dt: i64,
    pub requests: Seq<SpawnRequest>,
}

/// The store after a whole sequence of ticks.
pub open spec fn run_ticks(es: Seq<Entity>, inputs: Seq<TickInput>) -> Seq<Entity>
    decreases inputs.len(),
{
    if inputs.len() == 0 {
        es
    } else {
        run_ticks(
            spec_tick(es, inputs[0].speed as int, inputs[0].dt, inputs[0].requests),
            inputs.drop_first(),
        )
    }
}

/// Determinism: the evolution of the store is a pure function of the
/// initial state and the ordered inputs, so two runs from equal initial
/// stores with equal speed, frame-time and spawn-request sequences end in
/// exactly equal stores.
pub proof fn lemma_deterministic(
    es1: Seq<Entity>,
    es2: Seq<Entity>,
    ins1: Seq<TickInput>,
    ins2: Seq<TickInput>,
)
    requires
        es1 == es2,
        ins1 == ins2,
    ensures
        run_ticks(es1, ins1) == run_ticks(es2, ins2),
{
}

/// At speed zero a tick with no queued requests leaves every entity
/// untouched, whatever the elapsed frame time.
pub proof fn lemma_zero_speed_freezes(es: Seq<Entity>, dt: i64)
    ensures
        spec_tick(es, 0, dt, Seq::empty()) == es,
{
    assert(spawn_all(es, Seq::empty()) == es);
    assert(substeps(es, dt, 0) == es);
}

} // verus!


use particle_sim::engine::{Engine, SpawnRequest, GLOBAL_FIELD_K, PARTICLE_FIELD_M};
use particle_sim::scalar::{sat_add_i64, sat_mul_i64, sat_sub_i64, sgn_i64};
use particle_sim::world::{Entity, ForceLaw, Particle, ParticleType, Vec2, World};

fn v(x: i64, y: i64) -> Vec2 {
    Vec2 { x, y }
}

fn neutral_at(x: i64, y: i64) -> SpawnRequest {
    SpawnRequest { position: v(x, y), kind: ParticleType::Neutral }
}

fn negative_at(x: i64, y: i64) -> SpawnRequest {
    SpawnRequest { position: v(x, y), kind: ParticleType::Negative }
}

fn snapshot(e: &Engine) -> Vec<Entity> {
    let mut out = Vec::new();
    for i in 0..e.entity_count() {
        out.push(e.entity(i));
    }
    out
}

#[test]
fn global_field_scenario() {
    // One neutral particle spawned at (100, 0), speed 1, dt 1, global field
    // only (k = 1000): one substep gives velocity (-10, 0), position (90, 0).
    let mut e = Engine::new();
    e.tick(1, &vec![neutral_at(100, 0)]);
    let p = e.entity(1);
    assert_eq!(p.particle.unwrap().velocity, v(-10, 0));
    assert_eq!(p.position, v(90, 0));
}

#[test]
fn global_field_formula_exact() {
    // d2 = 100^2 + 50^2 = 12500, magnitude 12500 / 1000 = 12, pointing
    // toward the anchor in each component.
    let mut e = Engine::new();
    e.tick(1, &vec![neutral_at(100, -50)]);
    let p = e.entity(1);
    assert_eq!(p.particle.unwrap().velocity, v(-12, 12));
    assert_eq!(p.position, v(88, -38));
}

#[test]
fn zero_speed_freezes_everything() {
    let mut e = Engine::new();
    e.tick(1, &vec![neutral_at(100, 0), negative_at(-40, 25)]);
    let before = snapshot(&e);
    e.set_speed(0);
    e.tick(1000, &vec![]);
    assert_eq!(snapshot(&e), before);
    assert_eq!(e.substeps_executed(), 1);
}

#[test]
fn no_sources_keeps_resting_particle_fixed() {
    // A world without any force source: a particle at rest never moves.
    let mut w = World::new();
    let id = w.create(v(7, -3));
    w.attach_particle(id, Particle { velocity: v(0, 0), kind: ParticleType::Neutral });
    let mut e = Engine::from_world(w);
    for _ in 0..5 {
        e.tick(3, &vec![]);
    }
    let p = e.entity(0);
    assert_eq!(p.position, v(7, -3));
    assert_eq!(p.particle.unwrap().velocity, v(0, 0));
}

#[test]
fn no_sources_keeps_velocity_unchanged() {
    // Without sources a moving particle keeps its velocity; only its
    // position advances, by velocity * dt each substep.
    let mut w = World::new();
    let id = w.create(v(0, 0));
    w.attach_particle(id, Particle { velocity: v(3, -4), kind: ParticleType::Neutral });
    let mut e = Engine::from_world(w);
    e.tick(2, &vec![]);
    e.tick(2, &vec![]);
    let p = e.entity(0);
    assert_eq!(p.particle.unwrap().velocity, v(3, -4));
    assert_eq!(p.position, v(12, -16));
}

#[test]
fn own_source_never_acts_on_its_particle() {
    // A lone negative particle carries the only source in scope; by
    // self-exclusion it feels nothing and stays exactly where it spawned.
    let mut e = Engine::from_world(World::new());
    e.tick(1, &vec![negative_at(5, 7)]);
    e.tick(1, &vec![]);
    let p = e.entity(0);
    assert_eq!(p.particle.unwrap().velocity, v(0, 0));
    assert_eq!(p.position, v(5, 7));
}

#[test]
fn own_source_does_not_add_to_global_force() {
    // Under the global field alone, a negative particle moves exactly as
    // a neutral one would: its own attached source contributes nothing.
    let mut a = Engine::new();
    let mut b = Engine::new();
    a.tick(1, &vec![neutral_at(100, 0)]);
    b.tick(1, &vec![negative_at(100, 0)]);
    let pa = a.entity(1);
    let pb = b.entity(1);
    assert_eq!(pa.position, pb.position);
    assert_eq!(
        pa.particle.unwrap().velocity,
        pb.particle.unwrap().velocity
    );
    assert_eq!(pb.position, v(90, 0));
}

#[test]
fn two_substeps_compound_exactly() {
    // Speed 2, dt 1: first substep gives velocity -10 and position 90;
    // the second sees d2 = 8100, magnitude 8, so velocity -18, position 72.
    let mut e = Engine::new();
    e.set_speed(2);
    e.tick(1, &vec![neutral_at(100, 0)]);
    let p = e.entity(1);
    assert_eq!(p.particle.unwrap().velocity, v(-18, 0));
    assert_eq!(p.position, v(72, 0));
}

#[test]
fn spawning_n_requests_adds_n_to_count() {
    let mut e = Engine::new();
    assert_eq!(e.particle_count(), 0);
    e.tick(1, &vec![neutral_at(1, 1), negative_at(2, 2), neutral_at(3, 3)]);
    assert_eq!(e.particle_count(), 3);
    e.tick(1, &vec![negative_at(4, 4), negative_at(5, 5)]);
    assert_eq!(e.particle_count(), 5);
}

#[test]
fn kind_determines_attached_source() {
    let mut e = Engine::new();
    e.tick(0, &vec![neutral_at(1, 1), negative_at(2, 2)]);
    let neutral = e.entity(1);
    let negative = e.entity(2);
    assert_eq!(neutral.particle.unwrap().kind, ParticleType::Neutral);
    assert!(neutral.source.is_none());
    assert_eq!(negative.particle.unwrap().kind, ParticleType::Negative);
    assert_eq!(
        negative.source,
        Some(ForceLaw::ParticleSourcedRepulsive { m: PARTICLE_FIELD_M })
    );
}

#[test]
fn identical_runs_are_identical() {
    let script = |e: &mut Engine| {
        e.tick(1, &vec![neutral_at(100, 0), negative_at(-30, 40)]);
        e.speed_up();
        e.tick(2, &vec![negative_at(17, -17)]);
        e.speed_down();
        e.tick(3, &vec![]);
    };
    let mut a = Engine::new();
    let mut b = Engine::new();
    script(&mut a);
    script(&mut b);
    assert_eq!(snapshot(&a), snapshot(&b));
    assert_eq!(a.particle_count(), b.particle_count());
    assert_eq!(a.substeps_executed(), b.substeps_executed());
}

#[test]
fn doubling_speed_doubles_substeps_run() {
    let mut a = Engine::new();
    let mut b = Engine::new();
    a.set_speed(2);
    b.set_speed(4);
    let requests = vec![neutral_at(50, 50)];
    a.tick(1, &requests);
    b.tick(1, &requests);
    assert_eq!(a.substeps_executed(), 2);
    assert_eq!(b.substeps_executed(), 2 * 2);
}

#[test]
fn one_tick_at_double_speed_equals_two_ticks() {
    // With no new spawns, a tick at speed 2 runs the same pipeline twice,
    // so it ends exactly like two speed-1 ticks with the same dt.
    let mut a = Engine::new();
    let mut b = Engine::new();
    a.tick(1, &vec![neutral_at(200, -100), negative_at(10, 10)]);
    b.tick(1, &vec![neutral_at(200, -100), negative_at(10, 10)]);
    a.set_speed(2);
    a.tick(5, &vec![]);
    b.tick(5, &vec![]);
    b.tick(5, &vec![]);
    assert_eq!(snapshot(&a), snapshot(&b));
}

#[test]
fn speed_controls_double_and_halve_with_floor_one() {
    let mut e = Engine::new();
    assert_eq!(e.simulation_speed(), 1);
    e.speed_up();
    assert_eq!(e.simulation_speed(), 2);
    e.speed_up();
    assert_eq!(e.simulation_speed(), 4);
    e.speed_down();
    assert_eq!(e.simulation_speed(), 2);
    e.speed_down();
    assert_eq!(e.simulation_speed(), 1);
    e.speed_down();
    assert_eq!(e.simulation_speed(), 1);
}

#[test]
fn particle_at_global_anchor_feels_no_force() {
    // At the anchor the offset is zero, its sign is zero, and the global
    // law yields exactly the zero vector.
    let mut e = Engine::new();
    e.tick(1, &vec![neutral_at(0, 0)]);
    let p = e.entity(1);
    assert_eq!(p.particle.unwrap().velocity, v(0, 0));
    assert_eq!(p.position, v(0, 0));
}

#[test]
fn coincident_negative_particles_feel_no_force() {
    // Two negative particles on the same spot: d = 0, so the
    // particle-sourced law gives the zero vector (not an infinity), and
    // nothing panics.
    let mut e = Engine::from_world(World::new());
    e.tick(1, &vec![negative_at(4, 4), negative_at(4, 4)]);
    assert_eq!(e.entity(0).position, v(4, 4));
    assert_eq!(e.entity(1).position, v(4, 4));
    assert_eq!(e.entity(0).particle.unwrap().velocity, v(0, 0));
}

#[test]
fn negative_particles_repel_exactly() {
    // Two negative particles 10 apart: d2 = 100, magnitude
    // 1_000_000 / (1 + 100) = 9900, pushing them apart on the x axis.
    let mut e = Engine::from_world(World::new());
    e.tick(1, &vec![negative_at(0, 0), negative_at(10, 0)]);
    let left = e.entity(0);
    let right = e.entity(1);
    assert_eq!(left.particle.unwrap().velocity, v(-9900, 0));
    assert_eq!(left.position, v(-9900, 0));
    assert_eq!(right.particle.unwrap().velocity, v(9900, 0));
    assert_eq!(right.position, v(9910, 0));
}

#[test]
fn far_particle_force_saturates() {
    // At the far edge of the coordinate range the squared distance clamps
    // to i64::MAX and the global magnitude becomes i64::MAX / 1000.
    let mut w = World::new();
    let anchor = w.create(v(0, 0));
    w.attach_source(anchor, ForceLaw::GlobalRepulsive { k: GLOBAL_FIELD_K });
    let id = w.create(v(i64::MAX, 0));
    w.attach_particle(id, Particle { velocity: v(0, 0), kind: ParticleType::Neutral });
    let mut e = Engine::from_world(w);
    e.tick(1, &vec![]);
    let mag = i64::MAX / 1000;
    let p = e.entity(1);
    assert_eq!(p.particle.unwrap().velocity, v(-mag, 0));
    assert_eq!(p.position, v(i64::MAX - mag, 0));
}

#[test]
fn saturating_scalar_ops_clamp_at_bounds() {
    assert_eq!(sat_add_i64(i64::MAX, 1), i64::MAX);
    assert_eq!(sat_add_i64(i64::MIN, -1), i64::MIN);
    assert_eq!(sat_add_i64(40, 2), 42);
    assert_eq!(sat_sub_i64(i64::MIN, 1), i64::MIN);
    assert_eq!(sat_sub_i64(7, 10), -3);
    assert_eq!(sat_mul_i64(i64::MAX, 2), i64::MAX);
    assert_eq!(sat_mul_i64(i64::MIN, 2), i64::MIN);
    assert_eq!(sat_mul_i64(-6, 7), -42);
    assert_eq!(sgn_i64(-5), -1);
    assert_eq!(sgn_i64(0), 0);
    assert_eq!(sgn_i64(5), 1);
}

#[test]
fn particle_snapshot_lists_particles_in_order() {
    let mut e = Engine::new();
    e.tick(0, &vec![neutral_at(1, 2), negative_at(3, 4)]);
    let ps = e.particles();
    assert_eq!(
        ps,
        vec![(v(1, 2), ParticleType::Neutral), (v(3, 4), ParticleType::Negative)]
    );
}

#[test]
fn source_registry_lists_anchors_and_laws() {
    let mut e = Engine::new();
    e.tick(0, &vec![neutral_at(1, 2), negative_at(3, 4)]);
    let sources = e.sources();
    assert_eq!(
        sources,
        vec![
            (0usize, v(0, 0), ForceLaw::GlobalRepulsive { k: GLOBAL_FIELD_K }),
            (2usize, v(3, 4), ForceLaw::ParticleSourcedRepulsive { m: PARTICLE_FIELD_M }),
        ]
    );
}

#[test]
fn spawner_processes_requests_in_order() {
    let mut e = Engine::from_world(World::new());
    e.tick(0, &vec![neutral_at(1, 0), neutral_at(2, 0), neutral_at(3, 0)]);
    assert_eq!(e.entity(0).position, v(1, 0));
    assert_eq!(e.entity(1).position, v(2, 0));
    assert_eq!(e.entity(2).position, v(3, 0));
    assert_eq!(e.entity_count(), 3);
}

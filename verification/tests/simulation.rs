//! Tests for the spawner, the per-particle passes, cleanup and the tick.

use particle_systems::components::{
    DistanceTraveled, EntityId, Lifetime, Particle, ParticleBundle, ParticleBurst, ParticleColor,
    ParticleCount, ParticleSystem, ParticleSystemBundle, RunningState, Velocity, BurstIndex,
};
use particle_systems::fixed::{Fx, FX_SCALE};
use particle_systems::rng::RandomSource;
use particle_systems::shapes::EmitterShape;
use particle_systems::systems::{
    collect_instances, particle_cleanup, particle_lifetime, particle_spawner, particle_transform,
    tick, EmitterAction,
};
use particle_systems::values::{
    ColorOverTime, JitteredValue, ValueOverTime, VelocityModifier,
};
use particle_systems::vecmath::{FxColor, FxTransform, FxVec3};

fn fx(i: i64) -> Fx {
    Fx::from_int(i)
}

fn raw(r: i64) -> Fx {
    Fx::from_raw(r)
}

fn bundle_for(system: ParticleSystem) -> ParticleSystemBundle {
    ParticleSystemBundle {
        particle_system: system,
        global_transform: FxTransform::identity(),
        particle_count: ParticleCount(0),
        running_state: RunningState::default(),
        burst_index: BurstIndex(0),
    }
}

fn plain_particle(max_lifetime: Fx) -> ParticleBundle {
    ParticleBundle {
        particle: Particle {
            max_lifetime,
            ..Particle::default()
        },
        lifetime: Lifetime(raw(0)),
        velocity: Velocity(FxVec3::zero()),
        distance: DistanceTraveled { dist_squared: raw(0), from: FxVec3::zero() },
        color: ParticleColor(ColorOverTime::default()),
        transform: FxTransform::identity(),
        display_color: FxColor::white(),
        atlas_index: 0,
        animated: None,
    }
}

/// Burst firing order: bursts at 0, 2 and 4 seconds with 1000 particles
/// each, on a looping five-second burst-only emitter, fire exactly once per
/// cycle in order; the wrap resets the cursor to the start, after which the
/// new cycle's first burst fires again.
#[test]
fn burst_firing_order() {
    let mut bundle = bundle_for(ParticleSystem {
        max_particles: 10_000,
        spawn_rate_per_second: ValueOverTime::constant(fx(0)),
        lifetime: JitteredValue::new(fx(10)),
        looping: true,
        system_duration_seconds: fx(5),
        bursts: vec![
            ParticleBurst::new(fx(0), 1000),
            ParticleBurst::new(fx(2), 1000),
            ParticleBurst::new(fx(4), 1000),
        ],
        ..ParticleSystem::default()
    });
    let mut particles: Vec<ParticleBundle> = Vec::new();
    let mut rng = RandomSource::new();
    let dt = raw(500_000);
    for step in 1..=9 {
        let action = tick(
            &mut bundle,
            &mut particles,
            EntityId(1),
            dt,
            dt,
            raw(0),
            raw(0),
            &mut rng,
        );
        assert_eq!(action, EmitterAction::Proceed, "step {step}");
    }
    // One full cycle short of the wrap: all three bursts have fired once.
    assert_eq!(bundle.particle_count.0, 3000);
    assert_eq!(particles.len(), 3000);
    assert_eq!(bundle.burst_index.0, 3);
    // The wrapping tick rewinds the cursor, and the fresh cycle's burst at
    // time zero fires in the same tick, advancing it to 1.
    tick(&mut bundle, &mut particles, EntityId(1), dt, dt, raw(0), raw(0), &mut rng);
    assert_eq!(bundle.running_state.running_time, raw(0));
    assert_eq!(bundle.burst_index.0, 1);
    assert_eq!(bundle.particle_count.0, 4000);
    // A zero-rate emitter spawns only burst particles: no strays.
    assert_eq!(particles.len(), 4000);
}

/// Cleanup correctness: a particle with a two-second lifetime and no
/// distance cap, ticked at half a second, is removed exactly on the fourth
/// tick, and the live counter drops by exactly one.
#[test]
fn cleanup_exact_tick() {
    let mut particles = vec![plain_particle(fx(2))];
    let mut count = ParticleCount(1);
    let dt = raw(500_000);
    for step in 1..=3 {
        particle_lifetime(&mut particles, dt, dt);
        particle_cleanup(&mut particles, &mut count, true);
        assert_eq!(particles.len(), 1, "removed early at step {step}");
        assert_eq!(count.0, 1);
    }
    particle_lifetime(&mut particles, dt, dt);
    particle_cleanup(&mut particles, &mut count, true);
    assert_eq!(particles.len(), 0);
    assert_eq!(count.0, 0);
}

/// A particle past its distance cap is removed; the cap is given in linear
/// units and compared against the squared traveled distance.
#[test]
fn cleanup_distance_cap() {
    let mut p = plain_particle(fx(100));
    p.particle.max_distance = Some(fx(3));
    p.distance.dist_squared = fx(9);
    let mut particles = vec![p];
    let mut count = ParticleCount(1);
    particle_cleanup(&mut particles, &mut count, true);
    assert_eq!(particles.len(), 0);
    assert_eq!(count.0, 0);

    let mut q = plain_particle(fx(100));
    q.particle.max_distance = Some(fx(3));
    q.distance.dist_squared = fx(8);
    let mut particles2 = vec![q];
    let mut count2 = ParticleCount(1);
    particle_cleanup(&mut particles2, &mut count2, true);
    assert_eq!(particles2.len(), 1);
    assert_eq!(count2.0, 1);
}

/// A particle set to follow its emitter is removed once the emitter is
/// gone, without touching the live counter.
#[test]
fn cleanup_with_parent_gone() {
    let mut p = plain_particle(fx(100));
    p.particle.despawn_with_parent = true;
    let mut particles = vec![p];
    let mut count = ParticleCount(1);
    particle_cleanup(&mut particles, &mut count, false);
    assert_eq!(particles.len(), 0);
    assert_eq!(count.0, 1);
}

/// Drag monotonicity: under a positive drag and no other forces the speed
/// never increases, tick after tick.
#[test]
fn drag_never_speeds_up() {
    let mut p = plain_particle(fx(100));
    p.velocity = Velocity(FxVec3::new(fx(2), fx(0), fx(0)));
    p.particle.velocity_modifiers = vec![VelocityModifier::Drag(ValueOverTime::constant(
        raw(500_000),
    ))];
    let mut particles = vec![p];
    let dt = raw(100_000);
    let mut last_sqr = i64::MAX;
    for _ in 0..50 {
        particle_lifetime(&mut particles, dt, dt);
        particle_transform(&mut particles, dt, dt, raw(0), raw(0));
        let v = particles[0].velocity.0;
        let sqr_speed = v.x.raw * v.x.raw + v.y.raw * v.y.raw + v.z.raw * v.z.raw;
        assert!(sqr_speed <= last_sqr, "speed increased under drag");
        last_sqr = sqr_speed;
    }
    // Drag has visibly slowed the particle.
    assert!(particles[0].velocity.0.x.raw < 2 * FX_SCALE);
    assert!(particles[0].velocity.0.x.raw > 0);
}

/// Spawn cap invariant: an emitter without bursts never exceeds its cap,
/// tick after tick, whatever the rate asks for.
#[test]
fn spawn_cap_holds() {
    let mut bundle = bundle_for(ParticleSystem {
        max_particles: 25,
        spawn_rate_per_second: ValueOverTime::constant(fx(100_000)),
        lifetime: JitteredValue::new(fx(30)),
        looping: true,
        system_duration_seconds: fx(5),
        ..ParticleSystem::default()
    });
    let mut particles: Vec<ParticleBundle> = Vec::new();
    let mut rng = RandomSource::new();
    let dt = raw(100_000);
    for _ in 0..60 {
        tick(&mut bundle, &mut particles, EntityId(9), dt, dt, raw(0), raw(0), &mut rng);
        assert!(bundle.particle_count.0 <= 25);
        assert_eq!(bundle.particle_count.0, particles.len());
    }
    assert_eq!(bundle.particle_count.0, 25);
}

/// Concrete scenario: up to 100 particles, ten per second, a one-second
/// non-looping emitter with half-second lifetimes, ticked at a tenth of a
/// second. One particle spawns per tick until the cycle ends when the clock
/// reaches the duration (nine in all), every particle is gone by 1.5
/// seconds, and the emitter then asks to be despawned.
#[test]
fn rate_emitter_scenario() {
    let system = ParticleSystem {
        max_particles: 100,
        spawn_rate_per_second: ValueOverTime::constant(fx(10)),
        lifetime: JitteredValue::new(raw(500_000)),
        looping: false,
        despawn_on_finish: true,
        system_duration_seconds: fx(1),
        ..ParticleSystem::default()
    };
    let mut count = ParticleCount(0);
    let mut state = RunningState::default();
    let mut cursor = BurstIndex(0);
    let mut particles: Vec<ParticleBundle> = Vec::new();
    let mut rng = RandomSource::new();
    let transform = FxTransform::identity();
    let dt = raw(100_000);
    let mut total_spawned: usize = 0;
    let mut last_action = EmitterAction::Proceed;
    let mut despawn_at_step: Option<usize> = None;
    for step in 1..=20 {
        let before = particles.len();
        last_action = particle_spawner(
            EntityId(3),
            &system,
            &transform,
            &mut count,
            &mut state,
            &mut cursor,
            dt,
            dt,
            &mut rng,
            &mut particles,
        );
        total_spawned += particles.len() - before;
        particle_lifetime(&mut particles, dt, dt);
        particle_transform(&mut particles, dt, dt, raw(0), raw(0));
        particle_cleanup(&mut particles, &mut count, true);
        if last_action == EmitterAction::DespawnEmitter && despawn_at_step.is_none() {
            despawn_at_step = Some(step);
        }
    }
    // One per tick while the cycle ran: the tick that reaches the duration
    // no longer spawns, leaving nine in all.
    assert_eq!(total_spawned, 9);
    assert_eq!(count.0, 0);
    assert_eq!(particles.len(), 0);
    assert_eq!(last_action, EmitterAction::DespawnEmitter);
    // All particles had expired by 1.5 seconds, so the despawn request came
    // at the following tick.
    assert_eq!(despawn_at_step, Some(14));
}

/// A zero-radius circle emitter spawns at the emitter's own position.
#[test]
fn circle_shape_degenerate() {
    let shape = EmitterShape::circle(JitteredValue::new(fx(0)));
    let mut rng = RandomSource::new();
    for _ in 0..20 {
        let t = shape.sample(&mut rng);
        assert_eq!(t.translation.x.raw, 0);
        assert_eq!(t.translation.y.raw, 0);
        assert_eq!(t.translation.z.raw, 0);
    }
}

/// A line emitter with a fixed angle of zero spawns along its sideways
/// axis, within half its length of the center.
#[test]
fn line_shape_bounds() {
    let shape = EmitterShape::line(fx(4), JitteredValue::new(fx(0)));
    let mut rng = RandomSource::new();
    for _ in 0..50 {
        let t = shape.sample(&mut rng);
        assert!(t.translation.y.raw.abs() <= 2 * FX_SCALE);
        assert_eq!(t.rotation.raw, 0);
    }
}

/// The render-facing records mirror each particle's placement and look.
#[test]
fn instances_mirror_particles() {
    let mut p = plain_particle(fx(1));
    p.transform.translation = FxVec3::new(fx(1), fx(2), fx(3));
    p.transform.rotation = raw(250_000);
    p.display_color = FxColor::rgba(fx(1), fx(0), fx(0), fx(1));
    p.atlas_index = 4;
    let particles = vec![p];
    let out = collect_instances(&particles);
    assert_eq!(out.len(), 1);
    assert_eq!(out[0].position, FxVec3::new(fx(1), fx(2), fx(3)));
    assert_eq!(out[0].rotation, raw(250_000));
    assert_eq!(out[0].color, FxColor::rgba(fx(1), fx(0), fx(0), fx(1)));
    assert_eq!(out[0].atlas_index, 4);
}

/// Re-aiming a zero velocity is a defined no-op, not a division by zero:
/// the zero vector comes back.
#[test]
fn velocity_zero_normalize() {
    let v = Velocity::new(FxVec3::zero(), true);
    assert_eq!(v.0, FxVec3::zero());
    let w = Velocity::new(FxVec3::new(fx(0), fx(0), fx(7)), true);
    // A purely out-of-plane velocity has no planar heading to keep.
    assert_eq!(w.0, FxVec3::zero());
}

/// Drag on a stationary particle is a defined no-op: the zero heading
/// yields a zero impulse, and nothing panics.
#[test]
fn drag_at_rest_is_noop() {
    let mut p = plain_particle(fx(100));
    p.particle.velocity_modifiers =
        vec![VelocityModifier::Drag(ValueOverTime::constant(fx(2)))];
    let mut particles = vec![p];
    let dt = raw(100_000);
    for _ in 0..5 {
        particle_lifetime(&mut particles, dt, dt);
        particle_transform(&mut particles, dt, dt, raw(0), raw(0));
        assert_eq!(particles[0].velocity.0, FxVec3::zero());
        assert_eq!(particles[0].transform.translation, FxVec3::zero());
    }
}

/// A burst larger than the remaining budget is added whole, pushing the
/// live count past the cap; once above it, the emitter spawns nothing
/// until room frees up.
#[test]
fn burst_overshoots_cap_then_backpressure() {
    let mut bundle = bundle_for(ParticleSystem {
        max_particles: 10,
        spawn_rate_per_second: ValueOverTime::constant(fx(0)),
        lifetime: JitteredValue::new(fx(30)),
        looping: true,
        system_duration_seconds: fx(5),
        bursts: vec![ParticleBurst::new(fx(0), 50)],
        ..ParticleSystem::default()
    });
    let mut particles: Vec<ParticleBundle> = Vec::new();
    let mut rng = RandomSource::new();
    let dt = raw(500_000);
    tick(&mut bundle, &mut particles, EntityId(5), dt, dt, raw(0), raw(0), &mut rng);
    assert_eq!(bundle.particle_count.0, 50);
    // Over the cap: subsequent ticks spawn nothing at all.
    for _ in 0..5 {
        tick(&mut bundle, &mut particles, EntityId(5), dt, dt, raw(0), raw(0), &mut rng);
        assert_eq!(bundle.particle_count.0, 50);
    }
}

/// A velocity constrained to the plane keeps the full vector's speed:
/// (3, 4, 12) has length 13, and its planar heading is (3/5, 4/5).
#[test]
fn velocity_ignore_z_exact() {
    let v = Velocity::new(FxVec3::new(fx(3), fx(4), fx(12)), true);
    assert_eq!(v.0.x.raw, 7_800_000);
    assert_eq!(v.0.y.raw, 10_400_000);
    assert_eq!(v.0.z.raw, 0);
    let w = Velocity::new(FxVec3::new(fx(3), fx(4), fx(12)), false);
    assert_eq!(w.0.z, fx(12));
}

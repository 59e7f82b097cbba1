//! Tests for spawning placement, the color and atlas passes, noise, and
//! transform composition.

use particle_systems::components::{
    AnimatedIndex, AtlasHandle, BurstIndex, DistanceTraveled, EntityId, Lifetime, Particle,
    ParticleBundle, ParticleColor, ParticleCount, ParticleSpace, ParticleSystem, ParticleTexture,
    RunningState, Velocity,
};
use particle_systems::curve::CurvePoint;
use particle_systems::fixed::{Fx, FX_SCALE};
use particle_systems::rng::RandomSource;
use particle_systems::systems::{particle_sprite_color, particle_spawner, particle_texture_atlas_color};
use particle_systems::values::{AtlasIndex, ColorOverTime, JitteredValue, ValueOverTime, Noise2D};
use particle_systems::vecmath::{transform_mul, FxColor, FxTransform, FxVec2, FxVec3};

fn fx(i: i64) -> Fx {
    Fx::from_int(i)
}

fn raw(r: i64) -> Fx {
    Fx::from_raw(r)
}

/// The default noise field at the origin at time zero: the x axis reads a
/// zero sine plus the shifted-y sine, the y axis the cosine of zero plus
/// the same sine, both scaled by the amplitude. Exact fixed-point values.
#[test]
fn noise_exact_at_origin() {
    let n = Noise2D::default();
    let out = n.sample(FxVec2::new(raw(0), raw(0)), raw(0));
    assert_eq!(out.x.raw, -99_624_100);
    assert_eq!(out.y.raw, 375_800);
}

/// A zero-amplitude noise field pushes nothing.
#[test]
fn noise_zero_amplitude() {
    let n = Noise2D::new(raw(100_000), raw(0), FxVec2::new(fx(10), fx(8)));
    let out = n.sample(FxVec2::new(fx(3), fx(4)), fx(2));
    assert_eq!(out.x.raw, 0);
    assert_eq!(out.y.raw, 0);
}

/// Composing placements: a pure translation child under a pure translation
/// parent lands at the sum, up to the quantized cosine of zero on the
/// child's offset; angles add and scales multiply exactly.
#[test]
fn transform_compose_exact() {
    let a = FxTransform::from_translation(FxVec3::new(fx(1), fx(2), fx(0)));
    let b = FxTransform::from_translation(FxVec3::new(fx(3), fx(0), fx(0)));
    let c = transform_mul(a, b);
    // cos(0) is 0.999999 in this fixed-point sine model, so the child's
    // 3.0 offset lands at 2.999997.
    assert_eq!(c.translation.x.raw, 3_999_997);
    assert_eq!(c.translation.y.raw, 2_000_000);
    assert_eq!(c.translation.z.raw, 0);
    assert_eq!(c.rotation.raw, 0);
    assert_eq!(c.scale.x.raw, FX_SCALE);
}

fn base_particle() -> ParticleBundle {
    ParticleBundle {
        particle: Particle { max_lifetime: fx(1), ..Particle::default() },
        lifetime: Lifetime(raw(0)),
        velocity: Velocity(FxVec3::zero()),
        distance: DistanceTraveled { dist_squared: raw(0), from: FxVec3::zero() },
        color: ParticleColor(ColorOverTime::default()),
        transform: FxTransform::identity(),
        display_color: FxColor::white(),
        atlas_index: 0,
        animated: None,
    }
}

/// The sprite color pass evaluates a three-color gradient at the lifetime
/// fraction: a quarter of the way from black to red is half red.
#[test]
fn sprite_color_gradient() {
    let black = FxColor::rgba(fx(0), fx(0), fx(0), fx(1));
    let red = FxColor::rgba(fx(1), fx(0), fx(0), fx(1));
    let white = FxColor::white();
    let mut p = base_particle();
    p.color = ParticleColor(ColorOverTime::from_points(vec![
        CurvePoint::new(black, fx(0)),
        CurvePoint::new(red, raw(500_000)),
        CurvePoint::new(white, fx(1)),
    ]));
    p.lifetime = Lifetime(raw(250_000));
    let mut particles = vec![p];
    particle_sprite_color(&mut particles);
    assert_eq!(particles[0].display_color, FxColor::rgba(raw(500_000), fx(0), fx(0), fx(1)));
    // At the exact middle point the gradient returns the control color.
    particles[0].lifetime = Lifetime(raw(500_000));
    particle_sprite_color(&mut particles);
    assert_eq!(particles[0].display_color, red);
}

/// The atlas pass advances an animated index to the frame the particle's
/// age has reached, wrapping around the frame list.
#[test]
fn atlas_animation_advances() {
    let mut p = base_particle();
    p.animated = Some(AnimatedIndex {
        indices: vec![3, 4, 5],
        time_step: raw(250_000),
        step_offset: 0,
    });
    p.atlas_index = 3;
    p.lifetime = Lifetime(raw(600_000));
    let mut particles = vec![p];
    particle_texture_atlas_color(&mut particles);
    // 0.6 seconds over 0.25-second steps is two whole steps: frame 5.
    assert_eq!(particles[0].atlas_index, 5);
    particles[0].lifetime = Lifetime(raw(1_100_000));
    particle_texture_atlas_color(&mut particles);
    // Four steps from offset 0 wraps past the end: index 4 % 3 -> frame 4.
    assert_eq!(particles[0].atlas_index, 4);
}

/// The first frame of an animated atlas index is the offset frame.
#[test]
fn animated_index_start() {
    let a = AnimatedIndex { indices: vec![7, 9, 11], time_step: raw(100_000), step_offset: 1 };
    assert_eq!(a.get_at_start(), 9);
    let b = AnimatedIndex { indices: vec![7, 9, 11], time_step: raw(100_000), step_offset: 5 };
    assert_eq!(b.get_at_start(), 11);
}

/// A world-space emitter stamps its own placement onto new particles; a
/// local-space emitter leaves them at the origin for the host scene graph
/// to carry.
#[test]
fn spawner_space_placement() {
    for (space, expect_x) in [(ParticleSpace::World, fx(5)), (ParticleSpace::Local, fx(0))] {
        let system = ParticleSystem {
            spawn_rate_per_second: ValueOverTime::constant(fx(10)),
            emitter_shape: particle_systems::shapes::EmitterShape::circle(JitteredValue::new(
                fx(0),
            )),
            space,
            ..ParticleSystem::default()
        };
        let transform = FxTransform::from_translation(FxVec3::new(fx(5), fx(0), fx(0)));
        let mut count = ParticleCount(0);
        let mut state = RunningState::default();
        let mut cursor = BurstIndex(0);
        let mut particles = Vec::new();
        let mut rng = RandomSource::new();
        particle_spawner(
            EntityId(2),
            &system,
            &transform,
            &mut count,
            &mut state,
            &mut cursor,
            raw(500_000),
            raw(500_000),
            &mut rng,
            &mut particles,
        );
        assert!(!particles.is_empty());
        for p in &particles {
            assert_eq!(p.transform.translation.x, expect_x);
            assert_eq!(p.transform.translation.y.raw, 0);
            assert_eq!(p.distance.from, p.transform.translation);
            assert_eq!(p.lifetime.0.raw, 0);
            assert_eq!(p.particle.parent_system, EntityId(2));
        }
    }
}

/// An atlas texture with a randomly chosen index stamps one of the listed
/// cells onto each new particle.
#[test]
fn spawner_atlas_index_choice() {
    let system = ParticleSystem {
        spawn_rate_per_second: ValueOverTime::constant(fx(10)),
        texture: ParticleTexture::TextureAtlas {
            atlas: AtlasHandle(1),
            index: AtlasIndex::Random(particle_systems::values::RandomValue::RandomChoice(vec![
                2, 6,
            ])),
        },
        ..ParticleSystem::default()
    };
    let transform = FxTransform::identity();
    let mut count = ParticleCount(0);
    let mut state = RunningState::default();
    let mut cursor = BurstIndex(0);
    let mut particles = Vec::new();
    let mut rng = RandomSource::new();
    particle_spawner(
        EntityId(4),
        &system,
        &transform,
        &mut count,
        &mut state,
        &mut cursor,
        raw(500_000),
        raw(500_000),
        &mut rng,
        &mut particles,
    );
    assert!(!particles.is_empty());
    for p in &particles {
        assert!(p.atlas_index == 2 || p.atlas_index == 6);
        assert!(p.animated.is_none());
    }
}

/// A degenerate arc pins the facing: with a zero opening angle every
/// sample faces the configured direction, and the spawn rotation is either
/// replaced by the initial rotation or, when rotating to the movement
/// direction, the facing plus the initial rotation.
#[test]
fn spawner_rotation_modes() {
    for (rotate_to_movement, expect_rotation) in [(false, raw(100_000)), (true, raw(800_000))] {
        let shape = particle_systems::shapes::EmitterShape::CircleSegment(
            particle_systems::shapes::CircleSegment {
                opening_angle: raw(0),
                direction_angle: raw(700_000),
                radius: JitteredValue::new(fx(0)),
            },
        );
        let system = ParticleSystem {
            spawn_rate_per_second: ValueOverTime::constant(fx(10)),
            emitter_shape: shape,
            initial_rotation: JitteredValue::new(raw(100_000)),
            rotate_to_movement_direction: rotate_to_movement,
            ..ParticleSystem::default()
        };
        let transform = FxTransform::identity();
        let mut count = ParticleCount(0);
        let mut state = RunningState::default();
        let mut cursor = BurstIndex(0);
        let mut particles = Vec::new();
        let mut rng = RandomSource::new();
        particle_spawner(
            EntityId(6),
            &system,
            &transform,
            &mut count,
            &mut state,
            &mut cursor,
            raw(500_000),
            raw(500_000),
            &mut rng,
            &mut particles,
        );
        assert!(!particles.is_empty());
        for p in &particles {
            assert_eq!(p.transform.rotation, expect_rotation);
        }
    }
}

/// A one-shot emitter does not loop and asks to be despawned when done.
#[test]
fn oneshot_configuration() {
    let sys = ParticleSystem::oneshot();
    assert!(!sys.looping);
    assert!(sys.despawn_on_finish);
    let d = ParticleSystem::default();
    assert!(d.looping);
    assert_eq!(d.max_particles, 100);
    assert_eq!(d.system_duration_seconds, fx(5));
}

/// Replacing the jitter range keeps the base value.
#[test]
fn with_jitter_keeps_base() {
    let jv = JitteredValue::new(fx(3)).with_jitter(fx(-1), fx(1));
    assert_eq!(jv.value, fx(3));
    let range = jv.jitter_range.unwrap();
    assert_eq!(range.start, fx(-1));
    assert_eq!(range.end, fx(1));
}

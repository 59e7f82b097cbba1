//! The emitter configuration, its running counters, and per-particle state.
//!
//! An emitter is described by a [`ParticleSystem`] plus mutable counters
//! ([`RunningState`], [`ParticleCount`], [`BurstIndex`]). Each live particle
//! carries a [`Particle`] with value copies of everything it needs, so that
//! it evolves correctly even if the emitter's configuration later changes
//! or the emitter disappears.

use vstd::prelude::*;

use crate::fixed::{iabs, Fx, FX_SCALE};
use crate::shapes::EmitterShape;
use crate::values::{
    AtlasIndex, ColorOverTime, JitteredValue, ValueOverTime, VelocityModifier,
};
use crate::vecmath::{FxColor, FxVec2, FxVec3};

verus! {

/// An opaque handle to a host entity (an emitter or a particle).
#[derive(Clone, Copy, Debug, PartialEq, Eq, Hash, Structural)]
pub struct EntityId(pub u64);

/// An opaque handle to a host image asset.
#[derive(Clone, Copy, Debug, PartialEq, Eq, Hash, Structural)]
pub struct ImageHandle(pub u64);

/// An opaque handle to a host texture atlas asset.
#[derive(Clone, Copy, Debug, PartialEq, Eq, Hash, Structural)]
pub struct AtlasHandle(pub u64);

/// A burst of a given number of particles at a given time in the emitter's
/// cycle. Bursts do not count toward the per-second spawn rate.
#[derive(Clone, Copy, Debug, PartialEq, Eq, Structural)]
pub struct ParticleBurst {
    /// When in the cycle the burst fires; should be strictly less than the
    /// emitter's duration, or it never fires.
    pub time: Fx,
    /// How many particles the burst creates.
    pub count: usize,
}

impl ParticleBurst {
    /// A burst of `count` particles at `time`.
    pub fn new(time: Fx, count: usize) -> (r: ParticleBurst)
        ensures
            r == (ParticleBurst { time, count }),
    {
        ParticleBurst { time, count }
    }
}

/// What space particles move in once spawned.
#[derive(Clone, Copy, Debug, PartialEq, Eq, Structural)]
pub enum ParticleSpace {
    /// Particles stay attached to the emitter and move with it.
    Local,
    /// Particles detach at spawn and move in world coordinates.
    World,
}

/// How the texture atlas index of a particle is animated over its life.
#[derive(Clone, Debug)]
pub struct AnimatedIndex {
    /// The atlas indices of the animation frames, in play order.
    pub indices: Vec<usize>,
    /// How long each frame is shown.
    pub time_step: Fx,
    /// Which frame (by position in `indices`) the animation starts on.
    pub step_offset: usize,
}

/// How many whole frame steps a time covers: the magnitude of the time
/// divided by the magnitude of the step, rounded down.
pub open spec fn anim_steps(time: Fx, step: Fx) -> int {
    iabs(time.raw as int) / iabs(step.raw as int)
}

/// The frame the animation shows first.
pub open spec fn anim_start_spec(a: AnimatedIndex) -> usize {
    if a.step_offset < a.indices.len() {
        a.indices[a.step_offset as int]
    } else {
        a.indices[a.step_offset as int % a.indices.len() as int]
    }
}

/// The frame the animation shows after a given time: the start offset plus
/// the elapsed whole steps (the count saturating at the counter range),
/// wrapped around the frame list.
pub open spec fn anim_at_time_spec(a: AnimatedIndex, time: Fx) -> usize {
    let idx = crate::fixed::usat(a.step_offset + anim_steps(time, a.time_step));
    if idx < a.indices.len() {
        a.indices[idx]
    } else {
        a.indices[idx % a.indices.len() as int]
    }
}

impl AnimatedIndex {
    /// There must be frames to show, and a nonzero step to divide by.
    pub open spec fn wf(&self) -> bool {
        self.indices.len() > 0 && self.time_step.raw != 0
    }

    /// The first frame of the animation.
    pub fn get_at_start(&self) -> (r: usize)
        requires
            self.indices.len() > 0,
        ensures
            r == anim_start_spec(*self),
    {
        let idx: usize = if self.step_offset < self.indices.len() {
            self.step_offset
        } else {
            self.step_offset % self.indices.len()
        };
        self.indices[idx]
    }

    /// A value copy of the animation.
    pub fn duplicate(&self) -> (r: AnimatedIndex)
        ensures
            r.indices@ == self.indices@,
            r.time_step == self.time_step,
            r.step_offset == self.step_offset,
            self.wf() ==> r.wf(),
    {
        let mut indices: Vec<usize> = Vec::new();
        let n: usize = self.indices.len();
        let mut i: usize = 0;
        while i < n
            invariant
                n == self.indices.len(),
                i <= n,
                indices@ == self.indices@.subrange(0, i as int),
            decreases n - i,
        {
            indices.push(self.indices[i]);
            proof {
                assert(indices@ =~= self.indices@.subrange(0, i + 1));
            }
            i = i + 1;
        }
        proof {
            assert(indices@ =~= self.indices@);
        }
        AnimatedIndex { indices, time_step: self.time_step, step_offset: self.step_offset }
    }

    /// The frame shown at a given time into the animation.
    pub fn get_at_time(&self, time: Fx) -> (r: usize)
        requires
            self.wf(),
        ensures
            r == anim_at_time_spec(*self, time),
    {
        let tm: u64 = if time.raw >= 0 {
            time.raw as u64
        } else {
            (-(time.raw as i128)) as u64
        };
        let sm: u64 = if self.time_step.raw >= 0 {
            self.time_step.raw as u64
        } else {
            (-(self.time_step.raw as i128)) as u64
        };
        let steps: u64 = tm / sm;
        assert(steps == anim_steps(time, self.time_step));
        let steps_clipped: usize = if steps > usize::MAX as u64 {
            usize::MAX
        } else {
            steps as usize
        };
        let sample_idx: usize = crate::fixed::usize_sat_add(self.step_offset, steps_clipped);
        proof {
            assert(sample_idx == crate::fixed::usat(
                self.step_offset + anim_steps(time, self.time_step),
            ));
        }
        if sample_idx < self.indices.len() {
            self.indices[sample_idx]
        } else {
            self.indices[sample_idx % self.indices.len()]
        }
    }
}

/// The texture a particle is drawn with.
#[derive(Clone, Debug)]
pub enum ParticleTexture {
    /// A plain image.
    Sprite(ImageHandle),
    /// An atlas and a rule for picking the index within it.
    TextureAtlas {
        /// The atlas asset.
        atlas: AtlasHandle,
        /// Constant, randomly chosen, or animated index into the atlas.
        index: AtlasIndex,
    },
}

impl ParticleTexture {
    /// Any index rule inside must be drawable.
    pub open spec fn wf(&self) -> bool {
        match *self {
            ParticleTexture::Sprite(_) => true,
            ParticleTexture::TextureAtlas { atlas: _, index } => index.wf(),
        }
    }
}

/// The full description of how an emitter and its particles behave.
#[derive(Clone, Debug)]
pub struct ParticleSystem {
    /// Hard cap on simultaneously live particles for this emitter.
    pub max_particles: usize,
    /// The texture each particle is drawn with.
    pub texture: ParticleTexture,
    /// Optional re-scaling of the texture size, passed through to the host.
    pub rescale_texture: Option<FxVec2>,
    /// Particles to spawn per second, as a function of the emitter's own
    /// lifetime fraction.
    pub spawn_rate_per_second: ValueOverTime,
    /// Where new particles appear and which way they face.
    pub emitter_shape: EmitterShape,
    /// Initial movement speed of a particle, with optional jitter.
    pub initial_speed: JitteredValue,
    /// Effects applied to each particle's velocity, in order, every tick.
    pub velocity_modifiers: Vec<VelocityModifier>,
    /// Lifetime of each particle in seconds, sampled at spawn.
    pub lifetime: JitteredValue,
    /// Color of each particle over its lifetime fraction.
    pub color: ColorOverTime,
    /// Initial scale of a particle, with optional jitter.
    pub initial_scale: JitteredValue,
    /// Scale of the particle over its lifetime fraction, multiplied with
    /// the initial scale.
    pub scale: ValueOverTime,
    /// Rotation about the z axis at spawn, in radians, with optional jitter.
    pub initial_rotation: JitteredValue,
    /// Rotation speed in radians per second, sampled at spawn.
    pub rotation_speed: JitteredValue,
    /// Whether a particle is rotated to face its movement direction at
    /// spawn, with `initial_rotation` added on top.
    pub rotate_to_movement_direction: bool,
    /// Whether the emitter starts over when its cycle completes.
    pub looping: bool,
    /// Length of the emitter's cycle in seconds.
    pub system_duration_seconds: Fx,
    /// Optional cap on how far a particle may travel before despawning.
    /// The cap is given in linear units; internally its square is compared
    /// against the squared traveled distance.
    pub max_distance: Option<Fx>,
    /// Optional fixed z value for every particle, useful to pin a 2D depth.
    pub z_value_override: Option<JitteredValue>,
    /// Extra one-off spawn events keyed to the emitter's elapsed time,
    /// in ascending order of time.
    pub bursts: Vec<ParticleBurst>,
    /// Whether particles stay attached to the emitter or detach at spawn.
    pub space: ParticleSpace,
    /// Whether this emitter's clock follows the scalable virtual clock or
    /// the unscaled real clock.
    pub use_scaled_time: bool,
    /// Whether the emitter entity is removed once the cycle completes and
    /// no particles remain. Never triggers on a looping emitter.
    pub despawn_on_finish: bool,
    /// Whether live particles are removed when the emitter itself is.
    pub despawn_particles_with_system: bool,
}

impl ParticleSystem {
    /// Every evaluated or drawn quantity is usable: curves have points,
    /// jitter ranges are nonempty, the cycle has positive length, and the
    /// bursts are in ascending order of time.
    pub open spec fn wf(&self) -> bool {
        &&& self.spawn_rate_per_second.wf()
        &&& self.emitter_shape.wf()
        &&& self.initial_speed.wf()
        &&& self.lifetime.wf()
        &&& self.initial_scale.wf()
        &&& self.initial_rotation.wf()
        &&& self.rotation_speed.wf()
        &&& self.color.wf()
        &&& self.scale.wf()
        &&& self.texture.wf()
        &&& (match self.z_value_override {
            Option::Some(j) => j.wf(),
            Option::None => true,
        })
        &&& (forall|i: int|
            0 <= i < self.velocity_modifiers.len() ==> (
            #[trigger] self.velocity_modifiers[i]).wf())
        &&& self.system_duration_seconds.raw > 0
        &&& (forall|i: int, j: int|
            0 <= i < j < self.bursts.len() ==> (#[trigger] self.bursts[i]).time.raw <= (
            #[trigger] self.bursts[j]).time.raw)
        &&& (forall|i: int|
            0 <= i < self.bursts.len() ==> (#[trigger] self.bursts[i]).count <= usize::MAX
                - self.max_particles)
    }

    /// A one-shot emitter: it does not loop, and its entity is removed
    /// when it finishes and the last particle is gone.
    pub fn oneshot() -> (r: ParticleSystem)
        ensures
            r.looping == false,
            r.despawn_on_finish == true,
            r.wf(),
    {
        let mut base: ParticleSystem = ParticleSystem::default();
        base.looping = false;
        base.despawn_on_finish = true;
        base
    }
}

impl Default for ParticleSystem {
    /// A white, world-space, looping emitter of up to 100 particles: five
    /// per second, unit speed and scale, five-second lifetimes and cycle.
    fn default() -> (r: ParticleSystem)
        ensures
            r.max_particles == 100,
            r.looping == true,
            r.use_scaled_time == true,
            r.despawn_on_finish == false,
            r.despawn_particles_with_system == false,
            r.space == ParticleSpace::World,
            r.system_duration_seconds.raw == 5 * FX_SCALE,
            r.wf(),
    {
        ParticleSystem {
            max_particles: 100,
            texture: ParticleTexture::Sprite(ImageHandle(0)),
            rescale_texture: Option::None,
            spawn_rate_per_second: ValueOverTime::Constant(Fx { raw: 5 * FX_SCALE }),
            emitter_shape: EmitterShape::circle(JitteredValue::new(Fx { raw: 0 })),
            initial_speed: JitteredValue::new(Fx { raw: FX_SCALE }),
            velocity_modifiers: Vec::new(),
            lifetime: JitteredValue::new(Fx { raw: 5 * FX_SCALE }),
            color: ColorOverTime::Constant(FxColor::white()),
            initial_scale: JitteredValue::new(Fx { raw: FX_SCALE }),
            scale: ValueOverTime::Constant(Fx { raw: FX_SCALE }),
            initial_rotation: JitteredValue::new(Fx { raw: 0 }),
            rotation_speed: JitteredValue::new(Fx { raw: 0 }),
            rotate_to_movement_direction: false,
            looping: true,
            system_duration_seconds: Fx { raw: 5 * FX_SCALE },
            max_distance: Option::None,
            z_value_override: Option::None,
            bursts: Vec::new(),
            space: ParticleSpace::World,
            use_scaled_time: true,
            despawn_on_finish: false,
            despawn_particles_with_system: false,
        }
    }
}

/// One live particle: the value copies taken from its emitter at spawn,
/// so that it is self-sufficient afterward.
#[derive(Clone, Debug)]
pub struct Particle {
    /// The emitter entity this particle came from; a back-reference only.
    pub parent_system: EntityId,
    /// The particle's total lifetime; once its age reaches this it is
    /// removed.
    pub max_lifetime: Fx,
    /// Optional cap on traveled distance, in linear units.
    pub max_distance: Option<Fx>,
    /// Whether the particle's clock follows the scalable virtual clock.
    pub use_scaled_time: bool,
    /// The scale drawn at spawn, multiplied with the scale curve.
    pub initial_scale: Fx,
    /// The scale curve over the particle's lifetime fraction.
    pub scale: ValueOverTime,
    /// The velocity modifiers, applied in order every tick.
    pub velocity_modifiers: Vec<VelocityModifier>,
    /// Rotation speed about the z axis, in radians per second.
    pub rotation_speed: Fx,
    /// Whether the particle is removed when its emitter is gone.
    pub despawn_with_parent: bool,
}

impl Particle {
    /// The copied curves and modifiers can all be evaluated.
    pub open spec fn wf(&self) -> bool {
        &&& self.scale.wf()
        &&& (forall|i: int|
            0 <= i < self.velocity_modifiers.len() ==> (
            #[trigger] self.velocity_modifiers[i]).wf())
    }
}

impl Default for Particle {
    /// A placeholder particle: unit scale, no modifiers, zero lifetime.
    fn default() -> (r: Particle)
        ensures
            r.parent_system == EntityId(0),
            r.max_lifetime.raw == 0,
            r.max_distance == Option::<Fx>::None,
            r.use_scaled_time == true,
            r.initial_scale.raw == FX_SCALE,
            r.rotation_speed.raw == 0,
            r.despawn_with_parent == false,
            r.velocity_modifiers.len() == 0,
            r.wf(),
    {
        Particle {
            parent_system: EntityId(0),
            max_lifetime: Fx { raw: 0 },
            max_distance: Option::None,
            use_scaled_time: true,
            initial_scale: Fx { raw: FX_SCALE },
            scale: ValueOverTime::Constant(Fx { raw: FX_SCALE }),
            velocity_modifiers: Vec::new(),
            rotation_speed: Fx { raw: 0 },
            despawn_with_parent: false,
        }
    }
}

/// The color course an individual particle follows; gradients advance
/// their own scan hint as the particle ages.
#[derive(Clone, Debug)]
pub struct ParticleColor(pub ColorOverTime);

/// How long a particle has been alive, in seconds.
#[derive(Clone, Copy, Debug, PartialEq, Eq, Structural)]
pub struct Lifetime(pub Fx);

/// How far a particle has moved since spawning.
///
/// The squared distance is kept instead of the distance itself, so the
/// comparison against the squared cap avoids a square root.
#[derive(Clone, Copy, Debug, PartialEq, Eq, Structural)]
pub struct DistanceTraveled {
    /// Squared distance from the spawn point.
    pub dist_squared: Fx,
    /// Where the particle spawned.
    pub from: FxVec3,
}

/// The current velocity of a particle.
#[derive(Clone, Copy, Debug, PartialEq, Eq, Structural)]
pub struct Velocity(pub FxVec3);

/// What a velocity constrained to the plane works out to: the planar part
/// is re-aimed to unit length and scaled by the full vector's speed, so
/// the z component is dropped without losing speed.
pub open spec fn velocity_new_spec(velocity: FxVec3, ignore_z: bool) -> FxVec3 {
    if ignore_z {
        let planar = FxVec3 { x: velocity.x, y: velocity.y, z: Fx { raw: 0 } };
        crate::vecmath::v3_scale_spec(
            crate::vecmath::v3_direction_spec(planar),
            Fx { raw: crate::fixed::fx_sqrt_spec(crate::vecmath::v3_length_squared_spec(velocity)) as i64 },
        )
    } else {
        velocity
    }
}

impl Velocity {
    /// A velocity from a vector; with `ignore_z` the motion is confined to
    /// the x/y plane while keeping the vector's speed, so a 2D particle
    /// stays at a constant depth.
    pub fn new(velocity: FxVec3, ignore_z: bool) -> (r: Velocity)
        ensures
            r.0 == velocity_new_spec(velocity, ignore_z),
    {
        if ignore_z {
            let planar: FxVec3 = FxVec3 { x: velocity.x, y: velocity.y, z: Fx { raw: 0 } };
            let dir: FxVec3 = {
                let lsq: Fx = crate::vecmath::v3_length_squared(planar);
                let speed: Fx = crate::fixed::fx_sqrt(lsq);
                crate::vecmath::v3_div_scalar(planar, speed)
            };
            let full_speed: Fx = {
                let lsq: Fx = crate::vecmath::v3_length_squared(velocity);
                crate::fixed::fx_sqrt(lsq)
            };
            Velocity(crate::vecmath::v3_scale(dir, full_speed))
        } else {
            Velocity(velocity)
        }
    }
}

/// Marker for an emitter that is currently playing.
#[derive(Clone, Copy, Debug, PartialEq, Eq, Structural)]
pub struct Playing;

/// The running clock of an emitter within its current cycle.
#[derive(Clone, Copy, Debug, PartialEq, Eq, Structural)]
pub struct RunningState {
    /// Seconds since the cycle began; wraps at the duration when looping.
    pub running_time: Fx,
    /// The whole second the spawn-rate accounting window is in.
    pub current_second: Fx,
    /// Particles spawned by the rate within the current second; reset when
    /// the second rolls over.
    pub spawned_this_second: usize,
}

impl RunningState {
    /// The clock never runs backward past zero.
    pub open spec fn wf(&self) -> bool {
        self.running_time.raw >= 0 && self.current_second.raw >= 0
    }
}

impl Default for RunningState {
    /// A clock at the start of its first cycle.
    fn default() -> (r: RunningState)
        ensures
            r.running_time.raw == 0,
            r.current_second.raw == 0,
            r.spawned_this_second == 0,
            r.wf(),
    {
        RunningState {
            running_time: Fx { raw: 0 },
            current_second: Fx { raw: 0 },
            spawned_this_second: 0,
        }
    }
}

/// How many particles of an emitter are currently live.
#[derive(Clone, Copy, Debug, PartialEq, Eq, Structural)]
pub struct ParticleCount(pub usize);

/// Which burst fires next in the emitter's current cycle.
#[derive(Clone, Copy, Debug, PartialEq, Eq, Structural)]
pub struct BurstIndex(pub usize);

/// Everything one emitter needs: its configuration, its placement, and
/// its running counters.
#[derive(Clone, Debug)]
pub struct ParticleSystemBundle {
    /// The emitter's configuration.
    pub particle_system: ParticleSystem,
    /// The emitter's own placement in the world.
    pub global_transform: crate::vecmath::FxTransform,
    /// Live-particle counter.
    pub particle_count: ParticleCount,
    /// The emitter's running clock.
    pub running_state: RunningState,
    /// The next burst to fire.
    pub burst_index: BurstIndex,
}

/// One live particle with all of its mutable state: the copied
/// configuration, its clock, motion, placement and appearance.
#[derive(Clone, Debug)]
pub struct ParticleBundle {
    /// The copied per-particle configuration.
    pub particle: Particle,
    /// Seconds the particle has been alive.
    pub lifetime: Lifetime,
    /// Current velocity.
    pub velocity: Velocity,
    /// Distance bookkeeping relative to the spawn point.
    pub distance: DistanceTraveled,
    /// The color course the particle follows.
    pub color: ParticleColor,
    /// Current placement: position, facing and scale.
    pub transform: crate::vecmath::FxTransform,
    /// The color the particle currently shows.
    pub display_color: FxColor,
    /// The texture-atlas index the particle currently shows.
    pub atlas_index: usize,
    /// The frame animation driving `atlas_index`, if any.
    pub animated: Option<AnimatedIndex>,
}

impl ParticleBundle {
    /// The copied configuration can be evaluated every tick.
    pub open spec fn wf(&self) -> bool {
        &&& self.particle.wf()
        &&& self.color.0.wf()
        &&& (match self.animated {
            Option::Some(a) => a.wf(),
            Option::None => true,
        })
    }
}

} // verus!

//! The per-tick passes: spawning, aging, recoloring, moving, measuring and
//! cleanup.
//!
//! Each pass is an ordinary function over one emitter's state and its
//! particle store; a host loop calls them once per frame, in the documented
//! order. The spawner's counting decisions are deterministic and mirrored
//! exactly at the spec level; only the contents of freshly drawn particles
//! depend on the random source, and the contracts state what holds of every
//! draw.

use vstd::prelude::*;

use crate::components::{
    AnimatedIndex, DistanceTraveled, EntityId, Lifetime, Particle, ParticleBundle, ParticleColor,
    ParticleCount, ParticleSpace, ParticleSystem, ParticleTexture, RunningState, Velocity,
    BurstIndex,
};
use crate::fixed::{
    fx_add, fx_add_spec, fx_cos, fx_div, fx_div_spec, fx_floor, fx_from_usize, fx_mul,
    fx_mul_spec, fx_sin, fx_sub, fx_sub_spec, sat64, usat, usize_sat_add, Fx, FX_HALF, FX_SCALE,
};
use crate::rng::RandomSource;
use crate::values::{
    color_over_time_spec, copy_modifiers, cot_same, jitter_within, value_over_time_spec, vm_same,
    vot_same, AtlasIndex, VelocityModifier,
};
use crate::vecmath::{transform_mul, v3_scale, FxColor, FxTransform, FxVec3};

verus! {

/// Label for the ordered set of update passes that make up one tick.
#[derive(Clone, Copy, Debug, Hash, PartialEq, Eq, Structural)]
pub struct ParticleSystemSet;

/// What the host should do with the emitter entity after a spawner tick.
#[derive(Clone, Copy, Debug, PartialEq, Eq, Structural)]
pub enum EmitterAction {
    /// Keep ticking the emitter.
    Proceed,
    /// The emitter finished with no particles left and wants its entity
    /// removed.
    DespawnEmitter,
    /// The emitter finished with no particles left and should stop playing.
    StopPlaying,
}

/// Largest whole multiple of the scale at or below a nonnegative raw value.
pub open spec fn floor_raw(a: int) -> int {
    a - a % (FX_SCALE as int)
}

/// The clock advance at the start of a spawner tick: the elapsed time grows
/// by the tick's delta, and when the whole second passes more than half a
/// second beyond the accounting window, the window rolls forward and the
/// per-second spawn count resets.
pub open spec fn advance_clock(state: RunningState, delta: Fx) -> RunningState {
    let rt = fx_add_spec(state.running_time.raw as int, delta.raw as int);
    let fl = floor_raw(rt);
    if fl > fx_add_spec(state.current_second.raw as int, FX_HALF as int) {
        RunningState {
            running_time: Fx { raw: rt as i64 },
            current_second: Fx { raw: fl as i64 },
            spawned_this_second: 0,
        }
    } else {
        RunningState {
            running_time: Fx { raw: rt as i64 },
            current_second: state.current_second,
            spawned_this_second: state.spawned_this_second,
        }
    }
}

/// The cycle check: when the elapsed time reaches the duration, a looping
/// emitter wraps its clock, resets its accounting window and rewinds its
/// burst cursor; a non-looping emitter spawns nothing more this tick, and
/// once its last particle is gone asks to be despawned or stopped. The
/// result is the new clock, the new burst cursor, whether spawning may
/// happen this tick, and the action for the host.
pub open spec fn cycle_step(
    sys: ParticleSystem,
    state1: RunningState,
    burst0: usize,
    count0: usize,
) -> (RunningState, usize, bool, EmitterAction) {
    if state1.running_time.raw >= sys.system_duration_seconds.raw {
        if sys.looping {
            let rt = fx_sub_spec(state1.running_time.raw as int, sys.system_duration_seconds.raw as int);
            (
                RunningState {
                    running_time: Fx { raw: rt as i64 },
                    current_second: Fx { raw: floor_raw(rt) as i64 },
                    spawned_this_second: 0,
                },
                0usize,
                true,
                EmitterAction::Proceed,
            )
        } else {
            let action = if count0 == 0 {
                if sys.despawn_on_finish {
                    EmitterAction::DespawnEmitter
                } else {
                    EmitterAction::StopPlaying
                }
            } else {
                EmitterAction::Proceed
            };
            (state1, burst0, false, action)
        }
    } else {
        (state1, burst0, true, EmitterAction::Proceed)
    }
}

/// How many rate-driven particles this tick spawns: the fraction of the
/// current second times the current rate, less what this second already
/// spawned, rounded down, clamped into the remaining budget; a fresh second
/// with a positive rate that would otherwise round to zero spawns one, so a
/// slow emitter is not starved. A burst-only emitter with zero rate spawns
/// none.
pub open spec fn rate_to_spawn(sys: ParticleSystem, state2: RunningState, count0: usize) -> usize {
    let pct = Fx {
        raw: fx_div_spec(state2.running_time.raw as int, sys.system_duration_seconds.raw as int) as i64,
    };
    let rate = value_over_time_spec(sys.spawn_rate_per_second, pct);
    let frac = state2.running_time.raw - floor_raw(state2.running_time.raw as int);
    let prod = fx_mul_spec(frac, rate.raw as int);
    let d = fx_sub_spec(prod, sat64(state2.spawned_this_second * (FX_SCALE as int)));
    let base = if d <= 0 {
        0int
    } else {
        d / (FX_SCALE as int)
    };
    let remaining = sys.max_particles - count0;
    let clamped = if base > remaining {
        remaining
    } else {
        base
    };
    if clamped == 0 && state2.spawned_this_second == 0 && count0 < sys.max_particles
        && rate.raw > 0 {
        1usize
    } else {
        clamped as usize
    }
}

/// The burst check: when the next burst's time has come, its whole count is
/// added on top of the rate spawns and the cursor moves on; at most one
/// burst fires per tick. Returns the extra count and the new cursor.
pub open spec fn burst_fire(sys: ParticleSystem, state2: RunningState, burst: usize) -> (
    usize,
    usize,
) {
    if burst < sys.bursts.len() && state2.running_time.raw >= sys.bursts[burst as int].time.raw {
        (sys.bursts[burst as int].count, (burst + 1) as usize)
    } else {
        (0usize, burst)
    }
}

/// One whole spawner tick over an emitter's counters: the clock advance,
/// the cycle check, the rate and burst counts, and the counter updates.
/// Returns the new clock, the new burst cursor, the new live count, how
/// many particles were created, and the action for the host.
pub open spec fn spawn_step_spec(
    sys: ParticleSystem,
    state0: RunningState,
    burst0: usize,
    count0: usize,
    scaled_delta: Fx,
    raw_delta: Fx,
) -> (RunningState, usize, usize, int, EmitterAction) {
    let delta = if sys.use_scaled_time {
        scaled_delta
    } else {
        raw_delta
    };
    let state1 = advance_clock(state0, delta);
    let cyc = cycle_step(sys, state1, burst0, count0);
    if !cyc.2 {
        (cyc.0, cyc.1, count0, 0int, cyc.3)
    } else if count0 >= sys.max_particles {
        (cyc.0, cyc.1, count0, 0int, EmitterAction::Proceed)
    } else {
        let to_spawn = rate_to_spawn(sys, cyc.0, count0);
        let bf = burst_fire(sys, cyc.0, cyc.1);
        let state3 = RunningState {
            running_time: cyc.0.running_time,
            current_second: cyc.0.current_second,
            spawned_this_second: usat(cyc.0.spawned_this_second + to_spawn) as usize,
        };
        (
            state3,
            bf.1,
            usat(count0 + to_spawn + bf.0) as usize,
            to_spawn + bf.0,
            EmitterAction::Proceed,
        )
    }
}

/// What is known of every particle the spawner creates for an emitter: the
/// configuration is copied by value, the drawn quantities lie within their
/// configured jitter ranges, the clock and distance start at zero, and the
/// first displayed color is the course's value at zero.
pub open spec fn spawned_ok(
    sys: ParticleSystem,
    entity: EntityId,
    p: ParticleBundle,
) -> bool {
    &&& p.particle.parent_system == entity
    &&& p.particle.max_distance == sys.max_distance
    &&& p.particle.use_scaled_time == sys.use_scaled_time
    &&& p.particle.despawn_with_parent == sys.despawn_particles_with_system
    &&& vot_same(p.particle.scale, sys.scale)
    &&& p.particle.velocity_modifiers.len() == sys.velocity_modifiers.len()
    &&& (forall|i: int|
        0 <= i < sys.velocity_modifiers.len() ==> vm_same(
            #[trigger] p.particle.velocity_modifiers[i],
            sys.velocity_modifiers[i],
        ))
    &&& jitter_within(sys.lifetime, p.particle.max_lifetime)
    &&& jitter_within(sys.rotation_speed, p.particle.rotation_speed)
    &&& jitter_within(sys.initial_scale, p.particle.initial_scale)
    &&& p.lifetime.0.raw == 0
    &&& p.distance.dist_squared.raw == 0
    &&& p.distance.from == p.transform.translation
    &&& cot_same(p.color.0, sys.color)
    &&& p.display_color == color_over_time_spec(sys.color, Fx { raw: 0 })
    &&& (sys.wf() ==> p.wf())
}

/// The spawner pass for one emitter: advance its clock, decide how many
/// particles the rate and the pending burst owe this tick, and append that
/// many freshly drawn particles to the store. All counting is exactly
/// [`spawn_step_spec`]; existing particles are untouched; every appended
/// particle satisfies [`spawned_ok`].
#[verifier::loop_isolation(false)]
pub fn particle_spawner(
    entity: EntityId,
    particle_system: &ParticleSystem,
    global_transform: &FxTransform,
    particle_count: &mut ParticleCount,
    running_state: &mut RunningState,
    burst_index: &mut BurstIndex,
    scaled_delta: Fx,
    raw_delta: Fx,
    rng: &mut RandomSource,
    particles: &mut Vec<ParticleBundle>,
) -> (action: EmitterAction)
    requires
        particle_system.wf(),
        old(running_state).wf(),
        scaled_delta.raw >= 0,
        raw_delta.raw >= 0,
    ensures
        ({
            let step = spawn_step_spec(
                *particle_system,
                *old(running_state),
                old(burst_index).0,
                old(particle_count).0,
                scaled_delta,
                raw_delta,
            );
            &&& *final(running_state) == step.0
            &&& final(burst_index).0 == step.1
            &&& final(particle_count).0 == step.2
            &&& final(particles)@.len() == old(particles)@.len() + step.3
            &&& action == step.4
        }),
        final(running_state).wf(),
        forall|k: int|
            0 <= k < old(particles)@.len() ==> final(particles)@[k] == old(particles)@[k],
        forall|k: int|
            old(particles)@.len() <= k < final(particles)@.len() ==> spawned_ok(
                *particle_system,
                entity,
                #[trigger] final(particles)@[k],
            ),
{
    let ghost state0 = *running_state;
    let ghost burst0 = burst_index.0;
    let ghost count0 = particle_count.0;
    let ghost old_parts = particles@;

    // Advance the clock by the configured flavor of time.
    let delta: Fx = if particle_system.use_scaled_time {
        scaled_delta
    } else {
        raw_delta
    };
    running_state.running_time = fx_add(running_state.running_time, delta);
    let fl: Fx = fx_floor(running_state.running_time);
    if fl.raw > fx_add(running_state.current_second, Fx { raw: FX_HALF }).raw {
        running_state.current_second = fl;
        running_state.spawned_this_second = 0;
    }
    proof {
        assert(*running_state == advance_clock(state0, delta));
    }
    let ghost state1 = *running_state;

    // The cycle check: wrap a looping emitter, finish a non-looping one.
    if running_state.running_time.raw >= particle_system.system_duration_seconds.raw {
        if particle_system.looping {
            running_state.running_time = fx_sub(
                running_state.running_time,
                particle_system.system_duration_seconds,
            );
            running_state.current_second = fx_floor(running_state.running_time);
            running_state.spawned_this_second = 0;
            burst_index.0 = 0;
        } else {
            let action: EmitterAction = if particle_count.0 == 0 {
                if particle_system.despawn_on_finish {
                    EmitterAction::DespawnEmitter
                } else {
                    EmitterAction::StopPlaying
                }
            } else {
                EmitterAction::Proceed
            };
            return action;
        }
    }
    let ghost state2 = *running_state;
    proof {
        assert((state2, burst_index.0, true, EmitterAction::Proceed) == cycle_step(
            *particle_system,
            state1,
            burst0,
            count0,
        ));
    }

    // Backpressure: a full emitter spawns nothing.
    if particle_count.0 >= particle_system.max_particles {
        return EmitterAction::Proceed;
    }

    // The rate decides how many particles this tick owes.
    let pct: Fx = fx_div(running_state.running_time, particle_system.system_duration_seconds);
    let rate: Fx = particle_system.spawn_rate_per_second.at_lifetime_pct(pct);
    let frac: Fx = fx_sub(running_state.running_time, fx_floor(running_state.running_time));
    let prod: Fx = fx_mul(frac, rate);
    let d: Fx = fx_sub(prod, fx_from_usize(running_state.spawned_this_second));
    let remaining: usize = particle_system.max_particles - particle_count.0;
    let mut to_spawn: usize = if d.raw <= 0 {
        0
    } else {
        let base_u: u64 = (d.raw as u64) / (FX_SCALE as u64);
        if base_u > remaining as u64 {
            remaining
        } else {
            base_u as usize
        }
    };

    // The pending burst fires whole once its time has come.
    let mut extra: usize = 0;
    if burst_index.0 < particle_system.bursts.len() {
        let burst_time: Fx = particle_system.bursts[burst_index.0].time;
        if running_state.running_time.raw >= burst_time.raw {
            extra = particle_system.bursts[burst_index.0].count;
            burst_index.0 = burst_index.0 + 1;
        }
    }

    // A fresh second with a positive rate always spawns at least one.
    if to_spawn == 0 && running_state.spawned_this_second == 0 && particle_count.0
        < particle_system.max_particles && rate.raw > 0 {
        to_spawn = 1;
    }
    proof {
        assert(to_spawn == rate_to_spawn(*particle_system, state2, count0));
        assert((extra, burst_index.0) == burst_fire(*particle_system, state2, cycle_step(
            *particle_system,
            state1,
            burst0,
            count0,
        ).1));
    }

    // Materialize the owed particles.
    let total: usize = to_spawn + extra;
    let mut i: usize = 0;
    while i < total
        invariant
            i <= total,
            particles@.len() == old_parts.len() + i,
            forall|k: int| 0 <= k < old_parts.len() ==> particles@[k] == old_parts[k],
            forall|k: int|
                old_parts.len() <= k < particles@.len() ==> spawned_ok(
                    *particle_system,
                    entity,
                    #[trigger] particles@[k],
                ),
        decreases total - i,
    {
        let bundle: ParticleBundle = spawn_one(entity, particle_system, global_transform, rng);
        particles.push(bundle);
        i = i + 1;
    }

    // Bursts do not count toward the per-second rate, but do count toward
    // the particle cap.
    running_state.spawned_this_second = usize_sat_add(running_state.spawned_this_second, to_spawn);
    particle_count.0 = usize_sat_add(particle_count.0, total);
    EmitterAction::Proceed
}

/// One particle after the lifetime pass: its age grows by the tick's delta
/// in the clock flavor it follows; nothing else changes.
pub open spec fn aged(p: ParticleBundle, scaled_delta: Fx, raw_delta: Fx) -> ParticleBundle {
    let delta = if p.particle.use_scaled_time {
        scaled_delta
    } else {
        raw_delta
    };
    ParticleBundle {
        lifetime: Lifetime(Fx { raw: fx_add_spec(p.lifetime.0.raw as int, delta.raw as int) as i64 }),
        ..p
    }
}

/// The lifetime pass: age every particle by the tick's delta.
#[verifier::loop_isolation(false)]
pub fn particle_lifetime(particles: &mut Vec<ParticleBundle>, scaled_delta: Fx, raw_delta: Fx)
    ensures
        final(particles)@.len() == old(particles)@.len(),
        forall|k: int|
            0 <= k < old(particles)@.len() ==> final(particles)@[k] == aged(
                #[trigger] old(particles)@[k],
                scaled_delta,
                raw_delta,
            ),
{
    let n: usize = particles.len();
    let mut i: usize = 0;
    while i < n
        invariant
            i <= n,
            particles@.len() == n,
            forall|k: int|
                0 <= k < i ==> particles@[k] == aged(
                    #[trigger] old(particles)@[k],
                    scaled_delta,
                    raw_delta,
                ),
            forall|k: int| i <= k < n ==> particles@[k] == old(particles)@[k],
        decreases n - i,
    {
        let use_scaled: bool = particles[i].particle.use_scaled_time;
        let delta: Fx = if use_scaled {
            scaled_delta
        } else {
            raw_delta
        };
        let cur: Fx = particles[i].lifetime.0;
        let p: &mut ParticleBundle = &mut particles[i];
        p.lifetime = Lifetime(fx_add(cur, delta));
        i = i + 1;
    }
}

/// The lifetime fraction a particle's color and scale are evaluated at.
pub open spec fn lifetime_pct(p: ParticleBundle) -> Fx {
    Fx { raw: fx_div_spec(p.lifetime.0.raw as int, p.particle.max_lifetime.raw as int) as i64 }
}

/// One particle after a color pass: the color course is the same (only a
/// gradient's scan hint may move) and, on a sorted course, the displayed
/// color is the course's value at the particle's lifetime fraction.
pub open spec fn recolored(p0: ParticleBundle, p1: ParticleBundle) -> bool {
    &&& p1.particle == p0.particle
    &&& p1.lifetime == p0.lifetime
    &&& p1.velocity == p0.velocity
    &&& p1.distance == p0.distance
    &&& p1.transform == p0.transform
    &&& p1.animated == p0.animated
    &&& p0.color.0.same_course(&p1.color.0)
    &&& p1.color.0.wf()
    &&& (p0.color.0.sorted() ==> p1.display_color == color_over_time_spec(
        p0.color.0,
        lifetime_pct(p0),
    ))
}

/// The color pass for plain sprite particles: evaluate each particle's
/// color course at its lifetime fraction and display the result.
#[verifier::loop_isolation(false)]
pub fn particle_sprite_color(particles: &mut Vec<ParticleBundle>)
    requires
        forall|k: int|
            0 <= k < old(particles)@.len() ==> (#[trigger] old(particles)@[k]).color.0.wf(),
    ensures
        final(particles)@.len() == old(particles)@.len(),
        forall|k: int|
            0 <= k < old(particles)@.len() ==> {
                &&& recolored(#[trigger] old(particles)@[k], final(particles)@[k])
                &&& final(particles)@[k].atlas_index == old(particles)@[k].atlas_index
            },
{
    let n: usize = particles.len();
    let mut i: usize = 0;
    while i < n
        invariant
            i <= n,
            particles@.len() == n,
            forall|k: int|
                0 <= k < i ==> {
                    &&& recolored(#[trigger] old(particles)@[k], particles@[k])
                    &&& particles@[k].atlas_index == old(particles)@[k].atlas_index
                },
            forall|k: int| i <= k < n ==> particles@[k] == old(particles)@[k],
        decreases n - i,
    {
        let age: Fx = particles[i].lifetime.0;
        let max_lifetime: Fx = particles[i].particle.max_lifetime;
        let pct: Fx = fx_div(age, max_lifetime);
        let p: &mut ParticleBundle = &mut particles[i];
        let color: FxColor = p.color.0.at_lifetime_pct_mut(pct);
        p.display_color = color;
        i = i + 1;
    }
}

/// The color pass for texture-atlas particles: recolor as in
/// [`particle_sprite_color`], and advance any animated atlas index to the
/// frame its age has reached.
#[verifier::loop_isolation(false)]
pub fn particle_texture_atlas_color(particles: &mut Vec<ParticleBundle>)
    requires
        forall|k: int| 0 <= k < old(particles)@.len() ==> (#[trigger] old(particles)@[k]).wf(),
    ensures
        final(particles)@.len() == old(particles)@.len(),
        forall|k: int|
            0 <= k < old(particles)@.len() ==> {
                &&& recolored(#[trigger] old(particles)@[k], final(particles)@[k])
                &&& (match old(particles)@[k].animated {
                    Option::Some(a) => final(particles)@[k].atlas_index
                        == crate::components::anim_at_time_spec(a, old(particles)@[k].lifetime.0),
                    Option::None => final(particles)@[k].atlas_index == old(
                        particles,
                    )@[k].atlas_index,
                })
            },
{
    let n: usize = particles.len();
    let mut i: usize = 0;
    while i < n
        invariant
            i <= n,
            particles@.len() == n,
            forall|k: int|
                0 <= k < i ==> {
                    &&& recolored(#[trigger] old(particles)@[k], particles@[k])
                    &&& (match old(particles)@[k].animated {
                        Option::Some(a) => particles@[k].atlas_index
                            == crate::components::anim_at_time_spec(
                            a,
                            old(particles)@[k].lifetime.0,
                        ),
                        Option::None => particles@[k].atlas_index == old(
                            particles,
                        )@[k].atlas_index,
                    })
                },
            forall|k: int| i <= k < n ==> particles@[k] == old(particles)@[k],
        decreases n - i,
    {
        let age: Fx = particles[i].lifetime.0;
        let max_lifetime: Fx = particles[i].particle.max_lifetime;
        let pct: Fx = fx_div(age, max_lifetime);
        let p: &mut ParticleBundle = &mut particles[i];
        let color: FxColor = p.color.0.at_lifetime_pct_mut(pct);
        p.display_color = color;
        let frame: Option<usize> = match &p.animated {
            Option::Some(a) => Option::Some(a.get_at_time(age)),
            Option::None => Option::None,
        };
        match frame {
            Option::Some(f) => {
                p.atlas_index = f;
            },
            Option::None => {},
        }
        i = i + 1;
    }
}

/// One modifier applied to a velocity: what the new velocity and the new
/// shared-quantity cache are.
pub open spec fn apply_modifier_spec(
    m: VelocityModifier,
    v: FxVec3,
    ppv: crate::values::PrecalculatedParticleVariables,
    position: FxVec3,
    pct: Fx,
    delta: Fx,
    elapsed: Fx,
) -> (FxVec3, crate::values::PrecalculatedParticleVariables) {
    match m {
        VelocityModifier::Vector(vv) => (
            crate::vecmath::v3_add_spec(
                v,
                crate::vecmath::v3_scale_spec(
                    crate::values::vector_over_time_spec(vv, pct),
                    delta,
                ),
            ),
            ppv,
        ),
        VelocityModifier::Scalar(sv) => {
            let dir = crate::values::ppv_dir_spec(ppv, v);
            (
                crate::vecmath::v3_add_spec(
                    v,
                    crate::vecmath::v3_scale_spec(
                        crate::vecmath::v3_scale_spec(
                            dir.0,
                            value_over_time_spec(sv, pct),
                        ),
                        delta,
                    ),
                ),
                dir.1,
            )
        },
        VelocityModifier::Drag(dv) => {
            let d = value_over_time_spec(dv, pct);
            if d.raw > 0 {
                let sqr = crate::values::ppv_sqr_spec(ppv, v);
                let force = Fx {
                    raw: fx_mul_spec(
                        fx_mul_spec(sqr.0.raw as int, d.raw as int),
                        delta.raw as int,
                    ) as i64,
                };
                let dir = crate::values::ppv_dir_spec(sqr.1, v);
                (
                    crate::vecmath::v3_sub_spec(v, crate::vecmath::v3_scale_spec(dir.0, force)),
                    dir.1,
                )
            } else {
                (v, ppv)
            }
        },
        VelocityModifier::Noise(n) => {
            let offset = crate::vecmath::v2_scale_spec(
                crate::values::noise2d_spec(
                    n,
                    crate::vecmath::FxVec2 { x: position.x, y: position.y },
                    elapsed,
                ),
                delta,
            );
            (
                crate::vecmath::v3_add_spec(
                    v,
                    FxVec3 { x: offset.x, y: offset.y, z: Fx { raw: 0 } },
                ),
                ppv,
            )
        },
    }
}

/// The whole modifier pipeline from index `i` on, folded over the velocity
/// and the shared-quantity cache.
pub open spec fn apply_modifiers_spec(
    ms: Seq<VelocityModifier>,
    i: int,
    v: FxVec3,
    ppv: crate::values::PrecalculatedParticleVariables,
    position: FxVec3,
    pct: Fx,
    delta: Fx,
    elapsed: Fx,
) -> (FxVec3, crate::values::PrecalculatedParticleVariables)
    decreases ms.len() - i,
{
    if i < 0 || i >= ms.len() {
        (v, ppv)
    } else {
        let st = apply_modifier_spec(ms[i], v, ppv, position, pct, delta, elapsed);
        apply_modifiers_spec(ms, i + 1, st.0, st.1, position, pct, delta, elapsed)
    }
}

/// One particle after the transform pass: its velocity has been run through
/// the modifier pipeline, its position has moved by the new velocity over
/// the tick, its scale is the scale course at its lifetime fraction times
/// its initial scale, its facing has turned by its rotation speed over the
/// tick, and its traveled distance is recomputed from the spawn point.
pub open spec fn moved(
    p: ParticleBundle,
    scaled_delta: Fx,
    raw_delta: Fx,
    scaled_elapsed: Fx,
    raw_elapsed: Fx,
) -> ParticleBundle {
    let pct = lifetime_pct(p);
    let delta = if p.particle.use_scaled_time {
        scaled_delta
    } else {
        raw_delta
    };
    let elapsed = if p.particle.use_scaled_time {
        scaled_elapsed
    } else {
        raw_elapsed
    };
    let vm = apply_modifiers_spec(
        p.particle.velocity_modifiers@,
        0,
        p.velocity.0,
        crate::values::PrecalculatedParticleVariables {
            particle_sqr_speed: Option::None,
            particle_speed: Option::None,
            particle_direction: Option::None,
        },
        p.transform.translation,
        pct,
        delta,
        elapsed,
    );
    let new_translation = crate::vecmath::v3_add_spec(
        p.transform.translation,
        crate::vecmath::v3_scale_spec(vm.0, delta),
    );
    let new_scale = Fx {
        raw: fx_mul_spec(
            p.particle.initial_scale.raw as int,
            value_over_time_spec(p.particle.scale, pct).raw as int,
        ) as i64,
    };
    let new_rotation = Fx {
        raw: fx_add_spec(
            p.transform.rotation.raw as int,
            fx_mul_spec(p.particle.rotation_speed.raw as int, delta.raw as int),
        ) as i64,
    };
    ParticleBundle {
        velocity: Velocity(vm.0),
        transform: FxTransform {
            translation: new_translation,
            rotation: new_rotation,
            scale: FxVec3 { x: new_scale, y: new_scale, z: new_scale },
        },
        distance: DistanceTraveled {
            dist_squared: Fx {
                raw: crate::vecmath::v3_distance_squared_spec(
                    new_translation,
                    p.distance.from,
                ) as i64,
            },
            from: p.distance.from,
        },
        ..p
    }
}

/// The transform pass: run every particle's modifier pipeline, integrate
/// its position, update its scale and facing, and recompute its traveled
/// distance from the spawn point (recomputed, not accumulated, so it does
/// not drift).
#[verifier::loop_isolation(false)]
pub fn particle_transform(
    particles: &mut Vec<ParticleBundle>,
    scaled_delta: Fx,
    raw_delta: Fx,
    scaled_elapsed: Fx,
    raw_elapsed: Fx,
)
    requires
        forall|k: int| 0 <= k < old(particles)@.len() ==> (#[trigger] old(particles)@[k]).wf(),
    ensures
        final(particles)@.len() == old(particles)@.len(),
        forall|k: int|
            0 <= k < old(particles)@.len() ==> final(particles)@[k] == moved(
                #[trigger] old(particles)@[k],
                scaled_delta,
                raw_delta,
                scaled_elapsed,
                raw_elapsed,
            ),
{
    let n: usize = particles.len();
    let mut i: usize = 0;
    while i < n
        invariant
            i <= n,
            particles@.len() == n,
            forall|k: int|
                0 <= k < i ==> particles@[k] == moved(
                    #[trigger] old(particles)@[k],
                    scaled_delta,
                    raw_delta,
                    scaled_elapsed,
                    raw_elapsed,
                ),
            forall|k: int| i <= k < n ==> particles@[k] == old(particles)@[k],
        decreases n - i,
    {
        let age: Fx = particles[i].lifetime.0;
        let max_lifetime: Fx = particles[i].particle.max_lifetime;
        let pct: Fx = fx_div(age, max_lifetime);
        let use_scaled: bool = particles[i].particle.use_scaled_time;
        let delta: Fx = if use_scaled {
            scaled_delta
        } else {
            raw_delta
        };
        let elapsed: Fx = if use_scaled {
            scaled_elapsed
        } else {
            raw_elapsed
        };
        let position: FxVec3 = particles[i].transform.translation;
        let ghost ms = particles@[i as int].particle.velocity_modifiers@;
        let ghost v0 = particles@[i as int].velocity.0;

        let mut velocity: FxVec3 = particles[i].velocity.0;
        let mut ppv: crate::values::PrecalculatedParticleVariables =
            crate::values::PrecalculatedParticleVariables::new();
        let ghost ppv0 = ppv;

        let m: usize = particles[i].particle.velocity_modifiers.len();
        let mut j: usize = 0;
        while j < m
            invariant
                j <= m,
                i < n,
                particles@.len() == n,
                particles@[i as int] == old(particles)@[i as int],
                m == ms.len(),
                ms == particles@[i as int].particle.velocity_modifiers@,
                v0 == particles@[i as int].velocity.0,
                crate::values::ppv_wf(ppv),
                apply_modifiers_spec(ms, 0, v0, ppv0, position, pct, delta, elapsed)
                    == apply_modifiers_spec(ms, j as int, velocity, ppv, position, pct, delta, elapsed),
                (forall|k: int| 0 <= k < ms.len() ==> (#[trigger] ms[k]).wf()),
            decreases m - j,
        {
            let modifier: &VelocityModifier = &particles[i].particle.velocity_modifiers[j];
            match modifier {
                VelocityModifier::Vector(vv) => {
                    let acc: FxVec3 = vv.at_lifetime_pct(pct);
                    velocity = crate::vecmath::v3_add(velocity, v3_scale(acc, delta));
                },
                VelocityModifier::Scalar(sv) => {
                    let value: Fx = sv.at_lifetime_pct(pct);
                    let dir: FxVec3 = ppv.get_particle_direction(&velocity);
                    velocity = crate::vecmath::v3_add(
                        velocity,
                        v3_scale(v3_scale(dir, value), delta),
                    );
                },
                VelocityModifier::Drag(dv) => {
                    let current_drag: Fx = dv.at_lifetime_pct(pct);
                    if current_drag.raw > 0 {
                        let sqr: Fx = ppv.get_particle_sqr_speed(&velocity);
                        let force: Fx = fx_mul(fx_mul(sqr, current_drag), delta);
                        let dir: FxVec3 = ppv.get_particle_direction(&velocity);
                        velocity = crate::vecmath::v3_sub(velocity, v3_scale(dir, force));
                    }
                },
                VelocityModifier::Noise(noise) => {
                    let offset: crate::vecmath::FxVec2 = crate::vecmath::v2_scale(
                        noise.sample(
                            crate::vecmath::FxVec2 { x: position.x, y: position.y },
                            elapsed,
                        ),
                        delta,
                    );
                    velocity = crate::vecmath::v3_add(
                        velocity,
                        FxVec3 { x: offset.x, y: offset.y, z: Fx { raw: 0 } },
                    );
                },
            }
            j = j + 1;
        }

        let new_translation: FxVec3 = crate::vecmath::v3_add(position, v3_scale(velocity, delta));
        let scale_v: Fx = particles[i].particle.scale.at_lifetime_pct(pct);
        let initial_scale: Fx = particles[i].particle.initial_scale;
        let new_scale: Fx = fx_mul(initial_scale, scale_v);
        let rotation_speed: Fx = particles[i].particle.rotation_speed;
        let old_rotation: Fx = particles[i].transform.rotation;
        let new_rotation: Fx = fx_add(old_rotation, fx_mul(rotation_speed, delta));
        let from: FxVec3 = particles[i].distance.from;
        let new_dist: Fx = crate::vecmath::v3_distance_squared(new_translation, from);

        let p: &mut ParticleBundle = &mut particles[i];
        p.velocity = Velocity(velocity);
        p.transform = FxTransform {
            translation: new_translation,
            rotation: new_rotation,
            scale: FxVec3 { x: new_scale, y: new_scale, z: new_scale },
        };
        p.distance = DistanceTraveled { dist_squared: new_dist, from };
        i = i + 1;
    }
}

/// Whether the cleanup pass removes a particle: its age has reached its
/// lifetime, or its traveled distance has reached the configured cap
/// (compared as squares), or its emitter is gone and it is set to follow.
pub open spec fn cleanup_removes(p: ParticleBundle, parent_alive: bool) -> bool {
    ||| expired(p)
    ||| (p.particle.despawn_with_parent && !parent_alive)
}

/// Whether a particle's own budgets are exhausted: age at or past the
/// lifetime, or squared traveled distance at or past the squared cap.
pub open spec fn expired(p: ParticleBundle) -> bool {
    ||| p.lifetime.0.raw >= p.particle.max_lifetime.raw
    ||| (match p.particle.max_distance {
        Option::Some(md) => p.distance.dist_squared.raw >= fx_mul_spec(
            md.raw as int,
            md.raw as int,
        ),
        Option::None => false,
    })
}

/// The particles that survive a cleanup pass, in store order.
pub open spec fn surviving(s: Seq<ParticleBundle>, parent_alive: bool) -> Seq<ParticleBundle>
    decreases s.len(),
{
    if s.len() == 0 {
        Seq::empty()
    } else {
        let rest = surviving(s.drop_last(), parent_alive);
        if cleanup_removes(s.last(), parent_alive) {
            rest
        } else {
            rest.push(s.last())
        }
    }
}

/// The live counter after a cleanup pass: one decrement for each particle
/// whose own budgets expired, never dropping below zero. A particle that
/// only follows its vanished emitter does not decrement the counter.
pub open spec fn count_after_cleanup(c: int, s: Seq<ParticleBundle>, i: int) -> int
    decreases s.len() - i,
{
    if i < 0 || i >= s.len() {
        c
    } else {
        let c1 = if expired(s[i]) {
            if c > 0 {
                c - 1
            } else {
                0int
            }
        } else {
            c
        };
        count_after_cleanup(c1, s, i + 1)
    }
}

/// The cleanup pass: remove every particle whose lifetime or distance
/// budget is exhausted, or whose emitter is gone and whose configuration
/// says to follow it; decrement the live counter once per expired particle,
/// never below zero. Runs after the other passes, so a particle's final
/// frame is still consistent before removal.
#[verifier::loop_isolation(false)]
pub fn particle_cleanup(
    particles: &mut Vec<ParticleBundle>,
    particle_count: &mut ParticleCount,
    parent_alive: bool,
)
    ensures
        final(particles)@ == surviving(old(particles)@, parent_alive),
        final(particle_count).0 == count_after_cleanup(
            old(particle_count).0 as int,
            old(particles)@,
            0,
        ),
{
    let n: usize = particles.len();
    let mut out: Vec<ParticleBundle> = Vec::new();
    let mut i: usize = 0;
    while i < n
        invariant
            i <= n,
            particles@ == old(particles)@.subrange(i as int, n as int),
            out@ == surviving(old(particles)@.subrange(0, i as int), parent_alive),
            particle_count.0 == count_after_cleanup(
                old(particle_count).0 as int,
                old(particles)@.subrange(0, i as int),
                0,
            ),
        decreases n - i,
    {
        let ghost prefix = old(particles)@.subrange(0, i as int);
        let ghost prefix1 = old(particles)@.subrange(0, i + 1);
        proof {
            assert(prefix1.drop_last() =~= prefix);
            assert(prefix1.last() == old(particles)@[i as int]);
            lemma_count_snoc(old(particle_count).0 as int, prefix1);
        }
        let p: ParticleBundle = particles.remove(0);
        proof {
            assert(particles@ =~= old(particles)@.subrange(i + 1, n as int));
        }
        let is_expired: bool = if p.lifetime.0.raw >= p.particle.max_lifetime.raw {
            true
        } else {
            match p.particle.max_distance {
                Option::Some(md) => {
                    let cap: Fx = fx_mul(md, md);
                    p.distance.dist_squared.raw >= cap.raw
                },
                Option::None => false,
            }
        };
        if is_expired {
            if particle_count.0 > 0 {
                particle_count.0 = particle_count.0 - 1;
            }
        } else if p.particle.despawn_with_parent && !parent_alive {
            // Removed without touching the counter: the emitter is gone.
        } else {
            out.push(p);
        }
        i = i + 1;
    }
    proof {
        assert(old(particles)@.subrange(0, n as int) =~= old(particles)@);
    }
    *particles = out;
}

/// Folding the counter over a sequence with one more particle at the end
/// decrements last exactly when that particle expired.
proof fn lemma_count_snoc(c: int, s: Seq<ParticleBundle>)
    requires
        s.len() > 0,
    ensures
        count_after_cleanup(c, s, 0) == ({
            let c1 = count_after_cleanup(c, s.drop_last(), 0);
            if expired(s.last()) {
                if c1 > 0 {
                    c1 - 1
                } else {
                    0int
                }
            } else {
                c1
            }
        }),
{
    lemma_count_snoc_at(c, s, 0);
}

/// The counter fold from any index treats the last element last.
proof fn lemma_count_snoc_at(c: int, s: Seq<ParticleBundle>, i: int)
    requires
        s.len() > 0,
        0 <= i < s.len(),
    ensures
        count_after_cleanup(c, s, i) == ({
            let c1 = count_after_cleanup(c, s.drop_last(), i);
            if expired(s.last()) {
                if c1 > 0 {
                    c1 - 1
                } else {
                    0int
                }
            } else {
                c1
            }
        }),
    decreases s.len() - i,
{
    if i == s.len() - 1 {
        assert(s.drop_last().len() == i);
        let c1 = if expired(s[i]) {
            if c > 0 {
                c - 1
            } else {
                0int
            }
        } else {
            c
        };
        assert(count_after_cleanup(c1, s, i + 1) == c1);
        assert(count_after_cleanup(c, s.drop_last(), i) == c);
        assert(s.last() == s[i]);
    } else {
        assert(s.drop_last()[i] == s[i]);
        let c1 = if expired(s[i]) {
            if c > 0 {
                c - 1
            } else {
                0int
            }
        } else {
            c
        };
        lemma_count_snoc_at(c1, s, i + 1);
    }
}

/// A draw-ready record of one live particle, in the shape a renderer
/// consumes: placement, color and atlas cell.
#[derive(Clone, Copy, Debug, PartialEq, Eq, Structural)]
pub struct ParticleInstance {
    /// Where the particle is.
    pub position: FxVec3,
    /// How far it has turned about the z axis.
    pub rotation: Fx,
    /// Its per-axis scale.
    pub scale: FxVec3,
    /// The color it currently shows.
    pub color: FxColor,
    /// The texture-atlas cell it currently shows.
    pub atlas_index: usize,
}

/// The draw-ready record of one particle.
pub open spec fn instance_of(p: ParticleBundle) -> ParticleInstance {
    ParticleInstance {
        position: p.transform.translation,
        rotation: p.transform.rotation,
        scale: p.transform.scale,
        color: p.display_color,
        atlas_index: p.atlas_index,
    }
}

/// The render-facing output pass: one draw-ready record per live particle,
/// in store order.
#[verifier::loop_isolation(false)]
pub fn collect_instances(particles: &Vec<ParticleBundle>) -> (out: Vec<ParticleInstance>)
    ensures
        out@.len() == particles@.len(),
        forall|k: int|
            0 <= k < particles@.len() ==> out@[k] == instance_of(#[trigger] particles@[k]),
{
    let n: usize = particles.len();
    let mut out: Vec<ParticleInstance> = Vec::new();
    let mut i: usize = 0;
    while i < n
        invariant
            i <= n,
            out@.len() == i,
            forall|k: int| 0 <= k < i ==> out@[k] == instance_of(#[trigger] particles@[k]),
        decreases n - i,
    {
        let inst: ParticleInstance = ParticleInstance {
            position: particles[i].transform.translation,
            rotation: particles[i].transform.rotation,
            scale: particles[i].transform.scale,
            color: particles[i].display_color,
            atlas_index: particles[i].atlas_index,
        };
        out.push(inst);
        i = i + 1;
    }
    out
}

/// The counter a cleanup pass leaves is never negative and never grows.
pub proof fn lemma_cleanup_count_bounds(c: int, s: Seq<ParticleBundle>, i: int)
    requires
        c >= 0,
        0 <= i,
    ensures
        0 <= count_after_cleanup(c, s, i) <= c,
    decreases s.len() - i,
{
    if i < s.len() {
        let c1 = if expired(s[i]) {
            if c > 0 {
                c - 1
            } else {
                0int
            }
        } else {
            c
        };
        lemma_cleanup_count_bounds(c1, s, i + 1);
    }
}

/// When the counter going into cleanup matches the number of stored
/// particles, the cleanup of an emitter that is still alive keeps them
/// matched: the counter drops by exactly the number of expired particles,
/// which is exactly how many leave the store.
pub proof fn lemma_cleanup_balance(c: int, s: Seq<ParticleBundle>)
    requires
        c >= s.len(),
    ensures
        surviving(s, true).len() <= s.len(),
        count_after_cleanup(c, s, 0) == c - (s.len() - surviving(s, true).len()),
    decreases s.len(),
{
    if s.len() > 0 {
        lemma_cleanup_balance(c, s.drop_last());
        lemma_count_snoc(c, s);
        assert(cleanup_removes(s.last(), true) == expired(s.last()));
    }
}

/// One whole frame for one emitter, in the documented pass order: spawn,
/// age, recolor (with atlas animation), move and measure, then clean up.
/// The spawner's counting is exactly [`spawn_step_spec`]; cleanup never
/// raises the live counter; and a counter that matches the store size going
/// in still matches it coming out.
#[verifier::loop_isolation(false)]
pub fn tick(
    bundle: &mut crate::components::ParticleSystemBundle,
    particles: &mut Vec<ParticleBundle>,
    entity: EntityId,
    scaled_delta: Fx,
    raw_delta: Fx,
    scaled_elapsed: Fx,
    raw_elapsed: Fx,
    rng: &mut RandomSource,
) -> (action: EmitterAction)
    requires
        old(bundle).particle_system.wf(),
        old(bundle).running_state.wf(),
        scaled_delta.raw >= 0,
        raw_delta.raw >= 0,
        forall|k: int| 0 <= k < old(particles)@.len() ==> (#[trigger] old(particles)@[k]).wf(),
    ensures
        final(bundle).particle_system == old(bundle).particle_system,
        final(bundle).global_transform == old(bundle).global_transform,
        ({
            let step = spawn_step_spec(
                old(bundle).particle_system,
                old(bundle).running_state,
                old(bundle).burst_index.0,
                old(bundle).particle_count.0,
                scaled_delta,
                raw_delta,
            );
            &&& final(bundle).running_state == step.0
            &&& final(bundle).burst_index.0 == step.1
            &&& action == step.4
            &&& final(bundle).particle_count.0 <= step.2
            &&& (old(bundle).particle_count.0 == old(particles)@.len()
                ==> final(bundle).particle_count.0 == final(particles)@.len())
        }),
        final(bundle).running_state.wf(),
        forall|k: int| 0 <= k < final(particles)@.len() ==> (#[trigger] final(particles)@[k]).wf(),
{
    let ghost count0 = bundle.particle_count.0;
    let ghost len0 = particles@.len();
    let action: EmitterAction = particle_spawner(
        entity,
        &bundle.particle_system,
        &bundle.global_transform,
        &mut bundle.particle_count,
        &mut bundle.running_state,
        &mut bundle.burst_index,
        scaled_delta,
        raw_delta,
        rng,
        particles,
    );
    let n1: usize = particles.len();
    let ghost after_spawn = particles@;
    proof {
        assert forall|k: int| 0 <= k < after_spawn.len() implies (#[trigger] after_spawn[k]).wf() by {
            if k < len0 {
                assert(after_spawn[k] == old(particles)@[k]);
            } else {
                assert(spawned_ok(old(bundle).particle_system, entity, after_spawn[k]));
            }
        }
    }
    particle_lifetime(particles, scaled_delta, raw_delta);
    let ghost after_age = particles@;
    proof {
        assert forall|k: int| 0 <= k < after_age.len() implies (#[trigger] after_age[k]).wf() by {
            assert(after_age[k] == aged(after_spawn[k], scaled_delta, raw_delta));
            assert(after_spawn[k].wf());
        }
    }
    particle_texture_atlas_color(particles);
    let ghost after_color = particles@;
    proof {
        assert forall|k: int| 0 <= k < after_color.len() implies (#[trigger] after_color[k]).wf() by {
            assert(recolored(after_age[k], after_color[k]));
            assert(after_age[k].wf());
        }
    }
    particle_transform(particles, scaled_delta, raw_delta, scaled_elapsed, raw_elapsed);
    let ghost pre_cleanup = particles@;
    proof {
        assert forall|k: int| 0 <= k < pre_cleanup.len() implies (#[trigger] pre_cleanup[k]).wf() by {
            assert(pre_cleanup[k] == moved(
                after_color[k],
                scaled_delta,
                raw_delta,
                scaled_elapsed,
                raw_elapsed,
            ));
            assert(after_color[k].wf());
        }
    }
    let ghost count1 = bundle.particle_count.0;
    particle_cleanup(particles, &mut bundle.particle_count, true);
    proof {
        lemma_cleanup_count_bounds(count1 as int, pre_cleanup, 0);
        if count0 == len0 {
            assert(count1 == len0 + spawn_step_spec(
                old(bundle).particle_system,
                old(bundle).running_state,
                old(bundle).burst_index.0,
                old(bundle).particle_count.0,
                scaled_delta,
                raw_delta,
            ).3);
            lemma_cleanup_balance(count1 as int, pre_cleanup);
        }
        lemma_surviving_wf(pre_cleanup, true);
    }
        action
}

/// Survivors of a cleanup pass are drawn from the cleaned store, so any
/// property of every stored particle holds of every survivor.
proof fn lemma_surviving_wf(s: Seq<ParticleBundle>, parent_alive: bool)
    requires
        forall|k: int| 0 <= k < s.len() ==> (#[trigger] s[k]).wf(),
    ensures
        forall|k: int|
            0 <= k < surviving(s, parent_alive).len() ==> (#[trigger] surviving(
                s,
                parent_alive,
            )[k]).wf(),
    decreases s.len(),
{
    if s.len() > 0 {
        assert(forall|k: int|
            0 <= k < s.drop_last().len() ==> (#[trigger] s.drop_last()[k]).wf());
        lemma_surviving_wf(s.drop_last(), parent_alive);
        let rest = surviving(s.drop_last(), parent_alive);
        assert(s.last().wf());
        assert forall|k: int|
            0 <= k < surviving(s, parent_alive).len() implies (#[trigger] surviving(
            s,
            parent_alive,
        )[k]).wf() by {
            if cleanup_removes(s.last(), parent_alive) {
                assert(surviving(s, parent_alive)[k] == rest[k]);
            } else {
                if k < rest.len() {
                    assert(surviving(s, parent_alive)[k] == rest[k]);
                } else {
                    assert(surviving(s, parent_alive)[k] == s.last());
                }
            }
        }
    }
}

/// Draw one particle for an emitter: sample the shape, compose with the
/// emitter's placement in world space (or stay emitter-local), draw the
/// initial kinematics, and copy the per-particle configuration by value.
fn spawn_one(
    entity: EntityId,
    particle_system: &ParticleSystem,
    global_transform: &FxTransform,
    rng: &mut RandomSource,
) -> (bundle: ParticleBundle)
    requires
        particle_system.wf(),
    ensures
        spawned_ok(*particle_system, entity, bundle),
{
    let origin: FxTransform = match particle_system.space {
        ParticleSpace::Local => FxTransform::identity(),
        ParticleSpace::World => *global_transform,
    };
    let spawn_pos: FxTransform = particle_system.emitter_shape.sample(rng);
    let mut spawn_point: FxTransform = transform_mul(origin, spawn_pos);

    // The movement direction faces the way the spawn placement points.
    let direction: FxVec3 = FxVec3 {
        x: fx_cos(spawn_point.rotation),
        y: fx_sin(spawn_point.rotation),
        z: Fx { raw: 0 },
    };

    let z_val: Fx = match &particle_system.z_value_override {
        Option::Some(j) => j.get_value(rng),
        Option::None => Fx { raw: 0 },
    };
    spawn_point.translation.z = z_val;

    let initial_scale: Fx = particle_system.initial_scale.get_value(rng);
    let scale_at_start: Fx = particle_system.scale.at_lifetime_pct(Fx { raw: 0 });
    let particle_scale: Fx = fx_mul(initial_scale, scale_at_start);
    spawn_point.scale = FxVec3::splat(particle_scale);

    let initial_rotation: Fx = particle_system.initial_rotation.get_value(rng);
    if particle_system.rotate_to_movement_direction {
        spawn_point.rotate_z(initial_rotation);
    } else {
        spawn_point.rotation = initial_rotation;
    }

    let speed: Fx = particle_system.initial_speed.get_value(rng);
    let velocity: Velocity = Velocity::new(v3_scale(direction, speed), true);

    let max_lifetime: Fx = particle_system.lifetime.get_value(rng);
    let rotation_speed: Fx = particle_system.rotation_speed.get_value(rng);
    let display_color: FxColor = particle_system.color.at_lifetime_pct(Fx { raw: 0 });

    let mut atlas_index: usize = 0;
    let mut animated: Option<AnimatedIndex> = Option::None;
    match &particle_system.texture {
        ParticleTexture::Sprite(_) => {},
        ParticleTexture::TextureAtlas { atlas: _, index } => {
            atlas_index = index.get_value(rng);
            match index {
                AtlasIndex::Animated(a) => {
                    animated = Option::Some(a.duplicate());
                },
                _ => {},
            }
        },
    }

    ParticleBundle {
        particle: Particle {
            parent_system: entity,
            max_lifetime,
            max_distance: particle_system.max_distance,
            use_scaled_time: particle_system.use_scaled_time,
            initial_scale,
            scale: particle_system.scale.duplicate(),
            velocity_modifiers: copy_modifiers(&particle_system.velocity_modifiers),
            rotation_speed,
            despawn_with_parent: particle_system.despawn_particles_with_system,
        },
        lifetime: Lifetime(Fx { raw: 0 }),
        velocity,
        distance: DistanceTraveled { dist_squared: Fx { raw: 0 }, from: spawn_point.translation },
        color: ParticleColor(particle_system.color.duplicate()),
        transform: spawn_point,
        display_color,
        atlas_index,
        animated,
    }
}

} // verus!

//! Laws of the simulation that relate several functions: the spawn cap and
//! drag's effect on speed, proved over the same spec functions the
//! executable contracts use.

use vstd::prelude::*;

use crate::components::{ParticleSystem, RunningState};
use crate::fixed::{fx_mul_spec, fx_sqrt_spec, iabs, sat64, tdiv, usat, Fx, FX_SCALE};
use crate::systems::{apply_modifier_spec, burst_fire, cycle_step, rate_to_spawn, spawn_step_spec};
use crate::values::{
    value_over_time_spec, PrecalculatedParticleVariables, ValueOverTime, VelocityModifier,
};
use crate::vecmath::{v3_length_squared_spec, FxVec3};

verus! {

/// The spawn cap invariant: a spawner tick of an emitter without bursts
/// never lifts the live count above the configured maximum. (A burst is
/// added whole on top of the rate spawns, so an emitter whose bursts are
/// larger than its remaining budget can exceed the cap; once above it, the
/// emitter spawns nothing until cleanup frees room.)
pub proof fn lemma_spawn_cap(
    sys: ParticleSystem,
    state0: RunningState,
    burst0: usize,
    count0: usize,
    scaled_delta: Fx,
    raw_delta: Fx,
)
    requires
        sys.bursts.len() == 0,
        count0 <= sys.max_particles,
    ensures
        spawn_step_spec(sys, state0, burst0, count0, scaled_delta, raw_delta).2
            <= sys.max_particles,
{
    let delta = if sys.use_scaled_time {
        scaled_delta
    } else {
        raw_delta
    };
    let state1 = crate::systems::advance_clock(state0, delta);
    let cyc = cycle_step(sys, state1, burst0, count0);
    if cyc.2 && count0 < sys.max_particles {
        let to_spawn = rate_to_spawn(sys, cyc.0, count0);
        let bf = burst_fire(sys, cyc.0, cyc.1);
        assert(bf.0 == 0);
        assert(to_spawn <= sys.max_particles - count0);
        assert(usat(count0 + to_spawn + 0) == count0 + to_spawn);
    }
}

/// The burst cursor moves forward one burst at a time and rewinds only at
/// the cycle wrap: a spawner tick that wraps a looping emitter leaves the
/// cursor at 0 or, if the fresh cycle's first burst fires in the same
/// tick, at 1; any other tick leaves it in place or advances it by one.
pub proof fn lemma_burst_cursor_step(
    sys: ParticleSystem,
    state0: RunningState,
    burst0: usize,
    count0: usize,
    scaled_delta: Fx,
    raw_delta: Fx,
)
    ensures
        ({
            let delta = if sys.use_scaled_time {
                scaled_delta
            } else {
                raw_delta
            };
            let state1 = crate::systems::advance_clock(state0, delta);
            let wrapped = state1.running_time.raw >= sys.system_duration_seconds.raw
                && sys.looping;
            let step = spawn_step_spec(sys, state0, burst0, count0, scaled_delta, raw_delta);
            if wrapped {
                step.1 <= 1
            } else {
                step.1 == burst0 || step.1 == burst0 + 1
            }
        }),
{
}

/// Clamping into the machine range never grows a magnitude.
proof fn lemma_sat_shrinks(x: int)
    ensures
        iabs(sat64(x)) <= iabs(x),
        x >= 0 ==> sat64(x) >= 0,
        x <= 0 ==> sat64(x) <= 0,
{
}

/// The magnitude of a truncating quotient is the quotient of magnitudes.
proof fn lemma_tdiv_mag(a: int, b: int)
    requires
        b != 0,
    ensures
        iabs(tdiv(a, b)) == iabs(a) / iabs(b),
        a >= 0 && b > 0 ==> tdiv(a, b) >= 0,
        a <= 0 && b > 0 ==> tdiv(a, b) <= 0,
{
    vstd::arithmetic::div_mod::lemma_div_pos_is_pos(iabs(a), iabs(b));
}

/// Magnitudes multiply.
proof fn lemma_iabs_mul(a: int, b: int)
    ensures
        iabs(a * b) == iabs(a) * iabs(b),
{
    if a >= 0 {
        if b >= 0 {
            assert(a * b >= 0) by (nonlinear_arith)
                requires
                    a >= 0,
                    b >= 0;
        } else {
            assert(a * b <= 0 && a * (-b) == -(a * b)) by (nonlinear_arith)
                requires
                    a >= 0,
                    b < 0;
        }
    } else {
        if b >= 0 {
            assert(a * b <= 0 && (-a) * b == -(a * b)) by (nonlinear_arith)
                requires
                    a < 0,
                    b >= 0;
        } else {
            assert(a * b >= 0 && (-a) * (-b) == a * b) by (nonlinear_arith)
                requires
                    a < 0,
                    b < 0;
        }
    }
}

/// A product of nonnegative scalars stays nonnegative through the
/// fixed-point rescaling.
proof fn lemma_fx_mul_nonneg(a: int, b: int)
    requires
        a >= 0,
        b >= 0,
    ensures
        fx_mul_spec(a, b) >= 0,
{
    assert(a * b >= 0) by (nonlinear_arith)
        requires
            a >= 0,
            b >= 0;
    lemma_tdiv_mag(a * b, FX_SCALE as int);
    lemma_sat_shrinks(tdiv(a * b, FX_SCALE as int));
}

/// One velocity component after a non-overshooting drag impulse is no
/// larger in magnitude and keeps its sign: the heading component is the
/// component over the speed, the impulse subtracted is the heading times
/// the force, and with `force <= speed` the subtraction cannot cross zero
/// by more than it started with.
proof fn lemma_drag_component(vi: int, speed: int, force: int)
    requires
        -0x8000_0000_0000_0000 <= vi <= 0x7fff_ffff_ffff_ffff,
        speed >= 0,
        0 <= force <= speed,
    ensures
        ({
            let dir = crate::fixed::fx_div_spec(vi, speed);
            let sub = fx_mul_spec(dir, force);
            let new = crate::fixed::fx_sub_spec(vi, sub);
            iabs(new) <= iabs(vi)
        }),
{
    let s = FX_SCALE as int;
    let dir = crate::fixed::fx_div_spec(vi, speed);
    let sub = fx_mul_spec(dir, force);
    if speed == 0 {
        assert(dir == 0);
        assert(0 * force == 0) by (nonlinear_arith);
        assert(tdiv(0, s) == 0) by {
            vstd::arithmetic::div_mod::lemma_div_of0(s);
        }
        assert(sub == 0);
        assert(crate::fixed::fx_sub_spec(vi, 0) == vi);
    } else {
        // The heading component: magnitude |vi| * scale / speed, sign of vi.
        let q = tdiv(vi * s, speed);
        lemma_iabs_mul(vi, s);
        lemma_tdiv_mag(vi * s, speed);
        assert(iabs(q) == iabs(vi) * s / speed);
        lemma_sat_shrinks(q);
        assert(dir == sat64(q));
        // The subtracted impulse: magnitude |dir| * force / scale.
        let t = tdiv(dir * force, s);
        lemma_iabs_mul(dir, force);
        lemma_tdiv_mag(dir * force, s);
        assert(iabs(t) == iabs(dir) * force / s);
        // The impulse magnitude never exceeds |vi|.
        assert(iabs(t) <= iabs(vi)) by {
            if iabs(t) > iabs(vi) {
                vstd::arithmetic::div_mod::lemma_fundamental_div_mod(iabs(dir) * force, s);
                assert(iabs(t) * s <= iabs(dir) * force) by (nonlinear_arith)
                    requires
                        iabs(t) == iabs(dir) * force / s,
                        s > 0,
                        iabs(dir) * force == s * (iabs(dir) * force / s) + (iabs(dir) * force) % s,
                        (iabs(dir) * force) % s >= 0;
                assert(iabs(dir) * force <= (iabs(vi) * s / speed) * force) by (nonlinear_arith)
                    requires
                        iabs(dir) <= iabs(vi) * s / speed,
                        force >= 0;
                assert((iabs(vi) * s / speed) * force <= (iabs(vi) * s / speed) * speed)
                    by (nonlinear_arith)
                    requires
                        force <= speed,
                        iabs(vi) * s / speed >= 0;
                vstd::arithmetic::div_mod::lemma_fundamental_div_mod(iabs(vi) * s, speed);
                assert((iabs(vi) * s / speed) * speed <= iabs(vi) * s) by (nonlinear_arith)
                    requires
                        speed > 0,
                        iabs(vi) * s == speed * (iabs(vi) * s / speed) + (iabs(vi) * s) % speed,
                        (iabs(vi) * s) % speed >= 0;
                assert((iabs(vi) + 1) * s <= iabs(t) * s) by (nonlinear_arith)
                    requires
                        iabs(t) >= iabs(vi) + 1,
                        s > 0;
                assert(false);
            }
        }
        lemma_sat_shrinks(t);
        assert(iabs(sub) <= iabs(vi));
        // Signs: the impulse points the way the component does.
        if vi >= 0 {
            assert(vi * s >= 0) by (nonlinear_arith)
                requires
                    vi >= 0,
                    s > 0;
            assert(q >= 0 && dir >= 0);
            assert(dir * force >= 0) by (nonlinear_arith)
                requires
                    dir >= 0,
                    force >= 0;
            assert(t >= 0 && sub >= 0);
            assert(0 <= vi - sub <= vi);
        } else {
            assert(vi * s < 0) by (nonlinear_arith)
                requires
                    vi < 0,
                    s > 0;
            assert(q <= 0 && dir <= 0);
            assert(dir * force <= 0) by (nonlinear_arith)
                requires
                    dir <= 0,
                    force >= 0;
            assert(t <= 0 && sub <= 0);
            assert(vi <= vi - sub <= 0);
        }
    }
}

/// Squared length is monotone in the componentwise magnitudes.
proof fn lemma_lsq_monotone(a: FxVec3, b: FxVec3)
    requires
        iabs(a.x.raw as int) <= iabs(b.x.raw as int),
        iabs(a.y.raw as int) <= iabs(b.y.raw as int),
        iabs(a.z.raw as int) <= iabs(b.z.raw as int),
    ensures
        v3_length_squared_spec(a) <= v3_length_squared_spec(b),
{
    lemma_sq_monotone(a.x.raw as int, b.x.raw as int);
    lemma_sq_monotone(a.y.raw as int, b.y.raw as int);
    lemma_sq_monotone(a.z.raw as int, b.z.raw as int);
}

/// A smaller magnitude has a smaller fixed-point square.
proof fn lemma_sq_monotone(a: int, b: int)
    requires
        iabs(a) <= iabs(b),
    ensures
        0 <= fx_mul_spec(a, a) <= fx_mul_spec(b, b),
{
    let s = FX_SCALE as int;
    assert(0 <= a * a && 0 <= b * b && a * a <= b * b) by (nonlinear_arith)
        requires
            iabs(a) <= iabs(b);
    lemma_tdiv_mag(a * a, s);
    lemma_tdiv_mag(b * b, s);
    vstd::arithmetic::div_mod::lemma_div_is_ordered(a * a, b * b, s);
}

/// Drag only ever slows a particle down: under a positive drag value and
/// no other forces, one drag step on a fresh tick cache leaves the squared
/// speed no larger than before, provided the drag impulse does not exceed
/// the speed (a large enough impulse overshoots past zero and may reverse
/// the particle, which the per-tick integration concedes).
pub proof fn lemma_drag_never_speeds_up(
    course: ValueOverTime,
    v: FxVec3,
    position: FxVec3,
    pct: Fx,
    delta: Fx,
    elapsed: Fx,
)
    requires
        delta.raw >= 0,
        value_over_time_spec(course, pct).raw > 0,
        fx_mul_spec(
            fx_mul_spec(v3_length_squared_spec(v), value_over_time_spec(course, pct).raw as int),
            delta.raw as int,
        ) <= fx_sqrt_spec(v3_length_squared_spec(v)),
    ensures
        ({
            let fresh = PrecalculatedParticleVariables {
                particle_sqr_speed: Option::None,
                particle_speed: Option::None,
                particle_direction: Option::None,
            };
            let st = apply_modifier_spec(
                VelocityModifier::Drag(course),
                v,
                fresh,
                position,
                pct,
                delta,
                elapsed,
            );
            v3_length_squared_spec(st.0) <= v3_length_squared_spec(v)
        }),
{
    let d = value_over_time_spec(course, pct);
    let lsq = v3_length_squared_spec(v);
    crate::vecmath::lemma_lsq_nonneg(v);
    let speed = fx_sqrt_spec(lsq);
    crate::fixed::lemma_fx_sqrt_spec_props(lsq);
    let force = fx_mul_spec(fx_mul_spec(lsq, d.raw as int), delta.raw as int);
    lemma_fx_mul_nonneg(lsq, d.raw as int);
    lemma_fx_mul_nonneg(fx_mul_spec(lsq, d.raw as int), delta.raw as int);
    lemma_drag_component(v.x.raw as int, speed, force);
    lemma_drag_component(v.y.raw as int, speed, force);
    lemma_drag_component(v.z.raw as int, speed, force);
    let fresh = PrecalculatedParticleVariables {
        particle_sqr_speed: Option::None,
        particle_speed: Option::None,
        particle_direction: Option::None,
    };
    let st = apply_modifier_spec(
        VelocityModifier::Drag(course),
        v,
        fresh,
        position,
        pct,
        delta,
        elapsed,
    );
    lemma_lsq_monotone(st.0, v);
}

} // verus!

//! Tests for the value models: jitter, curves, waves and interpolation.

use particle_systems::curve::{Curve, CurvePoint};
use particle_systems::fixed::{
    fx_add, fx_cos, fx_div, fx_mul, fx_sin, fx_sqrt, Fx, FX_HALF_PI, FX_SCALE, FX_TAU,
};
use particle_systems::rng::RandomSource;
use particle_systems::values::{
    ErrorDefault, JitteredValue, Lerpable, RandomValue, RoughlyEqual, SinWave, ValueOverTime,
};

fn fx(i: i64) -> Fx {
    Fx::from_int(i)
}

#[test]
fn jittered_value_from_range() {
    let from_range = JitteredValue::centered_range(fx(0), fx(100));
    assert_eq!(from_range.value, fx(50));
    let range = from_range.jitter_range.unwrap();
    assert_eq!(range.start, fx(-50));
    assert_eq!(range.end, fx(50));
}

#[test]
fn jittered_value_centered_range() {
    let centered_range = JitteredValue::centered_range(fx(0), fx(100));
    assert_eq!(centered_range.value, fx(50));
    let range = centered_range.jitter_range.unwrap();
    assert_eq!(range.start, fx(-50));
    assert_eq!(range.end, fx(50));
}

#[test]
fn curve_points_clamp_to_last() {
    let curve = Curve::new(vec![CurvePoint::new(fx(1), fx(0))]);
    assert_eq!(curve.sample(fx(1)), fx(1));
}

#[test]
fn curve_points_clamp_to_first() {
    let curve = Curve::new(vec![CurvePoint::new(fx(1), fx(1))]);
    assert_eq!(curve.sample(fx(0)), fx(1));
}

#[test]
fn curve_points_incomplete() {
    // Starts at 1, keeps it until 0.5, then fades out toward the end.
    let curve = Curve::new(vec![
        CurvePoint::new(fx(1), Fx::from_raw(500_000)),
        CurvePoint::new(fx(0), fx(0)),
    ]);
    assert_eq!(curve.sample(fx(0)), fx(1));
    assert_eq!(curve.sample(Fx::from_raw(500_000)), fx(1));
    assert_eq!(curve.sample(Fx::from_raw(750_000)), Fx::from_raw(500_000));
    assert_eq!(curve.sample(fx(1)), fx(0));
}

/// Jitter bounds: every one of 10,000 samples lies in `[base+lo, base+hi)`,
/// and the samples spread roughly uniformly over the range.
#[test]
fn jitter_bounds_and_spread() {
    let jv = JitteredValue::jittered(fx(10), fx(-5), fx(5));
    let mut rng = RandomSource::new();
    let mut buckets = [0u32; 10];
    for _ in 0..10_000 {
        let v = jv.get_value(&mut rng);
        assert!(v.raw >= 5 * FX_SCALE);
        assert!(v.raw < 15 * FX_SCALE);
        let bucket = ((v.raw - 5 * FX_SCALE) / FX_SCALE) as usize;
        buckets[bucket] += 1;
    }
    for count in buckets {
        assert!(count > 600, "bucket far below uniform: {count}");
        assert!(count < 1400, "bucket far above uniform: {count}");
    }
}

/// A constant jittered value never consumes randomness and returns its base.
#[test]
fn jitter_constant_is_exact() {
    let jv = JitteredValue::new(fx(7));
    let mut rng = RandomSource::new();
    for _ in 0..10 {
        assert_eq!(jv.get_value(&mut rng), fx(7));
    }
}

/// The scalar blend is exact at its endpoints and at the midpoint.
#[test]
fn lerp_exact_values() {
    let a = fx(2);
    let b = fx(4);
    assert_eq!(a.lerp(b, fx(0)), fx(2));
    assert_eq!(a.lerp(b, fx(1)), fx(4));
    assert_eq!(a.lerp(b, Fx::from_raw(500_000)), fx(3));
    // The percentage is clamped into [0, 1].
    assert_eq!(a.lerp(b, fx(-3)), fx(2));
    assert_eq!(a.lerp(b, fx(5)), fx(4));
}

/// With a one-unit quantum, rough equality is exact equality.
#[test]
fn roughly_equal_is_quantum_equality() {
    assert!(Fx::from_raw(41).roughly_equal(Fx::from_raw(41)));
    assert!(!Fx::from_raw(41).roughly_equal(Fx::from_raw(42)));
}

/// The unit sine wave hits its peak, zero crossings and trough across one
/// lifetime; values are the exact fixed-point results of the half-wave
/// approximation.
#[test]
fn sin_wave_exact_values() {
    let s = SinWave::new();
    assert_eq!(s.evaluate(fx(0)).raw, 0);
    assert_eq!(s.evaluate(Fx::from_raw(250_000)).raw, 999_999);
    assert_eq!(s.evaluate(Fx::from_raw(500_000)).raw, 1);
    assert_eq!(s.evaluate(Fx::from_raw(750_000)).raw, -999_999);
    assert_eq!(s.evaluate(fx(1)).raw, 0);
}

/// Sine and cosine stay within [-1, 1] all around the circle and beyond.
#[test]
fn sin_cos_bounded() {
    let mut a: i64 = -3 * FX_TAU;
    while a < 3 * FX_TAU {
        let s = fx_sin(Fx::from_raw(a));
        let c = fx_cos(Fx::from_raw(a));
        assert!(-FX_SCALE <= s.raw && s.raw <= FX_SCALE);
        assert!(-FX_SCALE <= c.raw && c.raw <= FX_SCALE);
        a += 37_501;
    }
    assert_eq!(fx_sin(Fx::from_raw(FX_HALF_PI)).raw, 999_999);
}

/// The fixed-point square root is the exact rounded-down root.
#[test]
fn sqrt_exact_values() {
    assert_eq!(fx_sqrt(fx(4)), fx(2));
    assert_eq!(fx_sqrt(fx(25)), fx(5));
    assert_eq!(fx_sqrt(fx(0)), fx(0));
    assert_eq!(fx_sqrt(fx(2)).raw, 1_414_213);
}

/// Saturating arithmetic pins down the extremes instead of overflowing,
/// and division by zero yields zero.
#[test]
fn fixed_point_totality() {
    let top = Fx::from_raw(i64::MAX);
    assert_eq!(fx_add(top, top).raw, i64::MAX);
    assert_eq!(fx_mul(top, top).raw, i64::MAX);
    assert_eq!(fx_div(fx(1), fx(0)).raw, 0);
    assert_eq!(fx_div(fx(1), fx(2)).raw, 500_000);
    assert_eq!(fx_mul(fx(3), Fx::from_raw(500_000)), Fx::from_raw(1_500_000));
}

/// A sorted three-point curve returns each control point's value exactly at
/// that point, however it is sampled, and clamps outside [0, 1].
#[test]
fn curve_exact_points_hinted_and_unhinted() {
    let points = vec![
        CurvePoint::new(fx(2), fx(0)),
        CurvePoint::new(fx(8), Fx::from_raw(400_000)),
        CurvePoint::new(fx(4), fx(1)),
    ];
    let mut curve = Curve::new(points);
    // Unhinted, at the control points and outside the range.
    assert_eq!(curve.sample(fx(0)), fx(2));
    assert_eq!(curve.sample(Fx::from_raw(400_000)), fx(8));
    assert_eq!(curve.sample(fx(1)), fx(4));
    assert_eq!(curve.sample(fx(-2)), fx(2));
    assert_eq!(curve.sample(fx(3)), fx(4));
    // Between brackets: 0.2 is halfway from 0 to 0.4.
    assert_eq!(curve.sample(Fx::from_raw(200_000)), fx(5));
    // Hinted evaluation agrees, forward and backward.
    let pcts = [0, 200_000, 400_000, 700_000, 1_000_000, 300_000, 100_000];
    for raw in pcts {
        let pct = Fx::from_raw(raw);
        assert_eq!(curve.sample_mut(pct), curve.sample(pct));
    }
}

/// A curve whose points leave a gap it cannot bracket degrades to the
/// type's error fallback instead of panicking.
#[test]
fn curve_misconfigured_returns_error_default() {
    // Unsorted: the scan finds no bracket for 0.5.
    let curve = Curve::new(vec![
        CurvePoint::new(fx(1), Fx::from_raw(600_000)),
        CurvePoint::new(fx(2), Fx::from_raw(200_000)),
        CurvePoint::new(fx(3), Fx::from_raw(400_000)),
    ]);
    assert_eq!(curve.sample(Fx::from_raw(500_000)), Fx::get_error_default());
    assert_eq!(Fx::get_error_default().raw, 0);
}

/// A random choice draws only listed values and does not collapse to a
/// constant.
#[test]
fn random_choice_draws_listed_values() {
    let rv: RandomValue<usize> = RandomValue::RandomChoice(vec![7, 8, 9]);
    let mut rng = RandomSource::new();
    let mut seen = [false; 3];
    for _ in 0..200 {
        let v = rv.get_value(&mut rng);
        assert!(v == 7 || v == 8 || v == 9);
        seen[v - 7] = true;
    }
    assert!(seen.iter().filter(|s| **s).count() >= 2);
}

/// A scalar course over a curve evaluates through the same clamped scan.
#[test]
fn value_over_time_curve() {
    let course = ValueOverTime::from_points(vec![
        CurvePoint::new(fx(0), fx(0)),
        CurvePoint::new(fx(10), fx(1)),
    ]);
    assert_eq!(course.at_lifetime_pct(Fx::from_raw(300_000)), fx(3));
    assert_eq!(course.at_lifetime_pct(fx(2)), fx(10));
    let constant = ValueOverTime::constant(fx(5));
    assert_eq!(constant.at_lifetime_pct(Fx::from_raw(123_456)), fx(5));
}

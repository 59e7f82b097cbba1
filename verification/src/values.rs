//! Value models: jittered scalars, interpolation, waves, noise and the
//! velocity-modifier variants.
//!
//! Each model evaluates to an exact fixed-point value; the contracts mirror
//! every evaluation at the raw level.

use vstd::prelude::*;

use crate::fixed::{
    fx_abs, fx_add, fx_add_spec, fx_mul, fx_mul_spec, fx_sin, fx_sin_spec, fx_sub, fx_sub_spec,
    iabs, sat64, tdiv, Fx, FX_SCALE, FX_TAU,
};
use crate::rng::RandomSource;
use crate::vecmath::{
    fxs, v2_add, v2_add_spec, v2_scale, v2_scale_spec, v3_add_spec, v3_scale_spec, v3_sub_spec,
    FxColor, FxVec2, FxVec3,
};

verus! {

/// The largest difference treated as "equal" by [`RoughlyEqual`]: one raw
/// unit, the smallest step a fixed-point scalar can take.
pub const FX_EPSILON: i64 = 1;

/// A lifetime percentage clamped into `[0, 1]`.
pub open spec fn clamp01_spec(p: Fx) -> Fx {
    if p.raw < 0 {
        Fx { raw: 0 }
    } else if p.raw > FX_SCALE {
        Fx { raw: FX_SCALE as i64 }
    } else {
        p
    }
}

/// Clamp a lifetime percentage into `[0, 1]`.
pub fn clamp01(p: Fx) -> (r: Fx)
    ensures
        r == clamp01_spec(p),
{
    if p.raw < 0 {
        Fx { raw: 0 }
    } else if p.raw > FX_SCALE {
        Fx { raw: FX_SCALE }
    } else {
        p
    }
}

/// Linear blend of two scalars: `a * (1 - pct) + b * pct`, with `pct`
/// already in `[0, 1]`.
pub open spec fn fx_lerp_spec(a: Fx, b: Fx, pct: Fx) -> Fx {
    fxs(
        fx_add_spec(
            fx_mul_spec(a.raw as int, fx_sub_spec(FX_SCALE as int, pct.raw as int)),
            fx_mul_spec(b.raw as int, pct.raw as int),
        ),
    )
}

/// Linear blend of two scalars with an unclamped percentage.
pub fn fx_lerp(a: Fx, b: Fx, pct: Fx) -> (r: Fx)
    ensures
        r == fx_lerp_spec(a, b, pct),
{
    fx_add(fx_mul(a, fx_sub(Fx { raw: FX_SCALE }, pct)), fx_mul(b, pct))
}

/// Values that can be linearly interpolated across a lifetime.
pub trait Lerpable: Sized + Copy {
    /// What [`Lerpable::lerp`] returns.
    spec fn lerp_spec(self, other: Self, pct: Fx) -> Self;

    /// Interpolate from `self` (at 0) to `other` (at 1) by `pct`, which is
    /// clamped into `[0, 1]` first.
    fn lerp(&self, other: Self, pct: Fx) -> (r: Self)
        ensures
            r == self.lerp_spec(other, pct),
    ;

    /// Interpolating by anything at or below zero gives `self` back exactly.
    proof fn lerp_zero(self, other: Self, pct: Fx)
        requires
            pct.raw <= 0,
        ensures
            self.lerp_spec(other, pct) == self,
    ;
}

impl Lerpable for Fx {
    open spec fn lerp_spec(self, other: Fx, pct: Fx) -> Fx {
        fx_lerp_spec(self, other, clamp01_spec(pct))
    }

    fn lerp(&self, other: Fx, pct: Fx) -> (r: Fx) {
        let cp: Fx = clamp01(pct);
        fx_lerp(*self, other, cp)
    }

    proof fn lerp_zero(self, other: Fx, pct: Fx) {
        assert(clamp01_spec(pct).raw == 0);
        lemma_fx_lerp_at_zero(self, other);
    }
}

/// At percentage zero the scalar blend returns its first argument exactly.
proof fn lemma_fx_lerp_at_zero(a: Fx, b: Fx)
    ensures
        fx_lerp_spec(a, b, Fx { raw: 0 }) == a,
{
    assert(fx_mul_spec(a.raw as int, FX_SCALE as int) == a.raw) by {
        assert(a.raw as int * (FX_SCALE as int) == a.raw as int * (FX_SCALE as int));
        lemma_mul_div_exact(a.raw as int);
    }
    assert(fx_mul_spec(b.raw as int, 0) == 0) by {
        assert(b.raw as int * 0 == 0) by (nonlinear_arith);
    }
}

/// Scaling by `FX_SCALE` and dividing back down is the identity.
proof fn lemma_mul_div_exact(a: int)
    ensures
        tdiv(a * (FX_SCALE as int), FX_SCALE as int) == a,
{
    let s = FX_SCALE as int;
    if a >= 0 {
        assert(a * s >= 0) by (nonlinear_arith)
            requires
                a >= 0,
                s > 0;
        vstd::arithmetic::div_mod::lemma_div_multiples_vanish(a, s);
        assert(s * a == a * s) by (nonlinear_arith);
    } else {
        assert(a * s < 0) by (nonlinear_arith)
            requires
                a < 0,
                s > 0;
        assert(iabs(a * s) == -(a * s) && iabs(a) == -a && iabs(s) == s);
        vstd::arithmetic::div_mod::lemma_div_multiples_vanish(-a, s);
        assert(s * (-a) == -(a * s)) by (nonlinear_arith);
        assert(tdiv(a * s, s) == -(iabs(a * s) / s));
    }
}

/// Linear blend of two vectors: `a + (b - a) * pct`, with `pct` already
/// clamped; this is the usual vector interpolation form.
pub open spec fn v3_lerp_spec(a: FxVec3, b: FxVec3, pct: Fx) -> FxVec3 {
    v3_add_spec(a, v3_scale_spec(v3_sub_spec(b, a), pct))
}

impl Lerpable for FxVec3 {
    open spec fn lerp_spec(self, other: FxVec3, pct: Fx) -> FxVec3 {
        v3_lerp_spec(self, other, clamp01_spec(pct))
    }

    fn lerp(&self, other: FxVec3, pct: Fx) -> (r: FxVec3) {
        let cp: Fx = clamp01(pct);
        crate::vecmath::v3_add(*self, crate::vecmath::v3_scale(crate::vecmath::v3_sub(other, *self), cp))
    }

    proof fn lerp_zero(self, other: FxVec3, pct: Fx) {
        assert(clamp01_spec(pct).raw == 0);
        lemma_scale_zero_add(self.x, other.x, self.x);
        lemma_scale_zero_add(self.y, other.y, self.y);
        lemma_scale_zero_add(self.z, other.z, self.z);
    }
}

/// Adding a difference scaled by zero gives the component back unchanged.
proof fn lemma_scale_zero_add(a: Fx, b: Fx, expect: Fx)
    requires
        expect == a,
    ensures
        fxs(
            fx_add_spec(
                a.raw as int,
                fx_mul_spec(fx_sub_spec(b.raw as int, a.raw as int), 0) as int,
            ),
        ) == expect,
{
    let d = fx_sub_spec(b.raw as int, a.raw as int);
    assert(d * 0 == 0) by (nonlinear_arith);
    assert(fx_mul_spec(d, 0) == 0);
}

/// Linear blend of two colors: each channel moves from `a` toward `b`.
pub open spec fn color_lerp_spec(a: FxColor, b: FxColor, pct: Fx) -> FxColor {
    FxColor {
        r: fxs(
            fx_add_spec(
                a.r.raw as int,
                fx_mul_spec(fx_sub_spec(b.r.raw as int, a.r.raw as int), pct.raw as int) as int,
            ),
        ),
        g: fxs(
            fx_add_spec(
                a.g.raw as int,
                fx_mul_spec(fx_sub_spec(b.g.raw as int, a.g.raw as int), pct.raw as int) as int,
            ),
        ),
        b: fxs(
            fx_add_spec(
                a.b.raw as int,
                fx_mul_spec(fx_sub_spec(b.b.raw as int, a.b.raw as int), pct.raw as int) as int,
            ),
        ),
        a: fxs(
            fx_add_spec(
                a.a.raw as int,
                fx_mul_spec(fx_sub_spec(b.a.raw as int, a.a.raw as int), pct.raw as int) as int,
            ),
        ),
    }
}

impl Lerpable for FxColor {
    open spec fn lerp_spec(self, other: FxColor, pct: Fx) -> FxColor {
        color_lerp_spec(self, other, clamp01_spec(pct))
    }

    fn lerp(&self, other: FxColor, pct: Fx) -> (r: FxColor) {
        let cp: Fx = clamp01(pct);
        FxColor {
            r: fx_add(self.r, fx_mul(fx_sub(other.r, self.r), cp)),
            g: fx_add(self.g, fx_mul(fx_sub(other.g, self.g), cp)),
            b: fx_add(self.b, fx_mul(fx_sub(other.b, self.b), cp)),
            a: fx_add(self.a, fx_mul(fx_sub(other.a, self.a), cp)),
        }
    }

    proof fn lerp_zero(self, other: FxColor, pct: Fx) {
        assert(clamp01_spec(pct).raw == 0);
        lemma_scale_zero_add(self.r, other.r, self.r);
        lemma_scale_zero_add(self.g, other.g, self.g);
        lemma_scale_zero_add(self.b, other.b, self.b);
        lemma_scale_zero_add(self.a, other.a, self.a);
    }
}

/// The fallback a misconfigured curve evaluates to instead of panicking.
pub trait ErrorDefault: Sized {
    /// What [`ErrorDefault::get_error_default`] returns.
    spec fn error_default_spec() -> Self;

    /// The fallback value returned by a misconfigured curve.
    fn get_error_default() -> (r: Self)
        ensures
            r == Self::error_default_spec(),
    ;
}

impl ErrorDefault for Fx {
    open spec fn error_default_spec() -> Fx {
        Fx { raw: 0 }
    }

    fn get_error_default() -> (r: Fx) {
        Fx { raw: 0 }
    }
}

impl ErrorDefault for FxVec3 {
    open spec fn error_default_spec() -> FxVec3 {
        crate::vecmath::v3_zero_spec()
    }

    fn get_error_default() -> (r: FxVec3) {
        FxVec3::zero()
    }
}

impl ErrorDefault for FxColor {
    /// Fuchsia, a loud color that makes a misconfigured gradient visible.
    open spec fn error_default_spec() -> FxColor {
        FxColor {
            r: Fx { raw: FX_SCALE as i64 },
            g: Fx { raw: 0 },
            b: Fx { raw: FX_SCALE as i64 },
            a: Fx { raw: FX_SCALE as i64 },
        }
    }

    fn get_error_default() -> (r: FxColor) {
        FxColor {
            r: Fx { raw: FX_SCALE },
            g: Fx { raw: 0 },
            b: Fx { raw: FX_SCALE },
            a: Fx { raw: FX_SCALE },
        }
    }
}

/// Whether two values of a quantized type are close enough to call equal.
pub trait RoughlyEqual: Sized {
    /// What [`RoughlyEqual::roughly_equal`] returns.
    spec fn roughly_equal_spec(self, other: Self) -> bool;

    /// Whether `self` and `other` differ by less than the type's smallest
    /// meaningful step.
    fn roughly_equal(&self, other: Self) -> (r: bool)
        ensures
            r == self.roughly_equal_spec(other),
    ;
}

impl RoughlyEqual for Fx {
    /// With a quantum of one raw unit, two scalars are roughly equal exactly
    /// when their saturating difference is smaller than [`FX_EPSILON`].
    open spec fn roughly_equal_spec(self, other: Fx) -> bool {
        iabs(fx_sub_spec(self.raw as int, other.raw as int)) < FX_EPSILON
    }

    fn roughly_equal(&self, other: Fx) -> (r: bool) {
        let d: Fx = fx_abs(fx_sub(*self, other));
        d.raw < FX_EPSILON
    }
}

/// A half-open range `[start, end)` of jitter offsets.
#[derive(Clone, Copy, Debug, PartialEq, Eq, Structural)]
pub struct JitterRange {
    /// Inclusive lower end of the range.
    pub start: Fx,
    /// Exclusive upper end of the range.
    pub end: Fx,
}

/// Whether `r` is a possible reading of the jittered value `jv`: the base
/// value itself when no jitter is configured, else the base plus some
/// offset from the half-open jitter range.
pub open spec fn jitter_within(jv: JitteredValue, r: Fx) -> bool {
    match jv.jitter_range {
        Option::Some(jr) => exists|j: int|
            jr.start.raw <= j < jr.end.raw && r.raw == fx_add_spec(jv.value.raw as int, j),
        Option::None => r == jv.value,
    }
}

/// A base value with an optional uniform jitter range added when read.
#[derive(Clone, Copy, Debug, PartialEq, Eq, Structural)]
pub struct JitteredValue {
    /// The base value that jitter is added to.
    pub value: Fx,
    /// Half-open range of offsets; `None` reads the base value without
    /// consuming randomness.
    pub jitter_range: Option<JitterRange>,
}

impl JitteredValue {
    /// A jitter range must be nonempty, else there is nothing to draw.
    pub open spec fn wf(&self) -> bool {
        match self.jitter_range {
            Option::Some(jr) => jr.start.raw < jr.end.raw,
            Option::None => true,
        }
    }

    /// A constant value with no jitter.
    pub fn new(f: Fx) -> (r: JitteredValue)
        ensures
            r.value == f,
            r.jitter_range == Option::<JitterRange>::None,
            r.wf(),
    {
        JitteredValue { value: f, jitter_range: Option::None }
    }

    /// A value with a jitter range.
    pub fn jittered(f: Fx, lo: Fx, hi: Fx) -> (r: JitteredValue)
        requires
            lo.raw < hi.raw,
        ensures
            r.value == f,
            r.jitter_range == Option::Some(JitterRange { start: lo, end: hi }),
            r.wf(),
    {
        JitteredValue { value: f, jitter_range: Option::Some(JitterRange { start: lo, end: hi }) }
    }

    /// The value centered within the given range, with jitter spanning half
    /// the range's width on either side.
    pub fn centered_range(lo: Fx, hi: Fx) -> (r: JitteredValue)
        requires
            lo.raw < hi.raw,
            hi.raw - lo.raw >= 2,
            -0x4000_0000_0000_0000 < lo.raw,
            hi.raw < 0x4000_0000_0000_0000,
        ensures
            r.value.raw == tdiv(lo.raw + hi.raw, 2),
            r.jitter_range == Option::Some(
                JitterRange {
                    start: Fx { raw: -tdiv(hi.raw - lo.raw, 2) as i64 },
                    end: Fx { raw: tdiv(hi.raw - lo.raw, 2) as i64 },
                },
            ),
            r.wf(),
    {
        let sum: i64 = lo.raw + hi.raw;
        let width: i64 = hi.raw - lo.raw;
        let mid: i64 = if sum >= 0 {
            ((sum as u64) / 2) as i64
        } else {
            -((((-(sum as i128)) as u64) / 2) as i64)
        };
        let half_width: i64 = ((width as u64) / 2) as i64;
        proof {
            assert(mid == tdiv(lo.raw + hi.raw, 2));
            assert(half_width == tdiv(hi.raw - lo.raw, 2));
            assert(half_width >= 1);
        }
        JitteredValue {
            value: Fx { raw: mid },
            jitter_range: Option::Some(
                JitterRange { start: Fx { raw: -half_width }, end: Fx { raw: half_width } },
            ),
        }
    }

    /// The same base value with the jitter range replaced.
    pub fn with_jitter(&self, lo: Fx, hi: Fx) -> (r: JitteredValue)
        requires
            lo.raw < hi.raw,
        ensures
            r.value == self.value,
            r.jitter_range == Option::Some(JitterRange { start: lo, end: hi }),
            r.wf(),
    {
        JitteredValue { value: self.value, jitter_range: Option::Some(JitterRange { start: lo, end: hi }) }
    }

    /// Read the value: the base plus a uniform draw from the jitter range,
    /// or the base alone when no range is configured. Every sample lies in
    /// `[value + start, value + end)` (saturating at the scalar range).
    pub fn get_value(&self, rng: &mut RandomSource) -> (r: Fx)
        requires
            self.wf(),
        ensures
            jitter_within(*self, r),
            (match self.jitter_range {
                Option::Some(jr) => {
                    &&& fx_add_spec(self.value.raw as int, jr.start.raw as int) <= r.raw
                    &&& r.raw <= fx_add_spec(self.value.raw as int, jr.end.raw - 1)
                },
                Option::None => r == self.value,
            }),
    {
        match &self.jitter_range {
            Option::Some(jr) => {
                let j: Fx = rng.gen_fx_range(jr.start, jr.end);
                let r: Fx = fx_add(self.value, j);
                proof {
                    assert(r.raw == fx_add_spec(self.value.raw as int, j.raw as int));
                }
                r
            },
            Option::None => self.value,
        }
    }
}

/// A value that moves linearly from `a` to `b` across a lifetime.
#[derive(Clone, Copy, Debug)]
pub struct Lerp<T: Lerpable> {
    /// The starting value, returned at percentage 0.
    pub a: T,
    /// The ending value, returned at percentage 1.
    pub b: T,
}

impl<T: Lerpable> Lerp<T> {
    /// A linear ramp between two values.
    pub fn new(a: T, b: T) -> (r: Lerp<T>)
        ensures
            r.a == a,
            r.b == b,
    {
        Lerp { a, b }
    }
}

/// A sinusoidal wave over a lifetime:
/// `amplitude * sin(period * pct * tau - phase_shift) + vertical_shift`.
#[derive(Clone, Copy, Debug, PartialEq, Eq, Structural)]
pub struct SinWave {
    /// How far above and below the baseline the wave reaches.
    pub amplitude: Fx,
    /// How many full waves complete over the lifetime.
    pub period: Fx,
    /// Horizontal shift of the wave's starting point.
    pub phase_shift: Fx,
    /// Vertical shift of the whole wave.
    pub vertical_shift: Fx,
}

/// What a wave evaluates to at a lifetime percentage, at the raw level.
pub open spec fn sin_wave_spec(w: SinWave, pct: Fx) -> int {
    let angle = fx_sub_spec(
        fx_mul_spec(w.period.raw as int, fx_mul_spec(pct.raw as int, FX_TAU as int)),
        w.phase_shift.raw as int,
    );
    fx_add_spec(
        fx_mul_spec(w.amplitude.raw as int, fx_sin_spec(angle)),
        w.vertical_shift.raw as int,
    )
}

impl SinWave {
    /// One full unit wave: 0 up to 1, back through 0 down to -1, and back.
    pub fn new() -> (r: SinWave)
        ensures
            r.amplitude.raw == FX_SCALE,
            r.period.raw == FX_SCALE,
            r.phase_shift.raw == 0,
            r.vertical_shift.raw == 0,
    {
        SinWave {
            amplitude: Fx { raw: FX_SCALE },
            period: Fx { raw: FX_SCALE },
            phase_shift: Fx { raw: 0 },
            vertical_shift: Fx { raw: 0 },
        }
    }

    /// Evaluate the wave at a lifetime percentage.
    pub fn evaluate(&self, pct: Fx) -> (r: Fx)
        ensures
            r.raw == sin_wave_spec(*self, pct),
    {
        let angle: Fx = fx_sub(fx_mul(self.period, fx_mul(pct, Fx { raw: FX_TAU })), self.phase_shift);
        fx_add(fx_mul(self.amplitude, fx_sin(angle)), self.vertical_shift)
    }
}

/// First offset constant folded into the noise field's y sample.
pub const NOISE_OFFSET: i64 = 128_648_000;

/// Frequency ratio between the noise field's two axes.
pub const NOISE_RATIO: i64 = 861_400;

/// A cheap periodic flow field that nudges particle velocities over space
/// and time: a fixed combination of sine and cosine waves, not true
/// gradient noise.
#[derive(Clone, Copy, Debug, PartialEq, Eq, Structural)]
pub struct Noise2D {
    /// Spatial frequency: higher wiggles faster, lower gives smooth waves.
    pub frequency: Fx,
    /// How strongly the field pushes particles.
    pub amplitude: Fx,
    /// How fast the field drifts along each axis over time.
    pub translation: FxVec2,
}

/// What sampling the noise field returns: the sampling point drifts with
/// time, its x coordinate feeds a sine/cosine pair, its shifted y
/// coordinate feeds a second sine, and the combination is scaled by the
/// amplitude.
pub open spec fn noise2d_spec(n: Noise2D, position: FxVec2, time: Fx) -> FxVec2 {
    let sp = v2_add_spec(position, v2_scale_spec(n.translation, time));
    let sx = fx_mul_spec(sp.x.raw as int, n.frequency.raw as int);
    let sy = fx_mul_spec(
        fx_add_spec(sp.y.raw as int, NOISE_OFFSET as int),
        fx_mul_spec(n.frequency.raw as int, NOISE_RATIO as int),
    );
    v2_scale_spec(
        FxVec2 {
            x: fxs(fx_add_spec(fx_sin_spec(sx), fx_sin_spec(sy))),
            y: fxs(fx_add_spec(crate::fixed::fx_cos_spec(sx), fx_sin_spec(sy))),
        },
        n.amplitude,
    )
}

impl Noise2D {
    /// A noise field from its frequency, amplitude and drift.
    pub fn new(frequency: Fx, amplitude: Fx, translation: FxVec2) -> (r: Noise2D)
        ensures
            r == (Noise2D { frequency, amplitude, translation }),
    {
        Noise2D { frequency, amplitude, translation }
    }

    /// Evaluate the field at a position and time.
    pub fn sample(&self, position: FxVec2, time: Fx) -> (r: FxVec2)
        ensures
            r == noise2d_spec(*self, position, time),
    {
        let sp: FxVec2 = v2_add(position, v2_scale(self.translation, time));
        let sx: Fx = fx_mul(sp.x, self.frequency);
        let sy: Fx = fx_mul(
            fx_add(sp.y, Fx { raw: NOISE_OFFSET }),
            fx_mul(self.frequency, Fx { raw: NOISE_RATIO }),
        );
        let sin_x: Fx = fx_sin(sx);
        let cos_x: Fx = crate::fixed::fx_cos(sx);
        let sin_y: Fx = fx_sin(sy);
        v2_scale(
            FxVec2 { x: fx_add(sin_x, sin_y), y: fx_add(cos_x, sin_y) },
            self.amplitude,
        )
    }
}

/// How a scalar quantity changes across a lifetime.
#[derive(Clone, Debug)]
pub enum ValueOverTime {
    /// Move linearly between two values.
    Lerp(Lerp<Fx>),
    /// Follow a curve of two or more values.
    Curve(crate::curve::Curve<Fx>),
    /// Follow a sinusoidal wave.
    Sin(SinWave),
    /// Stay constant.
    Constant(Fx),
}

/// What a scalar quantity evaluates to at a lifetime percentage.
pub open spec fn value_over_time_spec(v: ValueOverTime, pct: Fx) -> Fx {
    match v {
        ValueOverTime::Lerp(l) => l.a.lerp_spec(l.b, pct),
        ValueOverTime::Curve(c) => crate::curve::curve_sample_spec(c.points@, pct),
        ValueOverTime::Sin(s) => Fx { raw: sin_wave_spec(s, pct) as i64 },
        ValueOverTime::Constant(c) => c,
    }
}

impl ValueOverTime {
    /// A curve variant must hold at least one control point to evaluate.
    pub open spec fn wf(&self) -> bool {
        match *self {
            ValueOverTime::Curve(c) => c.points.len() >= 1,
            _ => true,
        }
    }

    /// A constant scalar.
    pub fn constant(c: Fx) -> (r: ValueOverTime)
        ensures
            r == ValueOverTime::Constant(c),
            r.wf(),
    {
        ValueOverTime::Constant(c)
    }

    /// Evaluate the quantity at a lifetime percentage.
    pub fn at_lifetime_pct(&self, pct: Fx) -> (r: Fx)
        requires
            self.wf(),
        ensures
            r == value_over_time_spec(*self, pct),
    {
        match self {
            ValueOverTime::Lerp(l) => l.a.lerp(l.b, pct),
            ValueOverTime::Curve(c) => c.sample(pct),
            ValueOverTime::Sin(s) => s.evaluate(pct),
            ValueOverTime::Constant(c) => *c,
        }
    }
}

/// How a vector quantity changes across a lifetime.
#[derive(Clone, Debug)]
pub enum VectorOverTime {
    /// Stay constant.
    Constant(FxVec3),
    /// Move linearly between two vectors.
    Lerp(Lerp<FxVec3>),
    /// Follow a curve of two or more vectors.
    Gradient(crate::curve::Curve<FxVec3>),
}

/// What a vector quantity evaluates to at a lifetime percentage.
pub open spec fn vector_over_time_spec(v: VectorOverTime, pct: Fx) -> FxVec3 {
    match v {
        VectorOverTime::Constant(c) => c,
        VectorOverTime::Lerp(l) => l.a.lerp_spec(l.b, pct),
        VectorOverTime::Gradient(c) => crate::curve::curve_sample_spec(c.points@, pct),
    }
}

impl VectorOverTime {
    /// A curve variant must hold at least one control point to evaluate.
    pub open spec fn wf(&self) -> bool {
        match *self {
            VectorOverTime::Gradient(c) => c.points.len() >= 1,
            _ => true,
        }
    }

    /// Evaluate the quantity at a lifetime percentage.
    pub fn at_lifetime_pct(&self, pct: Fx) -> (r: FxVec3)
        requires
            self.wf(),
        ensures
            r == vector_over_time_spec(*self, pct),
    {
        match self {
            VectorOverTime::Constant(c) => *c,
            VectorOverTime::Lerp(l) => l.a.lerp(l.b, pct),
            VectorOverTime::Gradient(c) => c.sample(pct),
        }
    }
}

/// How a color changes across a lifetime.
#[derive(Clone, Debug)]
pub enum ColorOverTime {
    /// Stay a constant color.
    Constant(FxColor),
    /// Move linearly between two colors.
    Lerp(Lerp<FxColor>),
    /// Follow a gradient of two or more colors.
    Gradient(crate::curve::Curve<FxColor>),
}

/// What a color evaluates to at a lifetime percentage.
pub open spec fn color_over_time_spec(c: ColorOverTime, pct: Fx) -> FxColor {
    match c {
        ColorOverTime::Constant(color) => color,
        ColorOverTime::Lerp(l) => l.a.lerp_spec(l.b, pct),
        ColorOverTime::Gradient(g) => crate::curve::curve_sample_spec(g.points@, pct),
    }
}

impl ColorOverTime {
    /// A gradient carried by a live particle keeps at least two points and
    /// a valid scan hint, so hinted evaluation never goes out of bounds.
    pub open spec fn wf(&self) -> bool {
        match *self {
            ColorOverTime::Gradient(g) => g.wf() && g.points.len() >= 2,
            _ => true,
        }
    }

    /// Whether a gradient's points are strictly sorted; constant and
    /// two-color ramps are always in order.
    pub open spec fn sorted(&self) -> bool {
        match *self {
            ColorOverTime::Gradient(g) => g.sorted(),
            _ => true,
        }
    }

    /// The same color course, ignoring any scan hint: what the color
    /// evaluates to is unchanged.
    pub open spec fn same_course(&self, other: &ColorOverTime) -> bool {
        match (*self, *other) {
            (ColorOverTime::Constant(a), ColorOverTime::Constant(b)) => a == b,
            (ColorOverTime::Lerp(a), ColorOverTime::Lerp(b)) => a.a == b.a && a.b == b.b,
            (ColorOverTime::Gradient(a), ColorOverTime::Gradient(b)) => a.points@ == b.points@,
            _ => false,
        }
    }

    /// Evaluate the color at a lifetime percentage, without touching any
    /// gradient scan hint.
    pub fn at_lifetime_pct(&self, pct: Fx) -> (r: FxColor)
        requires
            (match *self {
                ColorOverTime::Gradient(g) => g.points.len() >= 1,
                _ => true,
            }),
        ensures
            r == color_over_time_spec(*self, pct),
    {
        match self {
            ColorOverTime::Constant(c) => *c,
            ColorOverTime::Lerp(l) => l.a.lerp(l.b, pct),
            ColorOverTime::Gradient(g) => g.sample(pct),
        }
    }

    /// Evaluate the color at a lifetime percentage, letting a gradient
    /// advance its scan hint; on a sorted gradient the result is exactly
    /// what [`ColorOverTime::at_lifetime_pct`] would return.
    pub fn at_lifetime_pct_mut(&mut self, pct: Fx) -> (r: FxColor)
        requires
            old(self).wf(),
        ensures
            final(self).wf(),
            old(self).same_course(final(self)),
            old(self).sorted() ==> r == color_over_time_spec(*old(self), pct),
    {
        match self {
            ColorOverTime::Constant(c) => *c,
            ColorOverTime::Lerp(l) => l.a.lerp(l.b, pct),
            ColorOverTime::Gradient(g) => g.sample_mut(pct),
        }
    }
}

/// An ordered effect applied to a particle's velocity every tick.
#[derive(Clone, Debug)]
pub enum VelocityModifier {
    /// Acceleration along the particle's current heading.
    Scalar(ValueOverTime),
    /// Acceleration by a vector, such as gravity.
    Vector(VectorOverTime),
    /// Quadratic drag opposing the current heading.
    Drag(ValueOverTime),
    /// A sinusoidal planar flow field.
    Noise(Noise2D),
}

impl VelocityModifier {
    /// Any curve inside the modifier can be evaluated.
    pub open spec fn wf(&self) -> bool {
        match *self {
            VelocityModifier::Scalar(v) => v.wf(),
            VelocityModifier::Vector(v) => v.wf(),
            VelocityModifier::Drag(v) => v.wf(),
            VelocityModifier::Noise(_) => true,
        }
    }
}

/// Per-particle quantities shared by several modifiers within one tick,
/// each computed at most once per particle per tick: the squared speed, the
/// speed, and the unit heading of the velocity. A cached value is handed
/// back as-is, even if the velocity has changed since it was computed; that
/// is the memoization the pipeline relies on.
#[derive(Clone, Copy, Debug)]
pub struct PrecalculatedParticleVariables {
    /// Cached squared length of the velocity.
    pub particle_sqr_speed: Option<Fx>,
    /// Cached length of the velocity.
    pub particle_speed: Option<Fx>,
    /// Cached unit heading of the velocity.
    pub particle_direction: Option<FxVec3>,
}

/// Cached magnitudes are never negative.
pub open spec fn ppv_wf(ppv: PrecalculatedParticleVariables) -> bool {
    &&& (match ppv.particle_sqr_speed {
        Option::Some(s) => s.raw >= 0,
        Option::None => true,
    })
    &&& (match ppv.particle_speed {
        Option::Some(s) => s.raw >= 0,
        Option::None => true,
    })
}

/// What reading the squared speed returns and caches.
pub open spec fn ppv_sqr_spec(ppv: PrecalculatedParticleVariables, v: FxVec3) -> (
    Fx,
    PrecalculatedParticleVariables,
) {
    match ppv.particle_sqr_speed {
        Option::Some(x) => (x, ppv),
        Option::None => {
            let s = Fx { raw: crate::vecmath::v3_length_squared_spec(v) as i64 };
            (
                s,
                PrecalculatedParticleVariables {
                    particle_sqr_speed: Option::Some(s),
                    particle_speed: ppv.particle_speed,
                    particle_direction: ppv.particle_direction,
                },
            )
        },
    }
}

/// What reading the speed returns and caches: the square root of the
/// (possibly cached) squared speed.
pub open spec fn ppv_speed_spec(ppv: PrecalculatedParticleVariables, v: FxVec3) -> (
    Fx,
    PrecalculatedParticleVariables,
) {
    match ppv.particle_speed {
        Option::Some(x) => (x, ppv),
        Option::None => {
            let sq = ppv_sqr_spec(ppv, v);
            let sp = Fx { raw: crate::fixed::fx_sqrt_spec(sq.0.raw as int) as i64 };
            (
                sp,
                PrecalculatedParticleVariables {
                    particle_sqr_speed: sq.1.particle_sqr_speed,
                    particle_speed: Option::Some(sp),
                    particle_direction: ppv.particle_direction,
                },
            )
        },
    }
}

/// What reading the heading returns and caches: the velocity divided by
/// the (possibly cached) speed, the zero vector when the speed is zero.
pub open spec fn ppv_dir_spec(ppv: PrecalculatedParticleVariables, v: FxVec3) -> (
    FxVec3,
    PrecalculatedParticleVariables,
) {
    match ppv.particle_direction {
        Option::Some(x) => (x, ppv),
        Option::None => {
            let sp = ppv_speed_spec(ppv, v);
            let d = crate::vecmath::v3_div_scalar_spec(v, sp.0);
            (
                d,
                PrecalculatedParticleVariables {
                    particle_sqr_speed: sp.1.particle_sqr_speed,
                    particle_speed: sp.1.particle_speed,
                    particle_direction: Option::Some(d),
                },
            )
        },
    }
}

impl PrecalculatedParticleVariables {
    /// An empty cache.
    pub fn new() -> (r: PrecalculatedParticleVariables)
        ensures
            r.particle_sqr_speed == Option::<Fx>::None,
            r.particle_speed == Option::<Fx>::None,
            r.particle_direction == Option::<FxVec3>::None,
            ppv_wf(r),
    {
        PrecalculatedParticleVariables {
            particle_sqr_speed: Option::None,
            particle_speed: Option::None,
            particle_direction: Option::None,
        }
    }

    /// The squared speed (squared velocity length), cached after the first
    /// computation.
    pub fn get_particle_sqr_speed(&mut self, velocity: &FxVec3) -> (r: Fx)
        requires
            ppv_wf(*old(self)),
        ensures
            r == ppv_sqr_spec(*old(self), *velocity).0,
            *final(self) == ppv_sqr_spec(*old(self), *velocity).1,
            ppv_wf(*final(self)),
            r.raw >= 0,
    {
        match self.particle_sqr_speed {
            Option::Some(x) => x,
            Option::None => {
                let result: Fx = crate::vecmath::v3_length_squared(*velocity);
                self.particle_sqr_speed = Option::Some(result);
                result
            },
        }
    }

    /// The speed (velocity length), cached after the first computation.
    pub fn get_particle_speed(&mut self, velocity: &FxVec3) -> (r: Fx)
        requires
            ppv_wf(*old(self)),
        ensures
            r == ppv_speed_spec(*old(self), *velocity).0,
            *final(self) == ppv_speed_spec(*old(self), *velocity).1,
            ppv_wf(*final(self)),
            r.raw >= 0,
    {
        match self.particle_speed {
            Option::Some(x) => x,
            Option::None => {
                let sqr: Fx = self.get_particle_sqr_speed(velocity);
                let result: Fx = crate::fixed::fx_sqrt(sqr);
                self.particle_speed = Option::Some(result);
                result
            },
        }
    }

    /// The unit heading (normalized velocity), cached after the first
    /// computation; a zero velocity yields the zero vector.
    pub fn get_particle_direction(&mut self, velocity: &FxVec3) -> (r: FxVec3)
        requires
            ppv_wf(*old(self)),
        ensures
            r == ppv_dir_spec(*old(self), *velocity).0,
            *final(self) == ppv_dir_spec(*old(self), *velocity).1,
            ppv_wf(*final(self)),
    {
        match self.particle_direction {
            Option::Some(x) => x,
            Option::None => {
                let speed: Fx = self.get_particle_speed(velocity);
                let result: FxVec3 = crate::vecmath::v3_div_scalar(*velocity, speed);
                self.particle_direction = Option::Some(result);
                result
            },
        }
    }
}

/// A fixed-point speed is never negative.
proof fn lemma_speed_nonneg(v: FxVec3)
    ensures
        crate::vecmath::v3_speed_spec(v).raw >= 0,
{
    crate::vecmath::lemma_lsq_nonneg(v);
    crate::fixed::lemma_fx_sqrt_spec_props(crate::vecmath::v3_length_squared_spec(v));
}

/// A value read from a finite set of possibilities.
#[derive(Clone, Debug)]
pub enum RandomValue<T: Copy> {
    /// Always the same value.
    Constant(T),
    /// One of the listed values, chosen uniformly on each read.
    RandomChoice(Vec<T>),
}

impl<T: Copy> RandomValue<T> {
    /// A random choice must have something to choose from.
    pub open spec fn wf(&self) -> bool {
        match *self {
            RandomValue::RandomChoice(v) => v.len() > 0,
            RandomValue::Constant(_) => true,
        }
    }

    /// Read the value: the constant, or one of the listed choices.
    pub fn get_value(&self, rng: &mut RandomSource) -> (r: T)
        requires
            self.wf(),
        ensures
            (match *self {
                RandomValue::Constant(t) => r == t,
                RandomValue::RandomChoice(v) => exists|k: int| 0 <= k < v.len() && r == v[k],
            }),
    {
        match self {
            RandomValue::Constant(t) => *t,
            RandomValue::RandomChoice(v) => {
                let k: usize = rng.gen_index(v.len());
                v[k]
            },
        }
    }
}

/// Whether two scalar courses are the same: equal variants with equal
/// contents, scan hint included.
pub open spec fn vot_same(a: ValueOverTime, b: ValueOverTime) -> bool {
    match (a, b) {
        (ValueOverTime::Lerp(x), ValueOverTime::Lerp(y)) => x.a == y.a && x.b == y.b,
        (ValueOverTime::Curve(x), ValueOverTime::Curve(y)) => x.points@ == y.points@
            && x.index_hint == y.index_hint,
        (ValueOverTime::Sin(x), ValueOverTime::Sin(y)) => x == y,
        (ValueOverTime::Constant(x), ValueOverTime::Constant(y)) => x == y,
        _ => false,
    }
}

/// Two same scalar courses evaluate alike everywhere.
pub proof fn lemma_vot_same_eval(a: ValueOverTime, b: ValueOverTime, pct: Fx)
    requires
        vot_same(a, b),
    ensures
        value_over_time_spec(a, pct) == value_over_time_spec(b, pct),
{
}

/// Whether two vector courses are the same.
pub open spec fn vvot_same(a: VectorOverTime, b: VectorOverTime) -> bool {
    match (a, b) {
        (VectorOverTime::Constant(x), VectorOverTime::Constant(y)) => x == y,
        (VectorOverTime::Lerp(x), VectorOverTime::Lerp(y)) => x.a == y.a && x.b == y.b,
        (VectorOverTime::Gradient(x), VectorOverTime::Gradient(y)) => x.points@ == y.points@
            && x.index_hint == y.index_hint,
        _ => false,
    }
}

/// Whether two color courses are the same, scan hint included.
pub open spec fn cot_same(a: ColorOverTime, b: ColorOverTime) -> bool {
    match (a, b) {
        (ColorOverTime::Constant(x), ColorOverTime::Constant(y)) => x == y,
        (ColorOverTime::Lerp(x), ColorOverTime::Lerp(y)) => x.a == y.a && x.b == y.b,
        (ColorOverTime::Gradient(x), ColorOverTime::Gradient(y)) => x.points@ == y.points@
            && x.index_hint == y.index_hint,
        _ => false,
    }
}

/// Whether two velocity modifiers are the same effect.
pub open spec fn vm_same(a: VelocityModifier, b: VelocityModifier) -> bool {
    match (a, b) {
        (VelocityModifier::Scalar(x), VelocityModifier::Scalar(y)) => vot_same(x, y),
        (VelocityModifier::Vector(x), VelocityModifier::Vector(y)) => vvot_same(x, y),
        (VelocityModifier::Drag(x), VelocityModifier::Drag(y)) => vot_same(x, y),
        (VelocityModifier::Noise(x), VelocityModifier::Noise(y)) => x == y,
        _ => false,
    }
}

impl ValueOverTime {
    /// A value copy of the course.
    pub fn duplicate(&self) -> (r: ValueOverTime)
        ensures
            vot_same(r, *self),
            self.wf() ==> r.wf(),
    {
        match self {
            ValueOverTime::Lerp(l) => ValueOverTime::Lerp(Lerp { a: l.a, b: l.b }),
            ValueOverTime::Curve(c) => ValueOverTime::Curve(c.duplicate()),
            ValueOverTime::Sin(s) => ValueOverTime::Sin(*s),
            ValueOverTime::Constant(c) => ValueOverTime::Constant(*c),
        }
    }
}

impl VectorOverTime {
    /// A value copy of the course.
    pub fn duplicate(&self) -> (r: VectorOverTime)
        ensures
            vvot_same(r, *self),
            self.wf() ==> r.wf(),
    {
        match self {
            VectorOverTime::Constant(c) => VectorOverTime::Constant(*c),
            VectorOverTime::Lerp(l) => VectorOverTime::Lerp(Lerp { a: l.a, b: l.b }),
            VectorOverTime::Gradient(c) => VectorOverTime::Gradient(c.duplicate()),
        }
    }
}

impl ColorOverTime {
    /// A value copy of the course.
    pub fn duplicate(&self) -> (r: ColorOverTime)
        ensures
            cot_same(r, *self),
            self.wf() ==> r.wf(),
            self.sorted() ==> r.sorted(),
    {
        match self {
            ColorOverTime::Constant(c) => ColorOverTime::Constant(*c),
            ColorOverTime::Lerp(l) => ColorOverTime::Lerp(Lerp { a: l.a, b: l.b }),
            ColorOverTime::Gradient(c) => ColorOverTime::Gradient(c.duplicate()),
        }
    }
}

impl VelocityModifier {
    /// A value copy of the effect.
    pub fn duplicate(&self) -> (r: VelocityModifier)
        ensures
            vm_same(r, *self),
            self.wf() ==> r.wf(),
    {
        match self {
            VelocityModifier::Scalar(v) => VelocityModifier::Scalar(v.duplicate()),
            VelocityModifier::Vector(v) => VelocityModifier::Vector(v.duplicate()),
            VelocityModifier::Drag(v) => VelocityModifier::Drag(v.duplicate()),
            VelocityModifier::Noise(n) => VelocityModifier::Noise(*n),
        }
    }
}

/// A value copy of an ordered modifier list.
pub fn copy_modifiers(v: &Vec<VelocityModifier>) -> (r: Vec<VelocityModifier>)
    ensures
        r.len() == v.len(),
        forall|i: int| 0 <= i < v.len() ==> vm_same(#[trigger] r[i], v[i]),
        (forall|i: int| 0 <= i < v.len() ==> (#[trigger] v[i]).wf()) ==> (forall|i: int|
            0 <= i < r.len() ==> (#[trigger] r[i]).wf()),
{
    let mut out: Vec<VelocityModifier> = Vec::new();
    let n: usize = v.len();
    let mut i: usize = 0;
    while i < n
        invariant
            n == v.len(),
            i <= n,
            out.len() == i,
            forall|k: int| 0 <= k < i ==> vm_same(#[trigger] out[k], v[k]),
            forall|k: int| 0 <= k < i ==> ((#[trigger] v[k]).wf() ==> out[k].wf()),
        decreases n - i,
    {
        let m: VelocityModifier = v[i].duplicate();
        out.push(m);
        i = i + 1;
    }
    out
}

/// How the texture-atlas index of a particle is chosen.
#[derive(Clone, Debug)]
pub enum AtlasIndex {
    /// Always the same index.
    Constant(usize),
    /// An index chosen randomly at spawn.
    Random(RandomValue<usize>),
    /// An index animated over the particle's life.
    Animated(crate::components::AnimatedIndex),
}

impl AtlasIndex {
    /// Any random choice has options and any animation has frames.
    pub open spec fn wf(&self) -> bool {
        match *self {
            AtlasIndex::Constant(_) => true,
            AtlasIndex::Random(rv) => rv.wf(),
            AtlasIndex::Animated(a) => a.wf(),
        }
    }

    /// The initial index at particle spawn: the constant, a uniform choice,
    /// or the animation's first frame.
    pub fn get_value(&self, rng: &mut RandomSource) -> (r: usize)
        requires
            self.wf(),
        ensures
            (match *self {
                AtlasIndex::Constant(c) => r == c,
                AtlasIndex::Random(rv) => (match rv {
                    RandomValue::Constant(t) => r == t,
                    RandomValue::RandomChoice(v) => exists|k: int| 0 <= k < v.len() && r == v[k],
                }),
                AtlasIndex::Animated(a) => r == crate::components::anim_start_spec(a),
            }),
    {
        match self {
            AtlasIndex::Constant(c) => *c,
            AtlasIndex::Random(rv) => rv.get_value(rng),
            AtlasIndex::Animated(a) => a.get_at_start(),
        }
    }
}

impl Default for AtlasIndex {
    /// The first atlas cell.
    fn default() -> (r: AtlasIndex)
        ensures
            r == AtlasIndex::Constant(0usize),
            r.wf(),
    {
        AtlasIndex::Constant(0)
    }
}

impl ValueOverTime {
    /// A curve built from control points, which should be in ascending
    /// order with at least one point.
    pub fn from_points(points: Vec<crate::curve::CurvePoint<Fx>>) -> (r: ValueOverTime)
        ensures
            r == ValueOverTime::Curve(
                crate::curve::Curve { points, index_hint: 0usize },
            ),
            points.len() >= 1 ==> r.wf(),
    {
        ValueOverTime::Curve(crate::curve::Curve::new(points))
    }
}

impl ColorOverTime {
    /// A color course from gradient points: a plain two-point gradient
    /// spanning the whole lifetime collapses to a linear ramp, anything
    /// else becomes a gradient curve.
    pub fn from_points(gradient: Vec<crate::curve::CurvePoint<FxColor>>) -> (r: ColorOverTime)
        ensures
            (if gradient.len() == 2 && gradient[0].point.raw <= 0 && gradient[1].point.raw
                >= FX_SCALE {
                r == ColorOverTime::Lerp(Lerp { a: gradient[0].value, b: gradient[1].value })
            } else {
                r == ColorOverTime::Gradient(
                    crate::curve::Curve { points: gradient, index_hint: 0usize },
                )
            }),
    {
        if gradient.len() == 2 && gradient[0].point.raw <= 0 && gradient[1].point.raw >= FX_SCALE {
            ColorOverTime::Lerp(Lerp { a: gradient[0].value, b: gradient[1].value })
        } else {
            ColorOverTime::Gradient(crate::curve::Curve::new(gradient))
        }
    }
}

impl VectorOverTime {
    /// A vector course from curve points: a plain two-point curve spanning
    /// the whole lifetime collapses to a linear ramp, anything else
    /// becomes a gradient curve.
    pub fn from_points(curve: Vec<crate::curve::CurvePoint<FxVec3>>) -> (r: VectorOverTime)
        ensures
            (if curve.len() == 2 && curve[0].point.raw <= 0 && curve[1].point.raw >= FX_SCALE {
                r == VectorOverTime::Lerp(Lerp { a: curve[0].value, b: curve[1].value })
            } else {
                r == VectorOverTime::Gradient(
                    crate::curve::Curve { points: curve, index_hint: 0usize },
                )
            }),
    {
        if curve.len() == 2 && curve[0].point.raw <= 0 && curve[1].point.raw >= FX_SCALE {
            VectorOverTime::Lerp(Lerp { a: curve[0].value, b: curve[1].value })
        } else {
            VectorOverTime::Gradient(crate::curve::Curve::new(curve))
        }
    }
}

impl Default for ValueOverTime {
    /// Constantly zero.
    fn default() -> (r: ValueOverTime)
        ensures
            r == ValueOverTime::Constant(Fx { raw: 0i64 }),
            r.wf(),
    {
        ValueOverTime::Constant(Fx { raw: 0 })
    }
}

impl Default for VectorOverTime {
    /// Constantly the zero vector.
    fn default() -> (r: VectorOverTime)
        ensures
            r == VectorOverTime::Constant(crate::vecmath::v3_zero_spec()),
            r.wf(),
    {
        VectorOverTime::Constant(FxVec3::zero())
    }
}

impl Default for ColorOverTime {
    /// Constantly opaque white.
    fn default() -> (r: ColorOverTime)
        ensures
            r == ColorOverTime::Constant(FxColor::white_spec()),
            r.wf(),
    {
        ColorOverTime::Constant(FxColor::white())
    }
}

impl Default for VelocityModifier {
    /// A scalar acceleration of constantly zero: no effect.
    fn default() -> (r: VelocityModifier)
        ensures
            r == VelocityModifier::Scalar(ValueOverTime::Constant(Fx { raw: 0i64 })),
            r.wf(),
    {
        VelocityModifier::Scalar(ValueOverTime::Constant(Fx { raw: 0 }))
    }
}

impl Default for SinWave {
    /// One full unit wave.
    fn default() -> (r: SinWave)
        ensures
            r.amplitude.raw == FX_SCALE,
            r.period.raw == FX_SCALE,
            r.phase_shift.raw == 0,
            r.vertical_shift.raw == 0,
    {
        SinWave::new()
    }
}

impl Default for Noise2D {
    /// A gentle default field: low frequency, strong amplitude, a slow
    /// diagonal drift.
    fn default() -> (r: Noise2D)
        ensures
            r.frequency.raw == 100_000,
            r.amplitude.raw == 100 * FX_SCALE,
            r.translation.x.raw == 10 * FX_SCALE,
            r.translation.y.raw == 8_500_000,
    {
        Noise2D {
            frequency: Fx { raw: 100_000 },
            amplitude: Fx { raw: 100 * FX_SCALE },
            translation: FxVec2 { x: Fx { raw: 10 * FX_SCALE }, y: Fx { raw: 8_500_000 } },
        }
    }
}

impl Default for Lerp<Fx> {
    /// A ramp from 0 to 1.
    fn default() -> (r: Lerp<Fx>)
        ensures
            r.a.raw == 0,
            r.b.raw == FX_SCALE,
    {
        Lerp { a: Fx { raw: 0 }, b: Fx { raw: FX_SCALE } }
    }
}

impl Default for Lerp<FxVec3> {
    /// A ramp from the zero vector to the all-ones vector.
    fn default() -> (r: Lerp<FxVec3>)
        ensures
            r.a == crate::vecmath::v3_zero_spec(),
            r.b == (FxVec3 {
                x: Fx { raw: FX_SCALE as i64 },
                y: Fx { raw: FX_SCALE as i64 },
                z: Fx { raw: FX_SCALE as i64 },
            }),
    {
        Lerp { a: FxVec3::zero(), b: FxVec3::splat(Fx { raw: FX_SCALE }) }
    }
}

impl Default for Lerp<FxColor> {
    /// A ramp from opaque black to opaque white.
    fn default() -> (r: Lerp<FxColor>)
        ensures
            r.a == (FxColor {
                r: Fx { raw: 0i64 },
                g: Fx { raw: 0i64 },
                b: Fx { raw: 0i64 },
                a: Fx { raw: FX_SCALE as i64 },
            }),
            r.b == FxColor::white_spec(),
    {
        Lerp {
            a: FxColor {
                r: Fx { raw: 0 },
                g: Fx { raw: 0 },
                b: Fx { raw: 0 },
                a: Fx { raw: FX_SCALE },
            },
            b: FxColor::white(),
        }
    }
}

} // verus!

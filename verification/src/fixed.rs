//! Signed fixed-point scalars.
//!
//! A [`Fx`] holds a quantity scaled by [`FX_SCALE`]: the raw value `raw`
//! stands for the real number `raw / FX_SCALE`. All operations saturate at
//! the `i64` range instead of overflowing, and division by zero yields zero,
//! so every operation is total and never panics.

use vstd::prelude::*;

verus! {

/// Number of raw units in 1.0.
pub const FX_SCALE: i64 = 1_000_000;

/// Raw value of one half.
pub const FX_HALF: i64 = 500_000;

/// Raw value of a half turn (pi radians).
pub const FX_PI: i64 = 3_141_593;

/// Raw value of a quarter turn (pi/2 radians).
pub const FX_HALF_PI: i64 = 1_570_796;

/// Raw value of a full turn (tau = 2 pi radians).
pub const FX_TAU: i64 = 6_283_185;

/// A fixed-point scalar: `raw` counts units of `1 / FX_SCALE`.
#[derive(Clone, Copy, Debug, PartialEq, Eq, Structural)]
pub struct Fx {
    /// The underlying count of `1 / FX_SCALE` units.
    pub raw: i64,
}

/// Absolute value over mathematical integers.
pub open spec fn iabs(a: int) -> int {
    if a < 0 { -a } else { a }
}

/// Clamp a mathematical integer into the `i64` range.
pub open spec fn sat64(x: int) -> int {
    if x > i64::MAX { i64::MAX as int } else if x < i64::MIN { i64::MIN as int } else { x }
}

/// Truncating division (round toward zero), with division by zero giving 0.
/// This matches the machine division of two's-complement integers.
pub open spec fn tdiv(a: int, b: int) -> int {
    if b == 0 {
        0
    } else if (a < 0) != (b < 0) {
        -(iabs(a) / iabs(b))
    } else {
        iabs(a) / iabs(b)
    }
}

/// What fixed-point addition returns at the raw level.
pub open spec fn fx_add_spec(a: int, b: int) -> int {
    sat64(a + b)
}

/// What fixed-point subtraction returns at the raw level.
pub open spec fn fx_sub_spec(a: int, b: int) -> int {
    sat64(a - b)
}

/// What fixed-point multiplication returns at the raw level:
/// the double-width product rescaled by `FX_SCALE`, rounded toward zero.
pub open spec fn fx_mul_spec(a: int, b: int) -> int {
    sat64(tdiv(a * b, FX_SCALE as int))
}

/// What fixed-point division returns at the raw level: the quotient
/// rescaled by `FX_SCALE`, rounded toward zero; zero for a zero divisor.
pub open spec fn fx_div_spec(a: int, b: int) -> int {
    if b == 0 {
        0
    } else {
        sat64(tdiv(a * (FX_SCALE as int), b))
    }
}

impl Fx {
    /// Build a scalar from a raw count of `1 / FX_SCALE` units.
    pub fn from_raw(raw: i64) -> (r: Fx)
        ensures
            r.raw == raw,
    {
        Fx { raw }
    }

    /// Build a scalar from a whole number, saturating at the `i64` range.
    pub fn from_int(n: i64) -> (r: Fx)
        ensures
            r.raw == sat64(n * (FX_SCALE as int)),
    {
        proof {
            lemma_mul_i64_in_i128(n as int, FX_SCALE as int);
        }
        fx_from_wide((n as i128) * (FX_SCALE as i128))
    }
}

/// The product of two `i64` values stays well inside the `i128` range.
proof fn lemma_mul_i64_in_i128(a: int, b: int)
    by (nonlinear_arith)
    requires
        -0x8000_0000_0000_0000 <= a <= 0x7fff_ffff_ffff_ffff,
        -0x8000_0000_0000_0000 <= b <= 0x7fff_ffff_ffff_ffff,
    ensures
        -0x4000_0000_0000_0000_0000_0000_0000_0000 <= a * b
            <= 0x4000_0000_0000_0000_0000_0000_0000_0000,
{
}

/// Truncating division on double-width intermediates, done on magnitudes.
fn wide_tdiv(p: i128, b: i128) -> (q: i128)
    requires
        b != 0,
        p != i128::MIN,
        b != i128::MIN,
    ensures
        q as int == tdiv(p as int, b as int),
{
    let neg: bool = (p < 0) != (b < 0);
    let pm: u128 = if p < 0 { (-p) as u128 } else { p as u128 };
    let bm: u128 = if b < 0 { (-b) as u128 } else { b as u128 };
    assert(pm == iabs(p as int) && bm == iabs(b as int));
    let qm: u128 = pm / bm;
    assert(qm <= pm) by (nonlinear_arith)
        requires
            bm >= 1,
            qm == pm / bm;
    if neg {
        -(qm as i128)
    } else {
        qm as i128
    }
}

/// Clamp a double-width intermediate into the `i64` range.
fn fx_from_wide(x: i128) -> (r: Fx)
    ensures
        r.raw == sat64(x as int),
{
    if x > i64::MAX as i128 {
        Fx { raw: i64::MAX }
    } else if x < i64::MIN as i128 {
        Fx { raw: i64::MIN }
    } else {
        Fx { raw: x as i64 }
    }
}

/// Saturating fixed-point addition.
pub fn fx_add(a: Fx, b: Fx) -> (r: Fx)
    ensures
        r.raw == fx_add_spec(a.raw as int, b.raw as int),
{
    fx_from_wide(a.raw as i128 + b.raw as i128)
}

/// Saturating fixed-point subtraction.
pub fn fx_sub(a: Fx, b: Fx) -> (r: Fx)
    ensures
        r.raw == fx_sub_spec(a.raw as int, b.raw as int),
{
    fx_from_wide(a.raw as i128 - b.raw as i128)
}

/// Saturating fixed-point absolute value.
pub fn fx_abs(a: Fx) -> (r: Fx)
    ensures
        r.raw == sat64(iabs(a.raw as int)),
{
    if a.raw < 0 {
        fx_from_wide(-(a.raw as i128))
    } else {
        a
    }
}

/// Fixed-point multiplication, saturating, rounded toward zero.
pub fn fx_mul(a: Fx, b: Fx) -> (r: Fx)
    ensures
        r.raw == fx_mul_spec(a.raw as int, b.raw as int),
{
    proof {
        lemma_mul_i64_in_i128(a.raw as int, b.raw as int);
    }
    let p: i128 = (a.raw as i128) * (b.raw as i128);
    let q: i128 = wide_tdiv(p, FX_SCALE as i128);
    fx_from_wide(q)
}

/// Fixed-point division, saturating, rounded toward zero; zero divisor gives 0.
pub fn fx_div(a: Fx, b: Fx) -> (r: Fx)
    ensures
        r.raw == fx_div_spec(a.raw as int, b.raw as int),
{
    if b.raw == 0 {
        Fx { raw: 0 }
    } else {
        proof {
            lemma_mul_i64_in_i128(a.raw as int, FX_SCALE as int);
        }
        let p: i128 = (a.raw as i128) * (FX_SCALE as i128);
        let q: i128 = wide_tdiv(p, b.raw as i128);
        fx_from_wide(q)
    }
}

/// A whole usize count of things, as a fixed-point scalar, saturating.
pub fn fx_from_usize(n: usize) -> (r: Fx)
    ensures
        r.raw == sat64(n * (FX_SCALE as int)),
{
    let p: u128 = (n as u128) * (FX_SCALE as u128);
    assert(p == n * (FX_SCALE as int) && p < 0x4000_0000_0000_0000_0000_0000) by (nonlinear_arith)
        requires
            p == n as int * (FX_SCALE as int),
            0 <= n as int,
            (n as int) < 0x1_0000_0000_0000_0000;
    if p > i64::MAX as u128 {
        Fx { raw: i64::MAX }
    } else {
        Fx { raw: p as i64 }
    }
}

/// Addition on counters that sticks at the top instead of overflowing.
pub open spec fn usat(a: int) -> int {
    if a > usize::MAX {
        usize::MAX as int
    } else {
        a
    }
}

/// Saturating addition of two counters.
pub fn usize_sat_add(a: usize, b: usize) -> (r: usize)
    ensures
        r == usat(a + b),
{
    if a > usize::MAX - b {
        usize::MAX
    } else {
        a + b
    }
}

/// Largest whole multiple of `FX_SCALE` at or below a nonnegative scalar;
/// the fixed-point counterpart of rounding down to a whole number.
pub fn fx_floor(a: Fx) -> (r: Fx)
    requires
        a.raw >= 0,
    ensures
        r.raw == a.raw - (a.raw as int % (FX_SCALE as int)),
{
    let m: u64 = (a.raw as u64) % (FX_SCALE as u64);
    Fx { raw: a.raw - (m as i64) }
}

/// What the fixed-point square root returns at the raw level: the unique
/// nonnegative root whose square brackets the rescaled argument.
pub open spec fn fx_sqrt_spec(a: int) -> int {
    choose|r: int|
        r >= 0 && #[trigger] (r * r) <= a * (FX_SCALE as int) && a * (FX_SCALE as int) < (r + 1) * (
        r + 1)
}

/// Every nonnegative integer has an integer square root.
pub proof fn lemma_sqrt_exists(n: int)
    requires
        n >= 0,
    ensures
        exists|r: int| r >= 0 && #[trigger] (r * r) <= n && n < (r + 1) * (r + 1),
    decreases n,
{
    if n == 0 {
        assert(0 * 0 <= 0 && 0 < (0 + 1) * (0 + 1)) by (nonlinear_arith);
    } else {
        lemma_sqrt_exists(n - 1);
        let r = choose|r: int| r >= 0 && #[trigger] (r * r) <= n - 1 && n - 1 < (r + 1) * (r + 1);
        if n < (r + 1) * (r + 1) {
            assert(r * r <= n);
        } else {
            assert(n == (r + 1) * (r + 1));
            assert((r + 1) * (r + 1) < (r + 2) * (r + 2)) by (nonlinear_arith)
                requires
                    r >= 0;
            assert((r + 1) >= 0 && (r + 1) * (r + 1) <= n && n < (r + 2) * (r + 2));
        }
    }
}

/// For a nonnegative argument the spec-level square root is the genuine
/// rounded-down root.
pub proof fn lemma_fx_sqrt_spec_props(a: int)
    requires
        0 <= a <= i64::MAX,
    ensures
        fx_sqrt_spec(a) >= 0,
        fx_sqrt_spec(a) * fx_sqrt_spec(a) <= a * (FX_SCALE as int),
        a * (FX_SCALE as int) < (fx_sqrt_spec(a) + 1) * (fx_sqrt_spec(a) + 1),
        fx_sqrt_spec(a) < 0x8000_0000_0000,
{
    let n = a * (FX_SCALE as int);
    assert(0 <= n < 0x4000_0000_0000_0000_0000_0000) by (nonlinear_arith)
        requires
            n == a * (FX_SCALE as int),
            0 <= a <= 0x7fff_ffff_ffff_ffff;
    lemma_sqrt_exists(n);
    let r = fx_sqrt_spec(a);
    assert(r < 0x8000_0000_0000) by (nonlinear_arith)
        requires
            r >= 0,
            r * r <= n,
            n < 0x4000_0000_0000_0000_0000_0000;
}

/// Two nonnegative roots bracketing the same value are equal.
proof fn lemma_isqrt_unique(n: int, r1: int, r2: int)
    by (nonlinear_arith)
    requires
        r1 >= 0,
        r2 >= 0,
        r1 * r1 <= n,
        n < (r1 + 1) * (r1 + 1),
        r2 * r2 <= n,
        n < (r2 + 1) * (r2 + 1),
    ensures
        r1 == r2,
{
}

/// Fixed-point square root of a nonnegative scalar, rounded down: the result
/// is the largest scalar whose square does not exceed the argument.
pub fn fx_sqrt(a: Fx) -> (r: Fx)
    requires
        a.raw >= 0,
    ensures
        r.raw >= 0,
        r.raw * r.raw <= a.raw * (FX_SCALE as int),
        a.raw * (FX_SCALE as int) < (r.raw + 1) * (r.raw + 1),
        r.raw == fx_sqrt_spec(a.raw as int),
{
    let n: u128 = (a.raw as u128) * (FX_SCALE as u128);
    assert(n < 0x4000_0000_0000_0000_0000_0000 /* 2^86 */) by (nonlinear_arith)
        requires
            n == a.raw as int * (FX_SCALE as int),
            0 <= a.raw as int,
            (a.raw as int) < 0x8000_0000_0000_0000;
    let mut lo: u128 = 0;
    let mut hi: u128 = 0x8000_0000_0000 /* 2^43 */;
    assert(n < hi * hi) by (nonlinear_arith)
        requires
            n < 0x4000_0000_0000_0000_0000_0000,
            hi == 0x8000_0000_0000;
    while hi - lo > 1
        invariant
            lo < hi <= 0x8000_0000_0000,
            lo * lo <= n,
            n < hi * hi,
        decreases hi - lo,
    {
        let mid: u128 = lo + (hi - lo) / 2;
        assert(lo < mid < hi);
        assert(mid * mid <= 0x4000_0000_0000_0000_0000_0000) by (nonlinear_arith)
            requires
                mid <= 0x8000_0000_0000;
        let sq: u128 = mid * mid;
        if sq <= n {
            lo = mid;
        } else {
            hi = mid;
        }
    }
    assert(hi == lo + 1);
    proof {
        let n_int = a.raw as int * (FX_SCALE as int);
        let w = fx_sqrt_spec(a.raw as int);
        assert(lo * lo <= n_int && n_int < (lo + 1) * (lo + 1));
        assert(w >= 0 && w * w <= n_int && n_int < (w + 1) * (w + 1)) by {
            assert(lo >= 0 && lo * lo <= n_int && n_int < (lo + 1) * (lo + 1));
        }
        lemma_isqrt_unique(n_int, lo as int, w);
    }
    Fx { raw: lo as i64 }
}

/// Rest of a scalar modulo a full turn, landing in `[0, FX_TAU)`.
fn reduce_turn(a: Fx) -> (r: i64)
    ensures
        r == a.raw as int % (FX_TAU as int),
        0 <= r < FX_TAU,
{
    if a.raw >= 0 {
        let m: u64 = (a.raw as u64) % (FX_TAU as u64);
        m as i64
    } else {
        let k: u64 = ((-(a.raw as i128)) as u128) as u64;
        let m: u64 = k % (FX_TAU as u64);
        proof {
            let ki = k as int;
            let d = FX_TAU as int;
            let mi = m as int;
            vstd::arithmetic::div_mod::lemma_fundamental_div_mod(ki, d);
            if mi == 0 {
                vstd::arithmetic::div_mod::lemma_fundamental_div_mod_converse(
                    a.raw as int,
                    d,
                    -(ki / d),
                    0,
                );
            } else {
                vstd::arithmetic::div_mod::lemma_fundamental_div_mod_converse(
                    a.raw as int,
                    d,
                    -(ki / d) - 1,
                    d - mi,
                );
            }
        }
        if m == 0 {
            0
        } else {
            FX_TAU - (m as i64)
        }
    }
}

/// Raw-level half-wave rational sine approximation on `[0, FX_PI]`;
/// exact at 0, at the quarter turn, and at the half turn.
pub open spec fn sin_half_wave(y: int) -> int {
    (16 * y * (FX_PI - y) * FX_SCALE) / (5 * FX_PI * FX_PI - 4 * y * (FX_PI - y))
}

/// What the fixed-point sine returns at the raw level: the angle is reduced
/// into `[0, FX_TAU)` and the half-wave approximation is applied with odd
/// symmetry about the half turn.
pub open spec fn fx_sin_spec(a: int) -> int {
    let r = a % (FX_TAU as int);
    if r <= FX_PI {
        sin_half_wave(r)
    } else {
        -sin_half_wave(r - FX_PI)
    }
}

/// Half-wave sine kernel on `[0, FX_PI]`.
fn sin_core(y: i64) -> (r: i64)
    requires
        0 <= y <= FX_PI,
    ensures
        r == sin_half_wave(y as int),
        0 <= r <= FX_SCALE,
{
    proof {
        lemma_mul_i64_in_i128(y as int, FX_PI - y as int);
    }
    let t: i128 = (y as i128) * ((FX_PI - y) as i128);
    assert(0 <= t && 4 * t <= FX_PI as int * (FX_PI as int)) by (nonlinear_arith)
        requires
            t == y as int * (FX_PI - y as int),
            0 <= y as int <= FX_PI as int;
    let num: u128 = 16 * (t as u128) * (FX_SCALE as u128);
    let den: u128 = (5 * (FX_PI as i128) * (FX_PI as i128) - 4 * t) as u128;
    let q: u128 = num / den;
    assert(q <= FX_SCALE) by (nonlinear_arith)
        requires
            q == num / den,
            num == 16 * t * FX_SCALE,
            den == 5 * FX_PI as int * (FX_PI as int) - 4 * t,
            0 <= t,
            4 * t <= FX_PI as int * (FX_PI as int);
    proof {
        let yi = y as int;
        assert(16 * (t as int) * (FX_SCALE as int) == 16 * yi * (FX_PI - yi) * (FX_SCALE as int)
            && 4 * (t as int) == 4 * yi * (FX_PI - yi)) by (nonlinear_arith)
            requires
                t as int == yi * (FX_PI - yi);
    }
    q as i64
}

/// Fixed-point sine of an angle in radians. The result always lies in
/// `[-1, 1]` (in fixed-point units).
pub fn fx_sin(a: Fx) -> (r: Fx)
    ensures
        r.raw == fx_sin_spec(a.raw as int),
        -FX_SCALE <= r.raw <= FX_SCALE,
{
    let m: i64 = reduce_turn(a);
    if m <= FX_PI {
        Fx { raw: sin_core(m) }
    } else {
        let c: i64 = sin_core(m - FX_PI);
        Fx { raw: -c }
    }
}

/// What the fixed-point cosine returns at the raw level: the sine a quarter
/// turn ahead.
pub open spec fn fx_cos_spec(a: int) -> int {
    fx_sin_spec(fx_add_spec(a, FX_HALF_PI as int))
}

/// Fixed-point cosine of an angle in radians.
pub fn fx_cos(a: Fx) -> (r: Fx)
    ensures
        r.raw == fx_cos_spec(a.raw as int),
        -FX_SCALE <= r.raw <= FX_SCALE,
{
    fx_sin(fx_add(a, Fx { raw: FX_HALF_PI }))
}


} // verus!

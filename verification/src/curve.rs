//! Piecewise-linear curves over a lifetime percentage.
//!
//! A [`Curve`] holds ordered control points; evaluating at a percentage
//! clamps it into `[0, 1]`, returns an endpoint outside the interior,
//! returns a control point's value exactly at that point, and otherwise
//! blends the two bracketing points. A misconfigured curve (no bracket
//! found) evaluates to the type's error fallback instead of panicking.
//!
//! [`Curve::sample`] scans from the start; [`Curve::sample_mut`] remembers
//! the last bracket as a hint so that forward-moving evaluation is cheap,
//! resetting the hint when asked for an earlier percentage. On any curve
//! with sorted points both return the same value.

use vstd::prelude::*;

use crate::fixed::{fx_abs, fx_div, fx_div_spec, fx_sub, fx_sub_spec, iabs, sat64, Fx, FX_SCALE};
use crate::values::{clamp01, clamp01_spec, ErrorDefault, Lerpable, RoughlyEqual};

verus! {

/// A value pinned to a specific percentage of a curve.
#[derive(Clone, Copy, Debug)]
pub struct CurvePoint<T: Lerpable + ErrorDefault> {
    /// The value the curve takes at `point`.
    pub value: T,
    /// Where in `[0, 1]` the value sits.
    pub point: Fx,
}

impl<T: Lerpable + ErrorDefault> CurvePoint<T> {
    /// Pin `value` to `point`.
    pub fn new(value: T, point: Fx) -> (r: CurvePoint<T>)
        ensures
            r.value == value,
            r.point == point,
    {
        CurvePoint { value, point }
    }
}

/// The blend of two neighboring control points at a clamped percentage:
/// the interpolation parameter is the distance past the left point divided
/// by the width of the bracket.
pub open spec fn lerp_between<T: Lerpable + ErrorDefault>(
    p0: CurvePoint<T>,
    p1: CurvePoint<T>,
    cp: Fx,
) -> T {
    let width = sat64(iabs(fx_sub_spec(p1.point.raw as int, p0.point.raw as int)));
    let t = Fx {
        raw: fx_div_spec(fx_sub_spec(cp.raw as int, p0.point.raw as int), width) as i64,
    };
    p0.value.lerp_spec(p1.value, t)
}

/// The scan of the control points from index `i` upward: the first point
/// that matches the clamped percentage exactly yields its value, the first
/// bracket strictly containing it yields the blend, and a scan that runs
/// out yields the error fallback.
pub open spec fn curve_scan<T: Lerpable + ErrorDefault>(
    points: Seq<CurvePoint<T>>,
    cp: Fx,
    i: int,
) -> T
    decreases points.len() - i,
{
    if i < 0 || i + 1 >= points.len() {
        T::error_default_spec()
    } else if points[i].point.roughly_equal_spec(cp) {
        points[i].value
    } else if cp.raw > points[i].point.raw && cp.raw < points[i + 1].point.raw {
        lerp_between(points[i], points[i + 1], cp)
    } else {
        curve_scan(points, cp, i + 1)
    }
}

/// What evaluating a curve returns: the percentage is clamped into
/// `[0, 1]`; at or below 0 the first point's value is returned, at or
/// roughly at 1 the last point's; a two-point curve blends directly; any
/// other curve is scanned for a match or bracket.
pub open spec fn curve_sample_spec<T: Lerpable + ErrorDefault>(
    points: Seq<CurvePoint<T>>,
    pct: Fx,
) -> T {
    let cp = clamp01_spec(pct);
    if points.len() == 0 {
        T::error_default_spec()
    } else if cp.raw == 0 {
        points[0].value
    } else if cp.roughly_equal_spec(Fx { raw: FX_SCALE as i64 }) {
        points[points.len() - 1].value
    } else if points.len() == 2 {
        lerp_between(points[0], points[1], cp)
    } else {
        curve_scan(points, cp, 0)
    }
}

/// Control points are in strictly ascending order of their percentages.
pub open spec fn curve_sorted<T: Lerpable + ErrorDefault>(points: Seq<CurvePoint<T>>) -> bool {
    forall|i: int, j: int|
        0 <= i < j < points.len() ==> (#[trigger] points[i].point).raw < (#[trigger] points[j].point).raw
}

/// A curve as a series of control points, with a scan hint for cheap
/// forward-moving evaluation.
#[derive(Clone, Debug)]
pub struct Curve<T: Lerpable + ErrorDefault> {
    /// The control points, in ascending order of their percentages.
    pub points: Vec<CurvePoint<T>>,
    /// Index of the bracket found by the last hinted evaluation.
    pub index_hint: usize,
}

impl<T: Lerpable + ErrorDefault> Curve<T> {
    /// The hint always names a real bracket: on a curve of one point it is
    /// pinned to 0, otherwise it stays left of the last point.
    pub open spec fn wf(&self) -> bool {
        &&& self.points.len() >= 1
        &&& if self.points.len() == 1 {
            self.index_hint == 0
        } else {
            self.index_hint < self.points.len() - 1
        }
    }

    /// Whether the control points are strictly sorted.
    pub open spec fn sorted(&self) -> bool {
        curve_sorted(self.points@)
    }

    /// A value copy of the curve: the same points and the same hint.
    pub fn duplicate(&self) -> (r: Curve<T>)
        ensures
            r.points@ == self.points@,
            r.index_hint == self.index_hint,
    {
        let mut points: Vec<CurvePoint<T>> = Vec::new();
        let n: usize = self.points.len();
        let mut i: usize = 0;
        while i < n
            invariant
                n == self.points.len(),
                i <= n,
                points@ == self.points@.subrange(0, i as int),
            decreases n - i,
        {
            points.push(self.points[i]);
            proof {
                assert(points@ =~= self.points@.subrange(0, i + 1));
            }
            i = i + 1;
        }
        proof {
            assert(points@ =~= self.points@);
        }
        Curve { points, index_hint: self.index_hint }
    }

    /// A curve from control points, which should be in ascending order.
    pub fn new(points: Vec<CurvePoint<T>>) -> (r: Curve<T>)
        ensures
            r.points == points,
            r.index_hint == 0,
            points.len() >= 1 ==> r.wf(),
    {
        Curve { points, index_hint: 0 }
    }

    /// Evaluate the curve at `pct` without touching the hint.
    ///
    /// The percentage is clamped into `[0, 1]`: anything at or below 0
    /// gives the first point's value and anything at or above 1 gives the
    /// last point's.
    pub fn sample(&self, pct: Fx) -> (r: T)
        requires
            self.points.len() >= 1,
        ensures
            r == curve_sample_spec(self.points@, pct),
            pct.raw <= 0 ==> r == self.points@[0].value,
            pct.raw >= FX_SCALE ==> r == self.points@[self.points@.len() - 1].value,
    {
        let cp: Fx = clamp01(pct);
        if cp.raw == 0 {
            return self.points[0].value;
        }
        let n: usize = self.points.len();
        if cp.roughly_equal(Fx { raw: FX_SCALE }) {
            return self.points[n - 1].value;
        }
        if n == 2 {
            let t: Fx = bracket_param(cp, self.points[0].point, self.points[1].point);
            return self.points[0].value.lerp(self.points[1].value, t);
        }
        let mut i: usize = 0;
        while i < n - 1
            invariant
                n == self.points.len(),
                n >= 1,
                n != 2,
                i <= n - 1,
                cp == clamp01_spec(pct),
                cp.raw != 0,
                !cp.roughly_equal_spec(Fx { raw: FX_SCALE as i64 }),
                curve_scan(self.points@, cp, 0) == curve_scan(self.points@, cp, i as int),
            decreases n - i,
        {
            if self.points[i].point.roughly_equal(cp) {
                return self.points[i].value;
            }
            if cp.raw > self.points[i].point.raw && cp.raw < self.points[i + 1].point.raw {
                let t: Fx = bracket_param(cp, self.points[i].point, self.points[i + 1].point);
                return self.points[i].value.lerp(self.points[i + 1].value, t);
            }
            i = i + 1;
        }
        T::get_error_default()
    }

    /// Evaluate the curve at `pct`, scanning forward from the remembered
    /// hint and updating it; the hint is reset when `pct` falls before it.
    ///
    /// The control points are left untouched, the percentage is clamped as
    /// in [`Curve::sample`], and on a curve with strictly sorted points the
    /// result is exactly what [`Curve::sample`] returns.
    pub fn sample_mut(&mut self, pct: Fx) -> (r: T)
        requires
            old(self).wf(),
            old(self).points.len() >= 2,
        ensures
            final(self).points@ == old(self).points@,
            final(self).wf(),
            pct.raw <= 0 ==> r == old(self).points@[0].value,
            pct.raw >= FX_SCALE ==> r == old(self).points@[old(self).points@.len() - 1].value,
            old(self).sorted() ==> r == curve_sample_spec(old(self).points@, pct),
    {
        let ghost points = self.points@;
        let cp: Fx = clamp01(pct);
        if cp.raw == 0 {
            return self.points[0].value;
        }
        let n: usize = self.points.len();
        if cp.roughly_equal(Fx { raw: FX_SCALE }) {
            return self.points[n - 1].value;
        }
        if n == 2 {
            let t: Fx = bracket_param(cp, self.points[0].point, self.points[1].point);
            return self.points[0].value.lerp(self.points[1].value, t);
        }
        if cp.raw < self.points[self.index_hint].point.raw {
            self.index_hint = 0;
        }
        let h: usize = self.index_hint;
        if cp.raw >= self.points[h].point.raw && cp.raw < self.points[h + 1].point.raw {
            let t: Fx = bracket_param(cp, self.points[h].point, self.points[h + 1].point);
            let r: T = self.points[h].value.lerp(self.points[h + 1].value, t);
            proof {
                if curve_sorted(points) {
                    lemma_scan_from_zero(points, cp, h as int);
                    if points[h as int].point.roughly_equal_spec(cp) {
                        lemma_bracket_param_zero(cp, points[h as int].point, points[h as int + 1].point);
                        points[h as int].value.lerp_zero(points[h as int + 1].value, Fx {
                            raw: fx_div_spec(
                                fx_sub_spec(cp.raw as int, points[h as int].point.raw as int),
                                sat64(
                                    iabs(
                                        fx_sub_spec(
                                            points[h as int + 1].point.raw as int,
                                            points[h as int].point.raw as int,
                                        ),
                                    ),
                                ),
                            ) as i64,
                        });
                    }
                }
            }
            return r;
        }
        proof {
            if curve_sorted(points) && h > 0 {
                lemma_scan_from_zero(points, cp, h as int);
            }
        }
        let mut i: usize = h;
        while i < n - 1
            invariant
                points == old(self).points@,
                self.points@ == points,
                n == points.len(),
                n >= 3,
                i <= n - 1,
                self.index_hint < n - 1,
                cp == clamp01_spec(pct),
                cp.raw != 0,
                !cp.roughly_equal_spec(Fx { raw: FX_SCALE as i64 }),
                curve_sorted(points) ==> curve_scan(points, cp, 0) == curve_scan(
                    points,
                    cp,
                    i as int,
                ),
            decreases n - i,
        {
            if self.points[i].point.roughly_equal(cp) {
                return self.points[i].value;
            }
            if cp.raw > self.points[i].point.raw && cp.raw < self.points[i + 1].point.raw {
                self.index_hint = i;
                let t: Fx = bracket_param(cp, self.points[i].point, self.points[i + 1].point);
                return self.points[i].value.lerp(self.points[i + 1].value, t);
            }
            i = i + 1;
        }
        T::get_error_default()
    }
}

/// The interpolation parameter of `cp` within the bracket `[p0, p1]`.
fn bracket_param(cp: Fx, p0: Fx, p1: Fx) -> (t: Fx)
    ensures
        t.raw == fx_div_spec(
            fx_sub_spec(cp.raw as int, p0.raw as int),
            sat64(iabs(fx_sub_spec(p1.raw as int, p0.raw as int))),
        ),
{
    fx_div(fx_sub(cp, p0), fx_abs(fx_sub(p1, p0)))
}

/// At the left end of a bracket the interpolation parameter is zero.
proof fn lemma_bracket_param_zero(cp: Fx, p0: Fx, p1: Fx)
    requires
        cp.raw == p0.raw,
    ensures
        fx_div_spec(
            fx_sub_spec(cp.raw as int, p0.raw as int),
            sat64(iabs(fx_sub_spec(p1.raw as int, p0.raw as int))),
        ) == 0,
{
    let w = sat64(iabs(fx_sub_spec(p1.raw as int, p0.raw as int)));
    if w != 0 {
        assert(0 * (FX_SCALE as int) == 0) by (nonlinear_arith);
        vstd::arithmetic::div_mod::lemma_div_of0(iabs(w));
    }
}

/// Evaluating a curve exactly at one of its control points returns that
/// point's value, with no interpolation error: this holds for every
/// strictly sorted curve whose first point is at or after 0 and whose last
/// point sits exactly at 1.
pub proof fn lemma_curve_exact_points<T: Lerpable + ErrorDefault>(
    points: Seq<CurvePoint<T>>,
    i: int,
)
    requires
        curve_sorted(points),
        points.len() >= 2,
        0 <= i < points.len(),
        points[0].point.raw >= 0,
        points[points.len() - 1].point.raw == FX_SCALE,
    ensures
        curve_sample_spec(points, points[i].point) == points[i].value,
{
    let p = points[i].point;
    let last = points.len() - 1;
    if i > 0 {
        assert(points[0].point.raw < points[i].point.raw);
    }
    if i < last {
        assert(points[i].point.raw < points[last].point.raw);
    }
    assert(0 <= p.raw <= FX_SCALE);
    let cp = clamp01_spec(p);
    assert(cp == p);
    if p.raw == 0 {
        assert(i == 0);
    } else if cp.roughly_equal_spec(Fx { raw: FX_SCALE as i64 }) {
        assert(p.raw == FX_SCALE);
        assert(i == last);
    } else if points.len() == 2 {
        assert(i == 0);
        lemma_bracket_param_zero(cp, points[0].point, points[1].point);
        points[0].value.lerp_zero(points[1].value, Fx {
            raw: fx_div_spec(
                fx_sub_spec(cp.raw as int, points[0].point.raw as int),
                sat64(iabs(fx_sub_spec(points[1].point.raw as int, points[0].point.raw as int))),
            ) as i64,
        });
    } else {
        lemma_scan_from_zero(points, cp, i);
        assert(i < last);
        assert(points[i].point.roughly_equal_spec(cp));
        assert(curve_scan(points, cp, i) == points[i].value);
    }
}

/// On a strictly sorted curve, scanning from the start and scanning from
/// any index whose point is at or below the percentage give the same
/// result: every earlier point neither matches nor brackets it.
proof fn lemma_scan_from_zero<T: Lerpable + ErrorDefault>(
    points: Seq<CurvePoint<T>>,
    cp: Fx,
    i: int,
)
    requires
        curve_sorted(points),
        0 <= i < points.len(),
        cp.raw >= points[i].point.raw,
    ensures
        curve_scan(points, cp, 0) == curve_scan(points, cp, i),
    decreases i,
{
    if i > 0 {
        assert(points[i - 1].point.raw < points[i].point.raw);
        lemma_scan_from_zero(points, cp, i - 1);
        assert(!points[i - 1].point.roughly_equal_spec(cp));
        assert(curve_scan(points, cp, i - 1) == curve_scan(points, cp, i));
    }
}

} // verus!

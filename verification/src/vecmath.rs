//! Fixed-point vectors, colors and planar transforms.
//!
//! Positions, velocities and scales are [`FxVec3`] values; colors are RGBA
//! [`FxColor`] values with 1.0 per full channel; a particle's placement is an
//! [`FxTransform`]: a translation, a rotation angle about the z axis, and a
//! per-axis scale. Every operation mirrors a raw-level spec function exactly.

use vstd::prelude::*;

use crate::fixed::{
    fx_add, fx_add_spec, fx_div, fx_div_spec, fx_mul, fx_mul_spec, fx_sub, fx_sub_spec, fx_cos,
    fx_cos_spec, fx_sin, fx_sin_spec, fx_sqrt, sat64, Fx,
};

verus! {

/// Build a scalar from an unclamped raw-level integer.
pub open spec fn fxs(x: int) -> Fx {
    Fx { raw: sat64(x) as i64 }
}

/// A planar (x, y) fixed-point vector.
#[derive(Clone, Copy, Debug, PartialEq, Eq, Structural)]
pub struct FxVec2 {
    /// Component along the x axis.
    pub x: Fx,
    /// Component along the y axis.
    pub y: Fx,
}

/// A spatial (x, y, z) fixed-point vector.
#[derive(Clone, Copy, Debug, PartialEq, Eq, Structural)]
pub struct FxVec3 {
    /// Component along the x axis.
    pub x: Fx,
    /// Component along the y axis.
    pub y: Fx,
    /// Component along the z axis.
    pub z: Fx,
}

/// An RGBA color with fixed-point components; 1.0 is a full channel.
#[derive(Clone, Copy, Debug, PartialEq, Eq, Structural)]
pub struct FxColor {
    /// Red channel.
    pub r: Fx,
    /// Green channel.
    pub g: Fx,
    /// Blue channel.
    pub b: Fx,
    /// Alpha channel.
    pub a: Fx,
}

/// Placement of a particle: where it sits, how far it has turned about the
/// z axis, and how it is scaled along each axis.
#[derive(Clone, Copy, Debug, PartialEq, Eq, Structural)]
pub struct FxTransform {
    /// Position of the origin.
    pub translation: FxVec3,
    /// Rotation angle about the z axis, in radians.
    pub rotation: Fx,
    /// Per-axis scale factors.
    pub scale: FxVec3,
}

impl FxVec2 {
    /// Build a planar vector from its components.
    pub fn new(x: Fx, y: Fx) -> (r: FxVec2)
        ensures
            r == (FxVec2 { x, y }),
    {
        FxVec2 { x, y }
    }
}

/// Componentwise sum of two planar vectors.
pub open spec fn v2_add_spec(a: FxVec2, b: FxVec2) -> FxVec2 {
    FxVec2 {
        x: fxs(fx_add_spec(a.x.raw as int, b.x.raw as int)),
        y: fxs(fx_add_spec(a.y.raw as int, b.y.raw as int)),
    }
}

/// Componentwise sum of two planar vectors.
pub fn v2_add(a: FxVec2, b: FxVec2) -> (r: FxVec2)
    ensures
        r == v2_add_spec(a, b),
{
    FxVec2 { x: fx_add(a.x, b.x), y: fx_add(a.y, b.y) }
}

/// A planar vector scaled by a scalar.
pub open spec fn v2_scale_spec(a: FxVec2, s: Fx) -> FxVec2 {
    FxVec2 {
        x: fxs(fx_mul_spec(a.x.raw as int, s.raw as int)),
        y: fxs(fx_mul_spec(a.y.raw as int, s.raw as int)),
    }
}

/// A planar vector scaled by a scalar.
pub fn v2_scale(a: FxVec2, s: Fx) -> (r: FxVec2)
    ensures
        r == v2_scale_spec(a, s),
{
    FxVec2 { x: fx_mul(a.x, s), y: fx_mul(a.y, s) }
}

impl FxVec3 {
    /// Build a spatial vector from its components.
    pub fn new(x: Fx, y: Fx, z: Fx) -> (r: FxVec3)
        ensures
            r == (FxVec3 { x, y, z }),
    {
        FxVec3 { x, y, z }
    }

    /// The zero vector.
    pub fn zero() -> (r: FxVec3)
        ensures
            r == v3_zero_spec(),
    {
        FxVec3 { x: Fx { raw: 0 }, y: Fx { raw: 0 }, z: Fx { raw: 0 } }
    }

    /// A vector with the same scalar on every axis.
    pub fn splat(s: Fx) -> (r: FxVec3)
        ensures
            r == (FxVec3 { x: s, y: s, z: s }),
    {
        FxVec3 { x: s, y: s, z: s }
    }
}

/// The zero spatial vector.
pub open spec fn v3_zero_spec() -> FxVec3 {
    FxVec3 { x: Fx { raw: 0 }, y: Fx { raw: 0 }, z: Fx { raw: 0 } }
}

/// Componentwise sum of two spatial vectors.
pub open spec fn v3_add_spec(a: FxVec3, b: FxVec3) -> FxVec3 {
    FxVec3 {
        x: fxs(fx_add_spec(a.x.raw as int, b.x.raw as int)),
        y: fxs(fx_add_spec(a.y.raw as int, b.y.raw as int)),
        z: fxs(fx_add_spec(a.z.raw as int, b.z.raw as int)),
    }
}

/// Componentwise sum of two spatial vectors.
pub fn v3_add(a: FxVec3, b: FxVec3) -> (r: FxVec3)
    ensures
        r == v3_add_spec(a, b),
{
    FxVec3 { x: fx_add(a.x, b.x), y: fx_add(a.y, b.y), z: fx_add(a.z, b.z) }
}

/// Componentwise difference of two spatial vectors.
pub open spec fn v3_sub_spec(a: FxVec3, b: FxVec3) -> FxVec3 {
    FxVec3 {
        x: fxs(fx_sub_spec(a.x.raw as int, b.x.raw as int)),
        y: fxs(fx_sub_spec(a.y.raw as int, b.y.raw as int)),
        z: fxs(fx_sub_spec(a.z.raw as int, b.z.raw as int)),
    }
}

/// Componentwise difference of two spatial vectors.
pub fn v3_sub(a: FxVec3, b: FxVec3) -> (r: FxVec3)
    ensures
        r == v3_sub_spec(a, b),
{
    FxVec3 { x: fx_sub(a.x, b.x), y: fx_sub(a.y, b.y), z: fx_sub(a.z, b.z) }
}

/// A spatial vector scaled by a scalar.
pub open spec fn v3_scale_spec(a: FxVec3, s: Fx) -> FxVec3 {
    FxVec3 {
        x: fxs(fx_mul_spec(a.x.raw as int, s.raw as int)),
        y: fxs(fx_mul_spec(a.y.raw as int, s.raw as int)),
        z: fxs(fx_mul_spec(a.z.raw as int, s.raw as int)),
    }
}

/// A spatial vector scaled by a scalar.
pub fn v3_scale(a: FxVec3, s: Fx) -> (r: FxVec3)
    ensures
        r == v3_scale_spec(a, s),
{
    FxVec3 { x: fx_mul(a.x, s), y: fx_mul(a.y, s), z: fx_mul(a.z, s) }
}

/// Componentwise product of two spatial vectors.
pub open spec fn v3_mul_spec(a: FxVec3, b: FxVec3) -> FxVec3 {
    FxVec3 {
        x: fxs(fx_mul_spec(a.x.raw as int, b.x.raw as int)),
        y: fxs(fx_mul_spec(a.y.raw as int, b.y.raw as int)),
        z: fxs(fx_mul_spec(a.z.raw as int, b.z.raw as int)),
    }
}

/// Componentwise product of two spatial vectors.
pub fn v3_mul(a: FxVec3, b: FxVec3) -> (r: FxVec3)
    ensures
        r == v3_mul_spec(a, b),
{
    FxVec3 { x: fx_mul(a.x, b.x), y: fx_mul(a.y, b.y), z: fx_mul(a.z, b.z) }
}

/// Squared length of a spatial vector at the raw level.
pub open spec fn v3_length_squared_spec(a: FxVec3) -> int {
    fx_add_spec(
        fx_add_spec(
            fx_mul_spec(a.x.raw as int, a.x.raw as int),
            fx_mul_spec(a.y.raw as int, a.y.raw as int),
        ),
        fx_mul_spec(a.z.raw as int, a.z.raw as int),
    )
}

/// Squared length of a spatial vector; never negative.
pub fn v3_length_squared(a: FxVec3) -> (r: Fx)
    ensures
        r.raw == v3_length_squared_spec(a),
        r.raw >= 0,
{
    proof {
        lemma_square_nonneg(a.x.raw as int);
        lemma_square_nonneg(a.y.raw as int);
        lemma_square_nonneg(a.z.raw as int);
    }
    fx_add(fx_add(fx_mul(a.x, a.x), fx_mul(a.y, a.y)), fx_mul(a.z, a.z))
}

/// A fixed-point square is never negative.
proof fn lemma_square_nonneg(a: int)
    ensures
        fx_mul_spec(a, a) >= 0,
{
    assert(a * a >= 0) by (nonlinear_arith);
}

/// Length of a spatial vector: the rounded-down fixed-point square root of
/// its squared length.
pub fn v3_length(a: FxVec3) -> (r: Fx)
    ensures
        r.raw >= 0,
        r.raw * r.raw <= v3_length_squared_spec(a) * (crate::fixed::FX_SCALE as int),
        v3_length_squared_spec(a) * (crate::fixed::FX_SCALE as int) < (r.raw + 1) * (r.raw + 1),
{
    let lsq: Fx = v3_length_squared(a);
    fx_sqrt(lsq)
}

/// A squared length is never negative, saturation included.
pub proof fn lemma_lsq_nonneg(a: FxVec3)
    ensures
        v3_length_squared_spec(a) >= 0,
{
    assert(a.x.raw as int * (a.x.raw as int) >= 0) by (nonlinear_arith);
    assert(a.y.raw as int * (a.y.raw as int) >= 0) by (nonlinear_arith);
    assert(a.z.raw as int * (a.z.raw as int) >= 0) by (nonlinear_arith);
}

/// The speed a velocity stands for: the fixed-point square root of its
/// squared length.
pub open spec fn v3_speed_spec(v: FxVec3) -> Fx {
    Fx { raw: crate::fixed::fx_sqrt_spec(v3_length_squared_spec(v)) as i64 }
}

/// The unit heading of a velocity: the velocity divided by its speed, with
/// a zero speed giving the zero vector.
pub open spec fn v3_direction_spec(v: FxVec3) -> FxVec3 {
    v3_div_scalar_spec(v, v3_speed_spec(v))
}

/// Each component divided by the given scalar; a zero divisor gives the zero
/// vector, so normalizing a zero vector never divides by zero.
pub open spec fn v3_div_scalar_spec(a: FxVec3, s: Fx) -> FxVec3 {
    FxVec3 {
        x: fxs(fx_div_spec(a.x.raw as int, s.raw as int)),
        y: fxs(fx_div_spec(a.y.raw as int, s.raw as int)),
        z: fxs(fx_div_spec(a.z.raw as int, s.raw as int)),
    }
}

/// Each component divided by the given scalar.
pub fn v3_div_scalar(a: FxVec3, s: Fx) -> (r: FxVec3)
    ensures
        r == v3_div_scalar_spec(a, s),
{
    FxVec3 { x: fx_div(a.x, s), y: fx_div(a.y, s), z: fx_div(a.z, s) }
}

/// Squared distance between two points at the raw level.
pub open spec fn v3_distance_squared_spec(a: FxVec3, b: FxVec3) -> int {
    v3_length_squared_spec(v3_sub_spec(a, b))
}

/// Squared distance between two points; never negative.
pub fn v3_distance_squared(a: FxVec3, b: FxVec3) -> (r: Fx)
    ensures
        r.raw == v3_distance_squared_spec(a, b),
        r.raw >= 0,
{
    let d: FxVec3 = v3_sub(a, b);
    v3_length_squared(d)
}

/// A planar rotation about the z axis applied to a spatial vector.
pub open spec fn v3_rotate_z_spec(angle: Fx, v: FxVec3) -> FxVec3 {
    let c = fxs(fx_cos_spec(angle.raw as int));
    let s = fxs(fx_sin_spec(angle.raw as int));
    FxVec3 {
        x: fxs(
            fx_sub_spec(
                fx_mul_spec(v.x.raw as int, c.raw as int),
                fx_mul_spec(v.y.raw as int, s.raw as int),
            ),
        ),
        y: fxs(
            fx_add_spec(
                fx_mul_spec(v.x.raw as int, s.raw as int),
                fx_mul_spec(v.y.raw as int, c.raw as int),
            ),
        ),
        z: v.z,
    }
}

/// A planar rotation about the z axis applied to a spatial vector.
pub fn v3_rotate_z(angle: Fx, v: FxVec3) -> (r: FxVec3)
    ensures
        r == v3_rotate_z_spec(angle, v),
{
    let c: Fx = fx_cos(angle);
    let s: Fx = fx_sin(angle);
    FxVec3 {
        x: fx_sub(fx_mul(v.x, c), fx_mul(v.y, s)),
        y: fx_add(fx_mul(v.x, s), fx_mul(v.y, c)),
        z: v.z,
    }
}

impl FxColor {
    /// Build a color from its channels.
    pub fn rgba(r: Fx, g: Fx, b: Fx, a: Fx) -> (c: FxColor)
        ensures
            c == (FxColor { r, g, b, a }),
    {
        FxColor { r, g, b, a }
    }

    /// Opaque white: every channel at full strength.
    pub fn white() -> (c: FxColor)
        ensures
            c == FxColor::white_spec(),
    {
        FxColor {
            r: Fx { raw: crate::fixed::FX_SCALE },
            g: Fx { raw: crate::fixed::FX_SCALE },
            b: Fx { raw: crate::fixed::FX_SCALE },
            a: Fx { raw: crate::fixed::FX_SCALE },
        }
    }

    /// Opaque white at the spec level.
    pub open spec fn white_spec() -> FxColor {
        FxColor {
            r: Fx { raw: crate::fixed::FX_SCALE as i64 },
            g: Fx { raw: crate::fixed::FX_SCALE as i64 },
            b: Fx { raw: crate::fixed::FX_SCALE as i64 },
            a: Fx { raw: crate::fixed::FX_SCALE as i64 },
        }
    }
}

impl FxTransform {
    /// The identity placement: no offset, no turn, unit scale.
    pub fn identity() -> (r: FxTransform)
        ensures
            r == FxTransform::identity_spec(),
    {
        FxTransform {
            translation: FxVec3::zero(),
            rotation: Fx { raw: 0 },
            scale: FxVec3::splat(Fx { raw: crate::fixed::FX_SCALE }),
        }
    }

    /// The identity placement at the spec level.
    pub open spec fn identity_spec() -> FxTransform {
        FxTransform {
            translation: v3_zero_spec(),
            rotation: Fx { raw: 0 },
            scale: FxVec3 {
                x: Fx { raw: crate::fixed::FX_SCALE as i64 },
                y: Fx { raw: crate::fixed::FX_SCALE as i64 },
                z: Fx { raw: crate::fixed::FX_SCALE as i64 },
            },
        }
    }

    /// A placement that only translates.
    pub fn from_translation(t: FxVec3) -> (r: FxTransform)
        ensures
            r.translation == t,
            r.rotation.raw == 0,
            r.scale == FxTransform::identity_spec().scale,
    {
        let mut base: FxTransform = FxTransform::identity();
        base.translation = t;
        base
    }

    /// The same placement with the rotation angle replaced.
    pub fn with_rotation(self, rotation: Fx) -> (r: FxTransform)
        ensures
            r == (FxTransform { rotation, ..self }),
    {
        FxTransform { translation: self.translation, rotation, scale: self.scale }
    }

    /// Turn the placement further about the z axis.
    pub fn rotate_z(&mut self, angle: Fx)
        ensures
            final(self).translation == old(self).translation,
            final(self).scale == old(self).scale,
            final(self).rotation == fxs(
                fx_add_spec(old(self).rotation.raw as int, angle.raw as int),
            ),
    {
        self.rotation = fx_add(self.rotation, angle);
    }
}

/// Composition of two placements: the child's translation is scaled by the
/// parent's scale and turned by the parent's rotation before being offset by
/// the parent's translation; angles add and scales multiply.
pub open spec fn transform_mul_spec(a: FxTransform, b: FxTransform) -> FxTransform {
    FxTransform {
        translation: v3_add_spec(
            a.translation,
            v3_rotate_z_spec(a.rotation, v3_mul_spec(a.scale, b.translation)),
        ),
        rotation: fxs(fx_add_spec(a.rotation.raw as int, b.rotation.raw as int)),
        scale: v3_mul_spec(a.scale, b.scale),
    }
}

/// Composition of two placements.
pub fn transform_mul(a: FxTransform, b: FxTransform) -> (r: FxTransform)
    ensures
        r == transform_mul_spec(a, b),
{
    FxTransform {
        translation: v3_add(a.translation, v3_rotate_z(a.rotation, v3_mul(a.scale, b.translation))),
        rotation: fx_add(a.rotation, b.rotation),
        scale: v3_mul(a.scale, b.scale),
    }
}

} // verus!

//! Emitter shapes: where new particles appear and which way they face.
//!
//! Sampling a shape draws from the random source and produces a spawn-local
//! placement: a position offset and a facing angle about the z axis. The
//! contracts pin the placement down as an exact function of the draws, and
//! state which draws are possible.

use vstd::prelude::*;

use crate::fixed::{fx_add, fx_add_spec, fx_cos, fx_cos_spec, fx_mul, fx_mul_spec, fx_sin,
    fx_sin_spec, Fx, FX_HALF, FX_SCALE, FX_TAU};
use crate::rng::RandomSource;
use crate::values::{jitter_within, JitteredValue};
use crate::vecmath::{fxs, v3_rotate_z_spec, v3_scale_spec, FxTransform, FxVec3};

verus! {

/// An oriented segment of a circle with a given radius.
#[derive(Clone, Copy, Debug)]
pub struct CircleSegment {
    /// Width of the emitting arc, in radians; a full turn emits in every
    /// direction.
    pub opening_angle: Fx,
    /// Direction the arc is centered on, in radians; zero points along +x.
    pub direction_angle: Fx,
    /// Distance from the emitter at which particles appear; zero collapses
    /// the segment to a single point.
    pub radius: JitteredValue,
}

impl CircleSegment {
    /// The radius must be drawable.
    pub open spec fn wf(&self) -> bool {
        self.radius.wf()
    }

}

impl Default for CircleSegment {
    /// A full circle of radius zero: every direction, a single point.
    fn default() -> (r: CircleSegment)
        ensures
            r.opening_angle.raw == FX_TAU,
            r.direction_angle.raw == 0,
            r.radius.value.raw == 0,
            r.radius.jitter_range == Option::<crate::values::JitterRange>::None,
            r.wf(),
    {
        CircleSegment {
            opening_angle: Fx { raw: FX_TAU },
            direction_angle: Fx { raw: 0 },
            radius: JitteredValue::new(Fx { raw: 0 }),
        }
    }
}

impl Default for Line {
    /// A unit-length line along +x.
    fn default() -> (r: Line)
        ensures
            r.length.raw == FX_SCALE,
            r.angle.value.raw == 0,
            r.angle.jitter_range == Option::<crate::values::JitterRange>::None,
            r.wf(),
    {
        Line { length: Fx { raw: FX_SCALE }, angle: JitteredValue::new(Fx { raw: 0 }) }
    }
}

impl Default for EmitterShape {
    /// The default circle segment.
    fn default() -> (r: EmitterShape)
        ensures
            (match r {
                EmitterShape::CircleSegment(seg) => seg.opening_angle.raw == FX_TAU
                    && seg.direction_angle.raw == 0 && seg.radius.value.raw == 0
                    && seg.radius.jitter_range == Option::<crate::values::JitterRange>::None,
                EmitterShape::Line(_) => false,
            }),
            r.wf(),
    {
        EmitterShape::CircleSegment(CircleSegment::default())
    }
}

/// A line along which particles appear.
#[derive(Clone, Copy, Debug)]
pub struct Line {
    /// Length of the line.
    pub length: Fx,
    /// Angle the line's forward axis makes with +x, in radians.
    pub angle: JitteredValue,
}

impl Line {
    /// The angle must be drawable.
    pub open spec fn wf(&self) -> bool {
        self.angle.wf()
    }
}

/// The shape on which new particles appear.
#[derive(Clone, Copy, Debug)]
pub enum EmitterShape {
    /// An oriented segment of a circle with a given radius.
    CircleSegment(CircleSegment),
    /// A line at an angle.
    Line(Line),
}

/// The placement a circle-segment draw produces: `u` in `[-1/2, 1/2)`
/// picks the angle within the arc, `rv` is the drawn radius; the offset is
/// the radius along that angle and the facing is the angle itself.
pub open spec fn circle_sample_spec(seg: CircleSegment, u: Fx, rv: Fx) -> FxTransform {
    let radian = fxs(
        fx_add_spec(
            fx_mul_spec(u.raw as int, seg.opening_angle.raw as int),
            seg.direction_angle.raw as int,
        ),
    );
    let dir = FxVec3 {
        x: fxs(fx_cos_spec(radian.raw as int)),
        y: fxs(fx_sin_spec(radian.raw as int)),
        z: Fx { raw: 0 },
    };
    FxTransform {
        translation: v3_scale_spec(dir, rv),
        rotation: radian,
        scale: FxTransform::identity_spec().scale,
    }
}

/// The placement a line draw produces: `av` is the drawn angle, `u` in
/// `[-1/2, 1/2)` picks the signed offset along the line; the offset is the
/// line's sideways axis scaled by that distance and the facing is `av`.
pub open spec fn line_sample_spec(l: Line, av: Fx, u: Fx) -> FxTransform {
    let distance = fxs(fx_mul_spec(u.raw as int, l.length.raw as int));
    FxTransform {
        translation: v3_rotate_z_spec(
            av,
            FxVec3 { x: Fx { raw: 0 }, y: distance, z: Fx { raw: 0 } },
        ),
        rotation: av,
        scale: FxTransform::identity_spec().scale,
    }
}

/// Whether `t` is a placement the shape can produce: some admissible draws
/// yield exactly `t`.
pub open spec fn shape_sample_within(shape: EmitterShape, t: FxTransform) -> bool {
    match shape {
        EmitterShape::CircleSegment(seg) => exists|u: Fx, rv: Fx|
            -FX_HALF <= u.raw < FX_HALF && #[trigger] jitter_within(seg.radius, rv) && t
                == #[trigger] circle_sample_spec(seg, u, rv),
        EmitterShape::Line(l) => exists|av: Fx, u: Fx|
            -FX_HALF <= u.raw < FX_HALF && #[trigger] jitter_within(l.angle, av) && t
                == #[trigger] line_sample_spec(l, av, u),
    }
}

impl EmitterShape {
    /// Every jittered quantity inside the shape must be drawable.
    pub open spec fn wf(&self) -> bool {
        match *self {
            EmitterShape::CircleSegment(seg) => seg.wf(),
            EmitterShape::Line(l) => l.wf(),
        }
    }

    /// A circular emitter with the given radius.
    pub fn circle(radius: JitteredValue) -> (r: EmitterShape)
        requires
            radius.wf(),
        ensures
            r == EmitterShape::CircleSegment(
                CircleSegment {
                    opening_angle: Fx { raw: FX_TAU as i64 },
                    direction_angle: Fx { raw: 0 },
                    radius,
                },
            ),
            r.wf(),
    {
        let mut seg: CircleSegment = CircleSegment::default();
        seg.radius = radius;
        EmitterShape::CircleSegment(seg)
    }

    /// A line emitter with the given length and angle.
    pub fn line(length: Fx, angle: JitteredValue) -> (r: EmitterShape)
        requires
            angle.wf(),
        ensures
            r == EmitterShape::Line(Line { length, angle }),
            r.wf(),
    {
        EmitterShape::Line(Line { length, angle })
    }

    /// Draw a spawn-local placement from the shape: the returned transform
    /// holds the new particle's position offset and facing angle, with unit
    /// scale, and is an exact function of the draws made.
    pub fn sample(&self, rng: &mut RandomSource) -> (t: FxTransform)
        requires
            self.wf(),
        ensures
            shape_sample_within(*self, t),
            t.scale == FxTransform::identity_spec().scale,
    {
        match self {
            EmitterShape::CircleSegment(seg) => {
                let u: Fx = rng.gen_fx_range(Fx { raw: -FX_HALF }, Fx { raw: FX_HALF });
                let radian: Fx = fx_add(fx_mul(u, seg.opening_angle), seg.direction_angle);
                let dir: FxVec3 = FxVec3 {
                    x: fx_cos(radian),
                    y: fx_sin(radian),
                    z: Fx { raw: 0 },
                };
                let rv: Fx = seg.radius.get_value(rng);
                let t: FxTransform = FxTransform {
                    translation: crate::vecmath::v3_scale(dir, rv),
                    rotation: radian,
                    scale: FxVec3::splat(Fx { raw: FX_SCALE }),
                };
                proof {
                    assert(jitter_within(seg.radius, rv));
                    assert(t == circle_sample_spec(*seg, u, rv));
                }
                t
            },
            EmitterShape::Line(l) => {
                let av: Fx = l.angle.get_value(rng);
                let u: Fx = rng.gen_fx_range(Fx { raw: -FX_HALF }, Fx { raw: FX_HALF });
                let distance: Fx = fx_mul(u, l.length);
                let t: FxTransform = FxTransform {
                    translation: crate::vecmath::v3_rotate_z(
                        av,
                        FxVec3 { x: Fx { raw: 0 }, y: distance, z: Fx { raw: 0 } },
                    ),
                    rotation: av,
                    scale: FxVec3::splat(Fx { raw: FX_SCALE }),
                };
                proof {
                    assert(jitter_within(l.angle, av));
                    assert(t == line_sample_spec(*l, av, u));
                }
                t
            },
        }
    }
}

} // verus!

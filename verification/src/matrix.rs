//! A 4x4 matrix of fixed-point components for orientational data:
//! projection, view, rotation, scale and translation transforms.
//!
//! Storage is column-major and load-bearing: field `dCR` is column `C`,
//! row `R`, and `flattened` emits column 0 first, exactly the order a
//! shader-uniform upload consumes.  Constructors that need a
//! transcendental value (the tangent of half the field of view, the
//! sine and cosine of a rotation angle) take it as a fixed-point
//! argument, evaluated by the caller's floating-point layer.

use vstd::prelude::*;

use crate::fixed::DIV_OUT_BOUND;
use crate::fixed::MAX_FX;
use crate::fixed::SCALE;
use crate::fixed::fdiv;
use crate::fixed::fdiv_s;
use crate::fixed::fmul;
use crate::fixed::fmul_s;
use crate::fixed::fx_ok;
use crate::fixed::lemma_fmul_comm;
use crate::fixed::lemma_fmul_one;
use crate::fixed::lemma_fmul_zero;
use crate::vec3::Vec3fx;
use crate::vec3::cross3_fx;
use crate::vec3::dot3_fx;
use crate::vec3::len3_s;
use crate::vec3::norm3_s;
use crate::vec3::norm_divisor;
use crate::vec3::sumsq3;

verus! {

/// A 4x4 matrix of Q16.16 components; `dCR` is column `C`, row `R`.
#[derive(Clone, Copy, PartialEq, Eq, Structural, Debug)]
pub struct Mat4x4 {
    pub d00: i64,
    pub d01: i64,
    pub d02: i64,
    pub d03: i64,
    pub d10: i64,
    pub d11: i64,
    pub d12: i64,
    pub d13: i64,
    pub d20: i64,
    pub d21: i64,
    pub d22: i64,
    pub d23: i64,
    pub d30: i64,
    pub d31: i64,
    pub d32: i64,
    pub d33: i64,
}

/// One entry of the product of two matrices: the row-by-column sum of
/// rescaled fixed-point products, written against the column-major
/// fields (entry `(c, r)` of the result sums `a(c, k) * b(k, r)`).
pub open spec fn mul_entry_s(a: Mat4x4, b: Mat4x4, c: int, r: int) -> int {
    fmul_s(a.ent(c, 0), b.ent(0, r)) + fmul_s(a.ent(c, 1), b.ent(1, r)) + fmul_s(
        a.ent(c, 2),
        b.ent(2, r),
    ) + fmul_s(a.ent(c, 3), b.ent(3, r))
}

impl Mat4x4 {
    /// The entry at column `c`, row `r`, as an exact integer.
    pub open spec fn ent(self, c: int, r: int) -> int {
        if c == 0 {
        if r == 0 {
            self.d00 as int
        } else if r == 1 {
            self.d01 as int
        } else if r == 2 {
            self.d02 as int
        } else {
            self.d03 as int
        }
        } else if c == 1 {
        if r == 0 {
            self.d10 as int
        } else if r == 1 {
            self.d11 as int
        } else if r == 2 {
            self.d12 as int
        } else {
            self.d13 as int
        }
        } else if c == 2 {
        if r == 0 {
            self.d20 as int
        } else if r == 1 {
            self.d21 as int
        } else if r == 2 {
            self.d22 as int
        } else {
            self.d23 as int
        }
        } else {
        if r == 0 {
            self.d30 as int
        } else if r == 1 {
            self.d31 as int
        } else if r == 2 {
            self.d32 as int
        } else {
            self.d33 as int
        }
        }
    }

    /// Entries small enough that negating them and forming products
    /// with them stays inside `i64`; every constructor establishes it.
    pub open spec fn wf(self) -> bool {
        -DIV_OUT_BOUND <= self.d00 <= DIV_OUT_BOUND
            && -DIV_OUT_BOUND <= self.d01 <= DIV_OUT_BOUND
            && -DIV_OUT_BOUND <= self.d02 <= DIV_OUT_BOUND
            && -DIV_OUT_BOUND <= self.d03 <= DIV_OUT_BOUND
            && -DIV_OUT_BOUND <= self.d10 <= DIV_OUT_BOUND
            && -DIV_OUT_BOUND <= self.d11 <= DIV_OUT_BOUND
            && -DIV_OUT_BOUND <= self.d12 <= DIV_OUT_BOUND
            && -DIV_OUT_BOUND <= self.d13 <= DIV_OUT_BOUND
            && -DIV_OUT_BOUND <= self.d20 <= DIV_OUT_BOUND
            && -DIV_OUT_BOUND <= self.d21 <= DIV_OUT_BOUND
            && -DIV_OUT_BOUND <= self.d22 <= DIV_OUT_BOUND
            && -DIV_OUT_BOUND <= self.d23 <= DIV_OUT_BOUND
            && -DIV_OUT_BOUND <= self.d30 <= DIV_OUT_BOUND
            && -DIV_OUT_BOUND <= self.d31 <= DIV_OUT_BOUND
            && -DIV_OUT_BOUND <= self.d32 <= DIV_OUT_BOUND
            && -DIV_OUT_BOUND <= self.d33 <= DIV_OUT_BOUND
    }

    /// Entries within the magnitude `fmul` accepts: what `multiply`
    /// requires of both operands.
    pub open spec fn bounded(self) -> bool {
        fx_ok(self.d00 as int)
            && fx_ok(self.d01 as int)
            && fx_ok(self.d02 as int)
            && fx_ok(self.d03 as int)
            && fx_ok(self.d10 as int)
            && fx_ok(self.d11 as int)
            && fx_ok(self.d12 as int)
            && fx_ok(self.d13 as int)
            && fx_ok(self.d20 as int)
            && fx_ok(self.d21 as int)
            && fx_ok(self.d22 as int)
            && fx_ok(self.d23 as int)
            && fx_ok(self.d30 as int)
            && fx_ok(self.d31 as int)
            && fx_ok(self.d32 as int)
            && fx_ok(self.d33 as int)
    }

    /// Ones (1.0 is `SCALE` units) on the diagonal, zeros elsewhere.
    pub open spec fn is_identity_s(self) -> bool {
        self.d00 == SCALE
            && self.d01 == 0
            && self.d02 == 0
            && self.d03 == 0
            && self.d10 == 0
            && self.d11 == SCALE
            && self.d12 == 0
            && self.d13 == 0
            && self.d20 == 0
            && self.d21 == 0
            && self.d22 == SCALE
            && self.d23 == 0
            && self.d30 == 0
            && self.d31 == 0
            && self.d32 == 0
            && self.d33 == SCALE
    }

    /// The identity matrix.
    pub fn new() -> (r: Mat4x4)
        ensures
            r.is_identity_s(),
            r.bounded(),
            r.wf(),
    {
        Mat4x4 {
            d00: SCALE,
            d01: 0,
            d02: 0,
            d03: 0,
            d10: 0,
            d11: SCALE,
            d12: 0,
            d13: 0,
            d20: 0,
            d21: 0,
            d22: SCALE,
            d23: 0,
            d30: 0,
            d31: 0,
            d32: 0,
            d33: SCALE
        }
    }

    /// Reset to the identity in place: the sole in-place mutator.
    pub fn identity(&mut self)
        ensures
            final(self).is_identity_s(),
    {
        *self = Mat4x4::new();
    }

    /// Right-handed symmetric-frustum perspective projection.
    ///
    /// `tan_half_fov` is tan(fov_radians / 2), evaluated by the
    /// caller's floating-point layer; the frustum half-extents are
    /// `range = tan_half_fov * near` vertically and `range * aspect`
    /// horizontally, and the matrix carries the canonical scale terms,
    /// the depth mapping `-(far + near) / (far - near)` with
    /// `-(2 * far * near) / (far - near)`, and `-1` in the z-to-w slot.
    /// The preconditions reject the degenerate frusta that would
    /// otherwise divide by zero.
    pub fn new_perspective(tan_half_fov: i64, aspect_ratio: i64, near: i64, far: i64) -> (r:
        Mat4x4)
        requires
            fx_ok(tan_half_fov as int),
            fx_ok(aspect_ratio as int),
            fx_ok(near as int),
            fx_ok(far as int),
            0 < near < far,
            0 < tan_half_fov,
            0 < aspect_ratio,
            0 < fmul_s(tan_half_fov as int, near as int) <= MAX_FX,
            0 < fmul_s(fmul_s(tan_half_fov as int, near as int), aspect_ratio as int),
        ensures
            ({
                let range = fmul_s(tan_half_fov as int, near as int);
                let half_w = fmul_s(range, aspect_ratio as int);
                r.d00 == fdiv_s(near + near, 2 * half_w) && r.d11 == fdiv_s(near + near, 2 * range)
                    && r.d22 == -fdiv_s(far + near, far - near) && r.d32 == -fdiv_s(
                    2 * fmul_s(far as int, near as int),
                    far - near,
                ) && r.d23 == -SCALE && r.d10 == 0 && r.d20 == 0 && r.d30 == 0 && r.d01 == 0
                    && r.d21 == 0 && r.d31 == 0 && r.d02 == 0 && r.d12 == 0 && r.d03 == 0
                    && r.d13 == 0 && r.d33 == 0
            }),
            r.wf(),
    {
        let range = fmul(tan_half_fov, near);
        let half_w = fmul(range, aspect_ratio);
        let depth = far - near;
        let fn2 = fmul(far, near);
        Mat4x4 {
            d00: fdiv(near + near, half_w + half_w),
            d01: 0,
            d02: 0,
            d03: 0,
            d10: 0,
            d11: fdiv(near + near, range + range),
            d12: 0,
            d13: 0,
            d20: 0,
            d21: 0,
            d22: -fdiv(far + near, depth),
            d23: -SCALE,
            d30: 0,
            d31: 0,
            d32: -fdiv(fn2 + fn2, depth),
            d33: 0,
        }
    }

    /// Orthographic projection of the given box: diagonal scale terms
    /// from the extents, translation terms centering the box, and an
    /// identity-like w row.
    pub fn new_orthographic(left: i64, right: i64, bottom: i64, top: i64, near: i64, far: i64) -> (
        r: Mat4x4)
        requires
            fx_ok(left as int),
            fx_ok(right as int),
            fx_ok(bottom as int),
            fx_ok(top as int),
            fx_ok(near as int),
            fx_ok(far as int),
            left < right,
            bottom < top,
            near < far,
        ensures
            r.d00 == fdiv_s(2 * SCALE, right - left),
            r.d30 == -fdiv_s(right + left, right - left),
            r.d11 == fdiv_s(2 * SCALE, top - bottom),
            r.d31 == -fdiv_s(top + bottom, top - bottom),
            r.d22 == -fdiv_s(2 * SCALE, far - near),
            r.d32 == -fdiv_s(far + near, far - near),
            r.d33 == SCALE,
            r.d10 == 0 && r.d20 == 0 && r.d01 == 0 && r.d21 == 0 && r.d02 == 0 && r.d12 == 0
                && r.d03 == 0 && r.d13 == 0 && r.d23 == 0,
            r.wf(),
    {
        Mat4x4 {
            d00: fdiv(SCALE + SCALE, right - left),
            d01: 0,
            d02: 0,
            d03: 0,
            d10: 0,
            d11: fdiv(SCALE + SCALE, top - bottom),
            d12: 0,
            d13: 0,
            d20: 0,
            d21: 0,
            d22: -fdiv(SCALE + SCALE, far - near),
            d23: 0,
            d30: -fdiv(right + left, right - left),
            d31: -fdiv(top + bottom, top - bottom),
            d32: -fdiv(far + near, far - near),
            d33: SCALE,
        }
    }

    /// Scale matrix: the given factors on the diagonal.
    pub fn new_scale(x: i64, y: i64, z: i64) -> (r: Mat4x4)
        requires
            fx_ok(x as int),
            fx_ok(y as int),
            fx_ok(z as int),
        ensures
            r.d00 == x && r.d11 == y && r.d22 == z && r.d33 == SCALE,
            r.d01 == 0 && r.d02 == 0 && r.d03 == 0 && r.d10 == 0 && r.d12 == 0 && r.d13 == 0
                && r.d20 == 0 && r.d21 == 0 && r.d23 == 0 && r.d30 == 0 && r.d31 == 0 && r.d32
                == 0,
            r.bounded(),
            r.wf(),
    {
        Mat4x4 {
            d00: x,
            d01: 0,
            d02: 0,
            d03: 0,
            d10: 0,
            d11: y,
            d12: 0,
            d13: 0,
            d20: 0,
            d21: 0,
            d22: z,
            d23: 0,
            d30: 0,
            d31: 0,
            d32: 0,
            d33: SCALE,
        }
    }

    /// Translation matrix: offsets in the last column's x/y/z rows.
    pub fn new_translation(x: i64, y: i64, z: i64) -> (r: Mat4x4)
        requires
            fx_ok(x as int),
            fx_ok(y as int),
            fx_ok(z as int),
        ensures
            r.d30 == x && r.d31 == y && r.d32 == z,
            r.d00 == SCALE && r.d11 == SCALE && r.d22 == SCALE && r.d33 == SCALE,
            r.d01 == 0 && r.d02 == 0 && r.d03 == 0 && r.d10 == 0 && r.d12 == 0 && r.d13 == 0
                && r.d20 == 0 && r.d21 == 0 && r.d23 == 0,
            r.bounded(),
            r.wf(),
    {
        Mat4x4 {
            d00: SCALE,
            d01: 0,
            d02: 0,
            d03: 0,
            d10: 0,
            d11: SCALE,
            d12: 0,
            d13: 0,
            d20: 0,
            d21: 0,
            d22: SCALE,
            d23: 0,
            d30: x,
            d31: y,
            d32: z,
            d33: SCALE,
        }
    }

    /// Rotation about the x axis from the sine and cosine of the angle
    /// (evaluated by the caller's float layer).  The slots follow the
    /// frame-rotation convention of the camera path: applied to a
    /// column vector, a positive angle carries z toward y.
    pub fn new_rotation_x(sin_a: i64, cos_a: i64) -> (r: Mat4x4)
        requires
            fx_ok(sin_a as int),
            fx_ok(cos_a as int),
        ensures
            r.d11 == cos_a && r.d21 == sin_a && r.d12 == -sin_a && r.d22 == cos_a,
            r.d00 == SCALE && r.d33 == SCALE,
            r.d10 == 0 && r.d20 == 0 && r.d30 == 0 && r.d01 == 0 && r.d31 == 0 && r.d02 == 0
                && r.d32 == 0 && r.d03 == 0 && r.d13 == 0 && r.d23 == 0,
            r.bounded(),
            r.wf(),
    {
        Mat4x4 {
            d00: SCALE,
            d01: 0,
            d02: 0,
            d03: 0,
            d10: 0,
            d11: cos_a,
            d12: -sin_a,
            d13: 0,
            d20: 0,
            d21: sin_a,
            d22: cos_a,
            d23: 0,
            d30: 0,
            d31: 0,
            d32: 0,
            d33: SCALE,
        }
    }

    /// Rotation about the y axis, in the same frame-rotation
    /// convention: a positive angle carries z toward x.
    pub fn new_rotation_y(sin_a: i64, cos_a: i64) -> (r: Mat4x4)
        requires
            fx_ok(sin_a as int),
            fx_ok(cos_a as int),
        ensures
            r.d00 == cos_a && r.d20 == sin_a && r.d02 == -sin_a && r.d22 == cos_a,
            r.d11 == SCALE && r.d33 == SCALE,
            r.d10 == 0 && r.d30 == 0 && r.d01 == 0 && r.d21 == 0 && r.d31 == 0 && r.d12 == 0
                && r.d32 == 0 && r.d03 == 0 && r.d13 == 0 && r.d23 == 0,
            r.bounded(),
            r.wf(),
    {
        Mat4x4 {
            d00: cos_a,
            d01: 0,
            d02: -sin_a,
            d03: 0,
            d10: 0,
            d11: SCALE,
            d12: 0,
            d13: 0,
            d20: sin_a,
            d21: 0,
            d22: cos_a,
            d23: 0,
            d30: 0,
            d31: 0,
            d32: 0,
            d33: SCALE,
        }
    }

    /// Rotation about the z axis, in the same frame-rotation
    /// convention: a positive angle carries y toward x.
    pub fn new_rotation_z(sin_a: i64, cos_a: i64) -> (r: Mat4x4)
        requires
            fx_ok(sin_a as int),
            fx_ok(cos_a as int),
        ensures
            r.d00 == cos_a && r.d10 == sin_a && r.d01 == -sin_a && r.d11 == cos_a,
            r.d22 == SCALE && r.d33 == SCALE,
            r.d20 == 0 && r.d30 == 0 && r.d21 == 0 && r.d31 == 0 && r.d02 == 0 && r.d12 == 0
                && r.d32 == 0 && r.d03 == 0 && r.d13 == 0 && r.d23 == 0,
            r.bounded(),
            r.wf(),
    {
        Mat4x4 {
            d00: cos_a,
            d01: -sin_a,
            d02: 0,
            d03: 0,
            d10: sin_a,
            d11: cos_a,
            d12: 0,
            d13: 0,
            d20: 0,
            d21: 0,
            d22: SCALE,
            d23: 0,
            d30: 0,
            d31: 0,
            d32: 0,
            d33: SCALE,
        }
    }

    /// View matrix looking from `position` toward `target` with the
    /// given up hint: the normalized forward, side and proper-up basis
    /// vectors fill the first three rows, and the translation row holds
    /// their negative dot products with `position`.  A degenerate basis
    /// (up hint parallel to the view direction, or target equal to
    /// position) passes through the normalization fallback unchanged
    /// rather than failing.
    pub fn new_lookat(position: Vec3fx, target: Vec3fx, up: Vec3fx) -> (r: Mat4x4)
        requires
            position.v_ok(),
            target.v_ok(),
            up.v_ok(),
        ensures
            ({
                let f = norm3_s(
                    (
                        target.x - position.x,
                        target.y - position.y,
                        target.z - position.z,
                    ),
                );
                let s = norm3_s(cross3_fx(f, up.m()));
                let u = norm3_s(cross3_fx(s, f));
                r.d00 == s.0 && r.d10 == s.1 && r.d20 == s.2 && r.d30 == -dot3_fx(s, position.m())
                    && r.d01 == u.0 && r.d11 == u.1 && r.d21 == u.2 && r.d31 == -dot3_fx(
                    u,
                    position.m(),
                ) && r.d02 == -f.0 && r.d12 == -f.1 && r.d22 == -f.2 && r.d32 == dot3_fx(
                    f,
                    position.m(),
                ) && r.d03 == 0 && r.d13 == 0 && r.d23 == 0 && r.d33 == SCALE
            }),
            r.wf(),
    {
        let mut forward = target.sub(&position);
        forward.normalize();
        let mut side = forward.cross(&up);
        side.normalize();
        let mut proper_up = side.cross(&forward);
        proper_up.normalize();
        Mat4x4 {
            d00: side.x,
            d01: proper_up.x,
            d02: -forward.x,
            d03: 0,
            d10: side.y,
            d11: proper_up.y,
            d12: -forward.y,
            d13: 0,
            d20: side.z,
            d21: proper_up.z,
            d22: -forward.z,
            d23: 0,
            d30: -side.dot(&position),
            d31: -proper_up.dot(&position),
            d32: forward.dot(&position),
            d33: SCALE,
        }
    }

    /// Matrix product: entry `(c, r)` of the result is the sum over `k`
    /// of `self(c, k) * rhs(k, r)`, written consistently with the
    /// column-major storage.  Non-commutative; composes transforms.
    pub fn multiply(&self, rhs: &Mat4x4) -> (r: Mat4x4)
        requires
            self.bounded(),
            rhs.bounded(),
        ensures
            forall|c: int, rr: int|
                0 <= c < 4 && 0 <= rr < 4 ==> r.ent(c, rr) == mul_entry_s(*self, *rhs, c, rr),
            r.wf(),
    {
        let r = Mat4x4 {
            d00: fmul(self.d00, rhs.d00) + fmul(self.d01, rhs.d10) + fmul(self.d02, rhs.d20) + fmul(self.d03, rhs.d30),
            d01: fmul(self.d00, rhs.d01) + fmul(self.d01, rhs.d11) + fmul(self.d02, rhs.d21) + fmul(self.d03, rhs.d31),
            d02: fmul(self.d00, rhs.d02) + fmul(self.d01, rhs.d12) + fmul(self.d02, rhs.d22) + fmul(self.d03, rhs.d32),
            d03: fmul(self.d00, rhs.d03) + fmul(self.d01, rhs.d13) + fmul(self.d02, rhs.d23) + fmul(self.d03, rhs.d33),
            d10: fmul(self.d10, rhs.d00) + fmul(self.d11, rhs.d10) + fmul(self.d12, rhs.d20) + fmul(self.d13, rhs.d30),
            d11: fmul(self.d10, rhs.d01) + fmul(self.d11, rhs.d11) + fmul(self.d12, rhs.d21) + fmul(self.d13, rhs.d31),
            d12: fmul(self.d10, rhs.d02) + fmul(self.d11, rhs.d12) + fmul(self.d12, rhs.d22) + fmul(self.d13, rhs.d32),
            d13: fmul(self.d10, rhs.d03) + fmul(self.d11, rhs.d13) + fmul(self.d12, rhs.d23) + fmul(self.d13, rhs.d33),
            d20: fmul(self.d20, rhs.d00) + fmul(self.d21, rhs.d10) + fmul(self.d22, rhs.d20) + fmul(self.d23, rhs.d30),
            d21: fmul(self.d20, rhs.d01) + fmul(self.d21, rhs.d11) + fmul(self.d22, rhs.d21) + fmul(self.d23, rhs.d31),
            d22: fmul(self.d20, rhs.d02) + fmul(self.d21, rhs.d12) + fmul(self.d22, rhs.d22) + fmul(self.d23, rhs.d32),
            d23: fmul(self.d20, rhs.d03) + fmul(self.d21, rhs.d13) + fmul(self.d22, rhs.d23) + fmul(self.d23, rhs.d33),
            d30: fmul(self.d30, rhs.d00) + fmul(self.d31, rhs.d10) + fmul(self.d32, rhs.d20) + fmul(self.d33, rhs.d30),
            d31: fmul(self.d30, rhs.d01) + fmul(self.d31, rhs.d11) + fmul(self.d32, rhs.d21) + fmul(self.d33, rhs.d31),
            d32: fmul(self.d30, rhs.d02) + fmul(self.d31, rhs.d12) + fmul(self.d32, rhs.d22) + fmul(self.d33, rhs.d32),
            d33: fmul(self.d30, rhs.d03) + fmul(self.d31, rhs.d13) + fmul(self.d32, rhs.d23) + fmul(self.d33, rhs.d33),
        };
        proof {
            assert forall|c: int, rr: int| 0 <= c < 4 && 0 <= rr < 4 implies r.ent(c, rr)
                == mul_entry_s(*self, *rhs, c, rr) by {
                assert(0 <= c <= 3 && 0 <= rr <= 3);
            }
        }
        r
    }

    pub fn get_width(&self) -> (r: usize)
        ensures
            r == 4,
    {
        4
    }

    pub fn get_height(&self) -> (r: usize)
        ensures
            r == 4,
    {
        4
    }

    /// The up direction of the rotational part: the second row of the
    /// upper-left 3x3 block (a unit-ish vector when that block is
    /// orthonormal, as look-at and rotation constructors produce).
    pub fn up(&self) -> (r: Vec3fx)
        requires
            self.wf(),
        ensures
            r.x == self.d01 && r.y == self.d11 && r.z == self.d21,
    {
        Vec3fx::new(self.d01, self.d11, self.d21)
    }

    /// The negated up direction.
    pub fn down(&self) -> (r: Vec3fx)
        requires
            self.wf(),
        ensures
            r.x == -self.d01 && r.y == -self.d11 && r.z == -self.d21,
    {
        Vec3fx::new(-self.d01, -self.d11, -self.d21)
    }

    /// The negated side direction: the first row of the 3x3 block,
    /// negated.
    pub fn left(&self) -> (r: Vec3fx)
        requires
            self.wf(),
        ensures
            r.x == -self.d00 && r.y == -self.d10 && r.z == -self.d20,
    {
        Vec3fx::new(-self.d00, -self.d10, -self.d20)
    }

    /// The side direction: the first row of the 3x3 block.
    pub fn right(&self) -> (r: Vec3fx)
        requires
            self.wf(),
        ensures
            r.x == self.d00 && r.y == self.d10 && r.z == self.d20,
    {
        Vec3fx::new(self.d00, self.d10, self.d20)
    }

    /// The view direction: the negated third row of the 3x3 block.
    pub fn forward(&self) -> (r: Vec3fx)
        requires
            self.wf(),
        ensures
            r.x == -self.d02 && r.y == -self.d12 && r.z == -self.d22,
    {
        Vec3fx::new(-self.d02, -self.d12, -self.d22)
    }

    /// The direction opposite the view direction.
    pub fn backward(&self) -> (r: Vec3fx)
        requires
            self.wf(),
        ensures
            r.x == self.d02 && r.y == self.d12 && r.z == self.d22,
    {
        Vec3fx::new(self.d02, self.d12, self.d22)
    }

    /// The 16 components in column-major order, column 0 first: the
    /// exact layout the external uniform-upload interface expects.
    pub fn flattened(&self) -> (r: Vec<i64>)
        ensures
            r@.len() == 16,
            r@[0] == self.d00 && r@[1] == self.d01 && r@[2] == self.d02 && r@[3] == self.d03,
            r@[4] == self.d10 && r@[5] == self.d11 && r@[6] == self.d12 && r@[7] == self.d13,
            r@[8] == self.d20 && r@[9] == self.d21 && r@[10] == self.d22 && r@[11] == self.d23,
            r@[12] == self.d30 && r@[13] == self.d31 && r@[14] == self.d32 && r@[15] == self.d33,
    {
        let mut v: Vec<i64> = Vec::new();
        v.push(self.d00);
        v.push(self.d01);
        v.push(self.d02);
        v.push(self.d03);
        v.push(self.d10);
        v.push(self.d11);
        v.push(self.d12);
        v.push(self.d13);
        v.push(self.d20);
        v.push(self.d21);
        v.push(self.d22);
        v.push(self.d23);
        v.push(self.d30);
        v.push(self.d31);
        v.push(self.d32);
        v.push(self.d33);
        v
    }

    /// Whether every entry is within the magnitude `multiply` accepts:
    /// the runtime check a caller makes before composing matrices.
    pub fn is_bounded(&self) -> (r: bool)
        ensures
            r == self.bounded(),
    {
        -MAX_FX <= self.d00 && self.d00 <= MAX_FX
            && -MAX_FX <= self.d01 && self.d01 <= MAX_FX
            && -MAX_FX <= self.d02 && self.d02 <= MAX_FX
            && -MAX_FX <= self.d03 && self.d03 <= MAX_FX
            && -MAX_FX <= self.d10 && self.d10 <= MAX_FX
            && -MAX_FX <= self.d11 && self.d11 <= MAX_FX
            && -MAX_FX <= self.d12 && self.d12 <= MAX_FX
            && -MAX_FX <= self.d13 && self.d13 <= MAX_FX
            && -MAX_FX <= self.d20 && self.d20 <= MAX_FX
            && -MAX_FX <= self.d21 && self.d21 <= MAX_FX
            && -MAX_FX <= self.d22 && self.d22 <= MAX_FX
            && -MAX_FX <= self.d23 && self.d23 <= MAX_FX
            && -MAX_FX <= self.d30 && self.d30 <= MAX_FX
            && -MAX_FX <= self.d31 && self.d31 <= MAX_FX
            && -MAX_FX <= self.d32 && self.d32 <= MAX_FX
            && -MAX_FX <= self.d33 && self.d33 <= MAX_FX
    }
}

/// A point transformed by a matrix under the column-vector convention
/// the shader uses: homogeneous row `r` of the result sums the entries
/// `(c, r)` across the columns against the point's components, with
/// 1.0 in the w slot.
pub open spec fn xform_point_s(m: Mat4x4, p: (int, int, int)) -> (int, int, int, int) {
    (
        fmul_s(m.ent(0, 0), p.0) + fmul_s(m.ent(1, 0), p.1) + fmul_s(m.ent(2, 0), p.2) + fmul_s(
            m.ent(3, 0),
            SCALE as int,
        ),
        fmul_s(m.ent(0, 1), p.0) + fmul_s(m.ent(1, 1), p.1) + fmul_s(m.ent(2, 1), p.2) + fmul_s(
            m.ent(3, 1),
            SCALE as int,
        ),
        fmul_s(m.ent(0, 2), p.0) + fmul_s(m.ent(1, 2), p.1) + fmul_s(m.ent(2, 2), p.2) + fmul_s(
            m.ent(3, 2),
            SCALE as int,
        ),
        fmul_s(m.ent(0, 3), p.0) + fmul_s(m.ent(1, 3), p.1) + fmul_s(m.ent(2, 3), p.2) + fmul_s(
            m.ent(3, 3),
            SCALE as int,
        ),
    )
}

/// For an axis-aligned view the look-at derivation is exact: a camera
/// at any `eye` looking straight down the negative z axis at a target
/// `d` away (with the canonical +y up hint) maps that target onto the
/// negative local z axis of view space, at exactly `(0, 0, -d, 1)`.
/// `view` is any matrix whose entries satisfy the look-at contract for
/// these inputs.
pub proof fn lemma_lookat_centers_axis_target(eye: (int, int, int), d: int, view: Mat4x4)
    requires
        crate::fixed::EPSILON <= d <= MAX_FX,
        ({
            let f = norm3_s((0, 0, -d));
            let s = norm3_s(cross3_fx(f, (0, SCALE as int, 0)));
            let u = norm3_s(cross3_fx(s, f));
            view.d00 == s.0 && view.d10 == s.1 && view.d20 == s.2 && view.d30 == -dot3_fx(s, eye)
                && view.d01 == u.0 && view.d11 == u.1 && view.d21 == u.2 && view.d31 == -dot3_fx(
                u,
                eye,
            ) && view.d02 == -f.0 && view.d12 == -f.1 && view.d22 == -f.2 && view.d32 == dot3_fx(
                f,
                eye,
            ) && view.d03 == 0 && view.d13 == 0 && view.d23 == 0 && view.d33 == SCALE
        }),
    ensures
        xform_point_s(view, (eye.0, eye.1, eye.2 - d)) == (0int, 0int, -d, SCALE as int),
{
    let ss = SCALE as int;
    // the forward vector normalizes exactly: |(0, 0, -d)| == d
    assert(0 * 0 == 0 && (-d) * (-d) == d * d && d * d >= 0 && d * d < (d + 1) * (d + 1))
        by (nonlinear_arith)
        requires
            d >= 0,
    ;
    assert(sumsq3((0, 0, -d)) == d * d);
    crate::fixed::lemma_isqrt_unique(d * d, d);
    assert(len3_s((0, 0, -d)) == d);
    assert(norm_divisor(d) == d);
    assert((-SCALE) * d == -(SCALE * d) && SCALE * d == d * SCALE && (-d) * SCALE == (-SCALE) * d)
        by (nonlinear_arith);
    crate::fixed::lemma_tdiv_exact(-SCALE, d);
    vstd::arithmetic::div_mod::lemma_div_of0(d);
    let f = norm3_s((0, 0, -d));
    assert(f == (0int, 0int, -ss));

    // the side and proper-up vectors come out as exact unit axes
    lemma_fmul_zero(0);
    lemma_fmul_zero(ss);
    lemma_fmul_zero(-ss);
    crate::fixed::lemma_tdiv_exact(-ss, ss);
    assert((-ss) * ss == -(ss * ss)) by (nonlinear_arith);
    assert(fmul_s(-ss, ss) == -ss);
    let sr = cross3_fx(f, (0, ss, 0));
    assert(sr == (ss, 0int, 0int));
    assert(ss * ss >= 0 && ss * ss < (ss + 1) * (ss + 1)) by (nonlinear_arith)
        requires
            ss >= 1,
    ;
    assert(sumsq3((ss, 0int, 0int)) == ss * ss);
    crate::fixed::lemma_isqrt_unique(ss * ss, ss);
    assert(norm_divisor(ss) == ss);
    crate::fixed::lemma_tdiv_exact(ss, ss);
    let s = norm3_s(sr);
    assert(s == (ss, 0int, 0int));
    lemma_fmul_comm(ss, -ss);
    assert(fmul_s(ss, -ss) == -ss);
    let ur = cross3_fx(s, f);
    assert(ur == (0int, ss, 0int));
    assert(sumsq3((0int, ss, 0int)) == ss * ss);
    let u = norm3_s(ur);
    assert(u == (0int, ss, 0int));

    // the translation row is the negated eye coordinate, exactly
    lemma_fmul_one(eye.0);
    lemma_fmul_one(eye.1);
    lemma_fmul_one(eye.2);
    crate::fixed::lemma_fmul_zero(eye.0);
    crate::fixed::lemma_fmul_zero(eye.1);
    crate::fixed::lemma_fmul_zero(eye.2);
    assert(fmul_s(-ss, eye.2) == -eye.2) by {
        lemma_fmul_comm(-ss, eye.2);
        assert(eye.2 * (-ss) == (-eye.2) * ss) by (nonlinear_arith);
        crate::fixed::lemma_tdiv_exact(-eye.2, ss);
    }
    assert(dot3_fx(s, eye) == eye.0);
    assert(dot3_fx(u, eye) == eye.1);
    assert(dot3_fx(f, eye) == -eye.2);

    // transform the target through the sixteen known entries
    lemma_fmul_one(eye.0);
    lemma_fmul_one(eye.1);
    lemma_fmul_one(eye.2 - d);
    lemma_fmul_one(-eye.0);
    lemma_fmul_one(-eye.1);
    lemma_fmul_one(-eye.2);
    lemma_fmul_one(ss);
    crate::fixed::lemma_fmul_zero(eye.2 - d);
    assert(xform_point_s(view, (eye.0, eye.1, eye.2 - d)) == (0int, 0int, -d, ss));
}

/// Multiplying by the identity on either side leaves every entry of a
/// matrix unchanged: the fixed-point rescaling is exact on products
/// with 1.0 and 0.0, so the identity law holds exactly, not merely
/// within a tolerance.
pub proof fn lemma_multiply_identity(id: Mat4x4, m: Mat4x4)
    requires
        id.is_identity_s(),
    ensures
        forall|c: int, r: int|
            0 <= c < 4 && 0 <= r < 4 ==> mul_entry_s(id, m, c, r) == m.ent(c, r),
        forall|c: int, r: int|
            0 <= c < 4 && 0 <= r < 4 ==> mul_entry_s(m, id, c, r) == m.ent(c, r),
{
    assert forall|c: int, r: int| 0 <= c < 4 && 0 <= r < 4 implies mul_entry_s(id, m, c, r)
        == m.ent(c, r) && mul_entry_s(m, id, c, r) == m.ent(c, r) by {
        lemma_fmul_one(m.ent(c, r));
        lemma_fmul_zero(m.ent(0, r));
        lemma_fmul_zero(m.ent(1, r));
        lemma_fmul_zero(m.ent(2, r));
        lemma_fmul_zero(m.ent(3, r));
        lemma_fmul_zero(m.ent(c, 0));
        lemma_fmul_zero(m.ent(c, 1));
        lemma_fmul_zero(m.ent(c, 2));
        lemma_fmul_zero(m.ent(c, 3));
    }
}

} // verus!

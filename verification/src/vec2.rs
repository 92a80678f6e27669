//! 2D vectors, in a fixed-point variant (`Vec2fx`) and an integer
//! variant (`Vec2i`), with the same componentwise operation set as the
//! 3D family, minus the cross product.

use vstd::prelude::*;

use crate::fixed::EPSILON;
use crate::fixed::SCALE;
use crate::fixed::fdiv;
use crate::fixed::fdiv_s;
use crate::fixed::fmul;
use crate::fixed::fmul_s;
use crate::fixed::fx_ok;
use crate::fixed::isqrt;
use crate::fixed::isqrt_s;
use crate::fixed::lemma_isqrt_bounds;
use crate::fixed::lemma_isqrt_monotone;
use crate::vec3::lemma_norm_component_bound;
use crate::vec3::norm_divisor;

verus! {

/// Dot product of exact integer pairs.
pub open spec fn dot2_exact(a: (int, int), b: (int, int)) -> int {
    a.0 * b.0 + a.1 * b.1
}

/// Dot product of fixed-point pairs: each product rescaled, then summed.
pub open spec fn dot2_fx(a: (int, int), b: (int, int)) -> int {
    fmul_s(a.0, b.0) + fmul_s(a.1, b.1)
}

/// Sum of the squares of a pair.
pub open spec fn sumsq2(a: (int, int)) -> int {
    a.0 * a.0 + a.1 * a.1
}

/// Length of a fixed-point pair at the same Q16.16 scale.
pub open spec fn len2_s(a: (int, int)) -> int {
    isqrt_s(sumsq2(a))
}

/// What `normalize` does to a pair, given its length.
pub open spec fn norm2_s(a: (int, int)) -> (int, int) {
    let d = norm_divisor(len2_s(a));
    (fdiv_s(a.0, d), fdiv_s(a.1, d))
}

/// A degenerate pair passes through normalization unchanged: under the
/// length guard the divisor becomes 1.0, whose division undoes the
/// scaling exactly.
pub proof fn lemma_normalize2_degenerate(a: (int, int))
    requires
        len2_s(a) < EPSILON,
    ensures
        norm2_s(a) == a,
{
    crate::fixed::lemma_tdiv_exact(a.0, SCALE as int);
    crate::fixed::lemma_tdiv_exact(a.1, SCALE as int);
}

/// Normalizing a non-degenerate pair yields length 1.0 up to the
/// truncation slack, with the same bounds as the 3D variant; the proof
/// embeds the pair as a triple with a zero third component.
pub proof fn lemma_normalize2_unit_length(a: (int, int))
    requires
        EPSILON <= len2_s(a),
    ensures
        SCALE - 4 <= len2_s(norm2_s(a)),
        len2_s(norm2_s(a)) * len2_s(a) < SCALE * (len2_s(a) + 1),
{
    let t = (a.0, a.1, 0int);
    assert(crate::vec3::sumsq3(t) == sumsq2(a)) by (nonlinear_arith)
        requires
            crate::vec3::sumsq3(t) == a.0 * a.0 + a.1 * a.1 + 0 * 0,
            sumsq2(a) == a.0 * a.0 + a.1 * a.1,
    ;
    assert(crate::vec3::len3_s(t) == len2_s(a));
    crate::vec3::lemma_normalize_unit_length(t);
    let d = norm_divisor(len2_s(a));
    vstd::arithmetic::div_mod::lemma_div_of0(d);
    assert(fdiv_s(0, d) == 0);
    let n3 = crate::vec3::norm3_s(t);
    let n2 = norm2_s(a);
    assert(n3 == (n2.0, n2.1, 0int));
    assert(crate::vec3::sumsq3(n3) == sumsq2(n2)) by (nonlinear_arith)
        requires
            crate::vec3::sumsq3(n3) == n2.0 * n2.0 + n2.1 * n2.1 + 0 * 0,
            sumsq2(n2) == n2.0 * n2.0 + n2.1 * n2.1,
    ;
    assert(crate::vec3::len3_s(n3) == len2_s(n2));
}

/// A 2D vector of Q16.16 fixed-point components.
#[derive(Clone, Copy, PartialEq, Eq, Structural, Debug)]
pub struct Vec2fx {
    pub x: i64,
    pub y: i64,
}

impl Vec2fx {
    /// The components as an exact integer pair, for specifications.
    pub open spec fn m(self) -> (int, int) {
        (self.x as int, self.y as int)
    }

    /// Every component within the magnitude the arithmetic accepts.
    pub open spec fn v_ok(self) -> bool {
        fx_ok(self.x as int) && fx_ok(self.y as int)
    }

    /// Components within twice that magnitude: what `length` and
    /// `normalize` accept.
    pub open spec fn norm_ok(self) -> bool {
        -0x8000_0000 <= self.x <= 0x8000_0000 && -0x8000_0000 <= self.y <= 0x8000_0000
    }

    pub fn new(nx: i64, ny: i64) -> (r: Vec2fx)
        ensures
            r.x == nx && r.y == ny,
    {
        Vec2fx { x: nx, y: ny }
    }

    pub fn zero() -> (r: Vec2fx)
        ensures
            r.x == 0 && r.y == 0,
    {
        Vec2fx { x: 0, y: 0 }
    }

    /// Componentwise sum, a fresh value.
    pub fn add(&self, rhs: &Vec2fx) -> (r: Vec2fx)
        requires
            self.v_ok(),
            rhs.v_ok(),
        ensures
            r.x == self.x + rhs.x && r.y == self.y + rhs.y,
    {
        Vec2fx { x: self.x + rhs.x, y: self.y + rhs.y }
    }

    /// Componentwise difference, a fresh value.
    pub fn sub(&self, rhs: &Vec2fx) -> (r: Vec2fx)
        requires
            self.v_ok(),
            rhs.v_ok(),
        ensures
            r.x == self.x - rhs.x && r.y == self.y - rhs.y,
    {
        Vec2fx { x: self.x - rhs.x, y: self.y - rhs.y }
    }

    /// Componentwise product with a scalar, a fresh value.
    pub fn scale(&self, s: i64) -> (r: Vec2fx)
        requires
            self.v_ok(),
            fx_ok(s as int),
        ensures
            r.x == fmul_s(self.x as int, s as int),
            r.y == fmul_s(self.y as int, s as int),
    {
        Vec2fx { x: fmul(self.x, s), y: fmul(self.y, s) }
    }

    /// Componentwise negation, a fresh value.
    pub fn negate(&self) -> (r: Vec2fx)
        requires
            self.norm_ok(),
        ensures
            r.x == -self.x && r.y == -self.y,
    {
        Vec2fx { x: -self.x, y: -self.y }
    }

    /// Euclidean length at the same Q16.16 scale.
    pub fn length(&self) -> (r: i64)
        requires
            self.norm_ok(),
        ensures
            r == len2_s(self.m()),
            0 <= r <= 0x2_0000_0000,
    {
        proof {
            assert(0 <= (self.x as int) * (self.x as int) <= 0x4000_0000_0000_0000
                && 0 <= (self.y as int) * (self.y as int) <= 0x4000_0000_0000_0000)
                by (nonlinear_arith)
                requires
                    -0x8000_0000 <= self.x as int <= 0x8000_0000,
                    -0x8000_0000 <= self.y as int <= 0x8000_0000,
            ;
        }
        let xx: i64 = self.x * self.x;
        let yy: i64 = self.y * self.y;
        let sum: u64 = (xx as u64) + (yy as u64);
        let r = isqrt(sum);
        proof {
            lemma_isqrt_monotone(0, sum as int);
            if isqrt_s(sum as int) > 0x2_0000_0000 {
                assert(0x2_0000_0000int * 0x2_0000_0000int <= isqrt_s(sum as int) * isqrt_s(
                    sum as int,
                )) by (nonlinear_arith)
                    requires
                        0x2_0000_0000int <= isqrt_s(sum as int),
                ;
                lemma_isqrt_bounds(sum as int);
            }
        }
        r as i64
    }

    /// Scalar product, each componentwise product rescaled then summed.
    pub fn dot(&self, rhs: &Vec2fx) -> (r: i64)
        requires
            self.v_ok(),
            rhs.v_ok(),
        ensures
            r == dot2_fx(self.m(), rhs.m()),
    {
        fmul(self.x, rhs.x) + fmul(self.y, rhs.y)
    }

    /// Divide each component by the length, in place, with the same
    /// degenerate-length fallback as the 3D variant.
    pub fn normalize(&mut self)
        requires
            old(self).norm_ok(),
        ensures
            (final(self).x as int, final(self).y as int) == norm2_s(old(self).m()),
            -SCALE <= final(self).x <= SCALE,
            -SCALE <= final(self).y <= SCALE,
    {
        let v = *self;
        let len = v.length();
        let d: i64 = if len < EPSILON {
            SCALE
        } else {
            len
        };
        proof {
            let ax = old(self).x as int;
            let ay = old(self).y as int;
            let s = sumsq2(old(self).m());
            assert(ax * ax >= 0 && ay * ay >= 0) by (nonlinear_arith);
            lemma_isqrt_bounds(s);
            lemma_norm_component_bound(ax, s);
            lemma_norm_component_bound(ay, s);
        }
        self.x = fdiv(v.x, d);
        self.y = fdiv(v.y, d);
    }
}

/// A 2D vector of plain `i32` components.
#[derive(Clone, Copy, PartialEq, Eq, Structural, Debug)]
pub struct Vec2i {
    pub x: i32,
    pub y: i32,
}

impl Vec2i {
    /// The components as an exact integer pair, for specifications.
    pub open spec fn m(self) -> (int, int) {
        (self.x as int, self.y as int)
    }

    pub fn new(nx: i32, ny: i32) -> (r: Vec2i)
        ensures
            r.x == nx && r.y == ny,
    {
        Vec2i { x: nx, y: ny }
    }

    pub fn zero() -> (r: Vec2i)
        ensures
            r.x == 0 && r.y == 0,
    {
        Vec2i { x: 0, y: 0 }
    }

    /// Componentwise sum; the caller keeps each sum inside `i32`.
    pub fn add(&self, rhs: &Vec2i) -> (r: Vec2i)
        requires
            i32::MIN <= self.x + rhs.x <= i32::MAX,
            i32::MIN <= self.y + rhs.y <= i32::MAX,
        ensures
            r.x == self.x + rhs.x && r.y == self.y + rhs.y,
    {
        Vec2i { x: self.x + rhs.x, y: self.y + rhs.y }
    }

    /// Componentwise difference; the caller keeps it inside `i32`.
    pub fn sub(&self, rhs: &Vec2i) -> (r: Vec2i)
        requires
            i32::MIN <= self.x - rhs.x <= i32::MAX,
            i32::MIN <= self.y - rhs.y <= i32::MAX,
        ensures
            r.x == self.x - rhs.x && r.y == self.y - rhs.y,
    {
        Vec2i { x: self.x - rhs.x, y: self.y - rhs.y }
    }

    /// Componentwise product with a scalar; exact integer products.
    pub fn scale(&self, s: i32) -> (r: Vec2i)
        requires
            i32::MIN <= self.x * s <= i32::MAX,
            i32::MIN <= self.y * s <= i32::MAX,
        ensures
            r.x == self.x * s && r.y == self.y * s,
    {
        Vec2i { x: self.x * s, y: self.y * s }
    }

    /// Componentwise negation.
    pub fn negate(&self) -> (r: Vec2i)
        requires
            self.x > i32::MIN,
            self.y > i32::MIN,
        ensures
            r.x == -self.x && r.y == -self.y,
    {
        Vec2i { x: -self.x, y: -self.y }
    }

    /// Euclidean length, the floor square root of the sum of squares,
    /// computed through a widened intermediate and narrowed back.
    pub fn length(&self) -> (r: i32)
        requires
            isqrt_s(sumsq2(self.m())) <= i32::MAX,
        ensures
            r == isqrt_s(sumsq2(self.m())),
    {
        proof {
            assert(0 <= (self.x as int) * (self.x as int) <= 0x4000_0000_0000_0000
                && 0 <= (self.y as int) * (self.y as int) <= 0x4000_0000_0000_0000)
                by (nonlinear_arith)
                requires
                    -0x8000_0000 <= self.x as int <= 0x8000_0000,
                    -0x8000_0000 <= self.y as int <= 0x8000_0000,
            ;
        }
        let xx: i64 = (self.x as i64) * (self.x as i64);
        let yy: i64 = (self.y as i64) * (self.y as i64);
        let sum: u64 = (xx as u64) + (yy as u64);
        let r = isqrt(sum);
        proof {
            lemma_isqrt_monotone(0, sum as int);
        }
        r as i32
    }

    /// Scalar product, exact.
    pub fn dot(&self, rhs: &Vec2i) -> (r: i32)
        requires
            i32::MIN <= dot2_exact(self.m(), rhs.m()) <= i32::MAX,
        ensures
            r == dot2_exact(self.m(), rhs.m()),
    {
        proof {
            assert(-0x4000_0000_0000_0000 <= (self.x as int) * (rhs.x as int) <= 0x4000_0000_0000_0000
                && -0x4000_0000_0000_0000 <= (self.y as int) * (rhs.y as int)
                <= 0x4000_0000_0000_0000) by (nonlinear_arith)
                requires
                    -0x8000_0000 <= self.x as int <= 0x8000_0000,
                    -0x8000_0000 <= self.y as int <= 0x8000_0000,
                    -0x8000_0000 <= rhs.x as int <= 0x8000_0000,
                    -0x8000_0000 <= rhs.y as int <= 0x8000_0000,
            ;
        }
        let r: i128 = (self.x as i128) * (rhs.x as i128) + (self.y as i128) * (rhs.y as i128);
        r as i32
    }
}

} // verus!

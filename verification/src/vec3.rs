//! 3D vectors, in a fixed-point variant (`Vec3fx`) and an integer
//! variant (`Vec3i`), with componentwise arithmetic, Euclidean length,
//! dot and cross products, and (for the fixed-point variant) in-place
//! normalization with a degenerate-length fallback.

use vstd::prelude::*;

use crate::fixed::EPSILON;
use crate::fixed::MAX_FX;
use crate::fixed::PROD_BOUND;
use crate::fixed::SCALE;
use crate::fixed::fdiv;
use crate::fixed::fdiv_s;
use crate::fixed::fmul;
use crate::fixed::fmul_s;
use crate::fixed::fx_ok;
use crate::fixed::isqrt;
use crate::fixed::isqrt_s;
use crate::fixed::lemma_fmul_comm;
use crate::fixed::lemma_isqrt_bounds;
use crate::fixed::lemma_isqrt_monotone;
use crate::fixed::lemma_isqrt_unique;
use crate::fixed::lemma_tdiv_exact;
use crate::fixed::tdiv;

verus! {

/// Dot product of exact integer triples.
pub open spec fn dot3_exact(a: (int, int, int), b: (int, int, int)) -> int {
    a.0 * b.0 + a.1 * b.1 + a.2 * b.2
}

/// Right-handed cross product of exact integer triples.
pub open spec fn cross3_exact(a: (int, int, int), b: (int, int, int)) -> (int, int, int) {
    (a.1 * b.2 - a.2 * b.1, a.2 * b.0 - a.0 * b.2, a.0 * b.1 - a.1 * b.0)
}

/// Dot product of fixed-point triples: each product rescaled, then summed.
pub open spec fn dot3_fx(a: (int, int, int), b: (int, int, int)) -> int {
    fmul_s(a.0, b.0) + fmul_s(a.1, b.1) + fmul_s(a.2, b.2)
}

/// Right-handed cross product of fixed-point triples.
pub open spec fn cross3_fx(a: (int, int, int), b: (int, int, int)) -> (int, int, int) {
    (
        fmul_s(a.1, b.2) - fmul_s(a.2, b.1),
        fmul_s(a.2, b.0) - fmul_s(a.0, b.2),
        fmul_s(a.0, b.1) - fmul_s(a.1, b.0),
    )
}

/// Sum of the squares of a triple.
pub open spec fn sumsq3(a: (int, int, int)) -> int {
    a.0 * a.0 + a.1 * a.1 + a.2 * a.2
}

/// Length of a fixed-point triple: because components carry a factor of
/// `SCALE`, the floor square root of the raw sum of squares is already
/// the length at the same scale.
pub open spec fn len3_s(a: (int, int, int)) -> int {
    isqrt_s(sumsq3(a))
}

/// The divisor `normalize` uses: the length, unless the length falls
/// under the degenerate guard, in which case 1.0.
pub open spec fn norm_divisor(l: int) -> int {
    if l < EPSILON {
        SCALE as int
    } else {
        l
    }
}

/// What `normalize` does to one component, given the vector's length.
pub open spec fn norm3_s(a: (int, int, int)) -> (int, int, int) {
    let d = norm_divisor(len3_s(a));
    (fdiv_s(a.0, d), fdiv_s(a.1, d), fdiv_s(a.2, d))
}

/// The anti-commutativity of the cross product is exact, even with
/// truncating fixed-point products: swapping the operands negates every
/// component.
pub proof fn lemma_cross_fx_antisymmetric(a: (int, int, int), b: (int, int, int))
    ensures
        cross3_fx(a, b).0 == -cross3_fx(b, a).0,
        cross3_fx(a, b).1 == -cross3_fx(b, a).1,
        cross3_fx(a, b).2 == -cross3_fx(b, a).2,
{
    lemma_fmul_comm(a.0, b.1);
    lemma_fmul_comm(a.1, b.0);
    lemma_fmul_comm(a.1, b.2);
    lemma_fmul_comm(a.2, b.1);
    lemma_fmul_comm(a.2, b.0);
    lemma_fmul_comm(a.0, b.2);
}

/// Anti-commutativity of the exact integer cross product.
pub proof fn lemma_cross_exact_antisymmetric(a: (int, int, int), b: (int, int, int))
    ensures
        cross3_exact(a, b).0 == -cross3_exact(b, a).0,
        cross3_exact(a, b).1 == -cross3_exact(b, a).1,
        cross3_exact(a, b).2 == -cross3_exact(b, a).2,
{
    assert(a.1 * b.2 == b.2 * a.1) by (nonlinear_arith);
    assert(a.2 * b.1 == b.1 * a.2) by (nonlinear_arith);
    assert(a.2 * b.0 == b.0 * a.2) by (nonlinear_arith);
    assert(a.0 * b.2 == b.2 * a.0) by (nonlinear_arith);
    assert(a.0 * b.1 == b.1 * a.0) by (nonlinear_arith);
    assert(a.1 * b.0 == b.0 * a.1) by (nonlinear_arith);
}

/// A vector is exactly perpendicular to its exact cross product with any
/// other vector: the scalar triple product of `a`, `a`, `b` vanishes.
pub proof fn lemma_dot_cross_exact_zero(a: (int, int, int), b: (int, int, int))
    ensures
        dot3_exact(a, cross3_exact(a, b)) == 0,
{
    assert(a.0 * (a.1 * b.2 - a.2 * b.1) + a.1 * (a.2 * b.0 - a.0 * b.2) + a.2 * (a.0 * b.1
        - a.1 * b.0) == 0) by (nonlinear_arith);
}

/// A vector is nearly perpendicular to its fixed-point cross product
/// with any other vector: the rescaled scalar triple product vanishes
/// up to the truncation slack, so scaled by `SCALE` its magnitude stays
/// under two units per unit of the vector's own coordinate magnitudes,
/// plus three.  For a vector of magnitude about 1.0 that makes the dot
/// product at most a few fixed-point units, i.e. about 1e-4.
pub proof fn lemma_dot_cross_fx_small(a: (int, int, int), b: (int, int, int))
    ensures
        SCALE * crate::fixed::mag(dot3_fx(a, cross3_fx(a, b))) < 2 * (crate::fixed::mag(a.0)
            + crate::fixed::mag(a.1) + crate::fixed::mag(a.2)) + 3 * SCALE,
{
    let ss = SCALE as int;
    let u0 = a.1 * b.2;
    let v0 = a.2 * b.1;
    let u1 = a.2 * b.0;
    let v1 = a.0 * b.2;
    let u2 = a.0 * b.1;
    let v2 = a.1 * b.0;
    let c0 = tdiv(u0, ss) - tdiv(v0, ss);
    let c1 = tdiv(u1, ss) - tdiv(v1, ss);
    let c2 = tdiv(u2, ss) - tdiv(v2, ss);
    assert(cross3_fx(a, b) == (c0, c1, c2));

    // each cross component misses the exact one by less than 2 units
    crate::fixed::lemma_tdiv_rem(u0, ss);
    crate::fixed::lemma_tdiv_rem(v0, ss);
    crate::fixed::lemma_tdiv_rem(u1, ss);
    crate::fixed::lemma_tdiv_rem(v1, ss);
    crate::fixed::lemma_tdiv_rem(u2, ss);
    crate::fixed::lemma_tdiv_rem(v2, ss);
    let d0 = u0 - v0 - ss * c0;
    let d1 = u1 - v1 - ss * c1;
    let d2 = u2 - v2 - ss * c2;
    assert(ss * c0 == ss * tdiv(u0, ss) - ss * tdiv(v0, ss)) by (nonlinear_arith)
        requires
            c0 == tdiv(u0, ss) - tdiv(v0, ss),
    ;
    assert(ss * c1 == ss * tdiv(u1, ss) - ss * tdiv(v1, ss)) by (nonlinear_arith)
        requires
            c1 == tdiv(u1, ss) - tdiv(v1, ss),
    ;
    assert(ss * c2 == ss * tdiv(u2, ss) - ss * tdiv(v2, ss)) by (nonlinear_arith)
        requires
            c2 == tdiv(u2, ss) - tdiv(v2, ss),
    ;
    assert(-(2 * ss) + 1 <= d0 <= 2 * ss - 1);
    assert(-(2 * ss) + 1 <= d1 <= 2 * ss - 1);
    assert(-(2 * ss) + 1 <= d2 <= 2 * ss - 1);

    // the exact triple product vanishes
    assert(a.0 * (u0 - v0) + a.1 * (u1 - v1) + a.2 * (u2 - v2) == 0) by (nonlinear_arith)
        requires
            u0 == a.1 * b.2,
            v0 == a.2 * b.1,
            u1 == a.2 * b.0,
            v1 == a.0 * b.2,
            u2 == a.0 * b.1,
            v2 == a.1 * b.0,
    ;

    // so the sum a . (ss * c) collects only the truncation slack
    assert(a.0 * (ss * c0) == a.0 * (u0 - v0) - a.0 * d0) by (nonlinear_arith)
        requires
            ss * c0 == (u0 - v0) - d0,
    ;
    assert(a.1 * (ss * c1) == a.1 * (u1 - v1) - a.1 * d1) by (nonlinear_arith)
        requires
            ss * c1 == (u1 - v1) - d1,
    ;
    assert(a.2 * (ss * c2) == a.2 * (u2 - v2) - a.2 * d2) by (nonlinear_arith)
        requires
            ss * c2 == (u2 - v2) - d2,
    ;
    let m0 = crate::fixed::mag(a.0);
    let m1 = crate::fixed::mag(a.1);
    let m2 = crate::fixed::mag(a.2);
    assert(-(m0 * (2 * ss)) <= a.0 * d0 <= m0 * (2 * ss)) by (nonlinear_arith)
        requires
            m0 >= 0,
            m0 == a.0 || m0 == -a.0,
            -(2 * ss) + 1 <= d0 <= 2 * ss - 1,
            ss >= 1,
    ;
    assert(-(m1 * (2 * ss)) <= a.1 * d1 <= m1 * (2 * ss)) by (nonlinear_arith)
        requires
            m1 >= 0,
            m1 == a.1 || m1 == -a.1,
            -(2 * ss) + 1 <= d1 <= 2 * ss - 1,
            ss >= 1,
    ;
    assert(-(m2 * (2 * ss)) <= a.2 * d2 <= m2 * (2 * ss)) by (nonlinear_arith)
        requires
            m2 >= 0,
            m2 == a.2 || m2 == -a.2,
            -(2 * ss) + 1 <= d2 <= 2 * ss - 1,
            ss >= 1,
    ;
    let w = a.0 * (ss * c0) + a.1 * (ss * c1) + a.2 * (ss * c2);
    assert(-(2 * ss) * (m0 + m1 + m2) <= w <= (2 * ss) * (m0 + m1 + m2)) by (nonlinear_arith)
        requires
            w == (a.0 * (u0 - v0) + a.1 * (u1 - v1) + a.2 * (u2 - v2)) - (a.0 * d0 + a.1 * d1
                + a.2 * d2),
            a.0 * (u0 - v0) + a.1 * (u1 - v1) + a.2 * (u2 - v2) == 0,
            -(m0 * (2 * ss)) <= a.0 * d0 <= m0 * (2 * ss),
            -(m1 * (2 * ss)) <= a.1 * d1 <= m1 * (2 * ss),
            -(m2 * (2 * ss)) <= a.2 * d2 <= m2 * (2 * ss),
    ;

    // the dot product rescales each term once more
    let w0 = a.0 * c0;
    let w1 = a.1 * c1;
    let w2 = a.2 * c2;
    assert(dot3_fx(a, cross3_fx(a, b)) == tdiv(w0, ss) + tdiv(w1, ss) + tdiv(w2, ss));
    crate::fixed::lemma_tdiv_rem(w0, ss);
    crate::fixed::lemma_tdiv_rem(w1, ss);
    crate::fixed::lemma_tdiv_rem(w2, ss);
    assert(a.0 * (ss * c0) == ss * w0 && a.1 * (ss * c1) == ss * w1 && a.2 * (ss * c2) == ss * w2)
        by (nonlinear_arith)
        requires
            w0 == a.0 * c0,
            w1 == a.1 * c1,
            w2 == a.2 * c2,
    ;
    let dt = tdiv(w0, ss) + tdiv(w1, ss) + tdiv(w2, ss);
    assert(ss * dt == ss * tdiv(w0, ss) + ss * tdiv(w1, ss) + ss * tdiv(w2, ss))
        by (nonlinear_arith)
        requires
            dt == tdiv(w0, ss) + tdiv(w1, ss) + tdiv(w2, ss),
    ;
    // ss * dt == (w0 + w1 + w2) - remainders, and ss * (w0 + w1 + w2) == w
    assert(-(3 * ss) + 3 <= ss * dt - (w0 + w1 + w2) <= 3 * ss - 3);
    assert(ss * (w0 + w1 + w2) == w) by (nonlinear_arith)
        requires
            w == ss * w0 + ss * w1 + ss * w2,
    ;
    // push the bound on w down to w0 + w1 + w2, then to dt
    assert(-(2 * (m0 + m1 + m2)) <= w0 + w1 + w2 <= 2 * (m0 + m1 + m2)) by (nonlinear_arith)
        requires
            ss * (w0 + w1 + w2) == w,
            -(2 * ss) * (m0 + m1 + m2) <= w <= (2 * ss) * (m0 + m1 + m2),
            ss >= 1,
    ;
    assert(-(2 * (m0 + m1 + m2)) - 3 * ss + 3 <= ss * dt <= 2 * (m0 + m1 + m2) + 3 * ss - 3);
    assert(ss * crate::fixed::mag(dt) <= ss * dt || ss * crate::fixed::mag(dt) == -(ss * dt))
        by (nonlinear_arith)
        requires
            crate::fixed::mag(dt) == dt || crate::fixed::mag(dt) == -dt,
    ;
    assert(ss * crate::fixed::mag(dt) < 2 * (m0 + m1 + m2) + 3 * ss);
}

/// No component outgrows the vector's length: |x| <= isqrt(x^2 + rest).
pub proof fn lemma_component_le_len(x: int, s: int)
    requires
        x * x <= s,
    ensures
        -isqrt_s(s) <= x <= isqrt_s(s),
{
    assert(x * x >= 0) by (nonlinear_arith);
    let m = if x >= 0 {
        x
    } else {
        -x
    };
    assert(m * m == x * x) by (nonlinear_arith)
        requires
            m == x || m == -x,
    ;
    assert(m * m < (m + 1) * (m + 1)) by (nonlinear_arith)
        requires
            m >= 0,
    ;
    lemma_isqrt_unique(m * m, m);
    lemma_isqrt_monotone(m * m, s);
}

/// A normalized component keeps magnitude at most 1.0: dividing by the
/// (non-degenerate) length cannot exceed `SCALE`, and a degenerate
/// vector is returned unchanged with all components under the guard.
pub proof fn lemma_norm_component_bound(x: int, s: int)
    requires
        x * x <= s,
    ensures
        -SCALE <= fdiv_s(x, norm_divisor(isqrt_s(s))) <= SCALE,
{
    let l = isqrt_s(s);
    lemma_component_le_len(x, s);
    assert(x * x >= 0) by (nonlinear_arith);
    lemma_isqrt_bounds(s);
    if l < EPSILON {
        // divisor is SCALE: the division undoes the scaling exactly
        lemma_tdiv_exact(x, SCALE as int);
        assert(x * SCALE == x * (SCALE as int));
    } else {
        // |x * SCALE| <= l * SCALE, and (l * SCALE) / l == SCALE
        assert(x * SCALE <= l * SCALE && -(l * SCALE) <= x * SCALE) by (nonlinear_arith)
            requires
                -l <= x <= l,
                SCALE as int > 0,
        ;
        crate::fixed::lemma_tdiv_mag_le(x * SCALE, l * SCALE, l);
        vstd::arithmetic::div_mod::lemma_div_multiples_vanish(SCALE as int, l);
        assert(l * SCALE == l * (SCALE as int)) by (nonlinear_arith);
    }
}

/// A degenerate vector passes through normalization unchanged: when
/// the length falls under the guard (about 1e-4, and in particular for
/// the zero vector), the divisor becomes 1.0 and dividing by 1.0 undoes
/// the scaling exactly, so every component keeps its value.
pub proof fn lemma_normalize_degenerate(a: (int, int, int))
    requires
        len3_s(a) < EPSILON,
    ensures
        norm3_s(a) == a,
{
    lemma_tdiv_exact(a.0, SCALE as int);
    lemma_tdiv_exact(a.1, SCALE as int);
    lemma_tdiv_exact(a.2, SCALE as int);
}

/// Normalizing a non-degenerate vector yields length 1.0 up to the
/// truncation slack: the resulting length is at least `SCALE - 4`, and
/// scaled by the original length it stays under `SCALE` times the
/// original length plus one -- so for vectors of length at least 1.0
/// the resulting length is at most `SCALE`.
pub proof fn lemma_normalize_unit_length(a: (int, int, int))
    requires
        EPSILON <= len3_s(a),
    ensures
        SCALE - 4 <= len3_s(norm3_s(a)),
        len3_s(norm3_s(a)) * len3_s(a) < SCALE * (len3_s(a) + 1),
{
    let ss = SCALE as int;
    let l = len3_s(a);
    let s = sumsq3(a);
    let x0 = a.0;
    let x1 = a.1;
    let x2 = a.2;
    assert(x0 * x0 >= 0 && x1 * x1 >= 0 && x2 * x2 >= 0) by (nonlinear_arith);
    lemma_isqrt_bounds(s);
    assert(norm_divisor(l) == l);
    let c0 = fdiv_s(x0, l);
    let c1 = fdiv_s(x1, l);
    let c2 = fdiv_s(x2, l);
    assert(norm3_s(a) == (c0, c1, c2));
    let m0 = crate::fixed::mag(c0);
    let m1 = crate::fixed::mag(c1);
    let m2 = crate::fixed::mag(c2);

    // box each scaled component between consecutive multiples of l,
    // then square the box
    crate::fixed::lemma_tdiv_box(x0 * ss, l);
    crate::fixed::lemma_tdiv_box(x1 * ss, l);
    crate::fixed::lemma_tdiv_box(x2 * ss, l);
    assert(l * m0 >= 0 && l * m1 >= 0 && l * m2 >= 0) by (nonlinear_arith)
        requires
            l >= 0,
            m0 >= 0,
            m1 >= 0,
            m2 >= 0,
    ;
    crate::fixed::lemma_sq_le(l * m0, crate::fixed::mag(x0 * ss));
    crate::fixed::lemma_sq_le(l * m1, crate::fixed::mag(x1 * ss));
    crate::fixed::lemma_sq_le(l * m2, crate::fixed::mag(x2 * ss));
    crate::fixed::lemma_sq_lt(crate::fixed::mag(x0 * ss), l * (m0 + 1));
    crate::fixed::lemma_sq_lt(crate::fixed::mag(x1 * ss), l * (m1 + 1));
    crate::fixed::lemma_sq_lt(crate::fixed::mag(x2 * ss), l * (m2 + 1));
    // rewrite each squared box in factored form
    lemma_box_sq_shapes(x0, ss, l, c0, m0);
    lemma_box_sq_shapes(x1, ss, l, c1, m1);
    lemma_box_sq_shapes(x2, ss, l, c2, m2);
    // per component now: (l*l)*(ci*ci) <= (xi*xi)*(ss*ss) < (l*l)*((mi+1)*(mi+1))

    let qs = c0 * c0 + c1 * c1 + c2 * c2;
    assert(sumsq3(norm3_s(a)) == qs);
    let ub = (m0 + 1) * (m0 + 1) + (m1 + 1) * (m1 + 1) + (m2 + 1) * (m2 + 1);
    assert((l * l) * qs == (l * l) * (c0 * c0) + (l * l) * (c1 * c1) + (l * l) * (c2 * c2))
        by (nonlinear_arith)
        requires
            qs == c0 * c0 + c1 * c1 + c2 * c2,
    ;
    assert((ss * ss) * s == (x0 * x0) * (ss * ss) + (x1 * x1) * (ss * ss) + (x2 * x2) * (ss * ss))
        by (nonlinear_arith)
        requires
            s == x0 * x0 + x1 * x1 + x2 * x2,
    ;
    assert((l * l) * ub == (l * l) * ((m0 + 1) * (m0 + 1)) + (l * l) * ((m1 + 1) * (m1 + 1)) + (l
        * l) * ((m2 + 1) * (m2 + 1))) by (nonlinear_arith)
        requires
            ub == (m0 + 1) * (m0 + 1) + (m1 + 1) * (m1 + 1) + (m2 + 1) * (m2 + 1),
    ;
    assert((l * l) * qs <= (ss * ss) * s);
    assert((ss * ss) * s < (l * l) * ub);

    // the upper box stays within qs + 6 * SCALE + 3, since every
    // normalized component has magnitude at most SCALE
    lemma_norm_component_bound(x0, s);
    lemma_norm_component_bound(x1, s);
    lemma_norm_component_bound(x2, s);
    assert((m0 + 1) * (m0 + 1) == m0 * m0 + 2 * m0 + 1 && (m1 + 1) * (m1 + 1) == m1 * m1 + 2 * m1
        + 1 && (m2 + 1) * (m2 + 1) == m2 * m2 + 2 * m2 + 1) by (nonlinear_arith);
    assert(m0 * m0 == c0 * c0 && m1 * m1 == c1 * c1 && m2 * m2 == c2 * c2) by (nonlinear_arith)
        requires
            m0 == c0 || m0 == -c0,
            m1 == c1 || m1 == -c1,
            m2 == c2 || m2 == -c2,
    ;
    assert(ub <= qs + 6 * ss + 3);
    assert((l * l) * ub <= (l * l) * (qs + 6 * ss + 3)) by (nonlinear_arith)
        requires
            ub <= qs + 6 * ss + 3,
            l * l >= 0,
    ;

    let big = isqrt_s(qs);
    assert(len3_s(norm3_s(a)) == big);
    assert(qs >= 0) by (nonlinear_arith)
        requires
            qs == c0 * c0 + c1 * c1 + c2 * c2,
    ;
    lemma_isqrt_bounds(qs);

    // upper bound: l * big < ss * (l + 1)
    assert((l * l) * (big * big) <= (l * l) * qs) by (nonlinear_arith)
        requires
            big * big <= qs,
            l * l >= 0,
    ;
    assert((ss * ss) * s < (ss * ss) * ((l + 1) * (l + 1))) by (nonlinear_arith)
        requires
            s < (l + 1) * (l + 1),
            ss * ss > 0,
    ;
    assert((l * big) * (l * big) == (l * l) * (big * big)) by (nonlinear_arith);
    assert((ss * (l + 1)) * (ss * (l + 1)) == (ss * ss) * ((l + 1) * (l + 1))) by (nonlinear_arith);
    assert(l * big >= 0 && ss * (l + 1) >= 0) by (nonlinear_arith)
        requires
            l >= 0,
            big >= 0,
            ss > 0,
    ;
    crate::fixed::lemma_sq_lt_converse(l * big, ss * (l + 1));
    assert(big * l == l * big) by (nonlinear_arith);

    // lower bound: big >= ss - 4
    assert((ss * ss) * (l * l) <= (ss * ss) * s) by (nonlinear_arith)
        requires
            l * l <= s,
            ss * ss >= 0,
    ;
    assert((ss * ss) * (l * l) == (l * l) * (ss * ss)) by (nonlinear_arith);
    assert(l * l > 0) by (nonlinear_arith)
        requires
            l >= 1,
    ;
    assert(ss * ss < qs + 6 * ss + 3) by (nonlinear_arith)
        requires
            (l * l) * (ss * ss) < (l * l) * (qs + 6 * ss + 3),
            l * l > 0,
    ;
    assert((ss - 4) * (ss - 4) == ss * ss - 8 * ss + 16) by (nonlinear_arith);
    assert((ss - 4) * (ss - 4) < (big + 1) * (big + 1));
    crate::fixed::lemma_sq_lt_converse(ss - 4, big + 1);
}

/// The squared box inequalities in the factored form the sums need.
proof fn lemma_box_sq_shapes(x: int, ss: int, l: int, c: int, m: int)
    requires
        (l * m) * (l * m) <= crate::fixed::mag(x * ss) * crate::fixed::mag(x * ss),
        crate::fixed::mag(x * ss) * crate::fixed::mag(x * ss) < (l * (m + 1)) * (l * (m + 1)),
        m == c || m == -c,
    ensures
        (l * l) * (c * c) <= (x * x) * (ss * ss),
        (x * x) * (ss * ss) < (l * l) * ((m + 1) * (m + 1)),
{
    let y = x * ss;
    assert(crate::fixed::mag(y) * crate::fixed::mag(y) == y * y) by (nonlinear_arith)
        requires
            crate::fixed::mag(y) == y || crate::fixed::mag(y) == -y,
    ;
    assert(y * y == (x * x) * (ss * ss)) by (nonlinear_arith)
        requires
            y == x * ss,
    ;
    assert((l * m) * (l * m) == (l * l) * (m * m)) by (nonlinear_arith);
    assert((l * (m + 1)) * (l * (m + 1)) == (l * l) * ((m + 1) * (m + 1))) by (nonlinear_arith);
    assert(m * m == c * c) by (nonlinear_arith)
        requires
            m == c || m == -c,
    ;
}

/// A product with a unit-sized scalar cannot grow: if |a| is at most
/// 1.0, the rescaled product keeps the magnitude bound of `b`.
pub proof fn lemma_fmul_unit_bound(a: int, b: int)
    requires
        -SCALE <= a <= SCALE,
        -MAX_FX <= b <= MAX_FX,
    ensures
        -MAX_FX <= fmul_s(a, b) <= MAX_FX,
{
    assert(-0x4000_0000_0000 <= a * b <= 0x4000_0000_0000) by (nonlinear_arith)
        requires
            -0x1_0000 <= a <= 0x1_0000,
            -0x4000_0000 <= b <= 0x4000_0000,
    ;
    crate::fixed::lemma_tdiv_mag_le(a * b, 0x4000_0000_0000, SCALE as int);
    assert(0x4000_0000_0000int / 65536int == 0x4000_0000int);
}

/// A 3D vector of Q16.16 fixed-point components.
#[derive(Clone, Copy, PartialEq, Eq, Structural, Debug)]
pub struct Vec3fx {
    pub x: i64,
    pub y: i64,
    pub z: i64,
}

impl Vec3fx {
    /// The components as an exact integer triple, for specifications.
    pub open spec fn m(self) -> (int, int, int) {
        (self.x as int, self.y as int, self.z as int)
    }

    /// Every component within the magnitude the arithmetic accepts.
    pub open spec fn v_ok(self) -> bool {
        fx_ok(self.x as int) && fx_ok(self.y as int) && fx_ok(self.z as int)
    }

    /// Components within twice that magnitude: what `length` and
    /// `normalize` accept, so that a difference of two accepted vectors
    /// can still be normalized.
    pub open spec fn norm_ok(self) -> bool {
        -0x8000_0000 <= self.x <= 0x8000_0000 && -0x8000_0000 <= self.y <= 0x8000_0000
            && -0x8000_0000 <= self.z <= 0x8000_0000
    }

    pub fn new(nx: i64, ny: i64, nz: i64) -> (r: Vec3fx)
        ensures
            r.x == nx && r.y == ny && r.z == nz,
    {
        Vec3fx { x: nx, y: ny, z: nz }
    }

    pub fn zero() -> (r: Vec3fx)
        ensures
            r.x == 0 && r.y == 0 && r.z == 0,
    {
        Vec3fx { x: 0, y: 0, z: 0 }
    }

    /// Componentwise sum, a fresh value.
    pub fn add(&self, rhs: &Vec3fx) -> (r: Vec3fx)
        requires
            self.v_ok(),
            rhs.v_ok(),
        ensures
            r.x == self.x + rhs.x && r.y == self.y + rhs.y && r.z == self.z + rhs.z,
    {
        Vec3fx { x: self.x + rhs.x, y: self.y + rhs.y, z: self.z + rhs.z }
    }

    /// Componentwise difference, a fresh value.
    pub fn sub(&self, rhs: &Vec3fx) -> (r: Vec3fx)
        requires
            self.v_ok(),
            rhs.v_ok(),
        ensures
            r.x == self.x - rhs.x && r.y == self.y - rhs.y && r.z == self.z - rhs.z,
    {
        Vec3fx { x: self.x - rhs.x, y: self.y - rhs.y, z: self.z - rhs.z }
    }

    /// Componentwise product with a scalar, a fresh value.
    pub fn scale(&self, s: i64) -> (r: Vec3fx)
        requires
            self.v_ok(),
            fx_ok(s as int),
        ensures
            r.x == fmul_s(self.x as int, s as int),
            r.y == fmul_s(self.y as int, s as int),
            r.z == fmul_s(self.z as int, s as int),
    {
        Vec3fx { x: fmul(self.x, s), y: fmul(self.y, s), z: fmul(self.z, s) }
    }

    /// Componentwise negation, a fresh value.
    pub fn negate(&self) -> (r: Vec3fx)
        requires
            self.norm_ok(),
        ensures
            r.x == -self.x && r.y == -self.y && r.z == -self.z,
    {
        Vec3fx { x: -self.x, y: -self.y, z: -self.z }
    }

    /// Euclidean length: the floor square root of the raw sum of
    /// squares, which is the length at the same Q16.16 scale.
    pub fn length(&self) -> (r: i64)
        requires
            self.norm_ok(),
        ensures
            r == len3_s(self.m()),
            0 <= r <= 0x2_0000_0000,
    {
        proof {
            assert(0 <= (self.x as int) * (self.x as int) <= 0x4000_0000_0000_0000
                && 0 <= (self.y as int) * (self.y as int) <= 0x4000_0000_0000_0000
                && 0 <= (self.z as int) * (self.z as int) <= 0x4000_0000_0000_0000)
                by (nonlinear_arith)
                requires
                    -0x8000_0000 <= self.x as int <= 0x8000_0000,
                    -0x8000_0000 <= self.y as int <= 0x8000_0000,
                    -0x8000_0000 <= self.z as int <= 0x8000_0000,
            ;
        }
        let xx: i64 = self.x * self.x;
        let yy: i64 = self.y * self.y;
        let zz: i64 = self.z * self.z;
        let sum: u64 = (xx as u64) + (yy as u64) + (zz as u64);
        let r = isqrt(sum);
        proof {
            lemma_isqrt_bounds(sum as int);
            assert(0x2_0000_0000int * 0x2_0000_0000int <= sum as int ==> false)
                by (nonlinear_arith)
                requires
                    sum as int <= 0xc000_0000_0000_0000,
            ;
            lemma_isqrt_monotone(0, sum as int);
            if isqrt_s(sum as int) > 0x2_0000_0000 {
                assert(0x2_0000_0000int * 0x2_0000_0000int <= isqrt_s(sum as int) * isqrt_s(
                    sum as int,
                )) by (nonlinear_arith)
                    requires
                        0x2_0000_0000int <= isqrt_s(sum as int),
                ;
            }
        }
        r as i64
    }

    /// Scalar product, each componentwise product rescaled then summed.
    pub fn dot(&self, rhs: &Vec3fx) -> (r: i64)
        requires
            self.v_ok(),
            rhs.v_ok(),
        ensures
            r == dot3_fx(self.m(), rhs.m()),
            -3 * PROD_BOUND <= r <= 3 * PROD_BOUND,
    {
        fmul(self.x, rhs.x) + fmul(self.y, rhs.y) + fmul(self.z, rhs.z)
    }

    /// Right-handed cross product, a fresh value; the operand order
    /// matters and matches the basis derivation in the look-at matrix.
    pub fn cross(&self, rhs: &Vec3fx) -> (r: Vec3fx)
        requires
            self.v_ok(),
            rhs.v_ok(),
        ensures
            r.m() == cross3_fx(self.m(), rhs.m()),
            -2 * PROD_BOUND <= r.x <= 2 * PROD_BOUND,
            -2 * PROD_BOUND <= r.y <= 2 * PROD_BOUND,
            -2 * PROD_BOUND <= r.z <= 2 * PROD_BOUND,
            (-SCALE <= self.x <= SCALE && -SCALE <= self.y <= SCALE && -SCALE <= self.z <= SCALE)
                ==> r.norm_ok(),
    {
        proof {
            if -SCALE <= self.x <= SCALE && -SCALE <= self.y <= SCALE && -SCALE <= self.z
                <= SCALE {
                lemma_fmul_unit_bound(self.y as int, rhs.z as int);
                lemma_fmul_unit_bound(self.z as int, rhs.y as int);
                lemma_fmul_unit_bound(self.z as int, rhs.x as int);
                lemma_fmul_unit_bound(self.x as int, rhs.z as int);
                lemma_fmul_unit_bound(self.x as int, rhs.y as int);
                lemma_fmul_unit_bound(self.y as int, rhs.x as int);
            }
        }
        Vec3fx {
            x: fmul(self.y, rhs.z) - fmul(self.z, rhs.y),
            y: fmul(self.z, rhs.x) - fmul(self.x, rhs.z),
            z: fmul(self.x, rhs.y) - fmul(self.y, rhs.x),
        }
    }

    /// Divide each component by the length, in place.  A degenerate
    /// length (under the guard of about 1e-4) is replaced by 1.0, so a
    /// near-zero vector passes through unchanged rather than failing.
    /// Afterwards no component exceeds 1.0 in magnitude.
    pub fn normalize(&mut self)
        requires
            old(self).norm_ok(),
        ensures
            (final(self).x as int, final(self).y as int, final(self).z as int) == norm3_s(
                old(self).m(),
            ),
            -SCALE <= final(self).x <= SCALE,
            -SCALE <= final(self).y <= SCALE,
            -SCALE <= final(self).z <= SCALE,
    {
        let v = *self;
        let len = v.length();
        let d: i64 = if len < EPSILON {
            SCALE
        } else {
            len
        };
        proof {
            let ax = old(self).x as int;
            let ay = old(self).y as int;
            let az = old(self).z as int;
            let s = sumsq3(old(self).m());
            assert(ax * ax >= 0 && ay * ay >= 0 && az * az >= 0) by (nonlinear_arith);
            lemma_isqrt_bounds(s);
            lemma_norm_component_bound(ax, s);
            lemma_norm_component_bound(ay, s);
            lemma_norm_component_bound(az, s);
        }
        self.x = fdiv(v.x, d);
        self.y = fdiv(v.y, d);
        self.z = fdiv(v.z, d);
    }
}

/// A 3D vector of plain `i32` components.
#[derive(Clone, Copy, PartialEq, Eq, Structural, Debug)]
pub struct Vec3i {
    pub x: i32,
    pub y: i32,
    pub z: i32,
}

impl Vec3i {
    /// The components as an exact integer triple, for specifications.
    pub open spec fn m(self) -> (int, int, int) {
        (self.x as int, self.y as int, self.z as int)
    }

    pub fn new(nx: i32, ny: i32, nz: i32) -> (r: Vec3i)
        ensures
            r.x == nx && r.y == ny && r.z == nz,
    {
        Vec3i { x: nx, y: ny, z: nz }
    }

    pub fn zero() -> (r: Vec3i)
        ensures
            r.x == 0 && r.y == 0 && r.z == 0,
    {
        Vec3i { x: 0, y: 0, z: 0 }
    }

    /// Componentwise sum; the caller keeps each sum inside `i32`.
    pub fn add(&self, rhs: &Vec3i) -> (r: Vec3i)
        requires
            i32::MIN <= self.x + rhs.x <= i32::MAX,
            i32::MIN <= self.y + rhs.y <= i32::MAX,
            i32::MIN <= self.z + rhs.z <= i32::MAX,
        ensures
            r.x == self.x + rhs.x && r.y == self.y + rhs.y && r.z == self.z + rhs.z,
    {
        Vec3i { x: self.x + rhs.x, y: self.y + rhs.y, z: self.z + rhs.z }
    }

    /// Componentwise difference; the caller keeps it inside `i32`.
    pub fn sub(&self, rhs: &Vec3i) -> (r: Vec3i)
        requires
            i32::MIN <= self.x - rhs.x <= i32::MAX,
            i32::MIN <= self.y - rhs.y <= i32::MAX,
            i32::MIN <= self.z - rhs.z <= i32::MAX,
        ensures
            r.x == self.x - rhs.x && r.y == self.y - rhs.y && r.z == self.z - rhs.z,
    {
        Vec3i { x: self.x - rhs.x, y: self.y - rhs.y, z: self.z - rhs.z }
    }

    /// Componentwise product with a scalar; exact integer products.
    pub fn scale(&self, s: i32) -> (r: Vec3i)
        requires
            i32::MIN <= self.x * s <= i32::MAX,
            i32::MIN <= self.y * s <= i32::MAX,
            i32::MIN <= self.z * s <= i32::MAX,
        ensures
            r.x == self.x * s && r.y == self.y * s && r.z == self.z * s,
    {
        Vec3i { x: self.x * s, y: self.y * s, z: self.z * s }
    }

    /// Componentwise negation.
    pub fn negate(&self) -> (r: Vec3i)
        requires
            self.x > i32::MIN,
            self.y > i32::MIN,
            self.z > i32::MIN,
        ensures
            r.x == -self.x && r.y == -self.y && r.z == -self.z,
    {
        Vec3i { x: -self.x, y: -self.y, z: -self.z }
    }

    /// Euclidean length, the floor square root of the sum of squares,
    /// computed through a widened intermediate and narrowed back.
    pub fn length(&self) -> (r: i32)
        requires
            isqrt_s(sumsq3(self.m())) <= i32::MAX,
        ensures
            r == isqrt_s(sumsq3(self.m())),
    {
        proof {
            assert(0 <= (self.x as int) * (self.x as int) <= 0x4000_0000_0000_0000
                && 0 <= (self.y as int) * (self.y as int) <= 0x4000_0000_0000_0000
                && 0 <= (self.z as int) * (self.z as int) <= 0x4000_0000_0000_0000)
                by (nonlinear_arith)
                requires
                    -0x8000_0000 <= self.x as int <= 0x8000_0000,
                    -0x8000_0000 <= self.y as int <= 0x8000_0000,
                    -0x8000_0000 <= self.z as int <= 0x8000_0000,
            ;
        }
        let xx: i64 = (self.x as i64) * (self.x as i64);
        let yy: i64 = (self.y as i64) * (self.y as i64);
        let zz: i64 = (self.z as i64) * (self.z as i64);
        let sum: u64 = (xx as u64) + (yy as u64) + (zz as u64);
        let r = isqrt(sum);
        proof {
            lemma_isqrt_monotone(0, sum as int);
        }
        r as i32
    }

    /// Scalar product, exact.
    pub fn dot(&self, rhs: &Vec3i) -> (r: i32)
        requires
            i32::MIN <= dot3_exact(self.m(), rhs.m()) <= i32::MAX,
        ensures
            r == dot3_exact(self.m(), rhs.m()),
    {
        proof {
            lemma_i32_prod_bound(self.x as int, rhs.x as int);
            lemma_i32_prod_bound(self.y as int, rhs.y as int);
            lemma_i32_prod_bound(self.z as int, rhs.z as int);
        }
        let r: i128 = (self.x as i128) * (rhs.x as i128) + (self.y as i128) * (rhs.y as i128) + (
        self.z as i128) * (rhs.z as i128);
        r as i32
    }

    /// Right-handed cross product, exact.
    pub fn cross(&self, rhs: &Vec3i) -> (r: Vec3i)
        requires
            i32::MIN <= cross3_exact(self.m(), rhs.m()).0 <= i32::MAX,
            i32::MIN <= cross3_exact(self.m(), rhs.m()).1 <= i32::MAX,
            i32::MIN <= cross3_exact(self.m(), rhs.m()).2 <= i32::MAX,
        ensures
            r.m() == cross3_exact(self.m(), rhs.m()),
    {
        proof {
            lemma_i32_prod_bound(self.y as int, rhs.z as int);
            lemma_i32_prod_bound(self.z as int, rhs.y as int);
            lemma_i32_prod_bound(self.z as int, rhs.x as int);
            lemma_i32_prod_bound(self.x as int, rhs.z as int);
            lemma_i32_prod_bound(self.x as int, rhs.y as int);
            lemma_i32_prod_bound(self.y as int, rhs.x as int);
        }
        let cx: i128 = (self.y as i128) * (rhs.z as i128) - (self.z as i128) * (rhs.y as i128);
        let cy: i128 = (self.z as i128) * (rhs.x as i128) - (self.x as i128) * (rhs.z as i128);
        let cz: i128 = (self.x as i128) * (rhs.y as i128) - (self.y as i128) * (rhs.x as i128);
        Vec3i { x: cx as i32, y: cy as i32, z: cz as i32 }
    }
}

/// Product of two values in `i32` range stays well inside `i128`.
proof fn lemma_i32_prod_bound(a: int, b: int)
    requires
        -0x8000_0000 <= a <= 0x8000_0000,
        -0x8000_0000 <= b <= 0x8000_0000,
    ensures
        -0x4000_0000_0000_0000 <= a * b <= 0x4000_0000_0000_0000,
{
    assert(-0x4000_0000_0000_0000 <= a * b <= 0x4000_0000_0000_0000) by (nonlinear_arith)
        requires
            -0x8000_0000 <= a <= 0x8000_0000,
            -0x8000_0000 <= b <= 0x8000_0000,
    ;
}

} // verus!

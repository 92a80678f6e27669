//! The fixed-point scalar that the whole library computes with.
//!
//! A scalar is an `i64` holding a real value scaled by `SCALE` (Q16.16).
//! Multiplication and division truncate toward zero, exactly as `/` does
//! on `i64`; the spec functions here state that arithmetic precisely, so
//! every contract built on them is exact rather than approximate.

use vstd::prelude::*;

verus! {

/// Number of fixed-point units in 1.0: scalars are Q16.16.
pub const SCALE: i64 = 65536;

/// Largest scalar magnitude the arithmetic helpers accept (2^30 units,
/// i.e. real values up to 16384.0); keeps every product inside `i64`.
pub const MAX_FX: i64 = 0x4000_0000;

/// Magnitude bound on a product of two accepted scalars, after the
/// rescaling division: 2^60 / 2^16 = 2^44 units.
pub const PROD_BOUND: i64 = 0x1000_0000_0000;

/// Largest dividend magnitude `fdiv` accepts (2^46 units): the scaled
/// dividend then still fits in `i64`.
pub const DIV_IN_MAX: i64 = 0x4000_0000_0000;

/// Magnitude bound on what `fdiv` can return (2^62 units).
pub const DIV_OUT_BOUND: i64 = 0x4000_0000_0000_0000;

/// Degenerate-length guard for normalization: lengths under 7 units
/// (about 1e-4) count as zero and are not divided by.
pub const EPSILON: i64 = 7;

/// Division truncating toward zero: the behaviour of `/` on `i64`
/// (ghost `/` alone is Euclidean, which differs on negative dividends).
pub open spec fn tdiv(a: int, b: int) -> int
    recommends
        b > 0,
{
    if a >= 0 {
        a / b
    } else {
        -((-a) / b)
    }
}

/// A scalar is within the magnitude the arithmetic helpers accept.
pub open spec fn fx_ok(a: int) -> bool {
    -MAX_FX <= a <= MAX_FX
}

/// Exact value of a fixed-point product: the wide product of the raw
/// representations, scaled back down with truncation toward zero.
pub open spec fn fmul_s(a: int, b: int) -> int {
    tdiv(a * b, SCALE as int)
}

/// Exact value of a fixed-point quotient: the raw dividend scaled up,
/// then divided with truncation toward zero.
pub open spec fn fdiv_s(a: int, b: int) -> int {
    tdiv(a * SCALE, b)
}

/// Truncating division shrinks magnitude: |tdiv(a, b)| <= |a| for b >= 1.
pub proof fn lemma_tdiv_mag(a: int, b: int)
    requires
        b >= 1,
    ensures
        a >= 0 ==> 0 <= tdiv(a, b) <= a,
        a < 0 ==> a <= tdiv(a, b) <= 0,
{
    if a >= 0 {
        vstd::arithmetic::div_mod::lemma_div_pos_is_pos(a, b);
        vstd::arithmetic::div_mod::lemma_div_nonincreasing(a, b);
    } else {
        vstd::arithmetic::div_mod::lemma_div_pos_is_pos(-a, b);
        vstd::arithmetic::div_mod::lemma_div_nonincreasing(-a, b);
    }
}

/// Truncating division is monotone in the magnitude of the dividend.
pub proof fn lemma_tdiv_mag_le(a: int, m: int, b: int)
    requires
        b >= 1,
        -m <= a <= m,
        m >= 0,
    ensures
        -(m / b) <= tdiv(a, b) <= m / b,
{
    vstd::arithmetic::div_mod::lemma_div_pos_is_pos(m, b);
    if a >= 0 {
        vstd::arithmetic::div_mod::lemma_div_pos_is_pos(a, b);
        vstd::arithmetic::div_mod::lemma_div_is_ordered(a, m, b);
    } else {
        vstd::arithmetic::div_mod::lemma_div_pos_is_pos(-a, b);
        vstd::arithmetic::div_mod::lemma_div_is_ordered(-a, m, b);
    }
}

/// A multiple of the divisor divides back exactly: tdiv(a * b, b) == a.
pub proof fn lemma_tdiv_exact(a: int, b: int)
    requires
        b >= 1,
    ensures
        tdiv(a * b, b) == a,
{
    if a >= 0 {
        vstd::arithmetic::div_mod::lemma_div_multiples_vanish(a, b);
        assert(a * b == b * a) by (nonlinear_arith);
    } else {
        vstd::arithmetic::div_mod::lemma_div_multiples_vanish(-a, b);
        assert(-(a * b) == b * (-a)) by (nonlinear_arith);
    }
}

/// Multiplying by the representation of 1.0 is the identity.
pub proof fn lemma_fmul_one(a: int)
    ensures
        fmul_s(a, SCALE as int) == a,
        fmul_s(SCALE as int, a) == a,
{
    lemma_tdiv_exact(a, SCALE as int);
    assert(a * SCALE == SCALE * a) by (nonlinear_arith);
}

/// Multiplying by zero gives zero.
pub proof fn lemma_fmul_zero(a: int)
    ensures
        fmul_s(a, 0) == 0,
        fmul_s(0, a) == 0,
{
    assert(a * 0 == 0) by (nonlinear_arith);
    assert(0 * a == 0) by (nonlinear_arith);
}

/// The fixed-point product does not depend on the order of its operands.
pub proof fn lemma_fmul_comm(a: int, b: int)
    ensures
        fmul_s(a, b) == fmul_s(b, a),
{
    assert(a * b == b * a) by (nonlinear_arith);
}

/// Fixed-point multiplication of two accepted scalars, exact to the spec.
pub fn fmul(a: i64, b: i64) -> (r: i64)
    requires
        fx_ok(a as int),
        fx_ok(b as int),
    ensures
        r == fmul_s(a as int, b as int),
        -PROD_BOUND <= r <= PROD_BOUND,
{
    proof {
        assert(-0x1000_0000_0000_0000 <= (a as int) * (b as int) <= 0x1000_0000_0000_0000)
            by (nonlinear_arith)
            requires
                -0x4000_0000 <= a as int <= 0x4000_0000,
                -0x4000_0000 <= b as int <= 0x4000_0000,
        ;
        lemma_tdiv_mag_le((a as int) * (b as int), 0x1000_0000_0000_0000, SCALE as int);
        assert(0x1000_0000_0000_0000int / 65536int == 0x1000_0000_0000int);
    }
    let p: i64 = a * b;
    p / SCALE
}

/// Fixed-point division by a positive scalar, exact to the spec.
pub fn fdiv(a: i64, b: i64) -> (r: i64)
    requires
        -DIV_IN_MAX <= a <= DIV_IN_MAX,
        0 < b,
    ensures
        r == fdiv_s(a as int, b as int),
        -DIV_OUT_BOUND <= r <= DIV_OUT_BOUND,
{
    proof {
        assert((a as int) * (SCALE as int) == (a as int) * 65536) by (nonlinear_arith);
        assert(-0x4000_0000_0000_0000 <= (a as int) * 65536 <= 0x4000_0000_0000_0000)
            by (nonlinear_arith)
            requires
                -0x4000_0000_0000 <= a as int <= 0x4000_0000_0000,
        ;
        lemma_tdiv_mag((a as int) * (SCALE as int), b as int);
    }
    let p: i64 = a * SCALE;
    p / b
}

/// Magnitude of an integer.
pub open spec fn mag(a: int) -> int {
    if a >= 0 {
        a
    } else {
        -a
    }
}

/// Truncating division boxes the dividend between consecutive
/// multiples of the divisor: b * |c| <= |y| < b * (|c| + 1) for the
/// quotient c.
pub proof fn lemma_tdiv_box(y: int, b: int)
    requires
        b >= 1,
    ensures
        b * mag(tdiv(y, b)) <= mag(y),
        mag(y) < b * (mag(tdiv(y, b)) + 1),
{
    if y >= 0 {
        vstd::arithmetic::div_mod::lemma_fundamental_div_mod(y, b);
        vstd::arithmetic::div_mod::lemma_mod_division_less_than_divisor(y, b);
        vstd::arithmetic::div_mod::lemma_div_pos_is_pos(y, b);
        assert(b * (mag(tdiv(y, b)) + 1) == b * mag(tdiv(y, b)) + b) by (nonlinear_arith);
    } else {
        vstd::arithmetic::div_mod::lemma_fundamental_div_mod(-y, b);
        vstd::arithmetic::div_mod::lemma_mod_division_less_than_divisor(-y, b);
        vstd::arithmetic::div_mod::lemma_div_pos_is_pos(-y, b);
        assert(b * (mag(tdiv(y, b)) + 1) == b * mag(tdiv(y, b)) + b) by (nonlinear_arith);
    }
}

/// Truncating division leaves a remainder smaller than the divisor:
/// |y - b * tdiv(y, b)| < b.
pub proof fn lemma_tdiv_rem(y: int, b: int)
    requires
        b >= 1,
    ensures
        mag(y - b * tdiv(y, b)) < b,
{
    if y >= 0 {
        vstd::arithmetic::div_mod::lemma_fundamental_div_mod(y, b);
        vstd::arithmetic::div_mod::lemma_mod_division_less_than_divisor(y, b);
    } else {
        vstd::arithmetic::div_mod::lemma_fundamental_div_mod(-y, b);
        vstd::arithmetic::div_mod::lemma_mod_division_less_than_divisor(-y, b);
        assert(b * -((-y) / b) == -(b * ((-y) / b))) by (nonlinear_arith);
    }
}

/// Squaring preserves order on nonnegative numbers.
pub proof fn lemma_sq_le(a: int, b: int)
    requires
        0 <= a <= b,
    ensures
        a * a <= b * b,
{
    assert(a * a <= b * b) by (nonlinear_arith)
        requires
            0 <= a <= b,
    ;
}

/// Squaring preserves strict order on nonnegative numbers.
pub proof fn lemma_sq_lt(a: int, b: int)
    requires
        0 <= a < b,
    ensures
        a * a < b * b,
{
    assert(a * a < b * b) by (nonlinear_arith)
        requires
            0 <= a < b,
    ;
}

/// Strict order of squares comes back down to the numbers themselves.
pub proof fn lemma_sq_lt_converse(a: int, b: int)
    requires
        0 <= a,
        0 <= b,
        a * a < b * b,
    ensures
        a < b,
{
    if b <= a {
        assert(b * b <= a * a) by (nonlinear_arith)
            requires
                0 <= b <= a,
        ;
    }
}

/// Floor of the square root, defined by counting up: the greatest `r`
/// with `r * r <= n` (and 0 for non-positive arguments).
pub open spec fn isqrt_s(n: int) -> int
    decreases n,
{
    if n <= 0 {
        0
    } else {
        let p = isqrt_s(n - 1);
        if (p + 1) * (p + 1) <= n {
            p + 1
        } else {
            p
        }
    }
}

/// `isqrt_s(n)` squares to at most `n`, and is the last number to do so.
pub proof fn lemma_isqrt_bounds(n: int)
    requires
        n >= 0,
    ensures
        isqrt_s(n) >= 0,
        isqrt_s(n) * isqrt_s(n) <= n,
        n < (isqrt_s(n) + 1) * (isqrt_s(n) + 1),
    decreases n,
{
    if n > 0 {
        lemma_isqrt_bounds(n - 1);
        let p = isqrt_s(n - 1);
        if (p + 1) * (p + 1) <= n {
            assert(isqrt_s(n) == p + 1);
            assert((p + 1) * (p + 1) < (p + 2) * (p + 2)) by (nonlinear_arith)
                requires
                    p >= 0,
            ;
        } else {
            assert(isqrt_s(n) == p);
        }
    }
}

/// Only one number squares to at most `n` while its successor exceeds it.
pub proof fn lemma_isqrt_unique(n: int, r: int)
    requires
        0 <= r,
        r * r <= n,
        n < (r + 1) * (r + 1),
    ensures
        r == isqrt_s(n),
{
    let s = isqrt_s(n);
    lemma_isqrt_bounds(n);
    if r < s {
        assert((r + 1) * (r + 1) <= s * s) by (nonlinear_arith)
            requires
                0 <= r + 1 <= s,
        ;
    }
    if s < r {
        assert((s + 1) * (s + 1) <= r * r) by (nonlinear_arith)
            requires
                0 <= s + 1 <= r,
        ;
    }
}

/// The floor square root is monotone.
pub proof fn lemma_isqrt_monotone(m: int, n: int)
    requires
        0 <= m <= n,
    ensures
        isqrt_s(m) <= isqrt_s(n),
{
    let a = isqrt_s(m);
    let b = isqrt_s(n);
    lemma_isqrt_bounds(m);
    lemma_isqrt_bounds(n);
    if b < a {
        assert((b + 1) * (b + 1) <= a * a) by (nonlinear_arith)
            requires
                0 <= b + 1 <= a,
        ;
    }
}

/// Floor square root of a `u64`, by binary search on the answer.
pub fn isqrt(n: u64) -> (r: u64)
    ensures
        r as int == isqrt_s(n as int),
        (r as int) * (r as int) <= n as int,
        (n as int) < (r as int + 1) * (r as int + 1),
{
    let mut lo: u64 = 0;
    let mut hi: u64 = 0x1_0000_0000;
    proof {
        assert((n as int) < 0x1_0000_0000int * 0x1_0000_0000int) by (nonlinear_arith)
            requires
                n as int <= 0xffff_ffff_ffff_ffffint,
        ;
    }
    while lo + 1 < hi
        invariant
            0 <= lo < hi <= 0x1_0000_0000,
            (lo as int) * (lo as int) <= n as int,
            (n as int) < (hi as int) * (hi as int),
        decreases hi - lo,
    {
        let mid: u64 = lo + (hi - lo) / 2;
        proof {
            assert((mid as int) * (mid as int) <= 0x1_0000_0000int * 0x1_0000_0000int)
                by (nonlinear_arith)
                requires
                    0 <= mid as int <= 0x1_0000_0000int,
            ;
        }
        let m2: u128 = (mid as u128) * (mid as u128);
        if m2 <= n as u128 {
            lo = mid;
        } else {
            hi = mid;
        }
    }
    proof {
        lemma_isqrt_unique(n as int, lo as int);
    }
    lo
}

} // verus!

// Fixed-point scalar arithmetic and the vector family.

use q3math::EPSILON;
use q3math::SCALE;
use q3math::Vec2fx;
use q3math::Vec2i;
use q3math::Vec3fx;
use q3math::Vec3i;
use q3math::fixed::fdiv;
use q3math::fixed::fmul;
use q3math::fixed::isqrt;

fn to_f(v: i64) -> f64 {
    v as f64 / SCALE as f64
}

fn fx(v: f64) -> i64 {
    (v * SCALE as f64).round() as i64
}

#[test]
fn fmul_matches_truncating_product() {
    // 1.5 * 2.0 == 3.0 exactly
    assert_eq!(fmul(3 * SCALE / 2, 2 * SCALE), 3 * SCALE);
    // the sign convention truncates toward zero
    assert_eq!(fmul(-3 * SCALE / 2, 2 * SCALE), -3 * SCALE);
    assert_eq!(fmul(1, 1), 0); // underflow truncates to zero
    assert_eq!(fmul(SCALE, 12345), 12345);
}

#[test]
fn fdiv_matches_truncating_quotient() {
    assert_eq!(fdiv(3 * SCALE, 2 * SCALE), 3 * SCALE / 2);
    // -1.5 exactly, truncation toward zero on the scaled dividend
    assert_eq!(fdiv(-3 * SCALE, 2 * SCALE), -(3 * SCALE / 2));
    assert_eq!(fdiv(SCALE, SCALE), SCALE);
    assert_eq!(fdiv(0, 7), 0);
}

#[test]
fn isqrt_edges() {
    assert_eq!(isqrt(0), 0);
    assert_eq!(isqrt(1), 1);
    assert_eq!(isqrt(2), 1);
    assert_eq!(isqrt(3), 1);
    assert_eq!(isqrt(4), 2);
    assert_eq!(isqrt(24), 4);
    assert_eq!(isqrt(25), 5);
    assert_eq!(isqrt(u64::MAX), (1u64 << 32) - 1);
}

#[test]
fn vec3_componentwise_ops() {
    let a = Vec3fx::new(fx(1.0), fx(2.0), fx(3.0));
    let b = Vec3fx::new(fx(0.5), fx(-1.0), fx(4.0));
    let s = a.add(&b);
    assert_eq!((s.x, s.y, s.z), (fx(1.5), fx(1.0), fx(7.0)));
    let d = a.sub(&b);
    assert_eq!((d.x, d.y, d.z), (fx(0.5), fx(3.0), fx(-1.0)));
    let m = a.scale(fx(2.0));
    assert_eq!((m.x, m.y, m.z), (fx(2.0), fx(4.0), fx(6.0)));
    let n = a.negate();
    assert_eq!((n.x, n.y, n.z), (-a.x, -a.y, -a.z));
    let z = Vec3fx::zero();
    assert_eq!((z.x, z.y, z.z), (0, 0, 0));
}

#[test]
fn vec3_length_pythagorean() {
    let v = Vec3fx::new(3 * SCALE, 4 * SCALE, 0);
    assert_eq!(v.length(), 5 * SCALE);
    let w = Vec3fx::new(SCALE, 2 * SCALE, 2 * SCALE);
    assert_eq!(w.length(), 3 * SCALE);
}

#[test]
fn vec3_dot_product() {
    let a = Vec3fx::new(fx(1.0), fx(2.0), fx(3.0));
    let b = Vec3fx::new(fx(4.0), fx(-5.0), fx(6.0));
    assert_eq!(a.dot(&b), fx(4.0 - 10.0 + 18.0));
}

#[test]
fn normalize_gives_unit_length() {
    let mut v = Vec3fx::new(3 * SCALE, 4 * SCALE, 0);
    v.normalize();
    let len = ((to_f(v.x).powi(2) + to_f(v.y).powi(2) + to_f(v.z).powi(2)) as f64).sqrt();
    assert!((len - 1.0).abs() < 1e-3, "length {len}");
    let mut w = Vec3fx::new(fx(-0.3), fx(11.25), fx(2.75));
    w.normalize();
    let len = (to_f(w.x).powi(2) + to_f(w.y).powi(2) + to_f(w.z).powi(2)).sqrt();
    assert!((len - 1.0).abs() < 1e-3, "length {len}");
}

#[test]
fn normalize_zero_vector_unchanged() {
    let mut v = Vec3fx::zero();
    v.normalize();
    assert_eq!((v.x, v.y, v.z), (0, 0, 0));
}

#[test]
fn normalize_degenerate_vector_unchanged() {
    // length is under the guard (about 1e-4), so the vector is left alone
    let mut v = Vec3fx::new(EPSILON - 4, 0, 0);
    v.normalize();
    assert_eq!((v.x, v.y, v.z), (EPSILON - 4, 0, 0));
}

#[test]
fn cross_is_anti_commutative() {
    let a = Vec3fx::new(fx(1.0), fx(2.0), fx(3.0));
    let b = Vec3fx::new(fx(-4.0), fx(5.5), fx(0.25));
    let ab = a.cross(&b);
    let ba = b.cross(&a);
    assert_eq!((ab.x, ab.y, ab.z), (-ba.x, -ba.y, -ba.z));

    let p = Vec3i::new(3, -7, 11);
    let q = Vec3i::new(2, 9, -5);
    let pq = p.cross(&q);
    let qp = q.cross(&p);
    assert_eq!((pq.x, pq.y, pq.z), (-qp.x, -qp.y, -qp.z));
}

#[test]
fn cross_follows_right_hand_rule() {
    let x = Vec3fx::new(SCALE, 0, 0);
    let y = Vec3fx::new(0, SCALE, 0);
    let z = x.cross(&y);
    assert_eq!((z.x, z.y, z.z), (0, 0, SCALE));
}

#[test]
fn dot_of_vector_with_its_cross_product_vanishes() {
    // exact for the integer variant
    let p = Vec3i::new(3, -7, 11);
    let q = Vec3i::new(2, 9, -5);
    assert_eq!(p.dot(&p.cross(&q)), 0);
    // within truncation error for the fixed-point variant
    let a = Vec3fx::new(fx(1.0), fx(2.0), fx(3.0));
    let b = Vec3fx::new(fx(-4.0), fx(5.5), fx(0.25));
    let d = a.dot(&a.cross(&b));
    assert!(to_f(d).abs() < 1e-3, "dot {}", to_f(d));
}

#[test]
fn vec2_ops_and_length() {
    let a = Vec2fx::new(3 * SCALE, 4 * SCALE);
    assert_eq!(a.length(), 5 * SCALE);
    let b = Vec2fx::new(fx(0.5), fx(-1.5));
    let s = a.add(&b);
    assert_eq!((s.x, s.y), (fx(3.5), fx(2.5)));
    let d = a.sub(&b);
    assert_eq!((d.x, d.y), (fx(2.5), fx(5.5)));
    assert_eq!(a.dot(&b), fx(1.5 - 6.0));
    let n = b.negate();
    assert_eq!((n.x, n.y), (fx(-0.5), fx(1.5)));
    let m = b.scale(fx(2.0));
    assert_eq!((m.x, m.y), (fx(1.0), fx(-3.0)));
    let z = Vec2fx::zero();
    assert_eq!((z.x, z.y), (0, 0));
}

#[test]
fn vec2_normalize_unit_and_degenerate() {
    let mut v = Vec2fx::new(3 * SCALE, 4 * SCALE);
    v.normalize();
    let len = (to_f(v.x).powi(2) + to_f(v.y).powi(2)).sqrt();
    assert!((len - 1.0).abs() < 1e-3, "length {len}");
    let mut z = Vec2fx::zero();
    z.normalize();
    assert_eq!((z.x, z.y), (0, 0));
}

#[test]
fn integer_vectors_exact_arithmetic() {
    let a = Vec2i::new(7, -3);
    let b = Vec2i::new(-2, 10);
    let s = a.add(&b);
    assert_eq!((s.x, s.y), (5, 7));
    let d = a.sub(&b);
    assert_eq!((d.x, d.y), (9, -13));
    let m = a.scale(3);
    assert_eq!((m.x, m.y), (21, -9));
    assert_eq!(a.dot(&b), -44);
    assert_eq!(Vec2i::new(3, 4).length(), 5);

    let p = Vec3i::new(1, 2, 2);
    assert_eq!(p.length(), 3);
    let q = Vec3i::new(-4, 0, 3);
    let t = p.add(&q);
    assert_eq!((t.x, t.y, t.z), (-3, 2, 5));
    assert_eq!(p.dot(&q), 2);
    let n = q.negate();
    assert_eq!((n.x, n.y, n.z), (4, 0, -3));
    let z3 = Vec3i::zero();
    assert_eq!((z3.x, z3.y, z3.z), (0, 0, 0));
}

#[test]
fn vector_debug_strings() {
    assert_eq!(Vec3i::new(1, -2, 3).to_str(), "(1, -2, 3)");
    assert_eq!(Vec2i::new(0, 42).to_str(), "(0, 42)");
    assert_eq!(Vec3fx::new(65536, -65536, 7).to_str(), "(65536, -65536, 7)");
    assert_eq!(Vec2fx::new(-1, 100).to_str(), "(-1, 100)");
}

// The 4x4 matrix: constructors, composition, basis extraction,
// flattening and the textual dump.

use q3math::Mat4x4;
use q3math::SCALE;
use q3math::Vec3fx;

fn fx(v: f64) -> i64 {
    (v * SCALE as f64).round() as i64
}

fn to_f(v: i64) -> f64 {
    v as f64 / SCALE as f64
}

// Transform the point (x, y, z, w) by m; row r of the result sums
// m.d(c, r) * p_c over the columns, rescaled like the library's fmul.
fn transform(m: &Mat4x4, p: [i64; 4]) -> [f64; 4] {
    let f = m.flattened();
    let mut out = [0.0f64; 4];
    for (r, o) in out.iter_mut().enumerate() {
        let mut acc = 0.0f64;
        for c in 0..4 {
            acc += to_f(f[c * 4 + r]) * to_f(p[c]);
        }
        *o = acc;
    }
    out
}

#[test]
fn new_is_identity() {
    let m = Mat4x4::new();
    let f = m.flattened();
    for c in 0..4 {
        for r in 0..4 {
            let expected = if c == r { SCALE } else { 0 };
            assert_eq!(f[c * 4 + r], expected);
        }
    }
    assert_eq!(m.get_width(), 4);
    assert_eq!(m.get_height(), 4);
}

#[test]
fn identity_resets_in_place() {
    let mut m = Mat4x4::new_translation(fx(1.0), fx(2.0), fx(3.0));
    m.identity();
    assert_eq!(m, Mat4x4::new());
}

#[test]
fn multiply_by_identity_on_either_side_is_neutral() {
    let m = Mat4x4::new_translation(fx(1.0), fx(-2.0), fx(3.0));
    let i = Mat4x4::new();
    assert_eq!(i.multiply(&m), m);
    assert_eq!(m.multiply(&i), m);

    let r = Mat4x4::new_rotation_z(fx(0.6), fx(0.8));
    assert_eq!(i.multiply(&r), r);
    assert_eq!(r.multiply(&i), r);
}

#[test]
fn scale_and_translation_fill_expected_slots() {
    let s = Mat4x4::new_scale(fx(2.0), fx(3.0), fx(4.0));
    assert_eq!(s.d00, fx(2.0));
    assert_eq!(s.d11, fx(3.0));
    assert_eq!(s.d22, fx(4.0));
    assert_eq!(s.d33, SCALE);
    assert_eq!(s.d30, 0);

    let t = Mat4x4::new_translation(fx(5.0), fx(6.0), fx(7.0));
    assert_eq!(t.d30, fx(5.0));
    assert_eq!(t.d31, fx(6.0));
    assert_eq!(t.d32, fx(7.0));
    assert_eq!(t.d00, SCALE);
    assert_eq!(t.d11, SCALE);
    assert_eq!(t.d22, SCALE);
    assert_eq!(t.d33, SCALE);
}

#[test]
fn rotation_sign_conventions() {
    // a quarter turn: sin 1.0, cos 0.0; applied to column vectors
    // these are frame rotations, so the axes cycle the inverse way
    let rx = Mat4x4::new_rotation_x(SCALE, 0);
    // x-axis rotation carries z toward y
    let p = transform(&rx, [0, 0, SCALE, SCALE]);
    assert!((p[1] - 1.0).abs() < 1e-3 && p[2].abs() < 1e-3, "{p:?}");

    let ry = Mat4x4::new_rotation_y(SCALE, 0);
    // y-axis rotation carries z toward x
    let p = transform(&ry, [0, 0, SCALE, SCALE]);
    assert!((p[0] - 1.0).abs() < 1e-3 && p[2].abs() < 1e-3, "{p:?}");

    let rz = Mat4x4::new_rotation_z(SCALE, 0);
    // z-axis rotation carries y toward x
    let p = transform(&rz, [0, SCALE, 0, SCALE]);
    assert!((p[0] - 1.0).abs() < 1e-3 && p[1].abs() < 1e-3, "{p:?}");
}

#[test]
fn rotation_composition_matches_single_rotation() {
    // two eighth turns about z compose into a quarter turn
    let s45 = fx((std::f64::consts::PI / 4.0).sin());
    let c45 = fx((std::f64::consts::PI / 4.0).cos());
    let r45 = Mat4x4::new_rotation_z(s45, c45);
    let r90 = Mat4x4::new_rotation_z(SCALE, 0);
    let composed = r45.multiply(&r45);
    let a = transform(&composed, [SCALE, 0, 0, SCALE]);
    let b = transform(&r90, [SCALE, 0, 0, SCALE]);
    for k in 0..4 {
        assert!((a[k] - b[k]).abs() < 1e-2, "{a:?} vs {b:?}");
    }
}

#[test]
fn perspective_maps_near_plane_center_to_clip_minus_one() {
    // fov 60 degrees, aspect 1.0, near 0.1, far 100.0
    let tan_half = fx((30.0f64).to_radians().tan());
    let near = fx(0.1);
    let far = fx(100.0);
    let m = Mat4x4::new_perspective(tan_half, SCALE, near, far);
    let p = transform(&m, [0, 0, -near, SCALE]);
    let ndc_z = p[2] / p[3];
    assert!((ndc_z - -1.0).abs() < 0.02, "ndc z {ndc_z}");
    // the perspective-divide row holds -1 in the z slot
    assert_eq!(m.d23, -SCALE);
    assert_eq!(m.d33, 0);
}

#[test]
fn perspective_square_frustum_scales_x_and_y_equally() {
    let tan_half = fx((30.0f64).to_radians().tan());
    let m = Mat4x4::new_perspective(tan_half, SCALE, fx(0.1), fx(100.0));
    assert_eq!(m.d00, m.d11);
    assert!((to_f(m.d00) - 1.0 / (30.0f64).to_radians().tan()).abs() < 0.01);
}

#[test]
fn perspective_entries_match_truncating_formula() {
    // replicate the fixed-point arithmetic exactly: i64 `/` truncates
    // toward zero just like the library's rescaling operations
    let tmul = |a: i64, b: i64| (a * b) / SCALE;
    let tdiv = |a: i64, b: i64| (a * SCALE) / b;
    let tan_half = fx((30.0f64).to_radians().tan());
    let aspect = fx(4.0 / 3.0);
    let near = fx(0.1);
    let far = fx(100.0);
    let m = Mat4x4::new_perspective(tan_half, aspect, near, far);
    let range = tmul(tan_half, near);
    let half_w = tmul(range, aspect);
    assert_eq!(m.d00, tdiv(2 * near, 2 * half_w));
    assert_eq!(m.d11, tdiv(2 * near, 2 * range));
    assert_eq!(m.d22, -tdiv(far + near, far - near));
    assert_eq!(m.d32, -tdiv(2 * tmul(far, near), far - near));
    assert_eq!(m.d23, -SCALE);
    let zeros = [
        m.d10, m.d20, m.d30, m.d01, m.d21, m.d31, m.d02, m.d12, m.d03, m.d13, m.d33,
    ];
    assert_eq!(zeros, [0; 11]);
}

#[test]
fn orthographic_maps_box_corners_to_unit_cube() {
    let m = Mat4x4::new_orthographic(
        fx(-2.0),
        fx(2.0),
        fx(-1.0),
        fx(1.0),
        fx(1.0),
        fx(11.0),
    );
    let p = transform(&m, [fx(2.0), fx(1.0), fx(-1.0), SCALE]);
    assert!((p[0] - 1.0).abs() < 1e-3, "{p:?}");
    assert!((p[1] - 1.0).abs() < 1e-3, "{p:?}");
    assert!((p[2] - -1.0).abs() < 1e-3, "{p:?}");
    assert!((p[3] - 1.0).abs() < 1e-3, "{p:?}");
    let q = transform(&m, [fx(-2.0), fx(-1.0), fx(-11.0), SCALE]);
    assert!((q[0] - -1.0).abs() < 1e-3, "{q:?}");
    assert!((q[1] - -1.0).abs() < 1e-3, "{q:?}");
    assert!((q[2] - 1.0).abs() < 1e-3, "{q:?}");
}

#[test]
fn look_at_sends_target_to_negative_z_axis() {
    let eye = Vec3fx::new(fx(1.0), fx(2.0), fx(3.0));
    let target = Vec3fx::new(fx(4.0), fx(2.5), fx(-1.0));
    let up = Vec3fx::new(0, SCALE, 0);
    let view = Mat4x4::new_lookat(eye, target, up);
    let p = transform(&view, [target.x, target.y, target.z, SCALE]);
    assert!(p[0].abs() < 1e-2, "{p:?}");
    assert!(p[1].abs() < 1e-2, "{p:?}");
    assert!(p[2] < 0.0, "{p:?}");
}

#[test]
fn look_at_down_axis_gives_exact_basis() {
    // eye at origin looking down -z: the view matrix is the identity
    // rotation with zero translation
    let eye = Vec3fx::new(0, 0, 0);
    let target = Vec3fx::new(0, 0, -5 * SCALE);
    let up = Vec3fx::new(0, SCALE, 0);
    let view = Mat4x4::new_lookat(eye, target, up);
    assert_eq!(view.d00, SCALE);
    assert_eq!(view.d11, SCALE);
    assert_eq!(view.d22, SCALE);
    assert_eq!(view.d33, SCALE);
    assert_eq!((view.d30, view.d31, view.d32), (0, 0, 0));
}

#[test]
fn basis_extraction_reads_rotation_columns() {
    let eye = Vec3fx::new(0, 0, 0);
    let target = Vec3fx::new(0, 0, -5 * SCALE);
    let up_hint = Vec3fx::new(0, SCALE, 0);
    let view = Mat4x4::new_lookat(eye, target, up_hint);
    let u = view.up();
    assert_eq!((u.x, u.y, u.z), (0, SCALE, 0));
    let d = view.down();
    assert_eq!((d.x, d.y, d.z), (0, -SCALE, 0));
    let r = view.right();
    assert_eq!((r.x, r.y, r.z), (SCALE, 0, 0));
    let l = view.left();
    assert_eq!((l.x, l.y, l.z), (-SCALE, 0, 0));
    let f = view.forward();
    assert_eq!((f.x, f.y, f.z), (0, 0, -SCALE));
    let b = view.backward();
    assert_eq!((b.x, b.y, b.z), (0, 0, SCALE));
}

#[test]
fn flattened_is_column_major() {
    let t = Mat4x4::new_translation(fx(5.0), fx(6.0), fx(7.0));
    let f = t.flattened();
    assert_eq!(f.len(), 16);
    // column 3 (the translation column) occupies the last four floats
    assert_eq!(&f[12..16], &[fx(5.0), fx(6.0), fx(7.0), SCALE]);
    assert_eq!(f[0], SCALE);
    assert_eq!(f[1], 0);
}

#[test]
fn show_renders_identity_grid() {
    let m = Mat4x4::new();
    let expected = "----------\n\
                    |65536 0 0 0 |\n\
                    |0 65536 0 0 |\n\
                    |0 0 65536 0 |\n\
                    |0 0 0 65536 |\n\
                    ----------\n";
    assert_eq!(m.show(), expected);
}

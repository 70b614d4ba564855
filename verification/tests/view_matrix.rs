use camera_math::vec3::Vec3;
use camera_math::view::{compute_view_matrix, InvalidCameraBasis, ViewEntry, ViewMatrix};

/// Evaluates one exact entry in floating point, given the two radicands.
fn entry_value(e: ViewEntry, dir_norm_sq: i64, side_norm_sq: i64) -> f64 {
    let mut v = e.num as f64;
    if e.over_dir_len {
        v /= (dir_norm_sq as f64).sqrt();
    }
    if e.over_side_len {
        v /= (side_norm_sq as f64).sqrt();
    }
    v
}

/// The three basis columns of the upper 3x3 block, evaluated in floating
/// point.
fn basis_columns(m: &ViewMatrix) -> [[f64; 3]; 3] {
    let rows = [m.r0, m.r1, m.r2];
    let mut cols = [[0.0f64; 3]; 3];
    for (i, row) in rows.iter().enumerate() {
        cols[0][i] = entry_value(row.x, m.dir_norm_sq, m.side_norm_sq);
        cols[1][i] = entry_value(row.y, m.dir_norm_sq, m.side_norm_sq);
        cols[2][i] = entry_value(row.z, m.dir_norm_sq, m.side_norm_sq);
    }
    cols
}

fn dot3(a: [f64; 3], b: [f64; 3]) -> f64 {
    a[0] * b[0] + a[1] * b[1] + a[2] * b[2]
}

#[test]
fn view_matrix_axis_aligned_negative_z() {
    let eye = Vec3 { x: 0, y: 0, z: 0 };
    let dir = Vec3 { x: 0, y: 0, z: -1 };
    let up = Vec3 { x: 0, y: 1, z: 0 };
    let m = compute_view_matrix(eye, dir, up).unwrap();
    assert_eq!(m.dir_norm_sq, 1);
    assert_eq!(m.side_norm_sq, 1);
    // side column is up x f = (-1, 0, 0); forward column is (0, 0, -1).
    assert_eq!(m.r0.x.num, -1);
    assert_eq!(m.r1.x.num, 0);
    assert_eq!(m.r2.x.num, 0);
    assert_eq!(m.r0.y.num, 0);
    assert_eq!(m.r1.y.num, 1);
    assert_eq!(m.r2.y.num, 0);
    assert_eq!(m.r0.z.num, 0);
    assert_eq!(m.r1.z.num, 0);
    assert_eq!(m.r2.z.num, -1);
    // no translation, and the last column is (0, 0, 0, 1)
    assert_eq!(m.r3.x.num, 0);
    assert_eq!(m.r3.y.num, 0);
    assert_eq!(m.r3.z.num, 0);
    assert_eq!(m.r0.w.num, 0);
    assert_eq!(m.r1.w.num, 0);
    assert_eq!(m.r2.w.num, 0);
    assert_eq!(m.r3.w.num, 1);
}

#[test]
fn view_matrix_axis_aligned_positive_z_is_identity() {
    let eye = Vec3 { x: 0, y: 0, z: 0 };
    let dir = Vec3 { x: 0, y: 0, z: 1 };
    let up = Vec3 { x: 0, y: 1, z: 0 };
    let m = compute_view_matrix(eye, dir, up).unwrap();
    assert_eq!(m.dir_norm_sq, 1);
    assert_eq!(m.side_norm_sq, 1);
    let cols = basis_columns(&m);
    let expected = [[1.0, 0.0, 0.0], [0.0, 1.0, 0.0], [0.0, 0.0, 1.0]];
    for c in 0..3 {
        for i in 0..3 {
            assert!((cols[c][i] - expected[c][i]).abs() < 1e-12);
        }
    }
    assert_eq!(m.r3.x.num, 0);
    assert_eq!(m.r3.y.num, 0);
    assert_eq!(m.r3.z.num, 0);
}

#[test]
fn view_matrix_teapot_camera_scenario() {
    // The camera of the teapot demo: eye (2, -1, 1), looking along
    // (-2, 1, 1), up (0, 1, 0).
    let eye = Vec3 { x: 2, y: -1, z: 1 };
    let dir = Vec3 { x: -2, y: 1, z: 1 };
    let up = Vec3 { x: 0, y: 1, z: 0 };
    let m = compute_view_matrix(eye, dir, up).unwrap();
    // side = up x dir = (1, 0, 2), |dir|^2 = 6, |side|^2 = 5,
    // u numerators = dir x side = (2, 5, -1).
    assert_eq!(m.dir_norm_sq, 6);
    assert_eq!(m.side_norm_sq, 5);
    assert_eq!((m.r0.x.num, m.r1.x.num, m.r2.x.num), (1, 0, 2));
    assert_eq!((m.r0.y.num, m.r1.y.num, m.r2.y.num), (2, 5, -1));
    assert_eq!((m.r0.z.num, m.r1.z.num, m.r2.z.num), (-2, 1, 1));
    // translation: (-eye . s_norm, -eye . u, -eye . f) numerators
    assert_eq!(m.r3.x.num, -4);
    assert!(!m.r3.x.over_dir_len && m.r3.x.over_side_len);
    assert_eq!(m.r3.y.num, 2);
    assert!(m.r3.y.over_dir_len && m.r3.y.over_side_len);
    assert_eq!(m.r3.z.num, 4);
    assert!(m.r3.z.over_dir_len && !m.r3.z.over_side_len);
    // the normalized columns are orthonormal in floating point, and the
    // side column equals the raw cross product up x f, unnormalized
    let cols = basis_columns(&m);
    assert!(dot3(cols[0], cols[1]).abs() < 1e-12);
    assert!(dot3(cols[0], cols[2]).abs() < 1e-12);
    assert!(dot3(cols[1], cols[2]).abs() < 1e-12);
    assert!((dot3(cols[1], cols[1]) - 1.0).abs() < 1e-12);
    assert!((dot3(cols[2], cols[2]) - 1.0).abs() < 1e-12);
    let dir_len = 6.0f64.sqrt();
    let f = [-2.0 / dir_len, 1.0 / dir_len, 1.0 / dir_len];
    let up_f = [0.0, 1.0, 0.0];
    let raw_s = [
        up_f[1] * f[2] - up_f[2] * f[1],
        up_f[2] * f[0] - up_f[0] * f[2],
        up_f[0] * f[1] - up_f[1] * f[0],
    ];
    for i in 0..3 {
        assert!((cols[0][i] - raw_s[i]).abs() < 1e-12);
    }
    // ... so the side column's length is |side| / |dir|, not 1
    assert!((dot3(cols[0], cols[0]) - 5.0 / 6.0).abs() < 1e-12);
}

#[test]
fn view_matrix_translation_components() {
    // translation numerators are exactly -eye.side, -eye.u, -eye.dir
    let eye = Vec3 { x: 7, y: -3, z: 11 };
    let dir = Vec3 { x: 1, y: 2, z: -5 };
    let up = Vec3 { x: 0, y: 1, z: 0 };
    let m = compute_view_matrix(eye, dir, up).unwrap();
    let s = (m.r0.x.num, m.r1.x.num, m.r2.x.num);
    let u = (m.r0.y.num, m.r1.y.num, m.r2.y.num);
    assert_eq!(m.r3.x.num, -(7 * s.0 + -3 * s.1 + 11 * s.2));
    assert_eq!(m.r3.y.num, -(7 * u.0 + -3 * u.1 + 11 * u.2));
    assert_eq!(m.r3.z.num, -(7 * 1 + -3 * 2 + 11 * -5));
}

#[test]
fn view_matrix_integer_orthogonality() {
    // the exact statement behind the floating-point checks: column
    // numerators are orthogonal, and the normalized columns' squared
    // numerators sum to exactly their radicand
    let eye = Vec3 { x: -40, y: 25, z: 60 };
    let dir = Vec3 { x: 3, y: -7, z: 2 };
    let up = Vec3 { x: 1, y: 9, z: -4 };
    let m = compute_view_matrix(eye, dir, up).unwrap();
    let s = [m.r0.x.num as i128, m.r1.x.num as i128, m.r2.x.num as i128];
    let u = [m.r0.y.num as i128, m.r1.y.num as i128, m.r2.y.num as i128];
    let f = [m.r0.z.num as i128, m.r1.z.num as i128, m.r2.z.num as i128];
    let a = m.dir_norm_sq as i128;
    let b = m.side_norm_sq as i128;
    assert_eq!(s[0] * u[0] + s[1] * u[1] + s[2] * u[2], 0);
    assert_eq!(s[0] * f[0] + s[1] * f[1] + s[2] * f[2], 0);
    assert_eq!(u[0] * f[0] + u[1] * f[1] + u[2] * f[2], 0);
    assert_eq!(f[0] * f[0] + f[1] * f[1] + f[2] * f[2], a);
    assert_eq!(s[0] * s[0] + s[1] * s[1] + s[2] * s[2], b);
    assert_eq!(u[0] * u[0] + u[1] * u[1] + u[2] * u[2], a * b);
}

#[test]
fn view_matrix_zero_direction_is_rejected() {
    let eye = Vec3 { x: 1, y: 2, z: 3 };
    let dir = Vec3 { x: 0, y: 0, z: 0 };
    let up = Vec3 { x: 0, y: 1, z: 0 };
    let r = compute_view_matrix(eye, dir, up);
    assert_eq!(r.unwrap_err(), InvalidCameraBasis::ZeroLookDirection);
}

#[test]
fn view_matrix_parallel_up_is_rejected() {
    let eye = Vec3 { x: 0, y: 0, z: 0 };
    let dir = Vec3 { x: 0, y: 3, z: 0 };
    let up = Vec3 { x: 0, y: 1, z: 0 };
    let r = compute_view_matrix(eye, dir, up);
    assert_eq!(r.unwrap_err(), InvalidCameraBasis::UpParallelToLook);
}

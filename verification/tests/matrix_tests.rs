use lane_detection::{Mat2, MatrixError, Vec2, SCALE};

#[test]
fn identity_is_scaled_diagonal() {
    let m = Mat2::identity();
    assert_eq!(m.m00, SCALE);
    assert_eq!(m.m01, 0);
    assert_eq!(m.m10, 0);
    assert_eq!(m.m11, SCALE);
}

#[test]
fn matrix_addition_exact() {
    let a = Mat2::new(1000, 2000, 3000, 4000);
    let b = Mat2::new(10, 20, 30, 40);
    let r = a.add(&b);
    assert_eq!(r, Mat2::new(1010, 2020, 3030, 4040));
}

#[test]
fn matrix_subtraction_exact() {
    let a = Mat2::new(1000, 2000, 3000, 4000);
    let b = Mat2::new(10, 20, 30, 40);
    let r = a.sub(&b);
    assert_eq!(r, Mat2::new(990, 1980, 2970, 3960));
}

#[test]
fn matrix_transpose() {
    let a = Mat2::new(1, 2, 3, 4);
    assert_eq!(a.transpose(), Mat2::new(1, 3, 2, 4));
}

#[test]
fn matrix_multiply_exact() {
    // Real values: [[1, 2], [3, 4]] * [[5, 6], [7, 8]] = [[19, 22], [43, 50]].
    let a = Mat2::new(1000, 2000, 3000, 4000);
    let b = Mat2::new(5000, 6000, 7000, 8000);
    let r = a.multiply(&b);
    assert_eq!(r, Mat2::new(19000, 22000, 43000, 50000));
}

#[test]
fn matrix_mul_identity_keeps_value() {
    let a = Mat2::new(1234, -567, 89, 4321);
    assert_eq!(a.multiply(&Mat2::identity()), a);
    assert_eq!(Mat2::identity().multiply(&a), a);
}

#[test]
fn matrix_mul_rounds_toward_zero() {
    // 0.001 * 0.5 = 0.0005, which truncates to 0 on the grid; the negative
    // counterpart truncates to 0 as well, not to -0.001.
    let a = Mat2::new(1, 0, 0, -1);
    let b = Mat2::new(500, 0, 0, 500);
    let r = a.multiply(&b);
    assert_eq!(r, Mat2::new(0, 0, 0, 0));
}

#[test]
fn matrix_determinant() {
    // det([[2, 0], [0, 3]]) = 6 in real terms; raw scale is SCALE².
    let a = Mat2::new(2000, 0, 0, 3000);
    assert_eq!(a.det_raw(), 6_000_000);
}

#[test]
fn matrix_inverse_diagonal() {
    // inv(diag(2, 4)) = diag(0.5, 0.25).
    let a = Mat2::new(2000, 0, 0, 4000);
    let inv = a.inverse().unwrap();
    assert_eq!(inv, Mat2::new(500, 0, 0, 250));
}

#[test]
fn matrix_inverse_times_matrix_is_identity() {
    let a = Mat2::new(2000, 0, 0, 4000);
    let inv = a.inverse().unwrap();
    assert_eq!(a.multiply(&inv), Mat2::identity());
}

#[test]
fn matrix_inverse_singular() {
    let a = Mat2::new(1000, 2000, 2000, 4000);
    assert_eq!(a.inverse(), Err(MatrixError::Singular));
}

#[test]
fn vector_ops() {
    let a = Vec2::new(1000, 2000);
    let b = Vec2::new(300, -500);
    assert_eq!(a.add(&b), Vec2::new(1300, 1500));
    assert_eq!(a.sub(&b), Vec2::new(700, 2500));
    assert_eq!(Vec2::zeros(), Vec2::new(0, 0));
}

#[test]
fn vector_dot_product() {
    // (1, 2) . (3, 4) = 11 in real values.
    let a = Vec2::new(1000, 2000);
    let b = Vec2::new(3000, 4000);
    assert_eq!(a.dot(&b), 11000);
}

#[test]
fn vector_scaling() {
    // (1, 2) * 2 = (2, 4) in real values.
    let a = Vec2::new(1000, 2000);
    assert_eq!(a.scale(2000), Vec2::new(2000, 4000));
    // Truncation toward zero on the grid.
    assert_eq!(Vec2::new(1, -1).scale(500), Vec2::new(0, 0));
}

#[test]
fn matrix_vector_product() {
    // [[1, 2], [3, 4]] * (5, 6) = (17, 39) in real values.
    let a = Mat2::new(1000, 2000, 3000, 4000);
    let v = Vec2::new(5000, 6000);
    assert_eq!(a.mul_vec(&v), Vec2::new(17000, 39000));
}

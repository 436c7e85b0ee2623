use lane_detection::{LinearFit, LineParams, PixelPoint, RegressionError, fit_line};

fn pts(v: &[(i64, i64)]) -> Vec<PixelPoint> {
    v.iter().map(|&(x, y)| PixelPoint::new(x, y)).collect()
}

#[test]
fn fit_exact_line() {
    // Points exactly on y = 2x + 1.
    let p = pts(&[(0, 1), (1, 3), (2, 5)]);
    let lp = LinearFit::fit(&p).unwrap();
    // slope = m/d = 2, intercept = b/d = 1, exactly.
    assert_eq!(lp.m, 2 * lp.d);
    assert_eq!(lp.b, lp.d);
    assert!(lp.d > 0);
}

#[test]
fn fit_negative_slope() {
    // Points exactly on y = -x + 500.
    let p = pts(&[(100, 400), (200, 300), (300, 200)]);
    let lp = LinearFit::fit(&p).unwrap();
    assert_eq!(lp.m, -lp.d);
    assert_eq!(lp.b, 500 * lp.d);
}

#[test]
fn fit_empty_is_insufficient() {
    let p = pts(&[]);
    assert!(matches!(LinearFit::fit(&p), Err(RegressionError::InsufficientData)));
}

#[test]
fn fit_single_point_is_insufficient() {
    let p = pts(&[(5, 7)]);
    assert!(matches!(LinearFit::fit(&p), Err(RegressionError::InsufficientData)));
}

#[test]
fn fit_identical_x_is_zero_variance() {
    let p = pts(&[(4, 1), (4, 9), (4, -3)]);
    assert!(matches!(LinearFit::fit(&p), Err(RegressionError::ZeroVariance)));
}

#[test]
fn fit_residuals_sum_to_zero() {
    // A noisy point set: the residual sum, scaled by the common
    // denominator d, must vanish exactly: d*Σy - m*Σx - n*b == 0.
    let v: [(i64, i64); 5] = [(0, 1), (1, 3), (2, 6), (3, 6), (4, 10)];
    let p = pts(&v);
    let lp: LineParams = LinearFit::fit(&p).unwrap();
    let n = v.len() as i128;
    let sx: i128 = v.iter().map(|&(x, _)| x as i128).sum();
    let sy: i128 = v.iter().map(|&(_, y)| y as i128).sum();
    assert_eq!(lp.d * sy - lp.m * sx - n * lp.b, 0);
}

#[test]
fn line_through_two_points() {
    // Through (0, 1) and (2, 5): slope 2, intercept 1.
    let lp = LineParams::from_points(PixelPoint::new(0, 1), PixelPoint::new(2, 5)).unwrap();
    assert_eq!(lp.m, 2 * lp.d);
    assert_eq!(lp.b, lp.d);
    // The reversed point order gives the same line.
    let rev = LineParams::from_points(PixelPoint::new(2, 5), PixelPoint::new(0, 1)).unwrap();
    assert_eq!(rev.m, 2 * rev.d);
    assert_eq!(rev.b, rev.d);
    assert!(rev.d > 0);
}

#[test]
fn line_through_vertical_pair_is_none() {
    assert!(LineParams::from_points(PixelPoint::new(3, 1), PixelPoint::new(3, 9)).is_none());
}

#[test]
fn line_evaluation() {
    let lp = LineParams::from_slope_intercept(2, 1);
    assert_eq!(lp.y_at(3), 7);
    assert_eq!(lp.y_at(-3), -5);
    // Rational slope 3/2 through intercept 0: y(3) = 4.5 truncated to 4.
    let lp = LineParams { m: 3, b: 0, d: 2 };
    assert_eq!(lp.y_at(3), 4);
    assert_eq!(lp.y_at(-3), -4);
}

#[test]
fn fit_line_empty_inputs() {
    // An empty slice is just another under-two point set.
    let xs: Vec<i64> = vec![];
    let ys: Vec<i64> = vec![1, 2];
    assert!(matches!(fit_line(&xs, &ys), Err(RegressionError::InsufficientData)));
    assert!(matches!(fit_line(&ys, &xs), Err(RegressionError::InsufficientData)));
    let es: Vec<i64> = vec![];
    assert!(matches!(fit_line(&es, &es), Err(RegressionError::InsufficientData)));
}

#[test]
fn fit_line_dimension_mismatch() {
    let xs: Vec<i64> = vec![1, 2, 3];
    let ys: Vec<i64> = vec![1, 2];
    assert!(matches!(fit_line(&xs, &ys), Err(RegressionError::DimensionMismatch)));
}

#[test]
fn fit_line_insufficient() {
    let xs: Vec<i64> = vec![1];
    let ys: Vec<i64> = vec![2];
    assert!(matches!(fit_line(&xs, &ys), Err(RegressionError::InsufficientData)));
}

#[test]
fn fit_line_zero_variance() {
    let xs: Vec<i64> = vec![3, 3, 3];
    let ys: Vec<i64> = vec![1, 2, 3];
    assert!(matches!(fit_line(&xs, &ys), Err(RegressionError::ZeroVariance)));
}

#[test]
fn fit_line_matches_fit() {
    let xs: Vec<i64> = vec![0, 1, 2];
    let ys: Vec<i64> = vec![1, 3, 5];
    let a = fit_line(&xs, &ys).unwrap();
    let p = pts(&[(0, 1), (1, 3), (2, 5)]);
    let b = LinearFit::fit(&p).unwrap();
    assert_eq!(a, b);
}

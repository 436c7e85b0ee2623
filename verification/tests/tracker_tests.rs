use lane_detection::{LaneTracker, Mat2, TrackError, Vec2, FX_LIMIT};

fn unit_cov() -> Mat2 {
    Mat2::identity()
}

#[test]
fn tracker_new_valid() {
    let t = LaneTracker::new(Vec2::zeros(), unit_cov(), 100, 100);
    assert!(t.is_ok());
}

#[test]
fn tracker_new_negative_process_noise() {
    // processNoise = -0.1 in fixed point.
    let t = LaneTracker::new(Vec2::zeros(), unit_cov(), -100, 100);
    assert_eq!(t.unwrap_err(), TrackError::InvalidParameter);
}

#[test]
fn tracker_new_negative_measurement_noise() {
    let t = LaneTracker::new(Vec2::zeros(), unit_cov(), 100, -100);
    assert_eq!(t.unwrap_err(), TrackError::InvalidParameter);
}

#[test]
fn tracker_new_negative_covariance_diagonal() {
    let t = LaneTracker::new(Vec2::zeros(), Mat2::new(-1, 0, 0, 1000), 100, 100);
    assert_eq!(t.unwrap_err(), TrackError::InvalidParameter);
}

#[test]
fn tracker_new_asymmetric_covariance() {
    let t = LaneTracker::new(Vec2::zeros(), Mat2::new(1000, 200, 300, 1000), 100, 100);
    assert_eq!(t.unwrap_err(), TrackError::InvalidParameter);
}

#[test]
fn tracker_new_indefinite_covariance() {
    // Symmetric with a nonnegative diagonal but negative determinant.
    let t = LaneTracker::new(Vec2::zeros(), Mat2::new(1000, 2000, 2000, 1000), 100, 100);
    assert_eq!(t.unwrap_err(), TrackError::InvalidParameter);
}

#[test]
fn tracker_new_out_of_range_position() {
    let t = LaneTracker::new(Vec2::new(FX_LIMIT + 1, 0), unit_cov(), 100, 100);
    assert_eq!(t.unwrap_err(), TrackError::InvalidParameter);
}

#[test]
fn predict_zero_noise_zero_velocity_is_stationary() {
    let mut t = LaneTracker::new(Vec2::new(5000, 7000), unit_cov(), 0, 100).unwrap();
    for _ in 0..4 {
        t.predict();
    }
    assert_eq!(t.get_state(), Vec2::new(5000, 7000));
    assert_eq!(t.cov, unit_cov());
}

#[test]
fn predict_positive_noise_grows_covariance() {
    let mut t = LaneTracker::new(Vec2::zeros(), unit_cov(), 100, 100).unwrap();
    let mut last = t.cov.m00;
    for _ in 0..3 {
        t.predict();
        assert!(t.cov.m00 > last);
        assert!(t.cov.m11 > last);
        last = t.cov.m00;
    }
    assert_eq!(t.cov.m00, 1300);
    assert_eq!(t.get_state(), Vec2::zeros());
}

#[test]
fn predict_applies_velocity() {
    let mut t =
        LaneTracker::with_velocity(Vec2::zeros(), Vec2::new(10, -20), unit_cov(), 0, 100).unwrap();
    t.predict();
    t.predict();
    assert_eq!(t.get_state(), Vec2::new(20, -40));
    assert_eq!(t.get_velocity(), Vec2::new(10, -20));
}

#[test]
fn update_out_of_range_measurement() {
    let mut t = LaneTracker::new(Vec2::zeros(), unit_cov(), 100, 100).unwrap();
    let before = t.get_state();
    let r = t.update(Vec2::new(FX_LIMIT + 1, 0));
    assert_eq!(r.unwrap_err(), TrackError::InvalidMeasurement);
    assert_eq!(t.get_state(), before);
}

#[test]
fn update_singular_innovation() {
    // Zero covariance and zero measurement noise make S the zero matrix.
    let mut t = LaneTracker::new(Vec2::zeros(), Mat2::new(0, 0, 0, 0), 0, 0).unwrap();
    let r = t.update(Vec2::new(1000, 1000));
    assert_eq!(r.unwrap_err(), TrackError::SingularInnovation);
    assert_eq!(t.get_state(), Vec2::zeros());
}

#[test]
fn update_moves_estimate_toward_measurement() {
    let mut t = LaneTracker::new(Vec2::zeros(), unit_cov(), 100, 100).unwrap();
    t.predict();
    t.update(Vec2::new(1000, 1000)).unwrap();
    let s = t.get_state();
    assert!(0 < s.x && s.x < 1000);
    assert_eq!(s.x, s.y);
}

#[test]
fn tracker_converges_on_linear_trend() {
    // Measurements (1,1), (2,2), (3,3), (4,4), (5,5) with Q = R = 0.1: the
    // estimate follows the ramp and its error relative to the true value
    // strictly decreases from the third update on.
    let mut t = LaneTracker::new(Vec2::zeros(), unit_cov(), 100, 100).unwrap();
    let mut errs: Vec<i64> = Vec::new();
    for k in 1..=5i64 {
        let z = Vec2::new(1000 * k, 1000 * k);
        t.predict();
        t.update(z).unwrap();
        errs.push((z.x - t.get_state().x).abs());
    }
    // Known exact fixed-point trajectory.
    assert_eq!(errs, vec![84, 372, 519, 581, 608]);
    // Relative error err_k / k strictly decreasing after the third update.
    assert!(4 * errs[2] > 3 * errs[3]);
    assert!(5 * errs[3] > 4 * errs[4]);
    // The estimate stays within one pixel (1000 fixed-point units) of the
    // trend throughout.
    assert!(errs.iter().all(|&e| e < 1000));
}

#[test]
fn update_keeps_covariance_symmetric_psd() {
    // A correlated covariance whose exact gain is symmetric only because S
    // commutes with P; after the rounded, symmetrized update the stored
    // covariance is still symmetric with a nonnegative determinant.
    let cov = Mat2::new(2000, 1000, 1000, 501);
    let mut t = LaneTracker::new(Vec2::zeros(), cov, 0, 500).unwrap();
    t.update(Vec2::zeros()).unwrap();
    // The measurement equals the state, so the position stays put.
    assert_eq!(t.get_state(), Vec2::zeros());
    assert_eq!(t.cov, Mat2::new(333, 166, 166, 83));
    assert_eq!(t.cov.m10, t.cov.m01);
    let det = (t.cov.m00 as i128) * (t.cov.m11 as i128) - (t.cov.m01 as i128) * (t.cov.m10 as i128);
    assert!(det >= 0);
}

#[test]
fn get_state_does_not_mutate() {
    let t = LaneTracker::new(Vec2::new(42, 24), unit_cov(), 100, 100).unwrap();
    assert_eq!(t.get_state(), Vec2::new(42, 24));
    assert_eq!(t.get_state(), Vec2::new(42, 24));
    assert_eq!(t.get_velocity(), Vec2::zeros());
}

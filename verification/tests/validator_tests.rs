use lane_detection::{LaneEndpoints, LaneValidator, PixelPoint};

fn endpoints(near_x: i64, far_x: i64) -> LaneEndpoints {
    LaneEndpoints {
        near: PixelPoint::new(near_x, 480),
        far: PixelPoint::new(far_x, 288),
    }
}

#[test]
fn validate_ordered_pair() {
    // left near x 200, right near x 400, left far x 250, right far x 350.
    let left = Some(endpoints(200, 250));
    let right = Some(endpoints(400, 350));
    assert!(LaneValidator::validate(&left, &right));
}

#[test]
fn validate_swapped_pair() {
    let left = Some(endpoints(400, 350));
    let right = Some(endpoints(200, 250));
    assert!(!LaneValidator::validate(&left, &right));
}

#[test]
fn validate_missing_side() {
    let left = Some(endpoints(200, 250));
    assert!(!LaneValidator::validate(&left, &None));
    assert!(!LaneValidator::validate(&None, &Some(endpoints(400, 350))));
    assert!(!LaneValidator::validate(&None, &None));
}

#[test]
fn validate_crossed_pair() {
    // Ordered at the near level but crossed at the far level.
    let left = Some(endpoints(200, 360));
    let right = Some(endpoints(400, 350));
    assert!(!LaneValidator::validate(&left, &right));
}

#[test]
fn validate_touching_is_invalid() {
    // Strict ordering: equality at a level fails.
    let left = Some(endpoints(200, 250));
    let right = Some(endpoints(200, 350));
    assert!(!LaneValidator::validate(&left, &right));
}

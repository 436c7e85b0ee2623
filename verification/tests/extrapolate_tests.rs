use lane_detection::{LaneExtrapolator, LineParams};

#[test]
fn extrapolate_known_line() {
    // slope = -2, intercept = 1100, image height 480, horizon 3/5:
    // y_near = 480 -> x = (480 - 1100) / -2 = 310,
    // y_far = 288 -> x = (288 - 1100) / -2 = 406.
    let e = LaneExtrapolator::new(480);
    let p = LineParams::from_slope_intercept(-2, 1100);
    let ep = e.extrapolate(&p).unwrap();
    assert_eq!(ep.near.x, 310);
    assert_eq!(ep.near.y, 480);
    assert_eq!(ep.far.x, 406);
    assert_eq!(ep.far.y, 288);
}

#[test]
fn extrapolate_zero_slope_is_none() {
    let e = LaneExtrapolator::new(480);
    let p = LineParams::from_slope_intercept(0, 100);
    assert!(e.extrapolate(&p).is_none());
}

#[test]
fn extrapolate_out_of_range_is_none() {
    // A far-off intercept pushes x beyond the drawable range.
    let e = LaneExtrapolator::new(480);
    let p = LineParams::from_slope_intercept(1, -10000000);
    assert!(e.extrapolate(&p).is_none());
}

#[test]
fn extrapolate_custom_horizon() {
    // Horizon 1/2 of 480 is 240; line y = x has x == y everywhere.
    let e = LaneExtrapolator::with_horizon(480, 1, 2);
    let p = LineParams::from_slope_intercept(1, 0);
    let ep = e.extrapolate(&p).unwrap();
    assert_eq!(ep.near.x, 480);
    assert_eq!(ep.far.x, 240);
    assert_eq!(ep.far.y, 240);
}

#[test]
fn extrapolate_rational_params() {
    // slope 3/2, intercept -30/2: x = (y*2 + 30) / 3 at each level.
    let e = LaneExtrapolator::new(480);
    let p = LineParams { m: 3, b: -30, d: 2 };
    let ep = e.extrapolate(&p).unwrap();
    assert_eq!(ep.near.x, (480 * 2 + 30) / 3);
    assert_eq!(ep.far.x, (288 * 2 + 30) / 3);
}

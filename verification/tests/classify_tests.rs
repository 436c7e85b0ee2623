use lane_detection::{LineClassifier, PixelPoint, Segment};

#[test]
fn classify_splits_by_slope_and_side() {
    let c = LineClassifier::new(640);
    let segs = vec![
        // Left candidate: slope -1, midpoint on left half.
        Segment::new(100, 400, 200, 300),
        // Right candidate: slope +1, midpoint on right half.
        Segment::new(400, 240, 500, 340),
    ];
    let (left, right) = c.classify(&segs);
    assert_eq!(left, vec![PixelPoint::new(100, 400), PixelPoint::new(200, 300)]);
    assert_eq!(right, vec![PixelPoint::new(400, 240), PixelPoint::new(500, 340)]);
}

#[test]
fn classify_rejects_shallow_segments() {
    // |slope| = 0.3 < 0.5: never placed into either output set.
    let c = LineClassifier::new(640);
    let segs = vec![Segment::new(100, 100, 200, 130), Segment::new(400, 100, 500, 70)];
    let (left, right) = c.classify(&segs);
    assert!(left.is_empty());
    assert!(right.is_empty());
}

#[test]
fn classify_accepts_half_slope_boundary() {
    // |slope| exactly 0.5 meets the threshold.
    let c = LineClassifier::new(640);
    let segs = vec![Segment::new(100, 200, 300, 100)];
    let (left, right) = c.classify(&segs);
    assert_eq!(left.len(), 2);
    assert!(right.is_empty());
}

#[test]
fn classify_rejects_vertical_segments() {
    let c = LineClassifier::new(640);
    let segs = vec![Segment::new(100, 100, 100, 300)];
    let (left, right) = c.classify(&segs);
    assert!(left.is_empty());
    assert!(right.is_empty());
}

#[test]
fn classify_rejects_side_disagreement() {
    let c = LineClassifier::new(640);
    let segs = vec![
        // Negative slope but midpoint on the right half: discarded.
        Segment::new(400, 400, 500, 300),
        // Positive slope but midpoint on the left half: discarded.
        Segment::new(100, 100, 200, 200),
    ];
    let (left, right) = c.classify(&segs);
    assert!(left.is_empty());
    assert!(right.is_empty());
}

#[test]
fn classify_empty_input_is_valid() {
    let c = LineClassifier::new(640);
    let segs: Vec<Segment> = vec![];
    let (left, right) = c.classify(&segs);
    assert!(left.is_empty());
    assert!(right.is_empty());
}

#[test]
fn classify_custom_threshold() {
    // Threshold 2/1: a slope of 1 is now too shallow.
    let c = LineClassifier::with_threshold(640, 2, 1);
    let segs = vec![Segment::new(100, 400, 200, 300)];
    let (left, right) = c.classify(&segs);
    assert!(left.is_empty());
    assert!(right.is_empty());
    // A slope of -3 passes.
    let segs = vec![Segment::new(100, 400, 150, 250)];
    let (left, _right) = c.classify(&segs);
    assert_eq!(left.len(), 2);
}

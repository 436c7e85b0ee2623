use lane_detection::{LanePipeline, LaneSide, Segment, TrackError};

// Two well-separated clusters: the left boundary on y = -x + 500, the right
// on y = x - 160, in a 640x480 frame.
fn synthetic_segments() -> Vec<Segment> {
    vec![
        Segment::new(100, 400, 200, 300),
        Segment::new(150, 350, 250, 250),
        Segment::new(400, 240, 500, 340),
        Segment::new(450, 290, 550, 390),
    ]
}

#[test]
fn pipeline_rejects_negative_noise() {
    let p = LanePipeline::new(640, 480, -1, 100);
    assert!(matches!(p, Err(TrackError::InvalidParameter)));
    let p = LanePipeline::new(640, 480, 100, -1);
    assert!(matches!(p, Err(TrackError::InvalidParameter)));
}

#[test]
fn pipeline_end_to_end_detection() {
    let mut p = LanePipeline::new(640, 480, 100, 100).unwrap();
    let r = p.process_frame(&synthetic_segments());
    // Both sides present and geometrically sound.
    let left = r.left.unwrap();
    let right = r.right.unwrap();
    assert!(r.valid);
    // The fits are exact: left near x = (480-500)/-1 = 20, far x = 212;
    // right near x = 480+160 = 640, far x = 448.
    assert_eq!(left.near.x, 20);
    assert_eq!(left.far.x, 212);
    assert_eq!(right.near.x, 640);
    assert_eq!(right.far.x, 448);
    assert_eq!(left.near.y, 480);
    assert_eq!(left.far.y, 288);
}

#[test]
fn pipeline_predict_only_keeps_sides_present() {
    let mut p = LanePipeline::new(640, 480, 100, 100).unwrap();
    let first = p.process_frame(&synthetic_segments());
    assert!(first.valid);
    // Five frames with no detections at all: both sides stay present,
    // carried by prediction alone, and stay where the motion model (zero
    // velocity) puts them.
    let empty: Vec<Segment> = vec![];
    let mut last = first;
    for _ in 0..5 {
        last = p.process_frame(&empty);
        assert!(last.left.is_some());
        assert!(last.right.is_some());
        assert!(last.valid);
    }
    assert_eq!(last.left, first.left);
    assert_eq!(last.right, first.right);
}

#[test]
fn pipeline_no_detection_before_first_frame() {
    let mut p = LanePipeline::new(640, 480, 100, 100).unwrap();
    assert!(p.tracker(LaneSide::Left).is_none());
    assert!(p.tracker(LaneSide::Right).is_none());
    let empty: Vec<Segment> = vec![];
    let r = p.process_frame(&empty);
    assert!(r.left.is_none());
    assert!(r.right.is_none());
    assert!(!r.valid);
}

#[test]
fn pipeline_one_sided_detection_is_invalid_pair() {
    let mut p = LanePipeline::new(640, 480, 100, 100).unwrap();
    let segs = vec![Segment::new(100, 400, 200, 300), Segment::new(150, 350, 250, 250)];
    let r = p.process_frame(&segs);
    assert!(r.left.is_some());
    assert!(r.right.is_none());
    assert!(!r.valid);
}

#[test]
fn pipeline_tracks_across_frames() {
    let mut p = LanePipeline::new(640, 480, 100, 100).unwrap();
    let r1 = p.process_frame(&synthetic_segments());
    let r2 = p.process_frame(&synthetic_segments());
    // A second identical detection leaves the exact-fit positions in place.
    assert_eq!(r2.left, r1.left);
    assert_eq!(r2.right, r1.right);
    assert!(p.tracker(LaneSide::Left).is_some());
    assert!(p.tracker(LaneSide::Right).is_some());
}

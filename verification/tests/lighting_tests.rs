use lane_detection::{LightingClassifier, Mode, SCALE};

#[test]
fn lighting_default_threshold() {
    let c = LightingClassifier::new();
    assert_eq!(c.classify(81 * SCALE), Mode::Day);
    assert_eq!(c.classify(79 * SCALE), Mode::Night);
}

#[test]
fn lighting_threshold_is_strict() {
    // Exactly at the threshold means night: day needs strictly more.
    let c = LightingClassifier::new();
    assert_eq!(c.classify(80 * SCALE), Mode::Night);
    assert_eq!(c.classify(80 * SCALE + 1), Mode::Day);
}

#[test]
fn lighting_custom_threshold() {
    let c = LightingClassifier::with_threshold(120 * SCALE);
    assert_eq!(c.classify(119 * SCALE), Mode::Night);
    assert_eq!(c.classify(121 * SCALE), Mode::Day);
}

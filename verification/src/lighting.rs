//! Day/night classification of a frame from its mean brightness.
//!
//! The brightness statistic itself comes from the external pixel-statistics
//! collaborator; this module only takes the single-frame threshold decision.
//! Brightness and threshold are fixed-point values at `SCALE` thousandths of
//! a luma unit on the usual 0-255 scale. The decision has no hysteresis, so
//! it can flicker near the threshold; a caller wanting stability must add a
//! hysteresis band of its own.

use vstd::prelude::*;
use crate::matrix::SCALE;

verus! {

/// The lighting mode an external colour-filtering routine selects its
/// thresholds by.
#[derive(Clone, Copy, Debug, PartialEq, Eq, Structural)]
pub enum Mode {
    Day,
    Night,
}

/// Maps a scalar brightness statistic to `Day` or `Night` by a strict
/// threshold comparison.
pub struct LightingClassifier {
    /// Brightness threshold in fixed-point luma; strictly above means day.
    pub threshold: i64,
}

impl LightingClassifier {
    /// A classifier with the default threshold of 80 luma units.
    pub fn new() -> (c: LightingClassifier)
        ensures
            c.threshold == 80 * SCALE,
    {
        LightingClassifier { threshold: 80 * SCALE }
    }

    /// A classifier with an explicit fixed-point threshold.
    pub fn with_threshold(threshold: i64) -> (c: LightingClassifier)
        ensures
            c.threshold == threshold,
    {
        LightingClassifier { threshold }
    }

    /// `Day` exactly when the mean brightness is strictly above the
    /// threshold, `Night` otherwise; a pure single-frame decision.
    pub fn classify(&self, mean_brightness: i64) -> (m: Mode)
        ensures
            m == (if mean_brightness > self.threshold {
                Mode::Day
            } else {
                Mode::Night
            }),
    {
        if mean_brightness > self.threshold {
            Mode::Day
        } else {
            Mode::Night
        }
    }
}

} // verus!

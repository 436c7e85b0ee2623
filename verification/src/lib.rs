//! Lane-boundary estimation from raw line-segment detections.
//!
//! Per video frame, raw straight-line segments from an external detector are
//! classified into left/right lane-boundary candidates, fitted to a line by
//! least squares, extrapolated to drawable endpoints at two fixed vertical
//! levels, smoothed across frames by a two-dimensional Kalman filter, and
//! checked for geometric sanity. All quantities are exact integers: pixel
//! coordinates are plain integers, fitted lines are rationals over a common
//! denominator, and the tracker works in fixed-point arithmetic with a
//! decimal scale. Upstream pixel work (colour filtering, edge extraction,
//! Hough transform, display) is a collaborator that feeds segments in and
//! takes endpoints out; it is not part of this crate.

pub mod geometry;
pub mod regression;
pub mod classify;
pub mod extrapolate;
pub mod matrix;
pub mod tracker;
pub mod lighting;
pub mod validate;
pub mod pipeline;
pub mod error;

pub use geometry::{PixelPoint, Segment, COORD_LIMIT, MAX_POINTS, X_LIMIT};
pub use regression::{LinearFit, LineParams, RegressionError, PARAM_LIMIT, fit_line};
pub use classify::LineClassifier;
pub use extrapolate::{LaneExtrapolator, LaneEndpoints};
pub use matrix::{Vec2, Mat2, MatrixError, SCALE, FX_LIMIT};
pub use tracker::{LaneTracker, TrackError, GAIN_LIMIT, INV_LIMIT};
pub use lighting::{LightingClassifier, Mode};
pub use validate::LaneValidator;
pub use pipeline::{LanePipeline, LaneResult, LaneSide, MAX_SEGMENTS};
pub use error::Error;

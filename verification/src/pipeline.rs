//! The per-frame lane estimation pipeline: classify, fit, extrapolate,
//! track, validate.
//!
//! The pipeline owns one tracker per lane side. A side's tracker is created
//! on the first frame with an accepted detection, with the measurement as
//! the initial position and a unit initial covariance; from then on it is
//! predicted every frame and updated whenever the side has a usable
//! measurement, so a side survives frames without detections on prediction
//! alone. An empty segment list is a valid frame, never an error.

use vstd::prelude::*;
use crate::geometry::{PixelPoint, Segment, COORD_LIMIT, X_LIMIT, abs_int, div_trunc};
use crate::regression::{LinearFit, all_in_range, sxx_of, fit_m, fit_b, fit_d};
use crate::classify::{LineClassifier, left_points, right_points, all_segs_in_range,
    lemma_side_points_len, lemma_side_points_in_range};
use crate::extrapolate::{LaneExtrapolator, LaneEndpoints};
use crate::matrix::{Vec2, Mat2, SCALE, FX_LIMIT, qv, qm, v_bounded};
use crate::tracker::{LaneTracker, TrackError};
use crate::validate::{LaneValidator, lanes_valid};

verus! {

/// Largest number of segments one frame may carry; each contributes at most
/// two points to a side, keeping the fit within its point budget.
pub const MAX_SEGMENTS: usize = 16384;

/// One of the two lane boundaries.
#[derive(Clone, Copy, Debug, PartialEq, Eq, Structural)]
pub enum LaneSide {
    Left,
    Right,
}

/// The per-frame output: the drawable endpoints of each side that is
/// currently tracked, and the validator's verdict on the pair.
#[derive(Clone, Copy, Debug, PartialEq, Eq, Structural)]
pub struct LaneResult {
    pub left: Option<LaneEndpoints>,
    pub right: Option<LaneEndpoints>,
    pub valid: bool,
}

/// The whole per-frame pipeline with its persistent tracker pair.
pub struct LanePipeline {
    /// Segment partitioning stage.
    pub classifier: LineClassifier,
    /// Line-to-endpoints stage; also fixes the two tracked vertical levels.
    pub extrapolator: LaneExtrapolator,
    /// Tracker for the left boundary, created on its first detection.
    pub left: Option<LaneTracker>,
    /// Tracker for the right boundary, created on its first detection.
    pub right: Option<LaneTracker>,
    /// Process noise handed to newly created trackers.
    pub process_noise: i64,
    /// Measurement noise handed to newly created trackers.
    pub measurement_noise: i64,
}

/// The measurement a side's candidate points yield: the fitted line's x at
/// the two levels, in fixed point. `None` when there are too few points,
/// their x variance is zero, the fitted slope is zero, or an extrapolated x
/// leaves the drawable range.
pub open spec fn meas_from_points(pts: Seq<PixelPoint>, e: LaneExtrapolator) -> Option<Vec2> {
    if pts.len() < 2 || sxx_of(pts) == 0 {
        None
    } else {
        let m = fit_m(pts);
        let b = fit_b(pts);
        let d = fit_d(pts);
        if m == 0 {
            None
        } else {
            let xn = div_trunc(e.y_near() * d - b, m);
            let xf = div_trunc(e.y_far() * d - b, m);
            if abs_int(xn) > X_LIMIT || abs_int(xf) > X_LIMIT {
                None
            } else {
                Some(Vec2 { x: (xn * SCALE) as i64, y: (xf * SCALE) as i64 })
            }
        }
    }
}

/// What one frame does to a side's tracker: create it on the first
/// measurement, otherwise predict and, when a measurement arrived and the
/// update is usable, fold it in; a failed update keeps the prediction.
pub open spec fn step_tracker_spec(t: Option<LaneTracker>, meas: Option<Vec2>, q: i64, r: i64) -> Option<
    LaneTracker,
> {
    match t {
        None => match meas {
            None => None,
            Some(z) => Some(
                LaneTracker {
                    pos: z,
                    vel: Vec2 { x: 0, y: 0 },
                    cov: Mat2 { m00: SCALE, m01: 0, m10: 0, m11: SCALE },
                    q,
                    r,
                },
            ),
        },
        Some(tr) => {
            let p = LaneTracker::predict_step(tr);
            match meas {
                None => Some(p),
                Some(z) => if LaneTracker::update_usable(p, z) {
                    Some(
                        LaneTracker {
                            pos: Vec2 {
                                x: LaneTracker::updated_pos(p, z).0 as i64,
                                y: LaneTracker::updated_pos(p, z).1 as i64,
                            },
                            vel: p.vel,
                            cov: Mat2 {
                                m00: LaneTracker::updated_cov(p).0 as i64,
                                m01: LaneTracker::updated_cov(p).1 as i64,
                                m10: LaneTracker::updated_cov(p).2 as i64,
                                m11: LaneTracker::updated_cov(p).3 as i64,
                            },
                            q: p.q,
                            r: p.r,
                        },
                    )
                } else {
                    Some(p)
                },
            }
        },
    }
}

/// The drawable endpoints a side's tracker yields: its fixed-point positions
/// rounded back to pixels, at the two vertical levels.
pub open spec fn endpoints_of_tracker(t: Option<LaneTracker>, y_near: int, y_far: int) -> Option<
    LaneEndpoints,
> {
    match t {
        None => None,
        Some(tr) => Some(
            LaneEndpoints {
                near: PixelPoint { x: div_trunc(tr.pos.x as int, SCALE as int) as i64, y: y_near as i64 },
                far: PixelPoint { x: div_trunc(tr.pos.y as int, SCALE as int) as i64, y: y_far as i64 },
            },
        ),
    }
}

impl LanePipeline {
    /// Everything the frame loop relies on: both stages well formed, the
    /// noises in range, and any existing tracker well formed.
    pub open spec fn wf(self) -> bool {
        &&& self.classifier.wf()
        &&& self.extrapolator.wf()
        &&& 0 <= self.process_noise <= FX_LIMIT
        &&& 0 <= self.measurement_noise <= FX_LIMIT
        &&& (self.left matches Some(t) ==> t.wf())
        &&& (self.right matches Some(t) ==> t.wf())
    }

    /// The measurement the left side's points yield this frame.
    pub open spec fn left_meas(self, segs: Seq<Segment>) -> Option<Vec2> {
        meas_from_points(
            left_points(
                segs,
                self.classifier.frame_width as int,
                self.classifier.slope_min_num as int,
                self.classifier.slope_min_den as int,
            ),
            self.extrapolator,
        )
    }

    /// The measurement the right side's points yield this frame.
    pub open spec fn right_meas(self, segs: Seq<Segment>) -> Option<Vec2> {
        meas_from_points(
            right_points(
                segs,
                self.classifier.frame_width as int,
                self.classifier.slope_min_num as int,
                self.classifier.slope_min_den as int,
            ),
            self.extrapolator,
        )
    }

    /// A pipeline with default thresholds for a frame of the given size;
    /// fails with `InvalidParameter` exactly when a noise lies outside the
    /// representable nonnegative range. No tracker exists yet.
    pub fn new(
        frame_width: i64,
        image_height: i64,
        process_noise: i64,
        measurement_noise: i64,
    ) -> (r: Result<LanePipeline, TrackError>)
        requires
            0 < frame_width <= 2 * COORD_LIMIT,
            0 < image_height <= COORD_LIMIT,
        ensures
            (0 <= process_noise <= FX_LIMIT && 0 <= measurement_noise <= FX_LIMIT) <==> r is Ok,
            r matches Ok(p) ==> p.wf() && p.left is None && p.right is None
                && p.classifier.frame_width == frame_width && p.classifier.slope_min_num == 1
                && p.classifier.slope_min_den == 2 && p.extrapolator.image_height == image_height
                && p.extrapolator.horizon_num == 3 && p.extrapolator.horizon_den == 5
                && p.process_noise == process_noise && p.measurement_noise == measurement_noise,
            r is Err ==> r == Err::<LanePipeline, TrackError>(TrackError::InvalidParameter),
    {
        if process_noise < 0 || process_noise > FX_LIMIT || measurement_noise < 0
            || measurement_noise > FX_LIMIT {
            return Err(TrackError::InvalidParameter);
        }
        Ok(
            LanePipeline {
                classifier: LineClassifier::new(frame_width),
                extrapolator: LaneExtrapolator::new(image_height),
                left: None,
                right: None,
                process_noise,
                measurement_noise,
            },
        )
    }

    /// The tracker of one side, if that side has been detected yet.
    pub fn tracker(&self, side: LaneSide) -> (r: &Option<LaneTracker>)
        ensures
            side == LaneSide::Left ==> r == &self.left,
            side == LaneSide::Right ==> r == &self.right,
    {
        match side {
            LaneSide::Left => &self.left,
            LaneSide::Right => &self.right,
        }
    }

    /// Runs one frame: classifies the segments, fits and extrapolates each
    /// side into a measurement, advances the side's tracker (creating it on
    /// the first detection), reads the tracked endpoints back and validates
    /// the pair. The returned endpoints come from the trackers, so a side
    /// stays present through detection dropouts once it has been seen.
    pub fn process_frame(&mut self, segments: &Vec<Segment>) -> (r: LaneResult)
        requires
            old(self).wf(),
            all_segs_in_range(segments@),
            segments@.len() <= MAX_SEGMENTS,
        ensures
            final(self).wf(),
            final(self).classifier == old(self).classifier,
            final(self).extrapolator == old(self).extrapolator,
            final(self).process_noise == old(self).process_noise,
            final(self).measurement_noise == old(self).measurement_noise,
            final(self).left == step_tracker_spec(
                old(self).left,
                old(self).left_meas(segments@),
                old(self).process_noise,
                old(self).measurement_noise,
            ),
            final(self).right == step_tracker_spec(
                old(self).right,
                old(self).right_meas(segments@),
                old(self).process_noise,
                old(self).measurement_noise,
            ),
            r.left == endpoints_of_tracker(
                final(self).left,
                old(self).extrapolator.y_near(),
                old(self).extrapolator.y_far(),
            ),
            r.right == endpoints_of_tracker(
                final(self).right,
                old(self).extrapolator.y_near(),
                old(self).extrapolator.y_far(),
            ),
            r.valid == lanes_valid(r.left, r.right),
    {
        let (lpts, rpts) = self.classifier.classify(segments);
        proof {
            let w = self.classifier.frame_width as int;
            let num = self.classifier.slope_min_num as int;
            let den = self.classifier.slope_min_den as int;
            lemma_side_points_len(segments@, w, num, den);
            lemma_side_points_in_range(segments@, w, num, den);
        }
        let left_meas = self.measure(&lpts);
        let right_meas = self.measure(&rpts);
        let new_left = Self::step_tracker(
            self.left,
            left_meas,
            self.process_noise,
            self.measurement_noise,
        );
        let new_right = Self::step_tracker(
            self.right,
            right_meas,
            self.process_noise,
            self.measurement_noise,
        );
        self.left = new_left;
        self.right = new_right;
        let y_near = self.extrapolator.image_height;
        let y_far = self.extrapolator.far_level();
        let left_out = Self::endpoints_for(&self.left, y_near, y_far);
        let right_out = Self::endpoints_for(&self.right, y_near, y_far);
        let valid = LaneValidator::validate(&left_out, &right_out);
        LaneResult { left: left_out, right: right_out, valid }
    }

    /// Fits one side's candidate points and extrapolates them into this
    /// frame's measurement, if the side has a usable detection.
    fn measure(&self, pts: &Vec<PixelPoint>) -> (r: Option<Vec2>)
        requires
            self.extrapolator.wf(),
            all_in_range(pts@),
            pts@.len() <= crate::geometry::MAX_POINTS,
        ensures
            r == meas_from_points(pts@, self.extrapolator),
            r matches Some(v) ==> v_bounded(qv(v), 1073741824),
    {
        match LinearFit::fit(pts) {
            Err(_) => None,
            Ok(p) => match self.extrapolator.extrapolate(&p) {
                None => None,
                Some(ep) => Some(Vec2 { x: ep.near.x * SCALE, y: ep.far.x * SCALE }),
            },
        }
    }

    /// Advances one side's tracker by this frame's measurement.
    fn step_tracker(t: Option<LaneTracker>, meas: Option<Vec2>, q: i64, r: i64) -> (res: Option<
        LaneTracker,
    >)
        requires
            t matches Some(tr) ==> tr.wf(),
            0 <= q <= FX_LIMIT,
            0 <= r <= FX_LIMIT,
            meas matches Some(z) ==> v_bounded(qv(z), FX_LIMIT as int),
        ensures
            res == step_tracker_spec(t, meas, q, r),
            res matches Some(tr) ==> tr.wf(),
    {
        match t {
            None => match meas {
                None => None,
                Some(z) => match LaneTracker::new(z, Mat2::identity(), q, r) {
                    Ok(tr) => Some(tr),
                    Err(_) => {
                        proof {
                            assert(false);
                        }
                        None
                    },
                },
            },
            Some(tr) => {
                let mut tr = tr;
                tr.predict();
                match meas {
                    None => Some(tr),
                    Some(z) => {
                        let _ = tr.update(z);
                        Some(tr)
                    },
                }
            },
        }
    }

    /// Reads one side's tracked endpoints back into pixel space.
    fn endpoints_for(t: &Option<LaneTracker>, y_near: i64, y_far: i64) -> (r: Option<LaneEndpoints>)
        requires
            t matches Some(tr) ==> tr.wf(),
        ensures
            r == endpoints_of_tracker(*t, y_near as int, y_far as int),
    {
        match t {
            None => None,
            Some(tr) => {
                let nx = Self::fx_to_pixel(tr.pos.x);
                let fx = Self::fx_to_pixel(tr.pos.y);
                Some(
                    LaneEndpoints {
                        near: PixelPoint { x: nx, y: y_near },
                        far: PixelPoint { x: fx, y: y_far },
                    },
                )
            },
        }
    }

    /// One fixed-point value back to whole pixels, truncating toward zero.
    fn fx_to_pixel(a: i64) -> (r: i64)
        requires
            -FX_LIMIT <= a <= FX_LIMIT,
        ensures
            r == div_trunc(a as int, SCALE as int),
    {
        if a < 0 {
            -((-a) / SCALE)
        } else {
            a / SCALE
        }
    }
}

} // verus!

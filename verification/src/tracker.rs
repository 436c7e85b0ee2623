//! Per-side Kalman filter smoothing the two lane parameters across frames.
//!
//! The tracked state vector holds the lane boundary's x positions at the two
//! fixed vertical levels (near x, far x), in fixed-point pixels; this one
//! convention is used by prediction, update and readout alike. The state
//! transition is the identity plus a configurable constant velocity, the
//! measurement model is the identity (the position is observed directly),
//! and process and measurement noise are isotropic diagonal matrices.
//! Prediction never fails and carries a side through frames without a
//! detection; an update that cannot be applied (singular or numerically
//! unusable innovation) leaves the predicted state standing and reports a
//! recoverable error.

use vstd::prelude::*;
use crate::geometry::{abs_int, lemma_abs_mul_bound};
use crate::matrix::{Vec2, Mat2, MatrixError, SCALE, FX_LIMIT, qm, qv, q_bounded, v_bounded, qadd,
    qsub, vadd, vsub, qdet, qmul_fx, mv_mul_fx, qinv_fx, q_identity};

verus! {

/// Magnitude bound the Kalman gain must meet for an update to be applied;
/// one scale unit below the product range so the identity-minus-gain matrix
/// stays multipliable.
pub const GAIN_LIMIT: i64 = 4294966296;

/// Magnitude bound on the rounded innovation-covariance inverse.
pub const INV_LIMIT: i64 = 4294967296;

/// Why a tracker operation was refused.
#[derive(Clone, Copy, Debug, PartialEq, Eq, Structural)]
pub enum TrackError {
    /// Construction input negative where a noise or covariance must not be,
    /// or out of the representable range.
    InvalidParameter,
    /// A measurement component outside the representable range, the integer
    /// counterpart of a non-finite value.
    InvalidMeasurement,
    /// The innovation covariance cannot be inverted (or the update's
    /// arithmetic leaves the representable range); the predicted state is
    /// kept and the update skipped.
    SingularInnovation,
}

/// One lane side's Kalman filter state.
#[derive(Clone, Copy, Debug, PartialEq, Eq, Structural)]
pub struct LaneTracker {
    /// Tracked lane parameters: x position at the near and far vertical
    /// levels, fixed-point pixels.
    pub pos: Vec2,
    /// Constant per-frame drift added by prediction; zero unless configured.
    pub vel: Vec2,
    /// Error covariance of the tracked position.
    pub cov: Mat2,
    /// Isotropic process noise added to the covariance diagonal on predict.
    pub q: i64,
    /// Isotropic measurement noise added to the covariance diagonal in the
    /// innovation.
    pub r: i64,
}

/// Clamp to the representable fixed-point range.
pub open spec fn clamp_fx(a: int) -> int {
    if a > FX_LIMIT {
        FX_LIMIT as int
    } else if a < -FX_LIMIT {
        -FX_LIMIT as int
    } else {
        a
    }
}

/// Cap from above only; covariance diagonals never need the lower clamp.
pub open spec fn cap_fx(a: int) -> int {
    if a > FX_LIMIT {
        FX_LIMIT as int
    } else {
        a
    }
}

impl LaneTracker {
    /// The tracker's invariant: everything within the fixed-point range,
    /// noises nonnegative, and the covariance symmetric positive
    /// semi-definite (for a symmetric 2x2 matrix: diagonal and determinant
    /// nonnegative), established at construction and kept across steps.
    pub open spec fn wf(self) -> bool {
        &&& v_bounded(qv(self.pos), FX_LIMIT as int)
        &&& v_bounded(qv(self.vel), FX_LIMIT as int)
        &&& q_bounded(qm(self.cov), FX_LIMIT as int)
        &&& self.cov.m10 == self.cov.m01
        &&& self.cov.m00 >= 0
        &&& self.cov.m11 >= 0
        &&& self.cov.m00 * self.cov.m11 - self.cov.m01 * self.cov.m01 >= 0
        &&& 0 <= self.q <= FX_LIMIT
        &&& 0 <= self.r <= FX_LIMIT
    }

    /// Construction inputs acceptable: noises nonnegative, the covariance
    /// symmetric positive semi-definite, and every component representable.
    pub open spec fn params_ok(
        position: Vec2,
        covariance: Mat2,
        process_noise: i64,
        measurement_noise: i64,
    ) -> bool {
        &&& v_bounded(qv(position), FX_LIMIT as int)
        &&& q_bounded(qm(covariance), FX_LIMIT as int)
        &&& covariance.m10 == covariance.m01
        &&& covariance.m00 >= 0
        &&& covariance.m11 >= 0
        &&& covariance.m00 * covariance.m11 - covariance.m01 * covariance.m01 >= 0
        &&& 0 <= process_noise <= FX_LIMIT
        &&& 0 <= measurement_noise <= FX_LIMIT
    }

    /// A tracker from an initial state; fails with `InvalidParameter`
    /// exactly when a noise is negative, the covariance is asymmetric or
    /// not positive semi-definite, or a component lies outside the
    /// representable range. The velocity model starts at zero.
    pub fn new(
        initial_position: Vec2,
        initial_covariance: Mat2,
        process_noise: i64,
        measurement_noise: i64,
    ) -> (r: Result<LaneTracker, TrackError>)
        ensures
            Self::params_ok(initial_position, initial_covariance, process_noise, measurement_noise)
                <==> r is Ok,
            r matches Ok(t) ==> t == (LaneTracker {
                pos: initial_position,
                vel: Vec2 { x: 0, y: 0 },
                cov: initial_covariance,
                q: process_noise,
                r: measurement_noise,
            }) && t.wf(),
            r is Err ==> r == Err::<LaneTracker, TrackError>(TrackError::InvalidParameter),
    {
        Self::with_velocity(
            initial_position,
            Vec2 { x: 0, y: 0 },
            initial_covariance,
            process_noise,
            measurement_noise,
        )
    }

    /// A tracker with a configured constant velocity model.
    pub fn with_velocity(
        initial_position: Vec2,
        velocity: Vec2,
        initial_covariance: Mat2,
        process_noise: i64,
        measurement_noise: i64,
    ) -> (r: Result<LaneTracker, TrackError>)
        ensures
            (Self::params_ok(
                initial_position,
                initial_covariance,
                process_noise,
                measurement_noise,
            ) && v_bounded(qv(velocity), FX_LIMIT as int)) <==> r is Ok,
            r matches Ok(t) ==> t == (LaneTracker {
                pos: initial_position,
                vel: velocity,
                cov: initial_covariance,
                q: process_noise,
                r: measurement_noise,
            }) && t.wf(),
            r is Err ==> r == Err::<LaneTracker, TrackError>(TrackError::InvalidParameter),
    {
        if initial_position.x < -FX_LIMIT || initial_position.x > FX_LIMIT
            || initial_position.y < -FX_LIMIT || initial_position.y > FX_LIMIT {
            return Err(TrackError::InvalidParameter);
        }
        if velocity.x < -FX_LIMIT || velocity.x > FX_LIMIT || velocity.y < -FX_LIMIT
            || velocity.y > FX_LIMIT {
            return Err(TrackError::InvalidParameter);
        }
        if initial_covariance.m00 < 0 || initial_covariance.m11 < 0 {
            return Err(TrackError::InvalidParameter);
        }
        if initial_covariance.m00 > FX_LIMIT || initial_covariance.m01 < -FX_LIMIT
            || initial_covariance.m01 > FX_LIMIT || initial_covariance.m10 < -FX_LIMIT
            || initial_covariance.m10 > FX_LIMIT || initial_covariance.m11 > FX_LIMIT {
            return Err(TrackError::InvalidParameter);
        }
        if initial_covariance.m10 != initial_covariance.m01 {
            return Err(TrackError::InvalidParameter);
        }
        proof {
            lemma_abs_mul_bound(initial_covariance.m00 as int, initial_covariance.m11 as int,
                2147483648, 2147483648);
            lemma_abs_mul_bound(initial_covariance.m01 as int, initial_covariance.m01 as int,
                2147483648, 2147483648);
        }
        if (initial_covariance.m00 as i128) * (initial_covariance.m11 as i128)
            - (initial_covariance.m01 as i128) * (initial_covariance.m01 as i128) < 0 {
            return Err(TrackError::InvalidParameter);
        }
        if process_noise < 0 || process_noise > FX_LIMIT || measurement_noise < 0
            || measurement_noise > FX_LIMIT {
            return Err(TrackError::InvalidParameter);
        }
        Ok(
            LaneTracker {
                pos: initial_position,
                vel: velocity,
                cov: initial_covariance,
                q: process_noise,
                r: measurement_noise,
            },
        )
    }

    /// The state one prediction produces: position advanced by the velocity
    /// model, covariance diagonal grown by the process noise, both saturated
    /// at the representable range.
    pub open spec fn predict_step(t: LaneTracker) -> LaneTracker {
        LaneTracker {
            pos: Vec2 {
                x: clamp_fx(t.pos.x + t.vel.x) as i64,
                y: clamp_fx(t.pos.y + t.vel.y) as i64,
            },
            vel: t.vel,
            cov: Mat2 {
                m00: cap_fx(t.cov.m00 + t.q) as i64,
                m01: t.cov.m01,
                m10: t.cov.m10,
                m11: cap_fx(t.cov.m11 + t.q) as i64,
            },
            q: t.q,
            r: t.r,
        }
    }

    /// The state after `n` predictions.
    pub open spec fn predict_iter(t: LaneTracker, n: nat) -> LaneTracker
        decreases n,
    {
        if n == 0 {
            t
        } else {
            Self::predict_step(Self::predict_iter(t, (n - 1) as nat))
        }
    }

    /// Advances the state by the transition model: `position += velocity`,
    /// `covariance += Q` on the diagonal (`F = I`, `Q = q*I`), saturating at
    /// the representable range. Called once per frame before any update,
    /// also when the side has no measurement; it never fails.
    pub fn predict(&mut self)
        requires
            old(self).wf(),
        ensures
            *final(self) == Self::predict_step(*old(self)),
            final(self).wf(),
    {
        proof {
            lemma_predict_step_preserves_wf(*self);
        }
        let px = self.pos.x + self.vel.x;
        let py = self.pos.y + self.vel.y;
        self.pos = Vec2 { x: Self::clamp_to_range(px), y: Self::clamp_to_range(py) };
        let c00 = self.cov.m00 + self.q;
        let c11 = self.cov.m11 + self.q;
        self.cov = Mat2 {
            m00: Self::cap_to_range(c00),
            m01: self.cov.m01,
            m10: self.cov.m10,
            m11: Self::cap_to_range(c11),
        };
    }

    /// Saturating clamp into the fixed-point range.
    fn clamp_to_range(a: i64) -> (r: i64)
        ensures
            r == clamp_fx(a as int),
    {
        if a > FX_LIMIT {
            FX_LIMIT
        } else if a < -FX_LIMIT {
            -FX_LIMIT
        } else {
            a
        }
    }

    /// Saturating cap from above.
    fn cap_to_range(a: i64) -> (r: i64)
        ensures
            r == cap_fx(a as int),
    {
        if a > FX_LIMIT {
            FX_LIMIT
        } else {
            a
        }
    }

    /// The innovation covariance `S = P + R` with `R = r*I`; exact.
    pub open spec fn innov_cov(t: LaneTracker) -> (int, int, int, int) {
        qadd(qm(t.cov), (t.r as int, 0int, 0int, t.r as int))
    }

    /// The Kalman gain `K = P * S⁻¹` in fixed point, each entry rounded.
    /// For a symmetric covariance and isotropic noise the exact gain is
    /// symmetric (`S = P + r*I` commutes with `P`); the rounded product is
    /// symmetrized explicitly, reusing the first off-diagonal entry, so
    /// rounding cannot introduce asymmetry.
    pub open spec fn gain_of(t: LaneTracker) -> (int, int, int, int) {
        let g = qmul_fx(qm(t.cov), qinv_fx(Self::innov_cov(t)));
        (g.0, g.1, g.1, g.3)
    }

    /// The updated position `x + K*(z - x)`.
    pub open spec fn updated_pos(t: LaneTracker, z: Vec2) -> (int, int) {
        vadd(qv(t.pos), mv_mul_fx(Self::gain_of(t), vsub(qv(z), qv(t.pos))))
    }

    /// The updated covariance `(I - K) * P`, symmetrized the same way: the
    /// exact product is symmetric because `K` commutes with `P`, and the
    /// rounded one reuses its first off-diagonal entry.
    pub open spec fn updated_cov(t: LaneTracker) -> (int, int, int, int) {
        let c = qmul_fx(qsub(q_identity(), Self::gain_of(t)), qm(t.cov));
        (c.0, c.1, c.1, c.3)
    }

    /// The update can be applied: the innovation covariance is invertible
    /// and every intermediate and result stays in its range, with the new
    /// covariance still positive semi-definite (diagonal and determinant
    /// nonnegative).
    pub open spec fn update_usable(t: LaneTracker, z: Vec2) -> bool {
        &&& qdet(Self::innov_cov(t)) != 0
        &&& q_bounded(qinv_fx(Self::innov_cov(t)), INV_LIMIT as int)
        &&& q_bounded(Self::gain_of(t), GAIN_LIMIT as int)
        &&& v_bounded(Self::updated_pos(t, z), FX_LIMIT as int)
        &&& q_bounded(Self::updated_cov(t), FX_LIMIT as int)
        &&& Self::updated_cov(t).0 >= 0
        &&& Self::updated_cov(t).3 >= 0
        &&& Self::updated_cov(t).0 * Self::updated_cov(t).3 - Self::updated_cov(t).1
            * Self::updated_cov(t).2 >= 0
    }

    /// Folds a measurement into the state by the standard update: innovation
    /// `z - x`, innovation covariance `S = P + R`, gain `K = P*S⁻¹`, then
    /// `x += K*(z - x)` and `P = (I - K)*P`. Gain and new covariance are
    /// symmetrized after rounding, and the update is applied only if the new
    /// covariance is still positive semi-definite, so the covariance
    /// invariant survives every successful update. Fails with
    /// `InvalidMeasurement` exactly when a measurement component is outside
    /// the representable range, and with `SingularInnovation` exactly when
    /// `S` is not invertible or the update's arithmetic leaves its range or
    /// would break the invariant; either failure keeps the state unchanged
    /// and is recoverable.
    pub fn update(&mut self, measurement: Vec2) -> (r: Result<(), TrackError>)
        requires
            old(self).wf(),
        ensures
            !v_bounded(qv(measurement), FX_LIMIT as int) ==> r == Err::<(), TrackError>(
                TrackError::InvalidMeasurement,
            ) && *final(self) == *old(self),
            v_bounded(qv(measurement), FX_LIMIT as int) && !Self::update_usable(
                *old(self),
                measurement,
            ) ==> r == Err::<(), TrackError>(TrackError::SingularInnovation) && *final(self)
                == *old(self),
            v_bounded(qv(measurement), FX_LIMIT as int) && Self::update_usable(
                *old(self),
                measurement,
            ) ==> r is Ok && qv(final(self).pos) == Self::updated_pos(*old(self), measurement)
                && qm(final(self).cov) == Self::updated_cov(*old(self)) && final(self).vel
                == old(self).vel && final(self).q == old(self).q && final(self).r == old(self).r,
            final(self).wf(),
    {
        if measurement.x < -FX_LIMIT || measurement.x > FX_LIMIT || measurement.y < -FX_LIMIT
            || measurement.y > FX_LIMIT {
            return Err(TrackError::InvalidMeasurement);
        }
        let s = self.cov.add(&Mat2::diagonal(self.r));
        let det = s.det_raw();
        if det == 0 {
            return Err(TrackError::SingularInnovation);
        }
        let inv = match s.inverse() {
            Ok(m) => m,
            Err(MatrixError::Singular) => {
                proof {
                    assert(false);
                }
                return Err(TrackError::SingularInnovation);
            },
        };
        if inv.m00 < -INV_LIMIT || inv.m00 > INV_LIMIT || inv.m01 < -INV_LIMIT || inv.m01
            > INV_LIMIT || inv.m10 < -INV_LIMIT || inv.m10 > INV_LIMIT || inv.m11 < -INV_LIMIT
            || inv.m11 > INV_LIMIT {
            return Err(TrackError::SingularInnovation);
        }
        let raw_gain = self.cov.multiply(&inv);
        let gain = Mat2 {
            m00: raw_gain.m00,
            m01: raw_gain.m01,
            m10: raw_gain.m01,
            m11: raw_gain.m11,
        };
        if gain.m00 < -GAIN_LIMIT || gain.m00 > GAIN_LIMIT || gain.m01 < -GAIN_LIMIT || gain.m01
            > GAIN_LIMIT || gain.m11 < -GAIN_LIMIT || gain.m11 > GAIN_LIMIT {
            return Err(TrackError::SingularInnovation);
        }
        let innovation = measurement.sub(&self.pos);
        let delta = gain.mul_vec(&innovation);
        let new_pos = self.pos.add(&delta);
        if new_pos.x < -FX_LIMIT || new_pos.x > FX_LIMIT || new_pos.y < -FX_LIMIT || new_pos.y
            > FX_LIMIT {
            return Err(TrackError::SingularInnovation);
        }
        let i_minus_k = Mat2::identity().sub(&gain);
        let raw_cov = i_minus_k.multiply(&self.cov);
        let new_cov = Mat2 {
            m00: raw_cov.m00,
            m01: raw_cov.m01,
            m10: raw_cov.m01,
            m11: raw_cov.m11,
        };
        if new_cov.m00 < 0 || new_cov.m11 < 0 || new_cov.m00 > FX_LIMIT || new_cov.m01 < -FX_LIMIT
            || new_cov.m01 > FX_LIMIT || new_cov.m11 > FX_LIMIT {
            return Err(TrackError::SingularInnovation);
        }
        proof {
            lemma_abs_mul_bound(new_cov.m00 as int, new_cov.m11 as int, 2147483648, 2147483648);
            lemma_abs_mul_bound(new_cov.m01 as int, new_cov.m01 as int, 2147483648, 2147483648);
        }
        if (new_cov.m00 as i128) * (new_cov.m11 as i128) - (new_cov.m01 as i128) * (new_cov.m01
            as i128) < 0 {
            return Err(TrackError::SingularInnovation);
        }
        self.pos = new_pos;
        self.cov = new_cov;
        Ok(())
    }

    /// Read-only accessor for the tracked position; no mutation.
    pub fn get_state(&self) -> (r: Vec2)
        ensures
            r == self.pos,
    {
        self.pos
    }

    /// Read-only accessor for the configured velocity model.
    pub fn get_velocity(&self) -> (r: Vec2)
        ensures
            r == self.vel,
    {
        self.vel
    }
}

/// One prediction step keeps the tracker's invariant: the clamps keep every
/// component in range, the off-diagonals are untouched, and capping the
/// diagonal growth cannot lower the determinant below zero, since each
/// capped diagonal entry is at least its old value.
pub proof fn lemma_predict_step_preserves_wf(t: LaneTracker)
    requires
        t.wf(),
    ensures
        LaneTracker::predict_step(t).wf(),
{
    let a = cap_fx(t.cov.m00 + t.q);
    let b = cap_fx(t.cov.m11 + t.q);
    assert(t.cov.m00 <= a && t.cov.m11 <= b && a >= 0 && b >= 0);
    assert(a * b >= t.cov.m00 * t.cov.m11) by (nonlinear_arith)
        requires
            0 <= t.cov.m00 <= a,
            0 <= t.cov.m11 <= b,
    ;
}

/// Law: prediction alone leaves the position unchanged under a zero velocity
/// model, however often it runs; the covariance diagonal never decreases
/// from one prediction to the next, stays exactly constant when the process
/// noise is zero, and strictly increases while the process noise is positive
/// and the saturation cap is not yet reached.
pub proof fn lemma_predict_only_behaviour(t: LaneTracker, n: nat)
    requires
        t.wf(),
    ensures
        LaneTracker::predict_iter(t, n).wf(),
        LaneTracker::predict_iter(t, n).vel == t.vel,
        LaneTracker::predict_iter(t, n).q == t.q,
        LaneTracker::predict_iter(t, n).r == t.r,
        t.vel.x == 0 && t.vel.y == 0 ==> LaneTracker::predict_iter(t, n).pos == t.pos,
        LaneTracker::predict_iter(t, n + 1).cov.m00 >= LaneTracker::predict_iter(t, n).cov.m00,
        LaneTracker::predict_iter(t, n + 1).cov.m11 >= LaneTracker::predict_iter(t, n).cov.m11,
        t.q == 0 ==> LaneTracker::predict_iter(t, n).cov == t.cov,
        t.q > 0 && LaneTracker::predict_iter(t, n).cov.m00 + t.q <= FX_LIMIT
            ==> LaneTracker::predict_iter(t, n + 1).cov.m00 > LaneTracker::predict_iter(
            t,
            n,
        ).cov.m00,
        t.q > 0 && LaneTracker::predict_iter(t, n).cov.m11 + t.q <= FX_LIMIT
            ==> LaneTracker::predict_iter(t, n + 1).cov.m11 > LaneTracker::predict_iter(
            t,
            n,
        ).cov.m11,
    decreases n,
{
    if n == 0 {
        assert(LaneTracker::predict_iter(t, 0) == t);
        assert(LaneTracker::predict_iter(t, 1) == LaneTracker::predict_step(
            LaneTracker::predict_iter(t, 0),
        ));
    } else {
        lemma_predict_only_behaviour(t, (n - 1) as nat);
        assert(LaneTracker::predict_iter(t, n) == LaneTracker::predict_step(
            LaneTracker::predict_iter(t, (n - 1) as nat),
        ));
        lemma_predict_step_preserves_wf(LaneTracker::predict_iter(t, (n - 1) as nat));
        assert(LaneTracker::predict_iter(t, n + 1) == LaneTracker::predict_step(
            LaneTracker::predict_iter(t, n),
        ));
    }
}

} // verus!

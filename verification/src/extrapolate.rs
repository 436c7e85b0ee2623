//! Conversion of a fitted line into two drawable image-space endpoints at a
//! near level (the image bottom) and a far level (a configurable horizon
//! fraction of the image height).

use vstd::prelude::*;
use crate::geometry::{PixelPoint, COORD_LIMIT, X_LIMIT, abs_int, div_trunc, div_trunc_i128,
    lemma_abs_mul_bound};
use crate::regression::{LineParams, PARAM_LIMIT};

verus! {

/// A lane boundary as two drawable endpoints: `near` at the image bottom,
/// `far` at the horizon level.
#[derive(Clone, Copy, Debug, PartialEq, Eq, Structural)]
pub struct LaneEndpoints {
    pub near: PixelPoint,
    pub far: PixelPoint,
}

/// Turns line parameters into endpoints by solving `x = (y - intercept) /
/// slope` at the two fixed vertical levels.
pub struct LaneExtrapolator {
    /// Image height in pixels; the near level.
    pub image_height: i64,
    /// Horizon fraction numerator: the far level is
    /// `image_height * horizon_num / horizon_den`.
    pub horizon_num: i64,
    /// Horizon fraction denominator.
    pub horizon_den: i64,
}

/// The x pixel at which the line `y = (m*x + b)/d` crosses the horizontal
/// level `y`: the rational `(y*d - b) / m`, truncated toward zero.
pub open spec fn x_at_level(p: LineParams, y: int) -> int
    recommends
        p.m != 0,
{
    div_trunc(y * p.d - p.b, p.m as int)
}

impl LaneExtrapolator {
    /// Configuration within the ranges the arithmetic needs; the horizon
    /// fraction lies in `[0, 1]`.
    pub open spec fn wf(self) -> bool {
        &&& 0 < self.image_height <= COORD_LIMIT
        &&& 0 <= self.horizon_num <= self.horizon_den
        &&& 1 <= self.horizon_den <= COORD_LIMIT
    }

    /// The near vertical level: the image bottom.
    pub open spec fn y_near(self) -> int {
        self.image_height as int
    }

    /// The far vertical level: the horizon fraction of the image height,
    /// truncated to a pixel.
    pub open spec fn y_far(self) -> int {
        div_trunc(self.image_height * self.horizon_num, self.horizon_den as int)
    }

    /// An extrapolator with the default horizon fraction of three fifths.
    pub fn new(image_height: i64) -> (e: LaneExtrapolator)
        requires
            0 < image_height <= COORD_LIMIT,
        ensures
            e.image_height == image_height,
            e.horizon_num == 3,
            e.horizon_den == 5,
            e.wf(),
    {
        LaneExtrapolator { image_height, horizon_num: 3, horizon_den: 5 }
    }

    /// An extrapolator with an explicit horizon fraction `num/den`.
    pub fn with_horizon(image_height: i64, num: i64, den: i64) -> (e: LaneExtrapolator)
        requires
            0 < image_height <= COORD_LIMIT,
            0 <= num <= den,
            1 <= den <= COORD_LIMIT,
        ensures
            e.image_height == image_height,
            e.horizon_num == num,
            e.horizon_den == den,
            e.wf(),
    {
        LaneExtrapolator { image_height, horizon_num: num, horizon_den: den }
    }

    /// The far level as a pixel row: the truncated horizon fraction of the
    /// image height, between zero and the image bottom.
    pub fn far_level(&self) -> (y: i64)
        requires
            self.wf(),
        ensures
            y == self.y_far(),
            0 <= y <= self.image_height,
    {
        proof {
            let h = self.image_height as int;
            let num = self.horizon_num as int;
            let den = self.horizon_den as int;
            assert(0 <= h * num <= h * den <= 4294967296int) by (nonlinear_arith)
                requires
                    0 < h <= 65536,
                    0 <= num <= den <= 65536,
            ;
            vstd::arithmetic::div_mod::lemma_div_is_ordered(h * num, h * den, den);
            vstd::arithmetic::div_mod::lemma_div_multiples_vanish(h, den);
            vstd::arithmetic::div_mod::lemma_div_pos_is_pos(h * num, den);
            assert(den * h == h * den) by (nonlinear_arith);
        }
        (self.image_height * self.horizon_num) / self.horizon_den
    }

    /// Solves the line for x at the near and far levels. Returns `None` when
    /// the slope is zero (no inverse) or either x lands outside the drawable
    /// range, the integer counterpart of a non-finite result; otherwise the
    /// two exact truncated pixel positions.
    pub fn extrapolate(&self, p: &LineParams) -> (r: Option<LaneEndpoints>)
        requires
            self.wf(),
            p.wf(),
        ensures
            p.m == 0 ==> r is None,
            p.m != 0 && (abs_int(x_at_level(*p, self.y_near())) > X_LIMIT || abs_int(
                x_at_level(*p, self.y_far()),
            ) > X_LIMIT) ==> r is None,
            p.m != 0 && abs_int(x_at_level(*p, self.y_near())) <= X_LIMIT && abs_int(
                x_at_level(*p, self.y_far()),
            ) <= X_LIMIT ==> r == Some(
                LaneEndpoints {
                    near: PixelPoint {
                        x: x_at_level(*p, self.y_near()) as i64,
                        y: self.image_height,
                    },
                    far: PixelPoint { x: x_at_level(*p, self.y_far()) as i64, y: self.y_far() as i64 },
                },
            ),
    {
        if p.m == 0 {
            return None;
        }
        let y_near: i64 = self.image_height;
        let y_far: i64 = self.far_level();
        let x_near = self.x_for(p, y_near);
        let x_far = self.x_for(p, y_far);
        if x_near < -X_LIMIT as i128 || x_near > X_LIMIT as i128 || x_far < -X_LIMIT as i128
            || x_far > X_LIMIT as i128 {
            return None;
        }
        Some(
            LaneEndpoints {
                near: PixelPoint { x: x_near as i64, y: y_near },
                far: PixelPoint { x: x_far as i64, y: y_far },
            },
        )
    }

    /// One level of the extrapolation: the truncated rational
    /// `(y*d - b) / m`.
    fn x_for(&self, p: &LineParams, y: i64) -> (x: i128)
        requires
            p.wf(),
            p.m != 0,
            -COORD_LIMIT <= y <= COORD_LIMIT,
        ensures
            x == x_at_level(*p, y as int),
    {
        proof {
            lemma_abs_mul_bound(
                y as int,
                p.d as int,
                65536,
                1267650600228229401496703205376,
            );
        }
        let t: i128 = (y as i128) * p.d - p.b;
        div_trunc_i128(t, p.m)
    }
}

} // verus!

//! Partition of raw segments into left/right lane-boundary candidate points.
//!
//! A segment is discarded when it is vertical (undefined slope under this
//! scheme), when its slope magnitude lies below the configured threshold
//! (near-horizontal artifact), or when its slope sign and the side of the
//! frame its midpoint lies on disagree. Accepted segments contribute both of
//! their endpoints to the point set of their side, so the fit sees every raw
//! sample. An empty side is a valid "no detection" outcome, not an error.

use vstd::prelude::*;
use crate::geometry::{PixelPoint, Segment, COORD_LIMIT, abs_int};
use crate::regression::all_in_range;

verus! {

/// Signed x extent of a segment.
pub open spec fn seg_dx(s: Segment) -> int {
    s.x2 - s.x1
}

/// Signed y extent of a segment.
pub open spec fn seg_dy(s: Segment) -> int {
    s.y2 - s.y1
}

/// The slope magnitude `|dy/dx|` reaches the threshold `num/den`:
/// `|dy|*den >= |dx|*num`, written without division.
pub open spec fn seg_steep(s: Segment, num: int, den: int) -> bool {
    abs_int(seg_dy(s)) * den >= abs_int(seg_dx(s)) * num
}

/// Accepted as a left-boundary candidate: not vertical, steep enough,
/// negative slope (y grows downward), and midpoint left of the frame middle
/// (`(x1+x2)/2 < width/2`, cleared of the halving).
pub open spec fn accept_left(s: Segment, width: int, num: int, den: int) -> bool {
    &&& seg_dx(s) != 0
    &&& seg_steep(s, num, den)
    &&& seg_dy(s) * seg_dx(s) < 0
    &&& s.x1 + s.x2 < width
}

/// Accepted as a right-boundary candidate: positive slope and midpoint right
/// of the frame middle.
pub open spec fn accept_right(s: Segment, width: int, num: int, den: int) -> bool {
    &&& seg_dx(s) != 0
    &&& seg_steep(s, num, den)
    &&& seg_dy(s) * seg_dx(s) > 0
    &&& s.x1 + s.x2 > width
}

/// First endpoint of a segment as a point.
pub open spec fn seg_start(s: Segment) -> PixelPoint {
    PixelPoint { x: s.x1, y: s.y1 }
}

/// Second endpoint of a segment as a point.
pub open spec fn seg_end(s: Segment) -> PixelPoint {
    PixelPoint { x: s.x2, y: s.y2 }
}

/// Both endpoints of every segment accepted for the left side, in input
/// order.
pub open spec fn left_points(segs: Seq<Segment>, width: int, num: int, den: int) -> Seq<PixelPoint>
    decreases segs.len(),
{
    if segs.len() == 0 {
        Seq::empty()
    } else {
        left_points(segs.drop_last(), width, num, den) + (if accept_left(
            segs.last(),
            width,
            num,
            den,
        ) {
            seq![seg_start(segs.last()), seg_end(segs.last())]
        } else {
            Seq::empty()
        })
    }
}

/// Both endpoints of every segment accepted for the right side, in input
/// order.
pub open spec fn right_points(segs: Seq<Segment>, width: int, num: int, den: int) -> Seq<
    PixelPoint,
>
    decreases segs.len(),
{
    if segs.len() == 0 {
        Seq::empty()
    } else {
        right_points(segs.drop_last(), width, num, den) + (if accept_right(
            segs.last(),
            width,
            num,
            den,
        ) {
            seq![seg_start(segs.last()), seg_end(segs.last())]
        } else {
            Seq::empty()
        })
    }
}

/// Every segment of the sequence within the pixel range.
pub open spec fn all_segs_in_range(s: Seq<Segment>) -> bool {
    forall|i: int| 0 <= i < s.len() ==> #[trigger] s[i].in_range()
}

/// Law: a segment whose slope magnitude lies below the threshold is accepted
/// for neither side; near-horizontal artifacts never reach an output set.
pub proof fn lemma_low_slope_never_classified(s: Segment, width: int, num: int, den: int)
    requires
        abs_int(seg_dy(s)) * den < abs_int(seg_dx(s)) * num,
    ensures
        !accept_left(s, width, num, den),
        !accept_right(s, width, num, den),
{
}

/// Some accepted left-side segment contributes the point as one of its
/// endpoints.
pub open spec fn from_accepted_left(
    segs: Seq<Segment>,
    width: int,
    num: int,
    den: int,
    p: PixelPoint,
) -> bool {
    exists|i: int|
        0 <= i < segs.len() && #[trigger] accept_left(segs[i], width, num, den) && (p == seg_start(
            segs[i],
        ) || p == seg_end(segs[i]))
}

/// Some accepted right-side segment contributes the point as one of its
/// endpoints.
pub open spec fn from_accepted_right(
    segs: Seq<Segment>,
    width: int,
    num: int,
    den: int,
    p: PixelPoint,
) -> bool {
    exists|i: int|
        0 <= i < segs.len() && #[trigger] accept_right(segs[i], width, num, den) && (p == seg_start(
            segs[i],
        ) || p == seg_end(segs[i]))
}

/// Law: every point either output set holds is an endpoint of some input
/// segment that was accepted for that side; in particular each such segment
/// is steep, so a near-horizontal segment contributes to neither output.
pub proof fn lemma_classified_point_has_accepted_source(
    segs: Seq<Segment>,
    width: int,
    num: int,
    den: int,
)
    ensures
        forall|j: int|
            0 <= j < left_points(segs, width, num, den).len() ==> from_accepted_left(
                segs,
                width,
                num,
                den,
                #[trigger] left_points(segs, width, num, den)[j],
            ),
        forall|j: int|
            0 <= j < right_points(segs, width, num, den).len() ==> from_accepted_right(
                segs,
                width,
                num,
                den,
                #[trigger] right_points(segs, width, num, den)[j],
            ),
    decreases segs.len(),
{
    if segs.len() > 0 {
        let t = segs.drop_last();
        lemma_classified_point_has_accepted_source(t, width, num, den);
        let lp = left_points(segs, width, num, den);
        let lt = left_points(t, width, num, den);
        assert forall|j: int| 0 <= j < lp.len() implies from_accepted_left(
            segs,
            width,
            num,
            den,
            lp[j],
        ) by {
            if j < lt.len() {
                assert(from_accepted_left(t, width, num, den, lt[j]));
                let i = choose|i: int|
                    0 <= i < t.len() && #[trigger] accept_left(t[i], width, num, den) && (lt[j]
                        == seg_start(t[i]) || lt[j] == seg_end(t[i]));
                assert(segs[i] == t[i]);
                assert(lp[j] == lt[j]);
                assert(accept_left(segs[i], width, num, den));
            } else {
                let i = segs.len() - 1;
                assert(accept_left(segs[i], width, num, den));
                assert(lp[j] == seg_start(segs[i]) || lp[j] == seg_end(segs[i]));
            }
        }
        let rp = right_points(segs, width, num, den);
        let rt = right_points(t, width, num, den);
        assert forall|j: int| 0 <= j < rp.len() implies from_accepted_right(
            segs,
            width,
            num,
            den,
            rp[j],
        ) by {
            if j < rt.len() {
                assert(from_accepted_right(t, width, num, den, rt[j]));
                let i = choose|i: int|
                    0 <= i < t.len() && #[trigger] accept_right(t[i], width, num, den) && (rt[j]
                        == seg_start(t[i]) || rt[j] == seg_end(t[i]));
                assert(segs[i] == t[i]);
                assert(rp[j] == rt[j]);
                assert(accept_right(segs[i], width, num, den));
            } else {
                let i = segs.len() - 1;
                assert(accept_right(segs[i], width, num, den));
                assert(rp[j] == seg_start(segs[i]) || rp[j] == seg_end(segs[i]));
            }
        }
    }
}

/// Each output holds at most two points per input segment.
pub proof fn lemma_side_points_len(segs: Seq<Segment>, width: int, num: int, den: int)
    ensures
        left_points(segs, width, num, den).len() <= 2 * segs.len(),
        right_points(segs, width, num, den).len() <= 2 * segs.len(),
    decreases segs.len(),
{
    if segs.len() > 0 {
        lemma_side_points_len(segs.drop_last(), width, num, den);
    }
}

/// Output points inherit the input segments' pixel range.
pub proof fn lemma_side_points_in_range(segs: Seq<Segment>, width: int, num: int, den: int)
    requires
        all_segs_in_range(segs),
    ensures
        all_in_range(left_points(segs, width, num, den)),
        all_in_range(right_points(segs, width, num, den)),
    decreases segs.len(),
{
    if segs.len() > 0 {
        let t = segs.drop_last();
        assert(all_segs_in_range(t)) by {
            assert(forall|i: int| 0 <= i < t.len() ==> t[i] == segs[i]);
        }
        lemma_side_points_in_range(t, width, num, den);
        assert(segs.last().in_range());
    }
}

/// Classifies raw segments into left and right candidate point sets by slope
/// sign and midpoint position; rejects vertical and near-horizontal segments.
pub struct LineClassifier {
    /// Frame width in pixels; the midpoint cross-check compares against its
    /// middle.
    pub frame_width: i64,
    /// Slope-magnitude threshold numerator; a segment needs
    /// `|slope| >= slope_min_num / slope_min_den` to count.
    pub slope_min_num: i64,
    /// Slope-magnitude threshold denominator.
    pub slope_min_den: i64,
}

impl LineClassifier {
    /// Configuration within the ranges the arithmetic needs.
    pub open spec fn wf(self) -> bool {
        &&& 0 < self.frame_width <= 2 * COORD_LIMIT
        &&& 0 <= self.slope_min_num <= COORD_LIMIT
        &&& 1 <= self.slope_min_den <= COORD_LIMIT
    }

    /// A classifier with the default slope threshold of one half.
    pub fn new(frame_width: i64) -> (c: LineClassifier)
        requires
            0 < frame_width <= 2 * COORD_LIMIT,
        ensures
            c.frame_width == frame_width,
            c.slope_min_num == 1,
            c.slope_min_den == 2,
            c.wf(),
    {
        LineClassifier { frame_width, slope_min_num: 1, slope_min_den: 2 }
    }

    /// A classifier with an explicit slope threshold `num/den`.
    pub fn with_threshold(frame_width: i64, num: i64, den: i64) -> (c: LineClassifier)
        requires
            0 < frame_width <= 2 * COORD_LIMIT,
            0 <= num <= COORD_LIMIT,
            1 <= den <= COORD_LIMIT,
        ensures
            c.frame_width == frame_width,
            c.slope_min_num == num,
            c.slope_min_den == den,
            c.wf(),
    {
        LineClassifier { frame_width, slope_min_num: num, slope_min_den: den }
    }

    /// Splits the segments into left and right candidate point sets: both
    /// endpoints of each accepted segment, in input order. An empty result
    /// for a side means "no detection this frame".
    pub fn classify(&self, segments: &Vec<Segment>) -> (r: (Vec<PixelPoint>, Vec<PixelPoint>))
        requires
            self.wf(),
            all_segs_in_range(segments@),
        ensures
            r.0@ == left_points(
                segments@,
                self.frame_width as int,
                self.slope_min_num as int,
                self.slope_min_den as int,
            ),
            r.1@ == right_points(
                segments@,
                self.frame_width as int,
                self.slope_min_num as int,
                self.slope_min_den as int,
            ),
    {
        let w = self.frame_width;
        let num = self.slope_min_num;
        let den = self.slope_min_den;
        let mut left: Vec<PixelPoint> = Vec::new();
        let mut right: Vec<PixelPoint> = Vec::new();
        let mut i: usize = 0;
        while i < segments.len()
            invariant
                0 <= i <= segments@.len(),
                all_segs_in_range(segments@),
                w == self.frame_width,
                num == self.slope_min_num,
                den == self.slope_min_den,
                self.wf(),
                left@ == left_points(
                    segments@.take(i as int),
                    w as int,
                    num as int,
                    den as int,
                ),
                right@ == right_points(
                    segments@.take(i as int),
                    w as int,
                    num as int,
                    den as int,
                ),
            decreases segments@.len() - i,
        {
            let s = segments[i];
            proof {
                assert(segments@[i as int].in_range());
                assert(segments@.take(i + 1).drop_last() =~= segments@.take(i as int));
                assert(segments@.take(i + 1).last() == segments@[i as int]);
            }
            let dx = s.x2 - s.x1;
            let dy = s.y2 - s.y1;
            let ady = if dy < 0 {
                -dy
            } else {
                dy
            };
            let adx = if dx < 0 {
                -dx
            } else {
                dx
            };
            proof {
                assert(ady * den <= 131072int * 65536 && adx * num <= 131072int * 65536 && abs_int(
                    dy as int * dx as int,
                ) <= 131072int * 131072) by (nonlinear_arith)
                    requires
                        0 <= ady <= 131072,
                        0 <= adx <= 131072,
                        0 <= den <= 65536,
                        0 <= num <= 65536,
                        abs_int(dy as int) <= 131072,
                        abs_int(dx as int) <= 131072,
                ;
            }
            if dx != 0 && ady * den >= adx * num {
                let mid2 = s.x1 + s.x2;
                if dy * dx < 0 && mid2 < w {
                    left.push(PixelPoint { x: s.x1, y: s.y1 });
                    left.push(PixelPoint { x: s.x2, y: s.y2 });
                } else if dy * dx > 0 && mid2 > w {
                    right.push(PixelPoint { x: s.x1, y: s.y1 });
                    right.push(PixelPoint { x: s.x2, y: s.y2 });
                }
            }
            i = i + 1;
        }
        proof {
            assert(segments@.take(segments@.len() as int) =~= segments@);
        }
        (left, right)
    }
}

} // verus!

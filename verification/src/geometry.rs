//! Shared geometric value types and the exact integer arithmetic they use.

use vstd::prelude::*;

verus! {

/// Largest pixel coordinate magnitude the crate works with. Keeps every sum
/// and product taken over a frame's points inside `i128`.
pub const COORD_LIMIT: i64 = 65536;

/// Largest number of points a single fit may take, for the same reason.
pub const MAX_POINTS: usize = 65536;

/// Largest extrapolated x coordinate still treated as drawable; anything
/// beyond stands for the non-finite results a division by a tiny slope gives.
pub const X_LIMIT: i64 = 1048576;

/// A point in image pixel coordinates; y grows downward.
#[derive(Clone, Copy, Debug, PartialEq, Eq, Structural)]
pub struct PixelPoint {
    pub x: i64,
    pub y: i64,
}

/// A raw detected line segment, endpoint pair in pixel coordinates.
#[derive(Clone, Copy, Debug, PartialEq, Eq, Structural)]
pub struct Segment {
    pub x1: i64,
    pub y1: i64,
    pub x2: i64,
    pub y2: i64,
}

impl PixelPoint {
    /// Both coordinates within the crate's pixel range.
    pub open spec fn in_range(self) -> bool {
        -COORD_LIMIT <= self.x <= COORD_LIMIT && -COORD_LIMIT <= self.y <= COORD_LIMIT
    }

    pub fn new(x: i64, y: i64) -> (p: PixelPoint)
        ensures
            p.x == x,
            p.y == y,
    {
        PixelPoint { x, y }
    }
}

impl Segment {
    /// All four coordinates within the crate's pixel range.
    pub open spec fn in_range(self) -> bool {
        &&& -COORD_LIMIT <= self.x1 <= COORD_LIMIT
        &&& -COORD_LIMIT <= self.y1 <= COORD_LIMIT
        &&& -COORD_LIMIT <= self.x2 <= COORD_LIMIT
        &&& -COORD_LIMIT <= self.y2 <= COORD_LIMIT
    }

    pub fn new(x1: i64, y1: i64, x2: i64, y2: i64) -> (s: Segment)
        ensures
            s == (Segment { x1, y1, x2, y2 }),
    {
        Segment { x1, y1, x2, y2 }
    }
}

/// Absolute value over mathematical integers.
pub open spec fn abs_int(a: int) -> int {
    if a >= 0 {
        a
    } else {
        -a
    }
}

/// Division truncated toward zero, as Rust's `/` computes it on signed
/// integers; spec-level `/` is Euclidean, so the truncating form is spelled
/// out over absolute values.
pub open spec fn div_trunc(a: int, b: int) -> int
    recommends
        b != 0,
{
    if (a >= 0) == (b >= 0) {
        abs_int(a) / abs_int(b)
    } else {
        -(abs_int(a) / abs_int(b))
    }
}

/// `|a * b| <= x * y` whenever `|a| <= x` and `|b| <= y`.
pub proof fn lemma_abs_mul_bound(a: int, b: int, x: int, y: int)
    by (nonlinear_arith)
    requires
        abs_int(a) <= x,
        abs_int(b) <= y,
    ensures
        abs_int(a * b) <= x * y,
{
}

/// Truncating division by a nonzero divisor never grows the magnitude of
/// the dividend.
pub proof fn lemma_div_trunc_bound(a: int, b: int)
    by (nonlinear_arith)
    requires
        b != 0,
    ensures
        abs_int(div_trunc(a, b)) <= abs_int(a),
{
}

/// Truncating division on `i128`, the arithmetic every rational-to-pixel
/// rounding in the crate goes through.
pub fn div_trunc_i128(a: i128, b: i128) -> (q: i128)
    requires
        b != 0,
        a != i128::MIN,
        b != i128::MIN,
    ensures
        q == div_trunc(a as int, b as int),
{
    let ua: i128 = if a < 0 { -a } else { a };
    let ub: i128 = if b < 0 { -b } else { b };
    let uq: i128 = ua / ub;
    if (a < 0) != (b < 0) {
        -uq
    } else {
        uq
    }
}

} // verus!

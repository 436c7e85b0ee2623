//! Ordinary least-squares line fit over integer pixel points, kept exact by
//! returning slope and intercept as rationals over one common denominator.

use vstd::prelude::*;
use crate::geometry::{PixelPoint, COORD_LIMIT, MAX_POINTS, abs_int, div_trunc, div_trunc_i128,
    lemma_abs_mul_bound};

verus! {

/// Magnitude bound on fitted-line numerators and denominators; every value a
/// fit can produce from in-range points stays far below it.
pub const PARAM_LIMIT: i128 = 1267650600228229401496703205376;

/// Why a fit could not be made. An empty input counts as insufficient data,
/// like any other set of fewer than two points; `DimensionMismatch` can only
/// arise from the two-slice entry point `fit_line`, and `EmptyData` is kept
/// in the taxonomy for callers that classify their own inputs but is never
/// produced by the fits here.
#[derive(Clone, Copy, Debug, PartialEq, Eq, Structural)]
pub enum RegressionError {
    EmptyData,
    InsufficientData,
    ZeroVariance,
    DimensionMismatch,
}

/// The line `y = (m*x + b) / d` in image space: slope `m/d`, intercept `b/d`,
/// with `d >= 1`. A vertical line has no finite slope and is never produced;
/// a horizontal one has `m == 0` and must not be used as a divisor.
#[derive(Clone, Copy, Debug, PartialEq, Eq, Structural)]
pub struct LineParams {
    pub m: i128,
    pub b: i128,
    pub d: i128,
}

impl LineParams {
    /// Denominator positive and all three parts within `PARAM_LIMIT`.
    pub open spec fn wf(self) -> bool {
        &&& 1 <= self.d <= PARAM_LIMIT
        &&& abs_int(self.m as int) <= PARAM_LIMIT
        &&& abs_int(self.b as int) <= PARAM_LIMIT
    }

    /// A line from an integer slope and intercept, denominator one.
    pub fn from_slope_intercept(slope: i64, intercept: i64) -> (p: LineParams)
        ensures
            p.m == slope,
            p.b == intercept,
            p.d == 1,
            p.wf(),
    {
        LineParams { m: slope as i128, b: intercept as i128, d: 1 }
    }

    /// The exact line through two points: slope `dy/dx` over the positive
    /// denominator `|dx|`. `None` for a vertical pair, whose slope is
    /// undefined here.
    pub fn from_points(p1: PixelPoint, p2: PixelPoint) -> (r: Option<LineParams>)
        requires
            p1.in_range(),
            p2.in_range(),
        ensures
            p1.x == p2.x ==> r is None,
            p1.x != p2.x ==> (r matches Some(lp) && (lp.m as int, lp.b as int, lp.d as int)
                == line_through(p1, p2) && lp.wf()),
    {
        if p1.x == p2.x {
            return None;
        }
        proof {
            lemma_abs_mul_bound(p1.y as int, (p2.x - p1.x) as int, 65536, 131072);
            lemma_abs_mul_bound(p1.y as int, (p1.x - p2.x) as int, 65536, 131072);
            lemma_abs_mul_bound((p2.y - p1.y) as int, p1.x as int, 131072, 65536);
        }
        let dx: i128 = (p2.x as i128) - (p1.x as i128);
        let dy: i128 = (p2.y as i128) - (p1.y as i128);
        if dx > 0 {
            Some(LineParams { m: dy, b: (p1.y as i128) * dx - dy * (p1.x as i128), d: dx })
        } else {
            Some(LineParams { m: -dy, b: (p1.y as i128) * (-dx) + dy * (p1.x as i128), d: -dx })
        }
    }

    /// The line's y at an x position: the rational `(m*x + b) / d`,
    /// truncated toward zero; the evaluation a fitted line is used by.
    pub fn y_at(&self, x: i64) -> (y: i128)
        requires
            self.wf(),
            -COORD_LIMIT <= x <= COORD_LIMIT,
        ensures
            y == div_trunc(self.m * x + self.b, self.d as int),
    {
        proof {
            lemma_abs_mul_bound(self.m as int, x as int, PARAM_LIMIT as int, 65536);
        }
        div_trunc_i128(self.m * (x as i128) + self.b, self.d)
    }
}

/// The exact slope/intercept pair of the line through two points with
/// distinct x, over the positive denominator `|x2 - x1|`.
pub open spec fn line_through(p1: PixelPoint, p2: PixelPoint) -> (int, int, int)
    recommends
        p1.x != p2.x,
{
    let dx = p2.x - p1.x;
    let dy = p2.y - p1.y;
    if dx > 0 {
        (dy, p1.y * dx - dy * p1.x, dx)
    } else {
        (-dy, p1.y * (-dx) + dy * p1.x, -dx)
    }
}

/// Sum of the x coordinates of a point sequence.
pub open spec fn sum_x(s: Seq<PixelPoint>) -> int
    decreases s.len(),
{
    if s.len() == 0 {
        0
    } else {
        sum_x(s.drop_last()) + s.last().x
    }
}

/// Sum of the y coordinates.
pub open spec fn sum_y(s: Seq<PixelPoint>) -> int
    decreases s.len(),
{
    if s.len() == 0 {
        0
    } else {
        sum_y(s.drop_last()) + s.last().y
    }
}

/// Sum of the products `x*y`.
pub open spec fn sum_xy(s: Seq<PixelPoint>) -> int
    decreases s.len(),
{
    if s.len() == 0 {
        0
    } else {
        sum_xy(s.drop_last()) + s.last().x * s.last().y
    }
}

/// Sum of the squares `x*x`.
pub open spec fn sum_xx(s: Seq<PixelPoint>) -> int
    decreases s.len(),
{
    if s.len() == 0 {
        0
    } else {
        sum_xx(s.drop_last()) + s.last().x * s.last().x
    }
}

/// `n` times the population x-variance: `n*Σx² - (Σx)²`. Zero exactly when
/// all x values coincide.
pub open spec fn sxx_of(s: Seq<PixelPoint>) -> int {
    s.len() * sum_xx(s) - sum_x(s) * sum_x(s)
}

/// `n` times the population covariance of x and y: `n*Σxy - Σx*Σy`.
pub open spec fn sxy_of(s: Seq<PixelPoint>) -> int {
    s.len() * sum_xy(s) - sum_x(s) * sum_y(s)
}

/// Slope numerator of the least-squares line over the common denominator
/// `fit_d`: slope = cov/var = `sxy/sxx` = `fit_m / fit_d`.
pub open spec fn fit_m(s: Seq<PixelPoint>) -> int {
    s.len() * sxy_of(s)
}

/// Intercept numerator over the same denominator:
/// intercept = mean_y - slope*mean_x = `fit_b / fit_d`.
pub open spec fn fit_b(s: Seq<PixelPoint>) -> int {
    sum_y(s) * sxx_of(s) - sxy_of(s) * sum_x(s)
}

/// The common denominator `n * sxx`.
pub open spec fn fit_d(s: Seq<PixelPoint>) -> int {
    s.len() * sxx_of(s)
}

/// Every point of the sequence within the pixel range.
pub open spec fn all_in_range(s: Seq<PixelPoint>) -> bool {
    forall|i: int| 0 <= i < s.len() ==> #[trigger] s[i].in_range()
}

/// Sum of the squared deviations `(c - x_i)²` of a constant from the points'
/// x values.
pub open spec fn sq_dev(s: Seq<PixelPoint>, c: int) -> int
    decreases s.len(),
{
    if s.len() == 0 {
        0
    } else {
        sq_dev(s.drop_last(), c) + (c - s.last().x) * (c - s.last().x)
    }
}

proof fn lemma_sq_dev_nonneg(s: Seq<PixelPoint>, c: int)
    ensures
        sq_dev(s, c) >= 0,
    decreases s.len(),
{
    if s.len() > 0 {
        lemma_sq_dev_nonneg(s.drop_last(), c);
        let t = c - s.last().x;
        assert(t * t >= 0) by (nonlinear_arith);
    }
}

/// Expands the squared-deviation sum: `Σ(c - x_i)² = n*c² - 2*c*Σx + Σx²`.
proof fn lemma_sq_dev_expand(s: Seq<PixelPoint>, c: int)
    ensures
        sq_dev(s, c) == s.len() * (c * c) - 2 * c * sum_x(s) + sum_xx(s),
    decreases s.len(),
{
    if s.len() > 0 {
        let t = s.drop_last();
        let x = s.last().x as int;
        lemma_sq_dev_expand(t, c);
        assert(t.len() * (c * c) - 2 * c * sum_x(t) + sum_xx(t) + (c - x) * (c - x)
            == (t.len() + 1) * (c * c) - 2 * c * (sum_x(t) + x) + (sum_xx(t) + x * x))
            by (nonlinear_arith);
    }
}

/// Peeling one point off the variance sum: it grows by that point's squared
/// deviations from the remaining x values.
proof fn lemma_sxx_step(s: Seq<PixelPoint>)
    requires
        s.len() >= 1,
    ensures
        sxx_of(s) == sxx_of(s.drop_last()) + sq_dev(s.drop_last(), s.last().x as int),
{
    let t = s.drop_last();
    let x = s.last().x as int;
    lemma_sq_dev_expand(t, x);
    assert((t.len() + 1) * (sum_xx(t) + x * x) - (sum_x(t) + x) * (sum_x(t) + x)
        == (t.len() * sum_xx(t) - sum_x(t) * sum_x(t))
            + (t.len() * (x * x) - 2 * x * sum_x(t) + sum_xx(t))) by (nonlinear_arith);
}

/// `n*Σx² - (Σx)²` is nonnegative: it equals a sum of squared deviations,
/// peeled off one point at a time.
pub proof fn lemma_sxx_nonneg(s: Seq<PixelPoint>)
    ensures
        sxx_of(s) >= 0,
    decreases s.len(),
{
    if s.len() == 0 {
        assert(sxx_of(s) == 0);
    } else {
        let t = s.drop_last();
        let x = s.last().x as int;
        lemma_sxx_nonneg(t);
        lemma_sq_dev_nonneg(t, x);
        lemma_sxx_step(s);
    }
}

/// A vanishing squared-deviation sum forces every x to equal the constant.
proof fn lemma_sq_dev_zero_constant(s: Seq<PixelPoint>, c: int)
    requires
        sq_dev(s, c) == 0,
    ensures
        forall|i: int| 0 <= i < s.len() ==> #[trigger] s[i].x == c,
    decreases s.len(),
{
    if s.len() > 0 {
        let t = s.drop_last();
        let x = s.last().x as int;
        lemma_sq_dev_nonneg(t, c);
        assert((c - x) * (c - x) >= 0 && ((c - x) * (c - x) == 0 ==> c == x))
            by (nonlinear_arith);
        lemma_sq_dev_zero_constant(t, c);
        assert(forall|i: int| 0 <= i < t.len() ==> s[i] == t[i]);
    }
}

/// All x equal to the constant make the squared-deviation sum vanish.
proof fn lemma_sq_dev_constant_zero(s: Seq<PixelPoint>, c: int)
    requires
        forall|i: int| 0 <= i < s.len() ==> #[trigger] s[i].x == c,
    ensures
        sq_dev(s, c) == 0,
    decreases s.len(),
{
    if s.len() > 0 {
        let t = s.drop_last();
        assert(forall|i: int| 0 <= i < t.len() ==> t[i] == s[i]);
        lemma_sq_dev_constant_zero(t, c);
        assert(s.last().x == c);
    }
}

/// Law: the x-variance term is zero exactly when every point shares one x
/// value, so the fit's `ZeroVariance` failure means precisely an
/// all-identical-x (near-vertical) point set.
pub proof fn lemma_zero_variance_iff_constant_x(s: Seq<PixelPoint>)
    requires
        s.len() >= 1,
    ensures
        sxx_of(s) == 0 <==> (forall|i: int, j: int|
            0 <= i < s.len() && 0 <= j < s.len() ==> s[i].x == s[j].x),
    decreases s.len(),
{
    let t = s.drop_last();
    let x = s.last().x as int;
    if s.len() == 1 {
        assert(sxx_of(t) == 0);
        lemma_sxx_step(s);
    } else {
        lemma_zero_variance_iff_constant_x(t);
        lemma_sxx_step(s);
        lemma_sxx_nonneg(t);
        lemma_sq_dev_nonneg(t, x);
        assert(forall|i: int| 0 <= i < t.len() ==> t[i] == s[i]);
        if sxx_of(s) == 0 {
            lemma_sq_dev_zero_constant(t, x);
        } else {
            if forall|i: int, j: int| 0 <= i < s.len() && 0 <= j < s.len() ==> s[i].x == s[j].x {
                lemma_sq_dev_constant_zero(t, x);
                assert(sxx_of(t) == 0);
                assert(false);
            }
        }
    }
}

/// Law: the least-squares line leaves residuals that sum to zero. Scaled by
/// the common denominator `d = fit_d`, the sum of the residuals
/// `y_i - (m*x_i + b)/d` has numerator `d*Σy - m*Σx - n*b`, and that
/// numerator vanishes identically for the fitted `m`, `b`, `d`.
pub proof fn lemma_fit_residuals_sum_zero(s: Seq<PixelPoint>)
    requires
        sxx_of(s) != 0,
    ensures
        fit_d(s) * sum_y(s) - fit_m(s) * sum_x(s) - s.len() * fit_b(s) == 0,
{
    let n = s.len() as int;
    let sx = sum_x(s);
    let sy = sum_y(s);
    let vxx = sxx_of(s);
    let vxy = sxy_of(s);
    assert((n * vxx) * sy - (n * vxy) * sx - n * (sy * vxx - vxy * sx) == 0)
        by (nonlinear_arith);
}

/// Ordinary least-squares line fit; population statistics, exact arithmetic.
pub struct LinearFit;

impl LinearFit {
    /// Fits `y = slope*x + intercept` to the points by least squares, with
    /// slope = covariance(x,y)/variance(x). Fails with `InsufficientData`
    /// on fewer than two points and with `ZeroVariance` when all x values
    /// coincide; otherwise returns the exact rational parameters.
    pub fn fit(points: &Vec<PixelPoint>) -> (r: Result<LineParams, RegressionError>)
        requires
            all_in_range(points@),
            points@.len() <= MAX_POINTS,
        ensures
            points@.len() < 2 ==> r == Err::<LineParams, RegressionError>(
                RegressionError::InsufficientData,
            ),
            points@.len() >= 2 && sxx_of(points@) == 0 ==> r == Err::<
                LineParams,
                RegressionError,
            >(RegressionError::ZeroVariance),
            points@.len() >= 2 && sxx_of(points@) != 0 ==> (r matches Ok(p) && p.m == fit_m(
                points@,
            ) && p.b == fit_b(points@) && p.d == fit_d(points@) && p.wf()),
    {
        if points.len() < 2 {
            return Err(RegressionError::InsufficientData);
        }
        let n: i128 = points.len() as i128;
        let mut sx: i128 = 0;
        let mut sy: i128 = 0;
        let mut sxy: i128 = 0;
        let mut sxx: i128 = 0;
        let mut i: usize = 0;
        let c: i128 = COORD_LIMIT as i128;
        while i < points.len()
            invariant
                0 <= i <= points@.len(),
                points@.len() <= MAX_POINTS,
                all_in_range(points@),
                sx == sum_x(points@.take(i as int)),
                sy == sum_y(points@.take(i as int)),
                sxy == sum_xy(points@.take(i as int)),
                sxx == sum_xx(points@.take(i as int)),
                c == COORD_LIMIT,
                abs_int(sx as int) <= i * c,
                abs_int(sy as int) <= i * c,
                abs_int(sxy as int) <= i * c * c,
                abs_int(sxx as int) <= i * c * c,
            decreases points@.len() - i,
        {
            let p = points[i];
            proof {
                assert(points@[i as int].in_range());
                assert(points@.take(i + 1).drop_last() =~= points@.take(i as int));
                assert(points@.take(i + 1).last() == points@[i as int]);
                assert(abs_int(p.x as int * p.y as int) <= c * c) by (nonlinear_arith)
                    requires
                        abs_int(p.x as int) <= c,
                        abs_int(p.y as int) <= c,
                        c == COORD_LIMIT,
                ;
                assert(abs_int(p.x as int * p.x as int) <= c * c) by (nonlinear_arith)
                    requires
                        abs_int(p.x as int) <= c,
                        c == COORD_LIMIT,
                ;
                assert((i + 1) * c == i * c + c) by (nonlinear_arith);
                assert((i + 1) * c * c == i * c * c + c * c) by (nonlinear_arith);
                assert(i * c <= 4294967296 && i * c * c <= 281474976710656int * 65536)
                    by (nonlinear_arith)
                    requires
                        0 <= i <= 65536,
                        c == 65536,
                ;
            }
            sx = sx + (p.x as i128);
            sy = sy + (p.y as i128);
            sxy = sxy + (p.x as i128) * (p.y as i128);
            sxx = sxx + (p.x as i128) * (p.x as i128);
            i = i + 1;
        }
        proof {
            assert(points@.take(points@.len() as int) =~= points@);
            lemma_fit_sums_bounded(points@.len() as int, sx as int, sy as int, sxy as int,
                sxx as int, c as int);
        }
        let vxx: i128 = n * sxx - sx * sx;
        let vxy: i128 = n * sxy - sx * sy;
        if vxx == 0 {
            return Err(RegressionError::ZeroVariance);
        }
        proof {
            lemma_sxx_nonneg(points@);
            lemma_fit_params_bounded(points@.len() as int, sx as int, sy as int, vxx as int,
                vxy as int, c as int);
        }
        let m: i128 = n * vxy;
        let b: i128 = sy * vxx - vxy * sx;
        let d: i128 = n * vxx;
        Ok(LineParams { m, b, d })
    }
}

/// Every value of an integer sequence within the pixel range.
pub open spec fn all_vals_in_range(s: Seq<i64>) -> bool {
    forall|i: int| 0 <= i < s.len() ==> -COORD_LIMIT <= #[trigger] s[i] <= COORD_LIMIT
}

/// The points made by pairing the two coordinate sequences index by index.
pub open spec fn zip_points(xs: Seq<i64>, ys: Seq<i64>) -> Seq<PixelPoint>
    recommends
        xs.len() == ys.len(),
{
    Seq::new(xs.len(), |i: int| PixelPoint { x: xs[i], y: ys[i] })
}

/// Least-squares fit over separate x and y slices, with the input checks the
/// split form needs: an empty slice is insufficient data (fewer than two
/// points), `DimensionMismatch` when two non-empty slices differ in length,
/// then as `LinearFit::fit` on the paired points.
pub fn fit_line(xs: &Vec<i64>, ys: &Vec<i64>) -> (r: Result<LineParams, RegressionError>)
    requires
        all_vals_in_range(xs@),
        all_vals_in_range(ys@),
        xs@.len() <= MAX_POINTS,
    ensures
        xs@.len() == 0 || ys@.len() == 0 ==> r == Err::<LineParams, RegressionError>(
            RegressionError::InsufficientData,
        ),
        xs@.len() > 0 && ys@.len() > 0 && xs@.len() != ys@.len() ==> r == Err::<
            LineParams,
            RegressionError,
        >(RegressionError::DimensionMismatch),
        xs@.len() == ys@.len() && 0 < xs@.len() < 2 ==> r == Err::<LineParams, RegressionError>(
            RegressionError::InsufficientData,
        ),
        xs@.len() == ys@.len() && xs@.len() >= 2 && sxx_of(zip_points(xs@, ys@)) == 0 ==> r
            == Err::<LineParams, RegressionError>(RegressionError::ZeroVariance),
        xs@.len() == ys@.len() && xs@.len() >= 2 && sxx_of(zip_points(xs@, ys@)) != 0 ==> (r
            matches Ok(p) && p.m == fit_m(zip_points(xs@, ys@)) && p.b == fit_b(
            zip_points(xs@, ys@),
        ) && p.d == fit_d(zip_points(xs@, ys@)) && p.wf()),
{
    if xs.len() == 0 || ys.len() == 0 {
        return Err(RegressionError::InsufficientData);
    }
    if xs.len() != ys.len() {
        return Err(RegressionError::DimensionMismatch);
    }
    if xs.len() < 2 {
        return Err(RegressionError::InsufficientData);
    }
    let mut points: Vec<PixelPoint> = Vec::new();
    let mut i: usize = 0;
    while i < xs.len()
        invariant
            0 <= i <= xs@.len(),
            xs@.len() == ys@.len(),
            points@ == zip_points(xs@, ys@).take(i as int),
        decreases xs@.len() - i,
    {
        points.push(PixelPoint { x: xs[i], y: ys[i] });
        proof {
            assert(zip_points(xs@, ys@).take(i + 1) =~= zip_points(xs@, ys@).take(i as int).push(
                PixelPoint { x: xs@[i as int], y: ys@[i as int] },
            ));
        }
        i = i + 1;
    }
    proof {
        assert(points@ =~= zip_points(xs@, ys@));
        assert forall|j: int| 0 <= j < points@.len() implies #[trigger] points@[j].in_range() by {
            assert(points@[j].x == xs@[j] && points@[j].y == ys@[j]);
        }
    }
    LinearFit::fit(&points)
}

/// Bounds the four running sums and the derived variance/covariance numbers
/// so that the final products provably fit `i128` and `PARAM_LIMIT`.
proof fn lemma_fit_sums_bounded(n: int, sx: int, sy: int, sxy: int, sxx: int, c: int)
    by (nonlinear_arith)
    requires
        0 <= n <= MAX_POINTS,
        c == COORD_LIMIT,
        abs_int(sx) <= n * c,
        abs_int(sy) <= n * c,
        abs_int(sxy) <= n * c * c,
        abs_int(sxx) <= n * c * c,
    ensures
        abs_int(n * sxx) <= 36893488147419103232,
        abs_int(sx * sx) <= 36893488147419103232,
        abs_int(n * sxy) <= 36893488147419103232,
        abs_int(sx * sy) <= 36893488147419103232,
        abs_int(n * sxx - sx * sx) <= 73786976294838206464,
        abs_int(n * sxy - sx * sy) <= 73786976294838206464,
{
}

/// Bounds the final parameter products of the fit.
proof fn lemma_fit_params_bounded(n: int, sx: int, sy: int, vxx: int, vxy: int, c: int)
    requires
        1 <= n <= MAX_POINTS,
        c == COORD_LIMIT,
        abs_int(sx) <= n * c,
        abs_int(sy) <= n * c,
        abs_int(vxx) <= 73786976294838206464,
        abs_int(vxy) <= 73786976294838206464,
        vxx > 0,
    ensures
        abs_int(n * vxy) <= PARAM_LIMIT,
        abs_int(sy * vxx) <= PARAM_LIMIT,
        abs_int(vxy * sx) <= PARAM_LIMIT,
        abs_int(sy * vxx - vxy * sx) <= PARAM_LIMIT,
        1 <= n * vxx <= PARAM_LIMIT,
{
    lemma_abs_mul_bound(n, c, 65536, 65536);
    assert(abs_int(sx) <= 4294967296 && abs_int(sy) <= 4294967296);
    lemma_abs_mul_bound(n, vxy, 65536, 73786976294838206464);
    lemma_abs_mul_bound(n, vxx, 65536, 73786976294838206464);
    lemma_abs_mul_bound(sy, vxx, 4294967296, 73786976294838206464);
    lemma_abs_mul_bound(vxy, sx, 73786976294838206464, 4294967296);
    assert(n * vxx >= 1) by (nonlinear_arith)
        requires
            n >= 1,
            vxx >= 1,
    ;
}

} // verus!

//! Fixed-point 2x2 matrix and 2-vector values for the tracker's Kalman
//! arithmetic.
//!
//! Entries are integers scaled by `SCALE`: the stored value `v` stands for
//! the real number `v / SCALE`. Addition, subtraction and transposition are
//! exact; each product and the inverse round once, truncating toward zero.
//! The spec level works on tuples of unbounded integers, so every contract
//! states the exact rounded value an operation returns.

use vstd::prelude::*;
use crate::geometry::{abs_int, div_trunc, div_trunc_i128};

verus! {

/// The fixed-point scale: stored values are thousandths.
pub const SCALE: i64 = 1000;

/// Magnitude bound on the entries of well-formed tracker quantities; chosen
/// so that chained products stay inside `i128` and results inside `i64`.
pub const FX_LIMIT: i64 = 2147483648;

/// Why a matrix could not be inverted.
#[derive(Clone, Copy, Debug, PartialEq, Eq, Structural)]
pub enum MatrixError {
    /// The determinant is zero; in exact integer arithmetic this is the only
    /// way a matrix can fail to be invertible.
    Singular,
}

/// A fixed-point 2-vector.
#[derive(Clone, Copy, Debug, PartialEq, Eq, Structural)]
pub struct Vec2 {
    pub x: i64,
    pub y: i64,
}

/// A fixed-point 2x2 matrix, row major.
#[derive(Clone, Copy, Debug, PartialEq, Eq, Structural)]
pub struct Mat2 {
    pub m00: i64,
    pub m01: i64,
    pub m10: i64,
    pub m11: i64,
}

/// The integer quadruple behind a matrix, row major.
pub open spec fn qm(m: Mat2) -> (int, int, int, int) {
    (m.m00 as int, m.m01 as int, m.m10 as int, m.m11 as int)
}

/// The integer pair behind a vector.
pub open spec fn qv(v: Vec2) -> (int, int) {
    (v.x as int, v.y as int)
}

/// All four entries within `b` in magnitude.
pub open spec fn q_bounded(q: (int, int, int, int), b: int) -> bool {
    &&& abs_int(q.0) <= b
    &&& abs_int(q.1) <= b
    &&& abs_int(q.2) <= b
    &&& abs_int(q.3) <= b
}

/// Both components within `b` in magnitude.
pub open spec fn v_bounded(p: (int, int), b: int) -> bool {
    abs_int(p.0) <= b && abs_int(p.1) <= b
}

/// One fixed-point rounding: divide a raw double-scale value by `SCALE`,
/// truncating toward zero.
pub open spec fn fx_round(a: int) -> int {
    div_trunc(a, SCALE as int)
}

/// Exact entrywise sum.
pub open spec fn qadd(a: (int, int, int, int), b: (int, int, int, int)) -> (int, int, int, int) {
    (a.0 + b.0, a.1 + b.1, a.2 + b.2, a.3 + b.3)
}

/// Exact entrywise difference.
pub open spec fn qsub(a: (int, int, int, int), b: (int, int, int, int)) -> (int, int, int, int) {
    (a.0 - b.0, a.1 - b.1, a.2 - b.2, a.3 - b.3)
}

/// Exact transpose.
pub open spec fn qtrans(a: (int, int, int, int)) -> (int, int, int, int) {
    (a.0, a.2, a.1, a.3)
}

/// Fixed-point matrix product: each entry is the exact raw dot product,
/// rounded once.
pub open spec fn qmul_fx(a: (int, int, int, int), b: (int, int, int, int)) -> (
    int,
    int,
    int,
    int,
) {
    (
        fx_round(a.0 * b.0 + a.1 * b.2),
        fx_round(a.0 * b.1 + a.1 * b.3),
        fx_round(a.2 * b.0 + a.3 * b.2),
        fx_round(a.2 * b.1 + a.3 * b.3),
    )
}

/// Fixed-point matrix-vector product.
pub open spec fn mv_mul_fx(a: (int, int, int, int), v: (int, int)) -> (int, int) {
    (fx_round(a.0 * v.0 + a.1 * v.1), fx_round(a.2 * v.0 + a.3 * v.1))
}

/// Exact componentwise vector sum.
pub open spec fn vadd(a: (int, int), b: (int, int)) -> (int, int) {
    (a.0 + b.0, a.1 + b.1)
}

/// Exact componentwise vector difference.
pub open spec fn vsub(a: (int, int), b: (int, int)) -> (int, int) {
    (a.0 - b.0, a.1 - b.1)
}

/// Raw determinant `m00*m11 - m01*m10`; its scale is `SCALE` squared.
pub open spec fn qdet(a: (int, int, int, int)) -> int {
    a.0 * a.3 - a.1 * a.2
}

/// Fixed-point inverse: the adjugate over the determinant, each entry
/// rounded once. `adj * SCALE² / det` keeps the result on the `SCALE` grid.
pub open spec fn qinv_fx(a: (int, int, int, int)) -> (int, int, int, int)
    recommends
        qdet(a) != 0,
{
    (
        div_trunc(a.3 * SCALE * SCALE, qdet(a)),
        div_trunc(-a.1 * SCALE * SCALE, qdet(a)),
        div_trunc(-a.2 * SCALE * SCALE, qdet(a)),
        div_trunc(a.0 * SCALE * SCALE, qdet(a)),
    )
}

/// The identity matrix's quadruple: ones on the diagonal, at scale.
pub open spec fn q_identity() -> (int, int, int, int) {
    (SCALE as int, 0, 0, SCALE as int)
}

/// `|x / SCALE| <= c / SCALE` whenever `|x| <= c`: one rounding cannot grow
/// a bound.
proof fn lemma_fx_round_bound(x: int, c: int)
    requires
        abs_int(x) <= c,
    ensures
        abs_int(fx_round(x)) <= c / (SCALE as int),
{
    vstd::arithmetic::div_mod::lemma_div_is_ordered(abs_int(x), c, SCALE as int);
}

impl Vec2 {
    pub fn new(x: i64, y: i64) -> (v: Vec2)
        ensures
            v.x == x,
            v.y == y,
    {
        Vec2 { x, y }
    }

    /// The zero vector.
    pub fn zeros() -> (v: Vec2)
        ensures
            v.x == 0,
            v.y == 0,
    {
        Vec2 { x: 0, y: 0 }
    }

    /// Exact componentwise sum.
    pub fn add(&self, other: &Vec2) -> (r: Vec2)
        requires
            v_bounded(qv(*self), 4611686018427387903),
            v_bounded(qv(*other), 4611686018427387903),
        ensures
            qv(r) == vadd(qv(*self), qv(*other)),
    {
        Vec2 { x: self.x + other.x, y: self.y + other.y }
    }

    /// Exact componentwise difference.
    pub fn sub(&self, other: &Vec2) -> (r: Vec2)
        requires
            v_bounded(qv(*self), 4611686018427387903),
            v_bounded(qv(*other), 4611686018427387903),
        ensures
            qv(r) == vsub(qv(*self), qv(*other)),
    {
        Vec2 { x: self.x - other.x, y: self.y - other.y }
    }

    /// Fixed-point dot product, one truncating rounding.
    pub fn dot(&self, other: &Vec2) -> (r: i64)
        requires
            v_bounded(qv(*self), 4294967296),
            v_bounded(qv(*other), 4294967296),
        ensures
            r == fx_round(qv(*self).0 * qv(*other).0 + qv(*self).1 * qv(*other).1),
    {
        proof {
            lemma_dot_products_bounded(qv(*self), qv(*other), 4294967296);
            lemma_fx_round_bound(qv(*self).0 * qv(*other).0 + qv(*self).1 * qv(*other).1,
                36893488147419103232);
        }
        div_trunc_i128(
            (self.x as i128) * (other.x as i128) + (self.y as i128) * (other.y as i128),
            SCALE as i128,
        ) as i64
    }

    /// Fixed-point scaling by a scalar, one truncating rounding per
    /// component.
    pub fn scale(&self, factor: i64) -> (r: Vec2)
        requires
            v_bounded(qv(*self), 4294967296),
            abs_int(factor as int) <= 4294967296,
        ensures
            qv(r) == (fx_round(qv(*self).0 * factor), fx_round(qv(*self).1 * factor)),
    {
        proof {
            lemma_dot_products_bounded(qv(*self), (factor as int, factor as int), 4294967296);
            lemma_fx_round_bound(qv(*self).0 * (factor as int), 36893488147419103232);
            lemma_fx_round_bound(qv(*self).1 * (factor as int), 36893488147419103232);
        }
        Vec2 {
            x: div_trunc_i128((self.x as i128) * (factor as i128), SCALE as i128) as i64,
            y: div_trunc_i128((self.y as i128) * (factor as i128), SCALE as i128) as i64,
        }
    }
}

/// Bounds the products of one vector pairing.
proof fn lemma_dot_products_bounded(a: (int, int), b: (int, int), c: int)
    by (nonlinear_arith)
    requires
        c >= 0,
        v_bounded(a, c),
        v_bounded(b, c),
    ensures
        abs_int(a.0 * b.0) <= c * c,
        abs_int(a.1 * b.1) <= c * c,
        abs_int(a.0 * b.0 + a.1 * b.1) <= 2 * c * c,
{
}

impl Mat2 {
    pub fn new(m00: i64, m01: i64, m10: i64, m11: i64) -> (m: Mat2)
        ensures
            m == (Mat2 { m00, m01, m10, m11 }),
    {
        Mat2 { m00, m01, m10, m11 }
    }

    /// The identity at scale: real ones on the diagonal.
    pub fn identity() -> (m: Mat2)
        ensures
            qm(m) == q_identity(),
    {
        Mat2 { m00: SCALE, m01: 0, m10: 0, m11: SCALE }
    }

    /// A diagonal matrix with one value on both diagonal entries, the shape
    /// isotropic noise takes.
    pub fn diagonal(v: i64) -> (m: Mat2)
        ensures
            qm(m) == (v as int, 0int, 0int, v as int),
    {
        Mat2 { m00: v, m01: 0, m10: 0, m11: v }
    }

    /// Exact entrywise sum.
    pub fn add(&self, other: &Mat2) -> (r: Mat2)
        requires
            q_bounded(qm(*self), 4611686018427387903),
            q_bounded(qm(*other), 4611686018427387903),
        ensures
            qm(r) == qadd(qm(*self), qm(*other)),
    {
        Mat2 {
            m00: self.m00 + other.m00,
            m01: self.m01 + other.m01,
            m10: self.m10 + other.m10,
            m11: self.m11 + other.m11,
        }
    }

    /// Exact entrywise difference.
    pub fn sub(&self, other: &Mat2) -> (r: Mat2)
        requires
            q_bounded(qm(*self), 4611686018427387903),
            q_bounded(qm(*other), 4611686018427387903),
        ensures
            qm(r) == qsub(qm(*self), qm(*other)),
    {
        Mat2 {
            m00: self.m00 - other.m00,
            m01: self.m01 - other.m01,
            m10: self.m10 - other.m10,
            m11: self.m11 - other.m11,
        }
    }

    /// Exact transpose.
    pub fn transpose(&self) -> (r: Mat2)
        ensures
            qm(r) == qtrans(qm(*self)),
    {
        Mat2 { m00: self.m00, m01: self.m10, m10: self.m01, m11: self.m11 }
    }

    /// Raw determinant, at scale squared; exact.
    pub fn det_raw(&self) -> (d: i128)
        requires
            q_bounded(qm(*self), 4294967296),
        ensures
            d == qdet(qm(*self)),
    {
        proof {
            lemma_mat_products_bounded(qm(*self), qm(*self), 4294967296);
        }
        (self.m00 as i128) * (self.m11 as i128) - (self.m01 as i128) * (self.m10 as i128)
    }

    /// Fixed-point matrix product, one truncating rounding per entry.
    pub fn multiply(&self, other: &Mat2) -> (r: Mat2)
        requires
            q_bounded(qm(*self), 4294967296),
            q_bounded(qm(*other), 4294967296),
        ensures
            qm(r) == qmul_fx(qm(*self), qm(*other)),
            q_bounded(qm(r), 36893488147419103),
    {
        proof {
            lemma_mat_products_bounded(qm(*self), qm(*other), 4294967296);
            lemma_fx_round_bound(qm(*self).0 * qm(*other).0 + qm(*self).1 * qm(*other).2,
                36893488147419103232);
            lemma_fx_round_bound(qm(*self).0 * qm(*other).1 + qm(*self).1 * qm(*other).3,
                36893488147419103232);
            lemma_fx_round_bound(qm(*self).2 * qm(*other).0 + qm(*self).3 * qm(*other).2,
                36893488147419103232);
            lemma_fx_round_bound(qm(*self).2 * qm(*other).1 + qm(*self).3 * qm(*other).3,
                36893488147419103232);
        }
        let r00 = div_trunc_i128(
            (self.m00 as i128) * (other.m00 as i128) + (self.m01 as i128) * (other.m10 as i128),
            SCALE as i128,
        );
        let r01 = div_trunc_i128(
            (self.m00 as i128) * (other.m01 as i128) + (self.m01 as i128) * (other.m11 as i128),
            SCALE as i128,
        );
        let r10 = div_trunc_i128(
            (self.m10 as i128) * (other.m00 as i128) + (self.m11 as i128) * (other.m10 as i128),
            SCALE as i128,
        );
        let r11 = div_trunc_i128(
            (self.m10 as i128) * (other.m01 as i128) + (self.m11 as i128) * (other.m11 as i128),
            SCALE as i128,
        );
        Mat2 { m00: r00 as i64, m01: r01 as i64, m10: r10 as i64, m11: r11 as i64 }
    }

    /// Fixed-point matrix-vector product, one truncating rounding per
    /// component.
    pub fn mul_vec(&self, v: &Vec2) -> (r: Vec2)
        requires
            q_bounded(qm(*self), 4294967296),
            v_bounded(qv(*v), 4294967296),
        ensures
            qv(r) == mv_mul_fx(qm(*self), qv(*v)),
            v_bounded(qv(r), 36893488147419103),
    {
        proof {
            lemma_mv_products_bounded(qm(*self), qv(*v), 4294967296);
            lemma_fx_round_bound(qm(*self).0 * qv(*v).0 + qm(*self).1 * qv(*v).1,
                36893488147419103232);
            lemma_fx_round_bound(qm(*self).2 * qv(*v).0 + qm(*self).3 * qv(*v).1,
                36893488147419103232);
        }
        let rx = div_trunc_i128(
            (self.m00 as i128) * (v.x as i128) + (self.m01 as i128) * (v.y as i128),
            SCALE as i128,
        );
        let ry = div_trunc_i128(
            (self.m10 as i128) * (v.x as i128) + (self.m11 as i128) * (v.y as i128),
            SCALE as i128,
        );
        Vec2 { x: rx as i64, y: ry as i64 }
    }

    /// Fixed-point inverse: fails exactly when the determinant is zero,
    /// otherwise returns the adjugate over the determinant, each entry
    /// rounded once toward zero.
    pub fn inverse(&self) -> (r: Result<Mat2, MatrixError>)
        requires
            q_bounded(qm(*self), 4294967296),
        ensures
            qdet(qm(*self)) == 0 ==> r == Err::<Mat2, MatrixError>(MatrixError::Singular),
            qdet(qm(*self)) != 0 ==> (r matches Ok(m) && qm(m) == qinv_fx(qm(*self))
                && q_bounded(qm(m), 4294967296000000)),
    {
        let det = self.det_raw();
        if det == 0 {
            return Err(MatrixError::Singular);
        }
        proof {
            lemma_mat_products_bounded(qm(*self), qm(*self), 4294967296);
            lemma_inv_numerators_bounded(qm(*self), 4294967296);
            crate::geometry::lemma_div_trunc_bound(qm(*self).3 * SCALE * SCALE, qdet(qm(*self)));
            crate::geometry::lemma_div_trunc_bound(-qm(*self).1 * SCALE * SCALE, qdet(qm(*self)));
            crate::geometry::lemma_div_trunc_bound(-qm(*self).2 * SCALE * SCALE, qdet(qm(*self)));
            crate::geometry::lemma_div_trunc_bound(qm(*self).0 * SCALE * SCALE, qdet(qm(*self)));
        }
        let i00 = div_trunc_i128((self.m11 as i128) * 1000000, det);
        let i01 = div_trunc_i128(-(self.m01 as i128) * 1000000, det);
        let i10 = div_trunc_i128(-(self.m10 as i128) * 1000000, det);
        let i11 = div_trunc_i128((self.m00 as i128) * 1000000, det);
        Ok(Mat2 { m00: i00 as i64, m01: i01 as i64, m10: i10 as i64, m11: i11 as i64 })
    }
}

/// All cross products of entries of two matrices bounded by `b` stay within
/// `b * b`, and their pairwise sums within `2 * b * b`.
proof fn lemma_mat_products_bounded(a: (int, int, int, int), b: (int, int, int, int), c: int)
    by (nonlinear_arith)
    requires
        c >= 0,
        q_bounded(a, c),
        q_bounded(b, c),
    ensures
        abs_int(a.0 * b.0) <= c * c,
        abs_int(a.0 * b.1) <= c * c,
        abs_int(a.1 * b.2) <= c * c,
        abs_int(a.1 * b.3) <= c * c,
        abs_int(a.2 * b.0) <= c * c,
        abs_int(a.2 * b.1) <= c * c,
        abs_int(a.3 * b.2) <= c * c,
        abs_int(a.3 * b.3) <= c * c,
        abs_int(a.0 * b.3) <= c * c,
        abs_int(a.0 * b.0 + a.1 * b.2) <= 2 * c * c,
        abs_int(a.0 * b.1 + a.1 * b.3) <= 2 * c * c,
        abs_int(a.2 * b.0 + a.3 * b.2) <= 2 * c * c,
        abs_int(a.2 * b.1 + a.3 * b.3) <= 2 * c * c,
        abs_int(a.0 * b.3 - a.1 * b.2) <= 2 * c * c,
{
}

/// The same bound for a matrix-vector product.
proof fn lemma_mv_products_bounded(a: (int, int, int, int), v: (int, int), c: int)
    by (nonlinear_arith)
    requires
        c >= 0,
        q_bounded(a, c),
        v_bounded(v, c),
    ensures
        abs_int(a.0 * v.0) <= c * c,
        abs_int(a.1 * v.1) <= c * c,
        abs_int(a.2 * v.0) <= c * c,
        abs_int(a.3 * v.1) <= c * c,
        abs_int(a.0 * v.0 + a.1 * v.1) <= 2 * c * c,
        abs_int(a.2 * v.0 + a.3 * v.1) <= 2 * c * c,
{
}

/// The adjugate entries scaled by `SCALE²` stay within `c * SCALE²`.
proof fn lemma_inv_numerators_bounded(a: (int, int, int, int), c: int)
    by (nonlinear_arith)
    requires
        c >= 0,
        q_bounded(a, c),
    ensures
        abs_int(a.3 * SCALE * SCALE) <= c * 1000000,
        abs_int(-a.1 * SCALE * SCALE) <= c * 1000000,
        abs_int(-a.2 * SCALE * SCALE) <= c * 1000000,
        abs_int(a.0 * SCALE * SCALE) <= c * 1000000,
{
}

} // verus!

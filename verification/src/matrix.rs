//! Square matrices of fixed-point entries, row-major, with determinants by
//! cofactor expansion and inversion as adjugate over determinant.  Inversion
//! of a singular matrix (fixed-point determinant zero) is surfaced as `None`
//! rather than a division by zero.

use vstd::prelude::*;
use crate::math::{
    abs_i, add_s, div_s, mul_s, neg_s, fadd, fdiv, fmul, fneg, float_equal, EPSILON,
};
use crate::tuple::Tuple;

verus! {

#[derive(Clone, PartialEq, Eq, Debug)]
pub struct Matrix2 {
    pub values: Vec<i64>,
}

#[derive(Clone, PartialEq, Eq, Debug)]
pub struct Matrix3 {
    pub values: Vec<i64>,
}

#[derive(Clone, PartialEq, Eq, Debug)]
pub struct Matrix4 {
    pub values: Vec<i64>,
}

/// Determinant of a 2x2 block given entrywise: `ad - bc`.
pub open spec fn det2e(a: i64, b: i64, c: i64, d: i64) -> i64 {
    sub2e(mul_s(a, d), mul_s(b, c))
}

pub open spec fn sub2e(a: i64, b: i64) -> i64 {
    crate::math::sub_s(a, b)
}

/// Row or column index of the containing matrix once row/column `s` is
/// dropped.
pub open spec fn skip_s(k: int, s: int) -> int {
    if k < s { k } else { k + 1 }
}

impl Matrix2 {
    pub open spec fn wf(self) -> bool {
        self.values.len() == 4
    }

    pub open spec fn idx(self, i: int, j: int) -> i64 {
        self.values@[i * 2 + j]
    }

    pub fn new_empty() -> (m: Matrix2)
        ensures
            m.wf(),
            m.values@ == seq![0i64, 0i64, 0i64, 0i64],
    {
        let mut values: Vec<i64> = Vec::new();
        values.push(0);
        values.push(0);
        values.push(0);
        values.push(0);
        proof {
            assert(values@ =~= seq![0i64, 0i64, 0i64, 0i64]);
        }
        Matrix2 { values }
    }

    pub fn new(m11: i64, m12: i64, m21: i64, m22: i64) -> (m: Matrix2)
        ensures
            m.wf(),
            m.values@ == seq![m11, m12, m21, m22],
    {
        let mut values: Vec<i64> = Vec::new();
        values.push(m11);
        values.push(m12);
        values.push(m21);
        values.push(m22);
        proof {
            assert(values@ =~= seq![m11, m12, m21, m22]);
        }
        Matrix2 { values }
    }

    pub fn get(&self, i: usize, j: usize) -> (r: i64)
        requires
            self.wf(),
            i < 2,
            j < 2,
        ensures
            r == self.idx(i as int, j as int),
    {
        self.values[i * 2 + j]
    }
}

/// Determinant of a 2x2 matrix.
pub open spec fn det2_s(m: Matrix2) -> i64 {
    det2e(m.idx(0, 0), m.idx(0, 1), m.idx(1, 0), m.idx(1, 1))
}

pub fn determinant2(m: &Matrix2) -> (r: i64)
    requires
        m.wf(),
    ensures
        r == det2_s(*m),
{
    crate::math::fsub(fmul(m.get(0, 0), m.get(1, 1)), fmul(m.get(0, 1), m.get(1, 0)))
}

impl Matrix3 {
    pub open spec fn wf(self) -> bool {
        self.values.len() == 9
    }

    pub open spec fn idx(self, i: int, j: int) -> i64 {
        self.values@[i * 3 + j]
    }

    pub fn new_empty() -> (m: Matrix3)
        ensures
            m.wf(),
            forall|i: int, j: int| 0 <= i < 3 && 0 <= j < 3 ==> m.idx(i, j) == 0i64,
    {
        Matrix3::new(0, 0, 0, 0, 0, 0, 0, 0, 0)
    }

    pub fn new(
        m11: i64,
        m12: i64,
        m13: i64,
        m21: i64,
        m22: i64,
        m23: i64,
        m31: i64,
        m32: i64,
        m33: i64,
    ) -> (m: Matrix3)
        ensures
            m.wf(),
            m.values@ == seq![m11, m12, m13, m21, m22, m23, m31, m32, m33],
    {
        let mut values: Vec<i64> = Vec::new();
        values.push(m11);
        values.push(m12);
        values.push(m13);
        values.push(m21);
        values.push(m22);
        values.push(m23);
        values.push(m31);
        values.push(m32);
        values.push(m33);
        proof {
            assert(values@ =~= seq![m11, m12, m13, m21, m22, m23, m31, m32, m33]);
        }
        Matrix3 { values }
    }

    pub fn get(&self, i: usize, j: usize) -> (r: i64)
        requires
            self.wf(),
            i < 3,
            j < 3,
        ensures
            r == self.idx(i as int, j as int),
    {
        self.values[i * 3 + j]
    }
}

fn skip_idx(k: usize, s: usize) -> (r: usize)
    requires
        k < 3,
    ensures
        r as int == skip_s(k as int, s as int),
        r <= k + 1,
{
    if k < s { k } else { k + 1 }
}

/// The 2x2 matrix left when row `skip_i` and column `skip_j` are dropped.
pub fn submatrix3(m: &Matrix3, skip_i: usize, skip_j: usize) -> (r: Matrix2)
    requires
        m.wf(),
        skip_i < 3,
        skip_j < 3,
    ensures
        r.wf(),
        r.idx(0, 0) == m.idx(skip_s(0, skip_i as int), skip_s(0, skip_j as int)),
        r.idx(0, 1) == m.idx(skip_s(0, skip_i as int), skip_s(1, skip_j as int)),
        r.idx(1, 0) == m.idx(skip_s(1, skip_i as int), skip_s(0, skip_j as int)),
        r.idx(1, 1) == m.idx(skip_s(1, skip_i as int), skip_s(1, skip_j as int)),
{
    let r0 = skip_idx(0, skip_i);
    let r1 = skip_idx(1, skip_i);
    let c0 = skip_idx(0, skip_j);
    let c1 = skip_idx(1, skip_j);
    Matrix2::new(m.get(r0, c0), m.get(r0, c1), m.get(r1, c0), m.get(r1, c1))
}

/// Minor of a 3x3 matrix: determinant of the complementary 2x2 block.
pub open spec fn minor3_s(m: Matrix3, i: int, j: int) -> i64 {
    det2e(
        m.idx(skip_s(0, i), skip_s(0, j)),
        m.idx(skip_s(0, i), skip_s(1, j)),
        m.idx(skip_s(1, i), skip_s(0, j)),
        m.idx(skip_s(1, i), skip_s(1, j)),
    )
}

pub fn minor3(m: &Matrix3, i: usize, j: usize) -> (r: i64)
    requires
        m.wf(),
        i < 3,
        j < 3,
    ensures
        r == minor3_s(*m, i as int, j as int),
{
    let submatrix = submatrix3(m, i, j);
    determinant2(&submatrix)
}

/// Cofactor: the minor with the checkerboard sign.
pub open spec fn cofactor3_s(m: Matrix3, i: int, j: int) -> i64 {
    if (i + j) % 2 == 0 { minor3_s(m, i, j) } else { neg_s(minor3_s(m, i, j)) }
}

pub fn cofactor3(m: &Matrix3, i: usize, j: usize) -> (r: i64)
    requires
        m.wf(),
        i < 3,
        j < 3,
    ensures
        r == cofactor3_s(*m, i as int, j as int),
{
    let minor = minor3(m, i, j);
    if ((i + j) % 2) == 0 {
        minor
    } else {
        fneg(minor)
    }
}

/// Determinant of a 3x3 matrix by cofactor expansion along the first row.
pub open spec fn det3_s(m: Matrix3) -> i64 {
    add_s(
        add_s(mul_s(m.idx(0, 0), cofactor3_s(m, 0, 0)), mul_s(m.idx(0, 1), cofactor3_s(m, 0, 1))),
        mul_s(m.idx(0, 2), cofactor3_s(m, 0, 2)),
    )
}

pub fn determinant3(m: &Matrix3) -> (r: i64)
    requires
        m.wf(),
    ensures
        r == det3_s(*m),
{
    let t0 = fmul(m.get(0, 0), cofactor3(m, 0, 0));
    let t1 = fmul(m.get(0, 1), cofactor3(m, 0, 1));
    let t2 = fmul(m.get(0, 2), cofactor3(m, 0, 2));
    fadd(fadd(t0, t1), t2)
}

impl Matrix4 {
    pub open spec fn wf(self) -> bool {
        self.values.len() == 16
    }

    pub open spec fn idx(self, i: int, j: int) -> i64 {
        self.values@[i * 4 + j]
    }

    pub fn new_empty() -> (m: Matrix4)
        ensures
            m.wf(),
            forall|i: int, j: int| 0 <= i < 4 && 0 <= j < 4 ==> m.idx(i, j) == 0i64,
    {
        Matrix4::new(0, 0, 0, 0, 0, 0, 0, 0, 0, 0, 0, 0, 0, 0, 0, 0)
    }

    pub fn new(
        m11: i64,
        m12: i64,
        m13: i64,
        m14: i64,
        m21: i64,
        m22: i64,
        m23: i64,
        m24: i64,
        m31: i64,
        m32: i64,
        m33: i64,
        m34: i64,
        m41: i64,
        m42: i64,
        m43: i64,
        m44: i64,
    ) -> (m: Matrix4)
        ensures
            m.wf(),
            m.values@ == seq![
                m11, m12, m13, m14, m21, m22, m23, m24, m31, m32, m33, m34, m41, m42, m43, m44,
            ],
    {
        let mut values: Vec<i64> = Vec::new();
        values.push(m11);
        values.push(m12);
        values.push(m13);
        values.push(m14);
        values.push(m21);
        values.push(m22);
        values.push(m23);
        values.push(m24);
        values.push(m31);
        values.push(m32);
        values.push(m33);
        values.push(m34);
        values.push(m41);
        values.push(m42);
        values.push(m43);
        values.push(m44);
        proof {
            assert(values@ =~= seq![
                m11, m12, m13, m14, m21, m22, m23, m24, m31, m32, m33, m34, m41, m42, m43, m44,
            ]);
        }
        Matrix4 { values }
    }

    pub fn get(&self, i: usize, j: usize) -> (r: i64)
        requires
            self.wf(),
            i < 4,
            j < 4,
        ensures
            r == self.idx(i as int, j as int),
    {
        self.values[i * 4 + j]
    }

    /// Rows and columns exchanged.
    pub fn transpose(&self) -> (r: Matrix4)
        requires
            self.wf(),
        ensures
            r.wf(),
            forall|i: int, j: int| 0 <= i < 4 && 0 <= j < 4 ==> r.idx(i, j) == self.idx(j, i),
    {
        let r = Matrix4::new(
            self.get(0, 0),
            self.get(1, 0),
            self.get(2, 0),
            self.get(3, 0),
            self.get(0, 1),
            self.get(1, 1),
            self.get(2, 1),
            self.get(3, 1),
            self.get(0, 2),
            self.get(1, 2),
            self.get(2, 2),
            self.get(3, 2),
            self.get(0, 3),
            self.get(1, 3),
            self.get(2, 3),
            self.get(3, 3),
        );
        proof {
            assert forall|i: int, j: int| 0 <= i < 4 && 0 <= j < 4 implies r.idx(i, j) == self.idx(
                j,
                i,
            ) by {
                assert(0 <= i * 4 + j < 16);
            }
        }
        r
    }

    /// Matrix product, each entry the fixed-point dot product of a row of
    /// `self` with a column of `other`.
    pub fn mul(&self, other: &Matrix4) -> (r: Matrix4)
        requires
            self.wf(),
            other.wf(),
        ensures
            r.wf(),
            forall|i: int, j: int|
                0 <= i < 4 && 0 <= j < 4 ==> r.idx(i, j) == mul4_entry(*self, *other, i, j),
    {
        let r = Matrix4::new(
            row_col(self, other, 0, 0),
            row_col(self, other, 0, 1),
            row_col(self, other, 0, 2),
            row_col(self, other, 0, 3),
            row_col(self, other, 1, 0),
            row_col(self, other, 1, 1),
            row_col(self, other, 1, 2),
            row_col(self, other, 1, 3),
            row_col(self, other, 2, 0),
            row_col(self, other, 2, 1),
            row_col(self, other, 2, 2),
            row_col(self, other, 2, 3),
            row_col(self, other, 3, 0),
            row_col(self, other, 3, 1),
            row_col(self, other, 3, 2),
            row_col(self, other, 3, 3),
        );
        proof {
            assert forall|i: int, j: int| 0 <= i < 4 && 0 <= j < 4 implies r.idx(i, j)
                == mul4_entry(*self, *other, i, j) by {
                assert(0 <= i * 4 + j < 16);
            }
        }
        r
    }

    /// The image of a tuple under the matrix.
    pub fn mul_tuple(&self, t: &Tuple) -> (r: Tuple)
        requires
            self.wf(),
        ensures
            r == mul_tuple_s(*self, *t),
    {
        let x = fadd(
            fadd(fadd(fmul(self.get(0, 0), t.x), fmul(self.get(0, 1), t.y)), fmul(self.get(0, 2), t.z)),
            fmul(self.get(0, 3), t.w),
        );
        let y = fadd(
            fadd(fadd(fmul(self.get(1, 0), t.x), fmul(self.get(1, 1), t.y)), fmul(self.get(1, 2), t.z)),
            fmul(self.get(1, 3), t.w),
        );
        let z = fadd(
            fadd(fadd(fmul(self.get(2, 0), t.x), fmul(self.get(2, 1), t.y)), fmul(self.get(2, 2), t.z)),
            fmul(self.get(2, 3), t.w),
        );
        let w = fadd(
            fadd(fadd(fmul(self.get(3, 0), t.x), fmul(self.get(3, 1), t.y)), fmul(self.get(3, 2), t.z)),
            fmul(self.get(3, 3), t.w),
        );
        Tuple { x, y, z, w }
    }

    /// Tolerant comparison: every entry within `EPSILON`.
    pub fn approx_eq(&self, other: &Matrix4) -> (r: bool)
        requires
            self.wf(),
            other.wf(),
        ensures
            r == forall|i: int, j: int|
                0 <= i < 4 && 0 <= j < 4 ==> abs_i(self.idx(i, j) - other.idx(i, j)) <= EPSILON,
    {
        let mut i: usize = 0;
        while i < 4
            invariant
                self.wf(),
                other.wf(),
                i <= 4,
                forall|a: int, b: int|
                    0 <= a < i && 0 <= b < 4 ==> abs_i(self.idx(a, b) - other.idx(a, b)) <= EPSILON,
            decreases 4 - i,
        {
            let mut j: usize = 0;
            while j < 4
                invariant
                    self.wf(),
                    other.wf(),
                    i < 4,
                    j <= 4,
                    forall|a: int, b: int|
                        0 <= a < i && 0 <= b < 4 ==> abs_i(self.idx(a, b) - other.idx(a, b))
                            <= EPSILON,
                    forall|b: int|
                        0 <= b < j ==> abs_i(self.idx(i as int, b) - other.idx(i as int, b))
                            <= EPSILON,
                decreases 4 - j,
            {
                if !float_equal(self.get(i, j), other.get(i, j)) {
                    return false;
                }
                j = j + 1;
            }
            i = i + 1;
        }
        true
    }
}

/// One entry of a matrix product.
pub open spec fn mul4_entry(a: Matrix4, b: Matrix4, i: int, j: int) -> i64 {
    add_s(
        add_s(
            add_s(mul_s(a.idx(i, 0), b.idx(0, j)), mul_s(a.idx(i, 1), b.idx(1, j))),
            mul_s(a.idx(i, 2), b.idx(2, j)),
        ),
        mul_s(a.idx(i, 3), b.idx(3, j)),
    )
}

fn row_col(a: &Matrix4, b: &Matrix4, i: usize, j: usize) -> (r: i64)
    requires
        a.wf(),
        b.wf(),
        i < 4,
        j < 4,
    ensures
        r == mul4_entry(*a, *b, i as int, j as int),
{
    fadd(
        fadd(
            fadd(fmul(a.get(i, 0), b.get(0, j)), fmul(a.get(i, 1), b.get(1, j))),
            fmul(a.get(i, 2), b.get(2, j)),
        ),
        fmul(a.get(i, 3), b.get(3, j)),
    )
}

/// The image of a tuple under a matrix.
pub open spec fn mul_tuple_s(m: Matrix4, t: Tuple) -> Tuple {
    Tuple {
        x: add_s(
            add_s(add_s(mul_s(m.idx(0, 0), t.x), mul_s(m.idx(0, 1), t.y)), mul_s(m.idx(0, 2), t.z)),
            mul_s(m.idx(0, 3), t.w),
        ),
        y: add_s(
            add_s(add_s(mul_s(m.idx(1, 0), t.x), mul_s(m.idx(1, 1), t.y)), mul_s(m.idx(1, 2), t.z)),
            mul_s(m.idx(1, 3), t.w),
        ),
        z: add_s(
            add_s(add_s(mul_s(m.idx(2, 0), t.x), mul_s(m.idx(2, 1), t.y)), mul_s(m.idx(2, 2), t.z)),
            mul_s(m.idx(2, 3), t.w),
        ),
        w: add_s(
            add_s(add_s(mul_s(m.idx(3, 0), t.x), mul_s(m.idx(3, 1), t.y)), mul_s(m.idx(3, 2), t.z)),
            mul_s(m.idx(3, 3), t.w),
        ),
    }
}

/// The image of a tuple under the transpose of a matrix.
pub open spec fn mul_transpose_tuple_s(m: Matrix4, t: Tuple) -> Tuple {
    Tuple {
        x: add_s(
            add_s(add_s(mul_s(m.idx(0, 0), t.x), mul_s(m.idx(1, 0), t.y)), mul_s(m.idx(2, 0), t.z)),
            mul_s(m.idx(3, 0), t.w),
        ),
        y: add_s(
            add_s(add_s(mul_s(m.idx(0, 1), t.x), mul_s(m.idx(1, 1), t.y)), mul_s(m.idx(2, 1), t.z)),
            mul_s(m.idx(3, 1), t.w),
        ),
        z: add_s(
            add_s(add_s(mul_s(m.idx(0, 2), t.x), mul_s(m.idx(1, 2), t.y)), mul_s(m.idx(2, 2), t.z)),
            mul_s(m.idx(3, 2), t.w),
        ),
        w: add_s(
            add_s(add_s(mul_s(m.idx(0, 3), t.x), mul_s(m.idx(1, 3), t.y)), mul_s(m.idx(2, 3), t.z)),
            mul_s(m.idx(3, 3), t.w),
        ),
    }
}

/// Minor of a 4x4 matrix: determinant of the complementary 3x3 block,
/// expanded along its first row.
#[verifier::opaque]
pub open spec fn minor4_s(m: Matrix4, i: int, j: int) -> i64 {
    det3e(
        m.idx(skip_s(0, i), skip_s(0, j)),
        m.idx(skip_s(0, i), skip_s(1, j)),
        m.idx(skip_s(0, i), skip_s(2, j)),
        m.idx(skip_s(1, i), skip_s(0, j)),
        m.idx(skip_s(1, i), skip_s(1, j)),
        m.idx(skip_s(1, i), skip_s(2, j)),
        m.idx(skip_s(2, i), skip_s(0, j)),
        m.idx(skip_s(2, i), skip_s(1, j)),
        m.idx(skip_s(2, i), skip_s(2, j)),
    )
}

/// Determinant of a 3x3 block given entrywise, expanded along the first row.
pub open spec fn det3e(
    a00: i64,
    a01: i64,
    a02: i64,
    a10: i64,
    a11: i64,
    a12: i64,
    a20: i64,
    a21: i64,
    a22: i64,
) -> i64 {
    add_s(
        add_s(
            mul_s(a00, det2e(a11, a12, a21, a22)),
            mul_s(a01, neg_s(det2e(a10, a12, a20, a22))),
        ),
        mul_s(a02, det2e(a10, a11, a20, a21)),
    )
}

/// The 3x3 matrix left when row `skip_i` and column `skip_j` are dropped.
pub fn submatrix4(m: &Matrix4, skip_i: usize, skip_j: usize) -> (r: Matrix3)
    requires
        m.wf(),
        skip_i < 4,
        skip_j < 4,
    ensures
        r.wf(),
        forall|a: int, b: int|
            0 <= a < 3 && 0 <= b < 3 ==> r.idx(a, b) == m.idx(
                skip_s(a, skip_i as int),
                skip_s(b, skip_j as int),
            ),
{
    let r0 = skip_idx(0, skip_i);
    let r1 = skip_idx(1, skip_i);
    let r2 = skip_idx(2, skip_i);
    let c0 = skip_idx(0, skip_j);
    let c1 = skip_idx(1, skip_j);
    let c2 = skip_idx(2, skip_j);
    let r = Matrix3::new(
        m.get(r0, c0),
        m.get(r0, c1),
        m.get(r0, c2),
        m.get(r1, c0),
        m.get(r1, c1),
        m.get(r1, c2),
        m.get(r2, c0),
        m.get(r2, c1),
        m.get(r2, c2),
    );
    proof {
        assert forall|a: int, b: int| 0 <= a < 3 && 0 <= b < 3 implies r.idx(a, b) == m.idx(
            skip_s(a, skip_i as int),
            skip_s(b, skip_j as int),
        ) by {
            assert(0 <= a * 3 + b < 9);
        }
    }
    r
}

pub fn minor4(m: &Matrix4, i: usize, j: usize) -> (r: i64)
    requires
        m.wf(),
        i < 4,
        j < 4,
    ensures
        r == minor4_s(*m, i as int, j as int),
{
    let submatrix = submatrix4(m, i, j);
    let r = determinant3(&submatrix);
    proof {
        reveal(minor4_s);
    }
    r
}

/// Cofactor: the minor with the checkerboard sign.
pub open spec fn cofactor4_s(m: Matrix4, i: int, j: int) -> i64 {
    if (i + j) % 2 == 0 { minor4_s(m, i, j) } else { neg_s(minor4_s(m, i, j)) }
}

pub fn cofactor4(m: &Matrix4, i: usize, j: usize) -> (r: i64)
    requires
        m.wf(),
        i < 4,
        j < 4,
    ensures
        r == cofactor4_s(*m, i as int, j as int),
{
    let minor = minor4(m, i, j);
    if ((i + j) % 2) == 0 {
        minor
    } else {
        fneg(minor)
    }
}

/// Determinant of a 4x4 matrix by cofactor expansion along the first row.
pub open spec fn det4_s(m: Matrix4) -> i64 {
    add_s(
        add_s(
            add_s(
                mul_s(m.idx(0, 0), cofactor4_s(m, 0, 0)),
                mul_s(m.idx(0, 1), cofactor4_s(m, 0, 1)),
            ),
            mul_s(m.idx(0, 2), cofactor4_s(m, 0, 2)),
        ),
        mul_s(m.idx(0, 3), cofactor4_s(m, 0, 3)),
    )
}

pub fn determinant4(m: &Matrix4) -> (r: i64)
    requires
        m.wf(),
    ensures
        r == det4_s(*m),
{
    let t0 = fmul(m.get(0, 0), cofactor4(m, 0, 0));
    let t1 = fmul(m.get(0, 1), cofactor4(m, 0, 1));
    let t2 = fmul(m.get(0, 2), cofactor4(m, 0, 2));
    let t3 = fmul(m.get(0, 3), cofactor4(m, 0, 3));
    fadd(fadd(fadd(t0, t1), t2), t3)
}

/// Whether the fixed-point determinant is nonzero.
pub fn is_invertible(m: &Matrix4) -> (r: bool)
    requires
        m.wf(),
    ensures
        r == (det4_s(*m) != 0),
{
    determinant4(m) != 0
}

/// Entry `(i, j)` of the inverse: the transposed cofactor over the
/// determinant.
pub open spec fn inv4_entry(m: Matrix4, i: int, j: int) -> i64 {
    div_s(cofactor4_s(m, j, i), det4_s(m))
}

/// The inverse as adjugate over determinant; `None` exactly when the
/// fixed-point determinant is zero.
fn inv4_entry_at(m: &Matrix4, det: i64, i: usize, j: usize) -> (r: i64)
    requires
        m.wf(),
        i < 4,
        j < 4,
        det == det4_s(*m),
    ensures
        r == inv4_entry(*m, i as int, j as int),
{
    fdiv(cofactor4(m, j, i), det)
}

pub fn inverse4(m: &Matrix4) -> (r: Option<Matrix4>)
    requires
        m.wf(),
    ensures
        r is Some <==> det4_s(*m) != 0,
        r matches Some(inv) ==> inv.wf() && forall|i: int, j: int|
            0 <= i < 4 && 0 <= j < 4 ==> inv.idx(i, j) == inv4_entry(*m, i, j),
{
    let det = determinant4(m);
    if det == 0 {
        return None;
    }
    let inv = Matrix4::new(
        inv4_entry_at(m, det, 0, 0),
        inv4_entry_at(m, det, 0, 1),
        inv4_entry_at(m, det, 0, 2),
        inv4_entry_at(m, det, 0, 3),
        inv4_entry_at(m, det, 1, 0),
        inv4_entry_at(m, det, 1, 1),
        inv4_entry_at(m, det, 1, 2),
        inv4_entry_at(m, det, 1, 3),
        inv4_entry_at(m, det, 2, 0),
        inv4_entry_at(m, det, 2, 1),
        inv4_entry_at(m, det, 2, 2),
        inv4_entry_at(m, det, 2, 3),
        inv4_entry_at(m, det, 3, 0),
        inv4_entry_at(m, det, 3, 1),
        inv4_entry_at(m, det, 3, 2),
        inv4_entry_at(m, det, 3, 3),
    );
    proof {
        assert forall|i: int, j: int| 0 <= i < 4 && 0 <= j < 4 implies inv.idx(i, j) == inv4_entry(
            *m,
            i,
            j,
        ) by {
            assert(0 <= i * 4 + j < 16);
        }
    }
    Some(inv)
}

} // verus!

//! Affine transform builders.  The fluent methods compose by
//! right-multiplication onto the existing matrix, so the innermost call of a
//! chain is applied first to a point.

use vstd::prelude::*;
use crate::math::{add_s, mul_s, neg_s, fneg, SCALE};
use crate::matrix::{mul4_entry, Matrix4};
use crate::trig::{cos_s, sin_s, cos_fp, sin_fp};
use crate::tuple::{cross_t, normalize_t, sub_t, Tuple};

verus! {

pub open spec fn identity_seq() -> Seq<i64> {
    seq![
        SCALE, 0i64, 0i64, 0i64,
        0i64, SCALE, 0i64, 0i64,
        0i64, 0i64, SCALE, 0i64,
        0i64, 0i64, 0i64, SCALE,
    ]
}

pub open spec fn translation_seq(x: i64, y: i64, z: i64) -> Seq<i64> {
    seq![
        SCALE, 0i64, 0i64, x,
        0i64, SCALE, 0i64, y,
        0i64, 0i64, SCALE, z,
        0i64, 0i64, 0i64, SCALE,
    ]
}

pub open spec fn scaling_seq(x: i64, y: i64, z: i64) -> Seq<i64> {
    seq![
        x, 0i64, 0i64, 0i64,
        0i64, y, 0i64, 0i64,
        0i64, 0i64, z, 0i64,
        0i64, 0i64, 0i64, SCALE,
    ]
}

pub open spec fn rotation_x_seq(r: i64) -> Seq<i64> {
    seq![
        SCALE, 0i64, 0i64, 0i64,
        0i64, cos_s(r), neg_s(sin_s(r)), 0i64,
        0i64, sin_s(r), cos_s(r), 0i64,
        0i64, 0i64, 0i64, SCALE,
    ]
}

pub open spec fn rotation_y_seq(r: i64) -> Seq<i64> {
    seq![
        cos_s(r), 0i64, sin_s(r), 0i64,
        0i64, SCALE, 0i64, 0i64,
        neg_s(sin_s(r)), 0i64, cos_s(r), 0i64,
        0i64, 0i64, 0i64, SCALE,
    ]
}

pub open spec fn rotation_z_seq(r: i64) -> Seq<i64> {
    seq![
        cos_s(r), neg_s(sin_s(r)), 0i64, 0i64,
        sin_s(r), cos_s(r), 0i64, 0i64,
        0i64, 0i64, SCALE, 0i64,
        0i64, 0i64, 0i64, SCALE,
    ]
}

pub open spec fn shearing_seq(
    x_to_y: i64,
    x_to_z: i64,
    y_to_x: i64,
    y_to_z: i64,
    z_to_x: i64,
    z_to_y: i64,
) -> Seq<i64> {
    seq![
        SCALE, x_to_y, x_to_z, 0i64,
        y_to_x, SCALE, y_to_z, 0i64,
        z_to_x, z_to_y, SCALE, 0i64,
        0i64, 0i64, 0i64, SCALE,
    ]
}

/// One entry of the product of a matrix with a matrix given as its entry
/// sequence.
pub open spec fn mul4_entry_vs(a: Matrix4, b: Seq<i64>, i: int, j: int) -> i64 {
    add_s(
        add_s(
            add_s(mul_s(a.idx(i, 0), b[0 * 4 + j]), mul_s(a.idx(i, 1), b[1 * 4 + j])),
            mul_s(a.idx(i, 2), b[2 * 4 + j]),
        ),
        mul_s(a.idx(i, 3), b[3 * 4 + j]),
    )
}

/// One entry of the product of two matrices given as entry sequences.
pub open spec fn mul4_entry_ss(a: Seq<i64>, b: Seq<i64>, i: int, j: int) -> i64 {
    add_s(
        add_s(
            add_s(mul_s(a[i * 4 + 0], b[0 * 4 + j]), mul_s(a[i * 4 + 1], b[1 * 4 + j])),
            mul_s(a[i * 4 + 2], b[2 * 4 + j]),
        ),
        mul_s(a[i * 4 + 3], b[3 * 4 + j]),
    )
}

impl Matrix4 {
    /// The identity transform.
    pub fn identity() -> (m: Matrix4)
        ensures
            m.wf(),
            m.values@ == identity_seq(),
    {
        let m = Matrix4::new(
            SCALE, 0, 0, 0,
            0, SCALE, 0, 0,
            0, 0, SCALE, 0,
            0, 0, 0, SCALE,
        );
        proof {
            assert(m.values@ =~= identity_seq());
        }
        m
    }

    /// Right-multiply a translation onto this transform.
    pub fn translate(self, x: i64, y: i64, z: i64) -> (r: Matrix4)
        requires
            self.wf(),
        ensures
            r.wf(),
            forall|i: int, j: int|
                0 <= i < 4 && 0 <= j < 4 ==> r.idx(i, j) == mul4_entry_vs(
                    self,
                    translation_seq(x, y, z),
                    i,
                    j,
                ),
    {
        self.mul(&translation(x, y, z))
    }

    /// Right-multiply a scaling onto this transform.
    pub fn scale(self, x: i64, y: i64, z: i64) -> (r: Matrix4)
        requires
            self.wf(),
        ensures
            r.wf(),
            forall|i: int, j: int|
                0 <= i < 4 && 0 <= j < 4 ==> r.idx(i, j) == mul4_entry_vs(
                    self,
                    scaling_seq(x, y, z),
                    i,
                    j,
                ),
    {
        self.mul(&scaling(x, y, z))
    }

    /// Right-multiply a rotation about the x axis onto this transform.
    pub fn rotate_x(self, r: i64) -> (m: Matrix4)
        requires
            self.wf(),
        ensures
            m.wf(),
            forall|i: int, j: int|
                0 <= i < 4 && 0 <= j < 4 ==> m.idx(i, j) == mul4_entry_vs(
                    self,
                    rotation_x_seq(r),
                    i,
                    j,
                ),
    {
        self.mul(&rotation_x(r))
    }

    /// Right-multiply a rotation about the y axis onto this transform.
    pub fn rotate_y(self, r: i64) -> (m: Matrix4)
        requires
            self.wf(),
        ensures
            m.wf(),
            forall|i: int, j: int|
                0 <= i < 4 && 0 <= j < 4 ==> m.idx(i, j) == mul4_entry_vs(
                    self,
                    rotation_y_seq(r),
                    i,
                    j,
                ),
    {
        self.mul(&rotation_y(r))
    }

    /// Right-multiply a rotation about the z axis onto this transform.
    pub fn rotate_z(self, r: i64) -> (m: Matrix4)
        requires
            self.wf(),
        ensures
            m.wf(),
            forall|i: int, j: int|
                0 <= i < 4 && 0 <= j < 4 ==> m.idx(i, j) == mul4_entry_vs(
                    self,
                    rotation_z_seq(r),
                    i,
                    j,
                ),
    {
        self.mul(&rotation_z(r))
    }
}

/// The translation by `(x, y, z)`.
pub fn translation(x: i64, y: i64, z: i64) -> (m: Matrix4)
    ensures
        m.wf(),
        m.values@ == translation_seq(x, y, z),
{
    let m = Matrix4::new(
        SCALE, 0, 0, x,
        0, SCALE, 0, y,
        0, 0, SCALE, z,
        0, 0, 0, SCALE,
    );
    proof {
        assert(m.values@ =~= translation_seq(x, y, z));
    }
    m
}

/// The scaling by `(x, y, z)`.
pub fn scaling(x: i64, y: i64, z: i64) -> (m: Matrix4)
    ensures
        m.wf(),
        m.values@ == scaling_seq(x, y, z),
{
    let m = Matrix4::new(
        x, 0, 0, 0,
        0, y, 0, 0,
        0, 0, z, 0,
        0, 0, 0, SCALE,
    );
    proof {
        assert(m.values@ =~= scaling_seq(x, y, z));
    }
    m
}

/// The rotation about the x axis by `r` radians.
pub fn rotation_x(r: i64) -> (m: Matrix4)
    ensures
        m.wf(),
        m.values@ == rotation_x_seq(r),
{
    let c = cos_fp(r);
    let s = sin_fp(r);
    let m = Matrix4::new(
        SCALE, 0, 0, 0,
        0, c, fneg(s), 0,
        0, s, c, 0,
        0, 0, 0, SCALE,
    );
    proof {
        assert(m.values@ =~= rotation_x_seq(r));
    }
    m
}

/// The rotation about the y axis by `r` radians.
pub fn rotation_y(r: i64) -> (m: Matrix4)
    ensures
        m.wf(),
        m.values@ == rotation_y_seq(r),
{
    let c = cos_fp(r);
    let s = sin_fp(r);
    let m = Matrix4::new(
        c, 0, s, 0,
        0, SCALE, 0, 0,
        fneg(s), 0, c, 0,
        0, 0, 0, SCALE,
    );
    proof {
        assert(m.values@ =~= rotation_y_seq(r));
    }
    m
}

/// The rotation about the z axis by `r` radians.
pub fn rotation_z(r: i64) -> (m: Matrix4)
    ensures
        m.wf(),
        m.values@ == rotation_z_seq(r),
{
    let c = cos_fp(r);
    let s = sin_fp(r);
    let m = Matrix4::new(
        c, fneg(s), 0, 0,
        s, c, 0, 0,
        0, 0, SCALE, 0,
        0, 0, 0, SCALE,
    );
    proof {
        assert(m.values@ =~= rotation_z_seq(r));
    }
    m
}

/// The shear of each axis in proportion to the two others.
pub fn shearing(x_to_y: i64, x_to_z: i64, y_to_x: i64, y_to_z: i64, z_to_x: i64, z_to_y: i64) -> (m:
    Matrix4)
    ensures
        m.wf(),
        m.values@ == shearing_seq(x_to_y, x_to_z, y_to_x, y_to_z, z_to_x, z_to_y),
{
    let m = Matrix4::new(
        SCALE, x_to_y, x_to_z, 0,
        y_to_x, SCALE, y_to_z, 0,
        z_to_x, z_to_y, SCALE, 0,
        0, 0, 0, SCALE,
    );
    proof {
        assert(m.values@ =~= shearing_seq(x_to_y, x_to_z, y_to_x, y_to_z, z_to_x, z_to_y));
    }
    m
}

/// The orientation rows of a view transform: left, true up, negated forward.
pub open spec fn orientation_seq(from: Tuple, to: Tuple, up: Tuple) -> Seq<i64> {
    let forward = normalize_t(sub_t(to, from));
    let left = cross_t(forward, normalize_t(up));
    let true_up = cross_t(left, forward);
    seq![
        left.x, left.y, left.z, 0i64,
        true_up.x, true_up.y, true_up.z, 0i64,
        neg_s(forward.x), neg_s(forward.y), neg_s(forward.z), 0i64,
        0i64, 0i64, 0i64, SCALE,
    ]
}

/// The world-to-eye transform that looks from `from` toward `to` with `up`
/// roughly upward: the orientation times the translation taking `from` to
/// the origin.
pub fn view_transform(from: &Tuple, to: &Tuple, up: &Tuple) -> (m: Matrix4)
    ensures
        m.wf(),
        forall|i: int, j: int|
            0 <= i < 4 && 0 <= j < 4 ==> m.idx(i, j) == mul4_entry_ss(
                orientation_seq(*from, *to, *up),
                translation_seq(neg_s(from.x), neg_s(from.y), neg_s(from.z)),
                i,
                j,
            ),
{
    let forward = to.sub(*from).normalize();
    let left = forward.cross(up.normalize());
    let true_up = left.cross(forward);
    let orientation = Matrix4::new(
        left.x, left.y, left.z, 0,
        true_up.x, true_up.y, true_up.z, 0,
        fneg(forward.x), fneg(forward.y), fneg(forward.z), 0,
        0, 0, 0, SCALE,
    );
    proof {
        assert(orientation.values@ =~= orientation_seq(*from, *to, *up));
    }
    orientation.mul(&translation(fneg(from.x), fneg(from.y), fneg(from.z)))
}

} // verus!

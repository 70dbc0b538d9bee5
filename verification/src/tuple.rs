//! Homogeneous 4-component coordinates: `w == SCALE` marks a point,
//! `w == 0` a vector.  All arithmetic is the saturating fixed-point
//! arithmetic of `math`, and every operation is pinned to its spec-level
//! mirror.

use vstd::prelude::*;
use crate::math::{
    abs_i, add_s, div_s, mul_s, neg_s, sqrt_s, sub_s, fadd, fdiv, fmul, fneg, fsqrt, fsub,
    float_equal, lemma_sqrt_exists, EPSILON, SCALE,
};

verus! {

#[derive(Clone, Copy, PartialEq, Eq, Structural, Debug)]
pub struct Tuple {
    pub x: i64,
    pub y: i64,
    pub z: i64,
    pub w: i64,
}

pub open spec fn add_t(a: Tuple, b: Tuple) -> Tuple {
    Tuple {
        x: add_s(a.x, b.x),
        y: add_s(a.y, b.y),
        z: add_s(a.z, b.z),
        w: add_s(a.w, b.w),
    }
}

pub open spec fn sub_t(a: Tuple, b: Tuple) -> Tuple {
    Tuple {
        x: sub_s(a.x, b.x),
        y: sub_s(a.y, b.y),
        z: sub_s(a.z, b.z),
        w: sub_s(a.w, b.w),
    }
}

pub open spec fn scale_t(a: Tuple, s: i64) -> Tuple {
    Tuple { x: mul_s(a.x, s), y: mul_s(a.y, s), z: mul_s(a.z, s), w: mul_s(a.w, s) }
}

pub open spec fn neg_t(a: Tuple) -> Tuple {
    Tuple { x: neg_s(a.x), y: neg_s(a.y), z: neg_s(a.z), w: neg_s(a.w) }
}

/// The 3-component dot product (w is not included, as in the renderer's
/// uses: directions and normals).
pub open spec fn dot_t(a: Tuple, b: Tuple) -> i64 {
    add_s(add_s(mul_s(a.x, b.x), mul_s(a.y, b.y)), mul_s(a.z, b.z))
}

/// The squared length never saturates below zero.
pub proof fn lemma_mul_self_nonneg(x: i64)
    ensures
        0 <= mul_s(x, x),
{
    assert(0 <= (x as int) * (x as int)) by (nonlinear_arith);
    let p = (x as int) * (x as int);
    assert(0 <= p / (SCALE as int)) by (nonlinear_arith)
        requires
            0 <= p,
    ;
}

pub proof fn lemma_dot_self_nonneg(a: Tuple)
    ensures
        0 <= dot_t(a, a),
{
    lemma_mul_self_nonneg(a.x);
    lemma_mul_self_nonneg(a.y);
    lemma_mul_self_nonneg(a.z);
}

/// The Euclidean length of the 3-vector part.
pub open spec fn mag_t(a: Tuple) -> i64 {
    sqrt_s(dot_t(a, a))
}

/// Componentwise division by the length, with `w` forced to zero.
pub open spec fn normalize_t(a: Tuple) -> Tuple {
    let m = mag_t(a);
    Tuple { x: div_s(a.x, m), y: div_s(a.y, m), z: div_s(a.z, m), w: 0i64 }
}

pub open spec fn cross_t(a: Tuple, b: Tuple) -> Tuple {
    Tuple {
        x: sub_s(mul_s(a.y, b.z), mul_s(a.z, b.y)),
        y: sub_s(mul_s(a.z, b.x), mul_s(a.x, b.z)),
        z: sub_s(mul_s(a.x, b.y), mul_s(a.y, b.x)),
        w: 0i64,
    }
}

/// `v` mirrored about a surface normal: `v - normal * 2 * dot(v, normal)`.
pub open spec fn reflect_t(v: Tuple, normal: Tuple) -> Tuple {
    sub_t(v, scale_t(scale_t(normal, 2_000_000i64), dot_t(v, normal)))
}

pub open spec fn approx_eq_t(a: Tuple, b: Tuple) -> bool {
    abs_i(a.x - b.x) <= EPSILON && abs_i(a.y - b.y) <= EPSILON && abs_i(a.z - b.z) <= EPSILON
        && abs_i(a.w - b.w) <= EPSILON
}

impl Tuple {
    pub fn new(x: i64, y: i64, z: i64, w: i64) -> (t: Tuple)
        ensures
            t == (Tuple { x, y, z, w }),
    {
        Tuple { x, y, z, w }
    }

    /// A point: `w` is one whole unit.
    pub fn new_point(x: i64, y: i64, z: i64) -> (t: Tuple)
        ensures
            t == (Tuple { x, y, z, w: SCALE }),
    {
        Tuple { x, y, z, w: SCALE }
    }

    /// A vector: `w` is zero.
    pub fn new_vector(x: i64, y: i64, z: i64) -> (t: Tuple)
        ensures
            t == (Tuple { x, y, z, w: 0i64 }),
    {
        Tuple { x, y, z, w: 0 }
    }

    pub fn add(self, other: Tuple) -> (r: Tuple)
        ensures
            r == add_t(self, other),
    {
        Tuple {
            x: fadd(self.x, other.x),
            y: fadd(self.y, other.y),
            z: fadd(self.z, other.z),
            w: fadd(self.w, other.w),
        }
    }

    pub fn sub(self, other: Tuple) -> (r: Tuple)
        ensures
            r == sub_t(self, other),
    {
        Tuple {
            x: fsub(self.x, other.x),
            y: fsub(self.y, other.y),
            z: fsub(self.z, other.z),
            w: fsub(self.w, other.w),
        }
    }

    /// Componentwise multiplication by a fixed-point scalar.
    pub fn mul(self, s: i64) -> (r: Tuple)
        ensures
            r == scale_t(self, s),
    {
        Tuple { x: fmul(self.x, s), y: fmul(self.y, s), z: fmul(self.z, s), w: fmul(self.w, s) }
    }

    pub fn neg(self) -> (r: Tuple)
        ensures
            r == neg_t(self),
    {
        Tuple { x: fneg(self.x), y: fneg(self.y), z: fneg(self.z), w: fneg(self.w) }
    }

    pub fn dot(self, rhs: &Tuple) -> (r: i64)
        ensures
            r == dot_t(self, *rhs),
    {
        fadd(fadd(fmul(self.x, rhs.x), fmul(self.y, rhs.y)), fmul(self.z, rhs.z))
    }

    pub fn mag(self) -> (r: i64)
        ensures
            r == mag_t(self),
            0 <= r,
    {
        proof {
            lemma_dot_self_nonneg(self);
        }
        let d = self.dot(&self);
        fsqrt(d)
    }

    pub fn normalize(self) -> (r: Tuple)
        ensures
            r == normalize_t(self),
    {
        let m = self.mag();
        Tuple { x: fdiv(self.x, m), y: fdiv(self.y, m), z: fdiv(self.z, m), w: 0 }
    }

    pub fn cross(self, lhs: Tuple) -> (r: Tuple)
        ensures
            r == cross_t(self, lhs),
    {
        Tuple {
            x: fsub(fmul(self.y, lhs.z), fmul(self.z, lhs.y)),
            y: fsub(fmul(self.z, lhs.x), fmul(self.x, lhs.z)),
            z: fsub(fmul(self.x, lhs.y), fmul(self.y, lhs.x)),
            w: 0,
        }
    }

    /// Tolerant componentwise comparison, within `EPSILON` on each part.
    pub fn approx_eq(&self, other: &Tuple) -> (r: bool)
        ensures
            r == approx_eq_t(*self, *other),
    {
        float_equal(self.x, other.x) && float_equal(self.y, other.y)
            && float_equal(self.z, other.z) && float_equal(self.w, other.w)
    }
}

/// An incoming direction mirrored about a surface normal.
pub fn reflect(incoming: &Tuple, normal: &Tuple) -> (r: Tuple)
    ensures
        r == reflect_t(*incoming, *normal),
{
    let d = incoming.dot(normal);
    incoming.sub(normal.mul(2_000_000).mul(d))
}

} // verus!

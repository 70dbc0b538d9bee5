//! Laws of the engine that hold for every input, stated over the spec-level
//! mirrors and proved once and for all.

use vstd::prelude::*;
use crate::math::{abs_i, add_s, div_s, mul_s, neg_s, sub_s, EPSILON, SCALE};
use crate::matrix::{cofactor4_s, det4_s, inv4_entry, minor4_s, Matrix4};
use crate::plane::plane_intersections_s;
use crate::ray::{schlick_s, Computation, Ray};
use crate::transformation::{identity_seq, mul4_entry_ss, translation_seq};
use crate::tuple::Tuple;

verus! {

/// Multiplying by one whole unit, dividing by it, and adding zero are
/// exact, for every representable value but the saturating minimum.
pub proof fn lemma_unit_ops(a: i64)
    requires
        a > i64::MIN,
    ensures
        mul_s(SCALE, a) == a,
        mul_s(a, SCALE) == a,
        div_s(a, SCALE) == a,
        mul_s(a, 0) == 0,
        mul_s(0, a) == 0,
        add_s(a, 0) == a,
        add_s(0, a) == a,
        add_s(a, neg_s(a)) == 0,
        neg_s(a) == -a,
{
    let b: int = abs_i(a as int);
    assert((b * 1_000_000) / 1_000_000 == b) by (nonlinear_arith)
        requires
            b >= 0,
    ;
    assert((1_000_000 * b) / 1_000_000 == b) by (nonlinear_arith)
        requires
            b >= 0,
    ;
    assert(b * 1_000_000 == 1_000_000 * b) by (nonlinear_arith);
    assert((a as int) * 1_000_000 == 1_000_000 * (a as int)) by (nonlinear_arith);
    assert(((-(a as int)) * 1_000_000) == -((a as int) * 1_000_000)) by (nonlinear_arith);
    assert((b * 0) == 0) by (nonlinear_arith);
    assert((0 * b) == 0) by (nonlinear_arith);
}

/// The inverse of a translation undoes it exactly: a translation is never
/// singular, its computed inverse is the opposite translation, and the
/// product of the two is exactly the identity.  (The fixed-point
/// counterpart of `inverse(T) * T = identity` for translations; for
/// scalings and rotations the round trip holds only up to rounding and is
/// exercised by tests.)
pub proof fn law_translation_inverse(m: Matrix4, x: i64, y: i64, z: i64)
    requires
        m.wf(),
        m.values@ == translation_seq(x, y, z),
        x > i64::MIN,
        y > i64::MIN,
        z > i64::MIN,
    ensures
        det4_s(m) != 0,
        forall|i: int, j: int|
            0 <= i < 4 && 0 <= j < 4 ==> inv4_entry(m, i, j) == translation_seq(
                neg_s(x),
                neg_s(y),
                neg_s(z),
            )[i * 4 + j],
        forall|i: int, j: int|
            0 <= i < 4 && 0 <= j < 4 ==> mul4_entry_ss(
                translation_seq(neg_s(x), neg_s(y), neg_s(z)),
                translation_seq(x, y, z),
                i,
                j,
            ) == identity_seq()[i * 4 + j],
{
    reveal(minor4_s);
    lemma_unit_ops(x);
    lemma_unit_ops(y);
    lemma_unit_ops(z);
    lemma_unit_ops(SCALE);
    lemma_unit_ops(0);
    assert(det4_s(m) == SCALE);
    assert forall|i: int, j: int| 0 <= i < 4 && 0 <= j < 4 implies inv4_entry(m, i, j)
        == translation_seq(neg_s(x), neg_s(y), neg_s(z))[i * 4 + j] by {
        lemma_unit_ops(neg_s(x));
        lemma_unit_ops(neg_s(y));
        lemma_unit_ops(neg_s(z));
        assert(0 <= i * 4 + j < 16);
    }
    assert forall|i: int, j: int| 0 <= i < 4 && 0 <= j < 4 implies mul4_entry_ss(
        translation_seq(neg_s(x), neg_s(y), neg_s(z)),
        translation_seq(x, y, z),
        i,
        j,
    ) == identity_seq()[i * 4 + j] by {
        lemma_unit_ops(neg_s(x));
        lemma_unit_ops(neg_s(y));
        lemma_unit_ops(neg_s(z));
        assert(0 <= i * 4 + j < 16);
    }
}

/// The normal of the untransformed unit sphere at a point on the sphere
/// is the normalized point itself, and it has exactly unit length: for a
/// point whose vector part measures exactly one unit, normalization is
/// exact, and the normal comes out as that very vector.
pub proof fn law_sphere_normal(m: Matrix4, p: Tuple)
    requires
        m.wf(),
        m.values@ == identity_seq(),
        p.w == SCALE,
        crate::tuple::mag_t(Tuple { x: p.x, y: p.y, z: p.z, w: 0i64 }) == SCALE,
        p.x > i64::MIN,
        p.y > i64::MIN,
        p.z > i64::MIN,
    ensures
        crate::sphere::sphere_normal_s(m, p) == crate::tuple::normalize_t(
            Tuple { x: p.x, y: p.y, z: p.z, w: 0i64 },
        ),
        crate::sphere::sphere_normal_s(m, p) == (Tuple { x: p.x, y: p.y, z: p.z, w: 0i64 }),
        crate::tuple::mag_t(crate::sphere::sphere_normal_s(m, p)) == SCALE,
{
    lemma_unit_ops(p.x);
    lemma_unit_ops(p.y);
    lemma_unit_ops(p.z);
    lemma_unit_ops(SCALE);
    lemma_unit_ops(0);
    let v = Tuple { x: p.x, y: p.y, z: p.z, w: 0i64 };
    assert(crate::matrix::mul_tuple_s(m, p) == p);
    assert(crate::tuple::sub_t(p, Tuple { x: 0i64, y: 0i64, z: 0i64, w: SCALE }) == v);
    assert(crate::tuple::normalize_t(v) == v);
    assert(crate::matrix::mul_transpose_tuple_s(m, v) == v);
}

/// A ray running parallel to the untransformed plane meets it nowhere,
/// whatever its origin: with direction (0, 0, 1) the object-space
/// direction keeps a zero y component, below every tolerance.  (A coplanar
/// origin is covered by the same case.)
pub proof fn law_plane_parallel(m: Matrix4, origin: Tuple)
    requires
        m.wf(),
        m.values@ == identity_seq(),
    ensures
        plane_intersections_s(
            m,
            Ray { origin, direction: Tuple { x: 0i64, y: 0i64, z: SCALE, w: 0i64 } },
        ).len() == 0,
{
    lemma_unit_ops(SCALE);
    lemma_unit_ops(0);
}

/// Total internal reflection reflects everything: when the hit leaves the
/// denser medium and the squared transmitted sine exceeds one, the Schlick
/// reflectance is exactly one.
pub proof fn law_schlick_total_internal_reflection(comps: Computation)
    requires
        comps.n1 > comps.n2,
        ({
            let cos0 = crate::tuple::dot_t(comps.eye_direction, comps.surface_normalv);
            let n = div_s(comps.n1, comps.n2);
            mul_s(mul_s(n, n), sub_s(SCALE, mul_s(cos0, cos0))) > SCALE
        }),
    ensures
        schlick_s(comps) == SCALE,
{
    reveal(schlick_s);
}

} // verus!

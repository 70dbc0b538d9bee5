//! The unit sphere centered at the origin, carried to world space by its
//! transform; the shape stores only the inverse, computed eagerly on write.

use vstd::prelude::*;
use crate::material::{default_material_s, Material};
use crate::math::{add_s, div_s, mul_s, neg_s, sqrt_s, sub_s, fadd, fdiv, fmul, fneg, fsqrt, fsub, SCALE};
use crate::matrix::{det4_s, inv4_entry, inverse4, mul_tuple_s, Matrix4};
use crate::ray::{transform, transform_ray_s, Ray};
use crate::shape::{world_normal, world_normal_s};
use crate::transformation::identity_seq;
use crate::tuple::{dot_t, normalize_t, sub_t, Tuple};

verus! {

#[derive(Clone, Debug)]
pub struct Sphere {
    pub id: u32,
    pub inverse_transformation: Matrix4,
    pub material: Material,
}

/// The parametric distances at which a ray meets the sphere: the roots of
/// the quadratic `|O + tD|^2 = 1` in object space, both roots when the
/// discriminant is nonnegative (equal at a tangent), none otherwise.
pub open spec fn sphere_intersections_s(inv: Matrix4, ray: Ray) -> Seq<i64> {
    let r = transform_ray_s(inv, ray);
    let shape_to_ray = sub_t(r.origin, Tuple { x: 0i64, y: 0i64, z: 0i64, w: SCALE });
    let a = dot_t(r.direction, r.direction);
    let b = mul_s(2_000_000i64, dot_t(r.direction, shape_to_ray));
    let c = sub_s(dot_t(shape_to_ray, shape_to_ray), SCALE);
    let discriminant = sub_s(mul_s(b, b), mul_s(mul_s(4_000_000i64, a), c));
    if discriminant < 0 {
        Seq::empty()
    } else {
        let sq = sqrt_s(discriminant);
        seq![
            div_s(sub_s(neg_s(b), sq), mul_s(2_000_000i64, a)),
            div_s(add_s(neg_s(b), sq), mul_s(2_000_000i64, a)),
        ]
    }
}

/// The world normal at a point of the sphere: the object normal is the
/// point less the center, normalized.
pub open spec fn sphere_normal_s(inv: Matrix4, world_point: Tuple) -> Tuple {
    let object_point = mul_tuple_s(inv, world_point);
    let object_normal = normalize_t(
        sub_t(object_point, Tuple { x: 0i64, y: 0i64, z: 0i64, w: SCALE }),
    );
    world_normal_s(inv, object_normal)
}

impl Sphere {
    pub open spec fn wf(self) -> bool {
        self.inverse_transformation.wf() && self.material.wf()
    }

    /// A unit sphere with the identity transform and the default material.
    pub fn new(id: u32) -> (s: Sphere)
        ensures
            s.wf(),
            s.id == id,
            s.inverse_transformation.values@ == identity_seq(),
            s.material == default_material_s(),
    {
        Sphere {
            id,
            inverse_transformation: Matrix4::identity(),
            material: Material::default(),
        }
    }

    /// Store the inverse of `t` eagerly; a singular transform is rejected
    /// and the sphere is left unchanged.
    pub fn set_transformation(&mut self, t: Matrix4) -> (accepted: bool)
        requires
            old(self).wf(),
            t.wf(),
        ensures
            final(self).wf(),
            accepted == (det4_s(t) != 0),
            final(self).id == old(self).id,
            final(self).material == old(self).material,
            if accepted {
                forall|i: int, j: int|
                    0 <= i < 4 && 0 <= j < 4 ==> final(self).inverse_transformation.idx(i, j)
                        == inv4_entry(t, i, j)
            } else {
                final(self).inverse_transformation == old(self).inverse_transformation
            },
    {
        match inverse4(&t) {
            Some(inv) => {
                self.inverse_transformation = inv;
                true
            },
            None => false,
        }
    }

    /// The world normal at a world point of the sphere.
    pub fn normal_at(&self, world_point: &Tuple) -> (n: Tuple)
        requires
            self.wf(),
        ensures
            n == sphere_normal_s(self.inverse_transformation, *world_point),
    {
        let object_point = self.inverse_transformation.mul_tuple(world_point);
        let object_normal = object_point.sub(Tuple::new_point(0, 0, 0)).normalize();
        world_normal(&self.inverse_transformation, &object_normal)
    }

    pub fn get_material(&self) -> (m: &Material)
        ensures
            *m == self.material,
    {
        &self.material
    }

    pub fn set_material(&mut self, m: Material)
        ensures
            final(self).material == m,
            final(self).id == old(self).id,
            final(self).inverse_transformation == old(self).inverse_transformation,
    {
        self.material = m;
    }

    /// The parametric distances at which `ray` meets the sphere.
    pub fn intersections_by(&self, ray: &Ray) -> (r: Vec<i64>)
        requires
            self.wf(),
        ensures
            r@ == sphere_intersections_s(self.inverse_transformation, *ray),
    {
        let tray = transform(ray, &self.inverse_transformation);
        let mut result: Vec<i64> = Vec::new();
        let shape_to_ray = tray.origin.sub(Tuple::new_point(0, 0, 0));
        let a = tray.direction.dot(&tray.direction);
        let b = fmul(2_000_000, tray.direction.dot(&shape_to_ray));
        let c = fsub(shape_to_ray.dot(&shape_to_ray), SCALE);
        let discriminant = fsub(fmul(b, b), fmul(fmul(4_000_000, a), c));
        if discriminant < 0 {
            proof {
                assert(result@ =~= sphere_intersections_s(self.inverse_transformation, *ray));
            }
            return result;
        }
        let sq = fsqrt(discriminant);
        let two_a = fmul(2_000_000, a);
        result.push(fdiv(fsub(fneg(b), sq), two_a));
        result.push(fdiv(fadd(fneg(b), sq), two_a));
        proof {
            assert(result@ =~= sphere_intersections_s(self.inverse_transformation, *ray));
        }
        result
    }

    pub fn get_inverse_transformation(&self) -> (m: &Matrix4)
        ensures
            *m == self.inverse_transformation,
    {
        &self.inverse_transformation
    }

    pub fn get_id(&self) -> (id: u32)
        ensures
            id == self.id,
    {
        self.id
    }
}

} // verus!

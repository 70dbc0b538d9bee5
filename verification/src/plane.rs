//! The xz plane through the origin (infinite, object-space normal +y),
//! carried to world space by its transform.

use vstd::prelude::*;
use crate::material::{default_material_s, Material};
use crate::math::{abs_i, div_s, neg_s, fabs, fdiv, fneg, EPSILON, SCALE};
use crate::matrix::{det4_s, inv4_entry, inverse4, Matrix4};
use crate::ray::{transform, transform_ray_s, Ray};
use crate::shape::{world_normal, world_normal_s};
use crate::transformation::identity_seq;
use crate::tuple::Tuple;

verus! {

#[derive(Clone, Debug)]
pub struct Plane {
    pub id: u32,
    pub material: Material,
    pub inverse_transformation: Matrix4,
}

/// The parametric distances at which a ray meets the plane: none when the
/// object-space direction is parallel to the plane (|dir.y| below EPSILON,
/// which also covers a coplanar ray), else the single root `-origin.y /
/// direction.y`.
pub open spec fn plane_intersections_s(inv: Matrix4, ray: Ray) -> Seq<i64> {
    let r = transform_ray_s(inv, ray);
    if abs_i(r.direction.y as int) < EPSILON {
        Seq::empty()
    } else {
        seq![div_s(neg_s(r.origin.y), r.direction.y)]
    }
}

/// The world normal of the plane: the constant object normal +y pushed
/// through the inverse-transpose.
pub open spec fn plane_normal_s(inv: Matrix4) -> Tuple {
    world_normal_s(inv, Tuple { x: 0i64, y: SCALE, z: 0i64, w: 0i64 })
}

impl Plane {
    pub open spec fn wf(self) -> bool {
        self.inverse_transformation.wf() && self.material.wf()
    }

    /// The xz plane with the identity transform and the default material.
    pub fn new(id: u32) -> (p: Plane)
        ensures
            p.wf(),
            p.id == id,
            p.inverse_transformation.values@ == identity_seq(),
            p.material == default_material_s(),
    {
        Plane { id, material: Material::default(), inverse_transformation: Matrix4::identity() }
    }

    /// Store the inverse of `t` eagerly; a singular transform is rejected
    /// and the plane is left unchanged.
    pub fn set_transformation(&mut self, t: Matrix4) -> (accepted: bool)
        requires
            old(self).wf(),
            t.wf(),
        ensures
            final(self).wf(),
            accepted == (det4_s(t) != 0),
            final(self).id == old(self).id,
            final(self).material == old(self).material,
            if accepted {
                forall|i: int, j: int|
                    0 <= i < 4 && 0 <= j < 4 ==> final(self).inverse_transformation.idx(i, j)
                        == inv4_entry(t, i, j)
            } else {
                final(self).inverse_transformation == old(self).inverse_transformation
            },
    {
        match inverse4(&t) {
            Some(inv) => {
                self.inverse_transformation = inv;
                true
            },
            None => false,
        }
    }

    /// The world normal, the same at every point of the plane.
    pub fn normal_at(&self, _world_point: &Tuple) -> (n: Tuple)
        requires
            self.wf(),
        ensures
            n == plane_normal_s(self.inverse_transformation),
    {
        let normal = Tuple::new_vector(0, SCALE, 0);
        world_normal(&self.inverse_transformation, &normal)
    }

    pub fn get_material(&self) -> (m: &Material)
        ensures
            *m == self.material,
    {
        &self.material
    }

    pub fn set_material(&mut self, m: Material)
        ensures
            final(self).material == m,
            final(self).id == old(self).id,
            final(self).inverse_transformation == old(self).inverse_transformation,
    {
        self.material = m;
    }

    /// The parametric distances at which `ray` meets the plane.
    pub fn intersections_by(&self, ray: &Ray) -> (r: Vec<i64>)
        requires
            self.wf(),
        ensures
            r@ == plane_intersections_s(self.inverse_transformation, *ray),
    {
        let tray = transform(ray, &self.inverse_transformation);
        let mut result: Vec<i64> = Vec::new();
        if fabs(tray.direction.y) < EPSILON {
            proof {
                assert(result@ =~= plane_intersections_s(self.inverse_transformation, *ray));
            }
            return result;
        }
        result.push(fdiv(fneg(tray.origin.y), tray.direction.y));
        proof {
            assert(result@ =~= plane_intersections_s(self.inverse_transformation, *ray));
        }
        result
    }

    pub fn get_inverse_transformation(&self) -> (m: &Matrix4)
        ensures
            *m == self.inverse_transformation,
    {
        &self.inverse_transformation
    }

    pub fn get_id(&self) -> (id: u32)
        ensures
            id == self.id,
    {
        self.id
    }
}

} // verus!

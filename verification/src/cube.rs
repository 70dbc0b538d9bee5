//! The axis-aligned box spanning [-1, 1]^3, carried to world space by its
//! transform.  Intersection is the slab test per axis; a near-zero
//! direction component maps to an effectively infinite distance with the
//! numerator's sign instead of a division by zero.

use vstd::prelude::*;
use crate::material::{default_material_s, Material};
use crate::math::{abs_i, abs_s, div_s, max_s, min_s, sub_s, fabs, fdiv, fmax, fmin, fsub,
    EPSILON, SCALE};
use crate::matrix::{det4_s, inv4_entry, inverse4, mul_tuple_s, Matrix4};
use crate::ray::{transform, transform_ray_s, Ray};
use crate::shape::{world_normal, world_normal_s};
use crate::transformation::identity_seq;
use crate::tuple::Tuple;

verus! {

#[derive(Clone, Debug)]
pub struct Cube {
    pub id: u32,
    pub material: Material,
    pub inverse_transformation: Matrix4,
}

/// An effectively infinite distance carrying the sign of `v`: the limit of
/// `v / d` as the near-zero direction component `d` goes to zero.
pub open spec fn inf_sign_s(v: i64) -> i64 {
    if v > 0 {
        i64::MAX
    } else if v < 0 {
        i64::MIN
    } else {
        0i64
    }
}

/// The slab distances for one axis, in increasing order.
pub open spec fn check_axis_s(origin: i64, direction: i64) -> (i64, i64) {
    let tmin_numerator = sub_s(-1_000_000i64, origin);
    let tmax_numerator = sub_s(SCALE, origin);
    let tmin = if abs_s(direction) >= EPSILON {
        div_s(tmin_numerator, direction)
    } else {
        inf_sign_s(tmin_numerator)
    };
    let tmax = if abs_s(direction) >= EPSILON {
        div_s(tmax_numerator, direction)
    } else {
        inf_sign_s(tmax_numerator)
    };
    if tmin > tmax { (tmax, tmin) } else { (tmin, tmax) }
}

/// The parametric distances at which a ray meets the cube: the greatest
/// slab entry and the least slab exit, both emitted exactly when the
/// interval is nonempty.
pub open spec fn cube_intersections_s(inv: Matrix4, ray: Ray) -> Seq<i64> {
    let r = transform_ray_s(inv, ray);
    let xt = check_axis_s(r.origin.x, r.direction.x);
    let yt = check_axis_s(r.origin.y, r.direction.y);
    let zt = check_axis_s(r.origin.z, r.direction.z);
    let tmin = max_s(max_s(xt.0, yt.0), zt.0);
    let tmax = min_s(min_s(xt.1, yt.1), zt.1);
    if tmin > tmax {
        Seq::empty()
    } else {
        seq![tmin, tmax]
    }
}

/// The object normal of the cube: the signed axis of the largest-magnitude
/// object-space coordinate, ties resolved x first, then y.
pub open spec fn cube_object_normal_s(p: Tuple) -> Tuple {
    let m = max_s(max_s(abs_s(p.x), abs_s(p.y)), abs_s(p.z));
    if m == abs_s(p.x) {
        Tuple { x: p.x, y: 0i64, z: 0i64, w: 0i64 }
    } else if m == abs_s(p.y) {
        Tuple { x: 0i64, y: p.y, z: 0i64, w: 0i64 }
    } else {
        Tuple { x: 0i64, y: 0i64, z: p.z, w: 0i64 }
    }
}

/// The world normal at a point of the cube.
pub open spec fn cube_normal_s(inv: Matrix4, world_point: Tuple) -> Tuple {
    world_normal_s(inv, cube_object_normal_s(mul_tuple_s(inv, world_point)))
}

fn check_axis(origin: i64, direction: i64) -> (r: (i64, i64))
    ensures
        r == check_axis_s(origin, direction),
{
    let tmin_numerator = fsub(-1_000_000, origin);
    let tmax_numerator = fsub(SCALE, origin);
    let mut tmin: i64;
    let mut tmax: i64;
    if fabs(direction) >= EPSILON {
        tmin = fdiv(tmin_numerator, direction);
        tmax = fdiv(tmax_numerator, direction);
    } else {
        tmin = inf_sign(tmin_numerator);
        tmax = inf_sign(tmax_numerator);
    }
    if tmin > tmax {
        let temp = tmin;
        tmin = tmax;
        tmax = temp;
    }
    (tmin, tmax)
}

fn inf_sign(v: i64) -> (r: i64)
    ensures
        r == inf_sign_s(v),
{
    if v > 0 {
        i64::MAX
    } else if v < 0 {
        i64::MIN
    } else {
        0
    }
}

impl Cube {
    pub open spec fn wf(self) -> bool {
        self.inverse_transformation.wf() && self.material.wf()
    }

    /// The unit cube with the identity transform and the default material.
    pub fn new(id: u32) -> (c: Cube)
        ensures
            c.wf(),
            c.id == id,
            c.inverse_transformation.values@ == identity_seq(),
            c.material == default_material_s(),
    {
        Cube { id, material: Material::default(), inverse_transformation: Matrix4::identity() }
    }

    /// Store the inverse of `t` eagerly; a singular transform is rejected
    /// and the cube is left unchanged.
    pub fn set_transformation(&mut self, t: Matrix4) -> (accepted: bool)
        requires
            old(self).wf(),
            t.wf(),
        ensures
            final(self).wf(),
            accepted == (det4_s(t) != 0),
            final(self).id == old(self).id,
            final(self).material == old(self).material,
            if accepted {
                forall|i: int, j: int|
                    0 <= i < 4 && 0 <= j < 4 ==> final(self).inverse_transformation.idx(i, j)
                        == inv4_entry(t, i, j)
            } else {
                final(self).inverse_transformation == old(self).inverse_transformation
            },
    {
        match inverse4(&t) {
            Some(inv) => {
                self.inverse_transformation = inv;
                true
            },
            None => false,
        }
    }

    /// The world normal at a world point of the cube.
    pub fn normal_at(&self, world_point: &Tuple) -> (n: Tuple)
        requires
            self.wf(),
        ensures
            n == cube_normal_s(self.inverse_transformation, *world_point),
    {
        let point = self.inverse_transformation.mul_tuple(world_point);
        let m = fmax(fmax(fabs(point.x), fabs(point.y)), fabs(point.z));
        let normal: Tuple;
        if m == fabs(point.x) {
            normal = Tuple::new_vector(point.x, 0, 0);
        } else if m == fabs(point.y) {
            normal = Tuple::new_vector(0, point.y, 0);
        } else {
            normal = Tuple::new_vector(0, 0, point.z);
        }
        world_normal(&self.inverse_transformation, &normal)
    }

    pub fn get_material(&self) -> (m: &Material)
        ensures
            *m == self.material,
    {
        &self.material
    }

    pub fn set_material(&mut self, m: Material)
        ensures
            final(self).material == m,
            final(self).id == old(self).id,
            final(self).inverse_transformation == old(self).inverse_transformation,
    {
        self.material = m;
    }

    /// The parametric distances at which `ray` meets the cube.
    pub fn intersections_by(&self, ray: &Ray) -> (r: Vec<i64>)
        requires
            self.wf(),
        ensures
            r@ == cube_intersections_s(self.inverse_transformation, *ray),
    {
        let tray = transform(ray, &self.inverse_transformation);
        let xt = check_axis(tray.origin.x, tray.direction.x);
        let yt = check_axis(tray.origin.y, tray.direction.y);
        let zt = check_axis(tray.origin.z, tray.direction.z);
        let tmin = fmax(fmax(xt.0, yt.0), zt.0);
        let tmax = fmin(fmin(xt.1, yt.1), zt.1);
        let mut result: Vec<i64> = Vec::new();
        if tmin > tmax {
            proof {
                assert(result@ =~= cube_intersections_s(self.inverse_transformation, *ray));
            }
            return result;
        }
        result.push(tmin);
        result.push(tmax);
        proof {
            assert(result@ =~= cube_intersections_s(self.inverse_transformation, *ray));
        }
        result
    }

    pub fn get_inverse_transformation(&self) -> (m: &Matrix4)
        ensures
            *m == self.inverse_transformation,
    {
        &self.inverse_transformation
    }

    pub fn get_id(&self) -> (id: u32)
        ensures
            id == self.id,
    {
        self.id
    }
}

} // verus!

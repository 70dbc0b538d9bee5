//! The shape protocol: the shared world-normal construction and the tagged
//! union over the three primitives, giving the renderer one intersection
//! and normal interface with exhaustive matching instead of dynamic
//! dispatch.

use vstd::prelude::*;
use crate::cube::{cube_intersections_s, cube_normal_s, Cube};
use crate::material::Material;
use crate::matrix::{det4_s, inv4_entry, mul_transpose_tuple_s, Matrix4};
use crate::plane::{plane_intersections_s, plane_normal_s, Plane};
use crate::ray::Ray;
use crate::sphere::{sphere_intersections_s, sphere_normal_s, Sphere};
use crate::tuple::{normalize_t, Tuple};

verus! {

/// An object normal carried to world space: pushed through the transpose
/// of the shape's inverse transform, `w` forced back to zero, then
/// normalized.  (The documented simplification: the exact treatment would
/// transform by the inverse of the upper 3x3 block.)
pub open spec fn world_normal_s(inv: Matrix4, object_normal: Tuple) -> Tuple {
    let wn = mul_transpose_tuple_s(inv, object_normal);
    normalize_t(Tuple { x: wn.x, y: wn.y, z: wn.z, w: 0i64 })
}

pub fn world_normal(inv: &Matrix4, object_normal: &Tuple) -> (n: Tuple)
    requires
        inv.wf(),
    ensures
        n == world_normal_s(*inv, *object_normal),
{
    let transposed = inv.transpose();
    let mut wn = transposed.mul_tuple(object_normal);
    wn.w = 0;
    wn.normalize()
}

#[derive(Clone, Debug)]
pub enum Shape {
    Sphere(Sphere),
    Plane(Plane),
    Cube(Cube),
}

pub open spec fn shape_id(s: Shape) -> u32 {
    match s {
        Shape::Sphere(x) => x.id,
        Shape::Plane(x) => x.id,
        Shape::Cube(x) => x.id,
    }
}

pub open spec fn shape_material(s: Shape) -> Material {
    match s {
        Shape::Sphere(x) => x.material,
        Shape::Plane(x) => x.material,
        Shape::Cube(x) => x.material,
    }
}

pub open spec fn shape_inv(s: Shape) -> Matrix4 {
    match s {
        Shape::Sphere(x) => x.inverse_transformation,
        Shape::Plane(x) => x.inverse_transformation,
        Shape::Cube(x) => x.inverse_transformation,
    }
}

/// The world normal of a shape at a world point.
pub open spec fn shape_normal_s(s: Shape, world_point: Tuple) -> Tuple {
    match s {
        Shape::Sphere(x) => sphere_normal_s(x.inverse_transformation, world_point),
        Shape::Plane(x) => plane_normal_s(x.inverse_transformation),
        Shape::Cube(x) => cube_normal_s(x.inverse_transformation, world_point),
    }
}

/// The parametric distances at which a ray meets a shape.
pub open spec fn shape_intersections_s(s: Shape, ray: Ray) -> Seq<i64> {
    match s {
        Shape::Sphere(x) => sphere_intersections_s(x.inverse_transformation, ray),
        Shape::Plane(x) => plane_intersections_s(x.inverse_transformation, ray),
        Shape::Cube(x) => cube_intersections_s(x.inverse_transformation, ray),
    }
}

impl Shape {
    pub open spec fn wf(self) -> bool {
        match self {
            Shape::Sphere(x) => x.wf(),
            Shape::Plane(x) => x.wf(),
            Shape::Cube(x) => x.wf(),
        }
    }

    pub fn get_id(&self) -> (id: u32)
        ensures
            id == shape_id(*self),
    {
        match self {
            Shape::Sphere(x) => x.get_id(),
            Shape::Plane(x) => x.get_id(),
            Shape::Cube(x) => x.get_id(),
        }
    }

    pub fn get_material(&self) -> (m: &Material)
        ensures
            *m == shape_material(*self),
    {
        match self {
            Shape::Sphere(x) => x.get_material(),
            Shape::Plane(x) => x.get_material(),
            Shape::Cube(x) => x.get_material(),
        }
    }

    pub fn set_material(&mut self, m: Material)
        ensures
            shape_material(*final(self)) == m,
            shape_id(*final(self)) == shape_id(*old(self)),
            shape_inv(*final(self)) == shape_inv(*old(self)),
    {
        match self {
            Shape::Sphere(x) => x.set_material(m),
            Shape::Plane(x) => x.set_material(m),
            Shape::Cube(x) => x.set_material(m),
        }
    }

    pub fn get_inverse_transformation(&self) -> (m: &Matrix4)
        ensures
            *m == shape_inv(*self),
    {
        match self {
            Shape::Sphere(x) => x.get_inverse_transformation(),
            Shape::Plane(x) => x.get_inverse_transformation(),
            Shape::Cube(x) => x.get_inverse_transformation(),
        }
    }

    /// Store the inverse of `t` eagerly; a singular transform is rejected
    /// and the shape is left unchanged.
    pub fn set_transformation(&mut self, t: Matrix4) -> (accepted: bool)
        requires
            old(self).wf(),
            t.wf(),
        ensures
            final(self).wf(),
            accepted == (det4_s(t) != 0),
            shape_id(*final(self)) == shape_id(*old(self)),
            shape_material(*final(self)) == shape_material(*old(self)),
            if accepted {
                forall|i: int, j: int|
                    0 <= i < 4 && 0 <= j < 4 ==> shape_inv(*final(self)).idx(i, j) == inv4_entry(
                        t,
                        i,
                        j,
                    )
            } else {
                shape_inv(*final(self)) == shape_inv(*old(self))
            },
    {
        match self {
            Shape::Sphere(x) => x.set_transformation(t),
            Shape::Plane(x) => x.set_transformation(t),
            Shape::Cube(x) => x.set_transformation(t),
        }
    }

    /// The world normal at a world point of the shape.
    pub fn normal_at(&self, world_point: &Tuple) -> (n: Tuple)
        requires
            self.wf(),
        ensures
            n == shape_normal_s(*self, *world_point),
    {
        match self {
            Shape::Sphere(x) => x.normal_at(world_point),
            Shape::Plane(x) => x.normal_at(world_point),
            Shape::Cube(x) => x.normal_at(world_point),
        }
    }

    /// The parametric distances at which `ray` meets the shape.
    pub fn intersections_by(&self, ray: &Ray) -> (r: Vec<i64>)
        requires
            self.wf(),
        ensures
            r@ == shape_intersections_s(*self, *ray),
    {
        match self {
            Shape::Sphere(x) => x.intersections_by(ray),
            Shape::Plane(x) => x.intersections_by(ray),
            Shape::Cube(x) => x.intersections_by(ray),
        }
    }
}

} // verus!

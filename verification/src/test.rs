//! A smoke exercise of the shape protocol through the shared interface.

use vstd::prelude::*;
use crate::matrix::{det4_s, minor4_s, Matrix4};
use crate::shape::Shape;
use crate::sphere::Sphere;

verus! {

/// Drives a shape through the shared interface: a fresh shape accepts the
/// identity transform, whose determinant is one.
pub fn test() -> (accepted: bool)
    ensures
        accepted,
{
    let mut s = Shape::Sphere(Sphere::new(5));
    let m = Matrix4::identity();
    proof {
        reveal(minor4_s);
        assert(det4_s(m) == 1_000_000i64);
    }
    s.set_transformation(m)
}

} // verus!

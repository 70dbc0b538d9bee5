//! Surface patterns: the color is a function of local coordinates.  Each
//! variant owns its own inverse transform, independent of the shape's, and
//! resolving a color against a shape composes the shape's inverse with the
//! pattern's.

use vstd::prelude::*;
use crate::color::{add_c, scale_c, sub_c, Color};
use crate::math::{even_units_s, floor_units_s, sqrt_s, add_s, mul_s, sub_s, from_units_s,
    even_units, floor_units, from_units, fadd, fmul, fsqrt, fsub};
use crate::matrix::{det4_s, inv4_entry, inverse4, mul_tuple_s, Matrix4};
use crate::tuple::{lemma_mul_self_nonneg, Tuple};

verus! {

#[derive(Clone, Debug)]
pub enum Pattern {
    Stripe { first: Color, second: Color, inverse_transformation: Matrix4 },
    Gradient { first: Color, second: Color, inverse_transformation: Matrix4 },
    Ring { first: Color, second: Color, inverse_transformation: Matrix4 },
    Checker { first: Color, second: Color, inverse_transformation: Matrix4 },
}

pub open spec fn first_of(p: Pattern) -> Color {
    match p {
        Pattern::Stripe { first, .. } => first,
        Pattern::Gradient { first, .. } => first,
        Pattern::Ring { first, .. } => first,
        Pattern::Checker { first, .. } => first,
    }
}

pub open spec fn second_of(p: Pattern) -> Color {
    match p {
        Pattern::Stripe { second, .. } => second,
        Pattern::Gradient { second, .. } => second,
        Pattern::Ring { second, .. } => second,
        Pattern::Checker { second, .. } => second,
    }
}

pub open spec fn inv_of(p: Pattern) -> Matrix4 {
    match p {
        Pattern::Stripe { inverse_transformation, .. } => inverse_transformation,
        Pattern::Gradient { inverse_transformation, .. } => inverse_transformation,
        Pattern::Ring { inverse_transformation, .. } => inverse_transformation,
        Pattern::Checker { inverse_transformation, .. } => inverse_transformation,
    }
}

/// The color of a pattern at a point already in pattern space.
pub open spec fn pattern_color_s(p: Pattern, point: Tuple) -> Color {
    match p {
        Pattern::Stripe { first, second, .. } => if even_units_s(floor_units_s(point.x)) {
            first
        } else {
            second
        },
        Pattern::Gradient { first, second, .. } => {
            let frac = sub_s(point.x, from_units_s(floor_units_s(point.x) as int));
            add_c(first, scale_c(sub_c(second, first), frac))
        },
        Pattern::Ring { first, second, .. } => {
            let radius = sqrt_s(add_s(mul_s(point.x, point.x), mul_s(point.z, point.z)));
            if even_units_s(floor_units_s(radius)) {
                first
            } else {
                second
            }
        },
        Pattern::Checker { first, second, .. } => {
            let u = floor_units_s(point.x) + floor_units_s(point.y) + floor_units_s(point.z);
            if u % 2 == 0 {
                first
            } else {
                second
            }
        },
    }
}

/// The color of a pattern on a shape: the world point is pulled through the
/// shape's inverse and then the pattern's own inverse.
pub open spec fn pattern_color_obj_s(p: Pattern, shape_inverse: Matrix4, world_point: Tuple) -> Color {
    pattern_color_s(p, mul_tuple_s(inv_of(p), mul_tuple_s(shape_inverse, world_point)))
}

impl Pattern {
    pub open spec fn wf(self) -> bool {
        inv_of(self).wf()
    }

    /// Alternating colors along x, in whole-unit bands.
    pub fn stripe(first: Color, second: Color) -> (p: Pattern)
        ensures
            p.wf(),
            first_of(p) == first,
            second_of(p) == second,
            inv_of(p).values@ == crate::transformation::identity_seq(),
            p is Stripe,
    {
        Pattern::Stripe { first, second, inverse_transformation: Matrix4::identity() }
    }

    /// Linear interpolation from `first` to `second` over each x unit.
    pub fn gradient(first: Color, second: Color) -> (p: Pattern)
        ensures
            p.wf(),
            first_of(p) == first,
            second_of(p) == second,
            inv_of(p).values@ == crate::transformation::identity_seq(),
            p is Gradient,
    {
        Pattern::Gradient { first, second, inverse_transformation: Matrix4::identity() }
    }

    /// Alternating concentric rings in the xz plane.
    pub fn ring(first: Color, second: Color) -> (p: Pattern)
        ensures
            p.wf(),
            first_of(p) == first,
            second_of(p) == second,
            inv_of(p).values@ == crate::transformation::identity_seq(),
            p is Ring,
    {
        Pattern::Ring { first, second, inverse_transformation: Matrix4::identity() }
    }

    /// The three-axis checker: parity of `floor(x) + floor(y) + floor(z)`.
    pub fn checker(first: Color, second: Color) -> (p: Pattern)
        ensures
            p.wf(),
            first_of(p) == first,
            second_of(p) == second,
            inv_of(p).values@ == crate::transformation::identity_seq(),
            p is Checker,
    {
        Pattern::Checker { first, second, inverse_transformation: Matrix4::identity() }
    }

    pub fn get_inverse_transformation(&self) -> (m: &Matrix4)
        ensures
            *m == inv_of(*self),
    {
        match self {
            Pattern::Stripe { inverse_transformation, .. } => inverse_transformation,
            Pattern::Gradient { inverse_transformation, .. } => inverse_transformation,
            Pattern::Ring { inverse_transformation, .. } => inverse_transformation,
            Pattern::Checker { inverse_transformation, .. } => inverse_transformation,
        }
    }

    /// Store the inverse of `transform` eagerly; a singular transform is
    /// rejected and the pattern is left unchanged.
    pub fn set_transform(&mut self, transform: &Matrix4) -> (accepted: bool)
        requires
            old(self).wf(),
            transform.wf(),
        ensures
            final(self).wf(),
            accepted == (det4_s(*transform) != 0),
            first_of(*final(self)) == first_of(*old(self)),
            second_of(*final(self)) == second_of(*old(self)),
            (*final(self)) matches Pattern::Stripe { .. } <==> (*old(self)) matches Pattern::Stripe { .. },
            (*final(self)) matches Pattern::Gradient { .. } <==> (*old(self)) matches Pattern::Gradient { .. },
            (*final(self)) matches Pattern::Ring { .. } <==> (*old(self)) matches Pattern::Ring { .. },
            (*final(self)) matches Pattern::Checker { .. } <==> (*old(self)) matches Pattern::Checker { .. },
            if accepted {
                forall|i: int, j: int|
                    0 <= i < 4 && 0 <= j < 4 ==> inv_of(*final(self)).idx(i, j) == inv4_entry(
                        *transform,
                        i,
                        j,
                    )
            } else {
                inv_of(*final(self)) == inv_of(*old(self))
            },
    {
        match inverse4(transform) {
            Some(inv) => {
                match self {
                    Pattern::Stripe { inverse_transformation, .. } => {
                        *inverse_transformation = inv;
                    },
                    Pattern::Gradient { inverse_transformation, .. } => {
                        *inverse_transformation = inv;
                    },
                    Pattern::Ring { inverse_transformation, .. } => {
                        *inverse_transformation = inv;
                    },
                    Pattern::Checker { inverse_transformation, .. } => {
                        *inverse_transformation = inv;
                    },
                }
                true
            },
            None => false,
        }
    }

    /// The pattern's color at a point in pattern space.
    pub fn color_at(&self, point: &Tuple) -> (c: Color)
        ensures
            c == pattern_color_s(*self, *point),
    {
        match self {
            Pattern::Stripe { first, second, .. } => {
                if even_units(floor_units(point.x)) {
                    *first
                } else {
                    *second
                }
            },
            Pattern::Gradient { first, second, .. } => {
                let frac = fsub(point.x, from_units(floor_units(point.x)));
                first.add(second.sub(*first).mul(frac))
            },
            Pattern::Ring { first, second, .. } => {
                proof {
                    lemma_mul_self_nonneg(point.x);
                    lemma_mul_self_nonneg(point.z);
                }
                let radius = fsqrt(fadd(fmul(point.x, point.x), fmul(point.z, point.z)));
                if even_units(floor_units(radius)) {
                    *first
                } else {
                    *second
                }
            },
            Pattern::Checker { first, second, .. } => {
                let u = floor_units(point.x) + floor_units(point.y) + floor_units(point.z);
                if even_units(u) {
                    *first
                } else {
                    *second
                }
            },
        }
    }

    /// The pattern's color at a world point on a shape with the given
    /// inverse transform.
    pub fn color_at_obj(&self, shape_inverse: &Matrix4, world_point: &Tuple) -> (c: Color)
        requires
            self.wf(),
            shape_inverse.wf(),
        ensures
            c == pattern_color_obj_s(*self, *shape_inverse, *world_point),
    {
        let obj_point = shape_inverse.mul_tuple(world_point);
        let pattern_point = self.get_inverse_transformation().mul_tuple(&obj_point);
        self.color_at(&pattern_point)
    }
}

} // verus!

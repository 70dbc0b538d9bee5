//! Colors as red/green/blue triples of fixed-point intensities.  Values are
//! unclamped; clamping to output channel ranges happens at the presentation
//! edge (`canvas::limit`).

use vstd::prelude::*;
use crate::math::{abs_i, add_s, mul_s, sub_s, fadd, fmul, fsub, float_equal, EPSILON};

verus! {

#[derive(Clone, Copy, PartialEq, Eq, Structural, Debug)]
pub struct Color {
    pub red: i64,
    pub green: i64,
    pub blue: i64,
}

pub open spec fn add_c(a: Color, b: Color) -> Color {
    Color { red: add_s(a.red, b.red), green: add_s(a.green, b.green), blue: add_s(a.blue, b.blue) }
}

pub open spec fn sub_c(a: Color, b: Color) -> Color {
    Color { red: sub_s(a.red, b.red), green: sub_s(a.green, b.green), blue: sub_s(a.blue, b.blue) }
}

pub open spec fn scale_c(a: Color, s: i64) -> Color {
    Color { red: mul_s(a.red, s), green: mul_s(a.green, s), blue: mul_s(a.blue, s) }
}

/// The componentwise (Hadamard) product of two colors.
pub open spec fn hadamard_c(a: Color, b: Color) -> Color {
    Color { red: mul_s(a.red, b.red), green: mul_s(a.green, b.green), blue: mul_s(a.blue, b.blue) }
}

pub open spec fn black_c() -> Color {
    Color { red: 0i64, green: 0i64, blue: 0i64 }
}

pub open spec fn white_c() -> Color {
    Color { red: 1_000_000i64, green: 1_000_000i64, blue: 1_000_000i64 }
}

pub open spec fn approx_eq_c(a: Color, b: Color) -> bool {
    abs_i(a.red - b.red) <= EPSILON && abs_i(a.green - b.green) <= EPSILON
        && abs_i(a.blue - b.blue) <= EPSILON
}

impl Color {
    pub fn new(red: i64, green: i64, blue: i64) -> (c: Color)
        ensures
            c == (Color { red, green, blue }),
    {
        Color { red, green, blue }
    }

    pub fn add(self, other: Color) -> (r: Color)
        ensures
            r == add_c(self, other),
    {
        Color {
            red: fadd(self.red, other.red),
            green: fadd(self.green, other.green),
            blue: fadd(self.blue, other.blue),
        }
    }

    pub fn sub(self, other: Color) -> (r: Color)
        ensures
            r == sub_c(self, other),
    {
        Color {
            red: fsub(self.red, other.red),
            green: fsub(self.green, other.green),
            blue: fsub(self.blue, other.blue),
        }
    }

    /// Componentwise multiplication by a fixed-point scalar.
    pub fn mul(self, s: i64) -> (r: Color)
        ensures
            r == scale_c(self, s),
    {
        Color { red: fmul(self.red, s), green: fmul(self.green, s), blue: fmul(self.blue, s) }
    }

    /// The componentwise product of two colors.
    pub fn hadamard(self, other: Color) -> (r: Color)
        ensures
            r == hadamard_c(self, other),
    {
        Color {
            red: fmul(self.red, other.red),
            green: fmul(self.green, other.green),
            blue: fmul(self.blue, other.blue),
        }
    }

    /// Tolerant componentwise comparison, within `EPSILON` on each channel.
    pub fn approx_eq(&self, other: &Color) -> (r: bool)
        ensures
            r == approx_eq_c(*self, *other),
    {
        float_equal(self.red, other.red) && float_equal(self.green, other.green)
            && float_equal(self.blue, other.blue)
    }
}

/// Pure black, the absorbing color of missed rays and exhausted recursion.
pub fn black() -> (c: Color)
    ensures
        c == black_c(),
{
    Color { red: 0, green: 0, blue: 0 }
}

/// Full-intensity white.
pub fn white() -> (c: Color)
    ensures
        c == white_c(),
{
    Color { red: 1_000_000, green: 1_000_000, blue: 1_000_000 }
}

} // verus!

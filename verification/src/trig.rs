//! Fixed-point circular functions for the rotation builders and the camera's
//! field of view.
//!
//! The argument is an angle in radians, in fixed-point units.  The angle is
//! reduced to `[-PI/2, PI/2]` through the period and the identity
//! `sin(PI - x) = sin(x)`, and the sine is then evaluated as the odd Taylor
//! polynomial through the eleventh power, folded in Horner form.  The
//! contracts mirror the computation exactly; the polynomial stays within a
//! few fixed-point units of the circular sine on the reduced range.

use vstd::prelude::*;
use crate::math::{
    add_s, div_s, from_units, from_units_s, mul_s, neg_s, sub_s, trunc_units, trunc_units_s,
    fadd, fdiv, fmul, fneg, fsub, SCALE,
};

verus! {

/// Half a turn, in fixed-point radians.
pub const PI: i64 = 3_141_593;

/// A full turn, in fixed-point radians.
pub const TWO_PI: i64 = 6_283_185;

/// A quarter turn, in fixed-point radians.
pub const HALF_PI: i64 = 1_570_796;

/// Reciprocals of 6, 20, 42, 72 and 110, the Horner-form ratios between
/// consecutive odd Taylor coefficients of the sine.
pub const INV6: i64 = 166_667;

pub const INV20: i64 = 50_000;

pub const INV42: i64 = 23_810;

pub const INV72: i64 = 13_889;

pub const INV110: i64 = 9_091;

/// The angle folded into `[-PI/2, PI/2]` (up to fixed-point rounding):
/// whole turns are removed, then one period correction, then the
/// supplement identity.
pub open spec fn wrap_s(x: i64) -> i64 {
    let q = div_s(x, TWO_PI);
    let k = trunc_units_s(q);
    let r0 = sub_s(x, mul_s(from_units_s(k as int), TWO_PI));
    let r1 = if r0 > PI {
        sub_s(r0, TWO_PI)
    } else if r0 < -PI {
        add_s(r0, TWO_PI)
    } else {
        r0
    };
    if r1 > HALF_PI {
        sub_s(PI, r1)
    } else if r1 < -HALF_PI {
        sub_s(neg_s(PI), r1)
    } else {
        r1
    }
}

/// The sine polynomial on a reduced angle, folded from the innermost ratio
/// outward.
pub open spec fn sin_poly_s(r: i64) -> i64 {
    let x2 = mul_s(r, r);
    let t4 = sub_s(SCALE, mul_s(x2, INV110));
    let t3 = sub_s(SCALE, mul_s(mul_s(x2, INV72), t4));
    let t2 = sub_s(SCALE, mul_s(mul_s(x2, INV42), t3));
    let t1 = sub_s(SCALE, mul_s(mul_s(x2, INV20), t2));
    let t0 = sub_s(SCALE, mul_s(mul_s(x2, INV6), t1));
    mul_s(r, t0)
}

/// The fixed-point sine.
pub open spec fn sin_s(x: i64) -> i64 {
    sin_poly_s(wrap_s(x))
}

/// The fixed-point cosine, as the sine of the complement.
pub open spec fn cos_s(x: i64) -> i64 {
    sin_s(sub_s(HALF_PI, x))
}

/// The fixed-point tangent; where the cosine rounds to zero the quotient
/// saturates with the sign of the sine.
pub open spec fn tan_s(x: i64) -> i64 {
    div_s(sin_s(x), cos_s(x))
}

fn wrap(x: i64) -> (r: i64)
    ensures
        r == wrap_s(x),
{
    let q = fdiv(x, TWO_PI);
    let k = trunc_units(q);
    let kf = from_units(k);
    let r0 = fsub(x, fmul(kf, TWO_PI));
    let r1 = if r0 > PI {
        fsub(r0, TWO_PI)
    } else if r0 < -PI {
        fadd(r0, TWO_PI)
    } else {
        r0
    };
    if r1 > HALF_PI {
        fsub(PI, r1)
    } else if r1 < -HALF_PI {
        fsub(fneg(PI), r1)
    } else {
        r1
    }
}

fn sin_poly(r: i64) -> (s: i64)
    ensures
        s == sin_poly_s(r),
{
    let x2 = fmul(r, r);
    let t4 = fsub(SCALE, fmul(x2, INV110));
    let t3 = fsub(SCALE, fmul(fmul(x2, INV72), t4));
    let t2 = fsub(SCALE, fmul(fmul(x2, INV42), t3));
    let t1 = fsub(SCALE, fmul(fmul(x2, INV20), t2));
    let t0 = fsub(SCALE, fmul(fmul(x2, INV6), t1));
    fmul(r, t0)
}

/// Fixed-point sine of an angle in radians.
pub fn sin_fp(x: i64) -> (s: i64)
    ensures
        s == sin_s(x),
{
    sin_poly(wrap(x))
}

/// Fixed-point cosine of an angle in radians.
pub fn cos_fp(x: i64) -> (c: i64)
    ensures
        c == cos_s(x),
{
    sin_fp(fsub(HALF_PI, x))
}

/// Fixed-point tangent of an angle in radians.
pub fn tan_fp(x: i64) -> (t: i64)
    ensures
        t == tan_s(x),
{
    let s = sin_fp(x);
    let c = cos_fp(x);
    fdiv(s, c)
}

} // verus!

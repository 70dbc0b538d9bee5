//! Scalar kernel: fixed-point numbers.
//!
//! Every scalar quantity in the renderer (coordinates, colors, matrix
//! entries, parametric distances) is an `i64` holding the quantity times
//! `SCALE`.  All operations saturate at the `i64` range instead of wrapping,
//! and every executable operation is specified exactly by a spec-level
//! mirror, so the contracts of the geometric layers above pin their results
//! down to the unit.

use vstd::prelude::*;

verus! {

/// Number of fixed-point units in one whole unit (1.0).
pub const SCALE: i64 = 1_000_000;

/// Comparison tolerance used by `float_equal` and the geometric degeneracy
/// tests (parallel rays, near-zero direction components): 0.001.
pub const EPSILON: i64 = 1_000;

/// Offset applied along the normal to build over/under points; must stay
/// above `EPSILON` scaled effects to dodge self-intersection acne: 0.001.
pub const SHADOW_EPSILON: i64 = 1_000;

/// Absolute value over mathematical integers.
pub open spec fn abs_i(x: int) -> int {
    if x < 0 { -x } else { x }
}

/// Clamp a mathematical integer into the `i64` range.
pub open spec fn sat64(x: int) -> i64 {
    if x > i64::MAX { i64::MAX } else if x < i64::MIN { i64::MIN } else { x as i64 }
}

/// Division rounding toward zero (the machine rounding of `i64`/`i128`).
/// Division by zero is never relied on; it follows Verus's convention.
pub open spec fn tdiv(n: int, d: int) -> int {
    if (n < 0) == (d < 0) { abs_i(n) / abs_i(d) } else { -(abs_i(n) / abs_i(d)) }
}

/// Saturating fixed-point addition.
pub open spec fn add_s(a: i64, b: i64) -> i64 {
    sat64(a + b)
}

/// Saturating fixed-point subtraction.
pub open spec fn sub_s(a: i64, b: i64) -> i64 {
    sat64(a - b)
}

/// Saturating fixed-point multiplication: `a * b / SCALE` rounded toward zero.
pub open spec fn mul_s(a: i64, b: i64) -> i64 {
    sat64(tdiv(a * b, SCALE as int))
}

/// Saturating fixed-point division: `a * SCALE / b` rounded toward zero.
/// A zero divisor saturates with the sign of the dividend.
pub open spec fn div_s(a: i64, b: i64) -> i64 {
    if b == 0 {
        if a > 0 { i64::MAX } else if a < 0 { i64::MIN } else { 0i64 }
    } else {
        sat64(tdiv(a * SCALE, b as int))
    }
}

/// Saturating negation (only `i64::MIN` saturates).
pub open spec fn neg_s(a: i64) -> i64 {
    sat64(-a)
}

/// Saturating absolute value.
pub open spec fn abs_s(a: i64) -> i64 {
    sat64(abs_i(a as int))
}

pub open spec fn min_s(a: i64, b: i64) -> i64 {
    if a < b { a } else { b }
}

pub open spec fn max_s(a: i64, b: i64) -> i64 {
    if a > b { a } else { b }
}

/// `r` is the integer square root of `n`.
pub open spec fn is_sqrt(n: int, r: int) -> bool {
    0 <= r && r * r <= n && n < (r + 1) * (r + 1)
}

/// The integer square root, as a function (well defined for `n >= 0`,
/// see `lemma_sqrt_exists` and `lemma_sqrt_unique`).
pub open spec fn sqrt_i(n: int) -> int {
    choose|r: int| is_sqrt(n, r)
}

/// Fixed-point square root: `sqrt(a / SCALE) * SCALE` rounded down,
/// which is the integer square root of `a * SCALE`.
pub open spec fn sqrt_s(a: i64) -> i64 {
    sqrt_i(a * SCALE) as i64
}

/// Fixed-point power with a whole-number exponent, folded from the left
/// exactly as the executable loop multiplies.
pub open spec fn pow_s(b: i64, e: nat) -> i64
    decreases e,
{
    if e == 0 { SCALE } else { mul_s(pow_s(b, (e - 1) as nat), b) }
}

proof fn lemma_mul_i64_fits_i128(a: int, b: int) by (nonlinear_arith)
    requires
        -0x8000_0000_0000_0000 <= a <= 0x7fff_ffff_ffff_ffff,
        -0x8000_0000_0000_0000 <= b <= 0x7fff_ffff_ffff_ffff,
    ensures
        -0x4000_0000_0000_0000_0000_0000_0000_0000 <= a * b
            <= 0x4000_0000_0000_0000_0000_0000_0000_0000,
{
}

fn clamp128(x: i128) -> (r: i64)
    ensures
        r == sat64(x as int),
{
    if x > i64::MAX as i128 {
        i64::MAX
    } else if x < i64::MIN as i128 {
        i64::MIN
    } else {
        x as i64
    }
}

fn tdiv128(n: i128, d: i128) -> (r: i128)
    requires
        d != 0,
        i128::MIN < n,
        0 < d,
    ensures
        r == tdiv(n as int, d as int),
{
    if n >= 0 {
        n / d
    } else {
        -((-n) / d)
    }
}

/// Saturating fixed-point addition.
pub fn fadd(a: i64, b: i64) -> (r: i64)
    ensures
        r == add_s(a, b),
{
    clamp128(a as i128 + b as i128)
}

/// Saturating fixed-point subtraction.
pub fn fsub(a: i64, b: i64) -> (r: i64)
    ensures
        r == sub_s(a, b),
{
    clamp128(a as i128 - b as i128)
}

/// Saturating fixed-point multiplication.
pub fn fmul(a: i64, b: i64) -> (r: i64)
    ensures
        r == mul_s(a, b),
{
    proof {
        lemma_mul_i64_fits_i128(a as int, b as int);
    }
    let p: i128 = (a as i128) * (b as i128);
    let q = tdiv128(p, SCALE as i128);
    clamp128(q)
}

/// Saturating fixed-point division; a zero divisor saturates with the sign
/// of the dividend.
pub fn fdiv(a: i64, b: i64) -> (r: i64)
    ensures
        r == div_s(a, b),
{
    if b == 0 {
        if a > 0 {
            i64::MAX
        } else if a < 0 {
            i64::MIN
        } else {
            0
        }
    } else {
        proof {
            lemma_mul_i64_fits_i128(a as int, SCALE as int);
        }
        let n: i128 = (a as i128) * (SCALE as i128);
        let na: i128 = if n < 0 { -n } else { n };
        let da: i128 = if b < 0 { -(b as i128) } else { b as i128 };
        let q: i128 = na / da;
        if (n < 0) != (b < 0) {
            clamp128(-q)
        } else {
            clamp128(q)
        }
    }
}

/// Saturating negation.
pub fn fneg(a: i64) -> (r: i64)
    ensures
        r == neg_s(a),
{
    if a == i64::MIN { i64::MAX } else { -a }
}

/// Saturating absolute value.
pub fn fabs(a: i64) -> (r: i64)
    ensures
        r == abs_s(a),
{
    if a < 0 { fneg(a) } else { a }
}

pub fn fmin(a: i64, b: i64) -> (r: i64)
    ensures
        r == min_s(a, b),
{
    if a < b { a } else { b }
}

pub fn fmax(a: i64, b: i64) -> (r: i64)
    ensures
        r == max_s(a, b),
{
    if a > b { a } else { b }
}

/// Tolerant scalar comparison: true when the operands differ by at most
/// `EPSILON`.
pub fn float_equal(a: i64, b: i64) -> (r: bool)
    ensures
        r == (abs_i(a - b) <= EPSILON),
{
    let d: i128 = a as i128 - b as i128;
    let m: i128 = if d < 0 { -d } else { d };
    m <= EPSILON as i128
}

proof fn lemma_sqrt_exists_rec(n: nat)
    ensures
        exists|r: int| is_sqrt(n as int, r),
    decreases n,
{
    if n == 0 {
        assert(is_sqrt(0, 0));
    } else {
        lemma_sqrt_exists_rec((n - 1) as nat);
        let m: int = n as int - 1;
        let r = choose|r: int| is_sqrt(m, r);
        if (r + 1) * (r + 1) <= n {
            assert((n as int) < (r + 2) * (r + 2)) by (nonlinear_arith)
                requires
                    is_sqrt(n as int - 1, r),
            ;
            assert(is_sqrt(n as int, r + 1));
        } else {
            assert(is_sqrt(n as int, r));
        }
    }
}

/// Every nonnegative integer has an integer square root.
pub proof fn lemma_sqrt_exists(n: int)
    requires
        0 <= n,
    ensures
        is_sqrt(n, sqrt_i(n)),
{
    lemma_sqrt_exists_rec(n as nat);
    let r = choose|r: int| is_sqrt(n, r);
    assert(is_sqrt(n, r));
}

/// The integer square root is unique.
pub proof fn lemma_sqrt_unique(n: int, r1: int, r2: int) by (nonlinear_arith)
    requires
        is_sqrt(n, r1),
        is_sqrt(n, r2),
    ensures
        r1 == r2,
{
}

/// Fixed-point square root of a nonnegative number.
pub fn fsqrt(a: i64) -> (r: i64)
    requires
        0 <= a,
    ensures
        r == sqrt_s(a),
        0 <= r,
{
    proof {
        lemma_mul_i64_fits_i128(a as int, SCALE as int);
    }
    let n: i128 = (a as i128) * (SCALE as i128);
    let mut lo: i128 = 0;
    let mut hi: i128 = 0x400_0000_0000;
    proof {
        assert(n < hi * hi) by (nonlinear_arith)
            requires
                n <= 0x7fff_ffff_ffff_ffff * 1_000_000,
                hi == 0x400_0000_0000,
        ;
    }
    while lo + 1 < hi
        invariant
            0 <= lo < hi <= 0x400_0000_0000,
            lo * lo <= n,
            n < hi * hi,
        decreases hi - lo,
    {
        let mid: i128 = lo + (hi - lo) / 2;
        proof {
            assert(0 <= mid * mid < 0x7fff_ffff_ffff_ffff_ffff_ffff_ffff_ffff)
                by (nonlinear_arith)
                requires
                    0 <= mid <= 0x400_0000_0000,
            ;
        }
        if mid * mid <= n {
            lo = mid;
        } else {
            hi = mid;
        }
    }
    proof {
        assert(is_sqrt(n as int, lo as int));
        lemma_sqrt_exists(n as int);
        lemma_sqrt_unique(n as int, lo as int, sqrt_i(n as int));
    }
    lo as i64
}

/// Fixed-point power with a whole-number exponent.
pub fn fpow(b: i64, e: u32) -> (r: i64)
    ensures
        r == pow_s(b, e as nat),
{
    let mut acc: i64 = SCALE;
    let mut i: u32 = 0;
    while i < e
        invariant
            i <= e,
            acc == pow_s(b, i as nat),
        decreases e - i,
    {
        acc = fmul(acc, b);
        i = i + 1;
    }
    acc
}

/// The number of whole units below `a`: floor(a / SCALE).
pub open spec fn floor_units_s(a: i64) -> i64 {
    ((a as int) / (SCALE as int)) as i64
}

/// Whether a whole-unit count is even; the parity decides the two-color
/// patterns.
pub open spec fn even_units_s(u: i64) -> bool {
    u % 2 == 0
}

pub fn even_units(u: i64) -> (r: bool)
    ensures
        r == even_units_s(u),
{
    let m: i128 = if u < 0 { -(u as i128) } else { u as i128 };
    let r = m % 2 == 0;
    proof {
        assert(((-(u as int)) % 2 == 0) == ((u as int) % 2 == 0)) by {
            vstd::arithmetic::div_mod::lemma_fundamental_div_mod(u as int, 2);
            vstd::arithmetic::div_mod::lemma_fundamental_div_mod(-(u as int), 2);
        }
    }
    r
}

/// Floor division by `SCALE`, toward negative infinity.
pub fn floor_units(a: i64) -> (r: i64)
    ensures
        r == floor_units_s(a),
        -10_000_000_000_000 <= r <= 10_000_000_000_000,
{
    if a >= 0 {
        a / SCALE
    } else {
        let m: i128 = -(a as i128);
        let q: i128 = m / (SCALE as i128);
        let r128: i128 = if q * (SCALE as i128) == m { -q } else { -q - 1 };
        proof {
            vstd::arithmetic::div_mod::lemma_fundamental_div_mod(a as int, SCALE as int);
            vstd::arithmetic::div_mod::lemma_fundamental_div_mod(m as int, SCALE as int);
        }
        r128 as i64
    }
}

/// The number of whole units in `a`, rounded toward zero.
pub open spec fn trunc_units_s(a: i64) -> i64 {
    tdiv(a as int, SCALE as int) as i64
}

/// Division by `SCALE` rounded toward zero.
pub fn trunc_units(a: i64) -> (r: i64)
    ensures
        r == trunc_units_s(a),
{
    let m: i128 = if a < 0 { -(a as i128) } else { a as i128 };
    let q: i128 = m / (SCALE as i128);
    if a < 0 { (-q) as i64 } else { q as i64 }
}

/// Whole-number count scaled into fixed point, saturating.
pub open spec fn from_units_s(n: int) -> i64 {
    sat64(n * SCALE)
}

/// Scale an `i64` count of whole units into fixed point.
pub fn from_units(n: i64) -> (r: i64)
    ensures
        r == from_units_s(n as int),
{
    proof {
        lemma_mul_i64_fits_i128(n as int, SCALE as int);
    }
    clamp128((n as i128) * (SCALE as i128))
}

/// Scale a `usize` count of whole units into fixed point.
pub fn from_usize(n: usize) -> (r: i64)
    ensures
        r == from_units_s(n as int),
{
    proof {
        assert((n as int) * (SCALE as int) < 0x4000_0000_0000_0000_0000_0000_0000_0000)
            by (nonlinear_arith)
            requires
                0 <= n as int <= 0xffff_ffff_ffff_ffff,
        ;
    }
    clamp128((n as i128) * (SCALE as i128))
}

} // verus!

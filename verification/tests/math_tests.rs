use ray_tracer::math::{
    fabs, fadd, fdiv, float_equal, floor_units, fmul, fpow, fsqrt, fsub, EPSILON, SCALE,
};
use ray_tracer::trig::{cos_fp, sin_fp, tan_fp, HALF_PI, PI, TWO_PI};

#[test]
fn fixed_point_products_divide_out_the_scale() {
    assert_eq!(fmul(2_000_000, 3_000_000), 6_000_000);
    assert_eq!(fmul(500_000, 500_000), 250_000);
    assert_eq!(fmul(-500_000, 500_000), -250_000);
    assert_eq!(fdiv(1_000_000, 4_000_000), 250_000);
    assert_eq!(fdiv(-1_000_000, 4_000_000), -250_000);
    assert_eq!(fadd(1_500_000, -500_000), 1_000_000);
    assert_eq!(fsub(1_500_000, 500_000), 1_000_000);
    assert_eq!(fabs(-750_000), 750_000);
}

#[test]
fn saturation_stops_at_the_representable_range() {
    assert_eq!(fadd(i64::MAX, 1), i64::MAX);
    assert_eq!(fsub(i64::MIN, 1), i64::MIN);
    assert_eq!(fdiv(1_000_000, 0), i64::MAX);
    assert_eq!(fdiv(-1_000_000, 0), i64::MIN);
    assert_eq!(fdiv(0, 0), 0);
}

#[test]
fn square_roots_are_exact_on_squares() {
    assert_eq!(fsqrt(4_000_000), 2_000_000);
    assert_eq!(fsqrt(9_000_000), 3_000_000);
    assert_eq!(fsqrt(0), 0);
    assert!(float_equal(fsqrt(2_000_000), 1_414_213));
}

#[test]
fn powers_fold_repeated_products() {
    assert_eq!(fpow(2_000_000, 10), 1_024_000_000);
    assert_eq!(fpow(500_000, 2), 250_000);
    assert_eq!(fpow(3_000_000, 0), SCALE);
}

#[test]
fn floor_units_rounds_toward_negative_infinity() {
    assert_eq!(floor_units(1_500_000), 1);
    assert_eq!(floor_units(-1_500_000), -2);
    assert_eq!(floor_units(-1_000_000), -1);
    assert_eq!(floor_units(999_999), 0);
}

#[test]
fn float_equal_is_a_tolerance_of_one_thousandth() {
    assert!(float_equal(1_000_000, 1_000_000 + EPSILON));
    assert!(!float_equal(1_000_000, 1_000_000 + EPSILON + 1));
}

#[test]
fn circular_functions_hit_the_axis_values() {
    assert_eq!(sin_fp(0), 0);
    assert!(float_equal(sin_fp(HALF_PI), SCALE));
    assert!(float_equal(sin_fp(PI), 0));
    assert!(float_equal(cos_fp(0), SCALE));
    assert!(float_equal(cos_fp(HALF_PI), 0));
    assert!(float_equal(cos_fp(PI), -SCALE));
    assert!(float_equal(sin_fp(TWO_PI), 0));
    assert_eq!(tan_fp(PI / 4), SCALE);
    assert!(float_equal(sin_fp(PI / 6), 500_000));
}

#[test]
fn the_shape_protocol_smoke_check_passes() {
    assert!(ray_tracer::test::test());
}

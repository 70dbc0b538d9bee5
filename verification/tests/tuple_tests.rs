use ray_tracer::math::{float_equal, SCALE};
use ray_tracer::tuple::{reflect, Tuple};

fn fx(v: f64) -> i64 {
    (v * SCALE as f64).round() as i64
}

#[test]
fn tuple_sub_point_from_point_gives_vector() {
    let p1 = Tuple::new_point(fx(10.0), fx(9.0), fx(8.0));
    let p2 = Tuple::new_point(fx(1.0), fx(2.0), fx(3.0));
    let result = p1.sub(p2);
    let expected = Tuple::new_vector(fx(9.0), fx(7.0), fx(5.0));
    assert_eq!(result, expected);
}

#[test]
fn tuple_sub_vector_from_point_gives_point() {
    let point = Tuple::new_point(fx(10.0), fx(9.0), fx(8.0));
    let vector = Tuple::new_vector(fx(1.0), fx(2.0), fx(3.0));
    let result = point.sub(vector);
    let expected = Tuple::new_point(fx(9.0), fx(7.0), fx(5.0));
    assert_eq!(result, expected);
}

#[test]
fn tuple_add_vector_to_point_gives_point() {
    let point = Tuple::new_point(fx(10.0), fx(9.0), fx(8.0));
    let vector = Tuple::new_vector(fx(1.0), fx(2.0), fx(3.0));
    let result = point.add(vector);
    let expected = Tuple::new_point(fx(11.0), fx(11.0), fx(11.0));
    assert_eq!(result, expected);
}

#[test]
fn tuple_sub_vector_from_vector_gives_vector() {
    let v1 = Tuple::new_vector(fx(10.0), fx(9.0), fx(8.0));
    let v2 = Tuple::new_vector(fx(1.0), fx(2.0), fx(3.0));
    let result = v1.sub(v2);
    let expected = Tuple::new_vector(fx(9.0), fx(7.0), fx(5.0));
    assert_eq!(result, expected);
}

#[test]
fn tuple_add_vector_to_vector_gives_vector() {
    let v1 = Tuple::new_vector(fx(10.0), fx(9.0), fx(8.0));
    let v2 = Tuple::new_vector(fx(1.0), fx(2.0), fx(4.0));
    let result = v1.add(v2);
    let expected = Tuple::new_vector(fx(11.0), fx(11.0), fx(12.0));
    assert_eq!(result, expected);
}

#[test]
fn tuple_negating_vector() {
    let v1 = Tuple::new_vector(fx(-10.0), fx(9.0), fx(8.0));
    let result = v1.neg();
    let expected = Tuple::new_vector(fx(10.0), fx(-9.0), fx(-8.0));
    assert_eq!(result, expected);
}

#[test]
fn tuple_negating_point() {
    let point = Tuple::new_point(fx(10.0), fx(-9.0), fx(8.0));
    let result = point.neg();
    let mut expected = Tuple::new_point(fx(-10.0), fx(9.0), fx(-8.0));
    expected.w = -expected.w;
    assert_eq!(result, expected);
}

#[test]
fn tuple_multiply_point_by_scalar() {
    let point = Tuple::new_point(fx(10.0), fx(-9.0), fx(8.0));
    let result = point.mul(fx(2.0));
    let mut expected = Tuple::new_point(fx(20.0), fx(-18.0), fx(16.0));
    expected.w = fx(2.0);
    assert_eq!(result, expected);
}

#[test]
fn tuple_dot_product_vector() {
    let v1 = Tuple::new_vector(fx(2.0), fx(3.0), fx(4.0));
    let v2 = Tuple::new_vector(fx(2.0), fx(1.0), fx(3.0));
    assert_eq!(v1.dot(&v2), fx(19.0));
}

#[test]
fn tuple_magnitude_vector() {
    let v1 = Tuple::new_vector(fx(1.0), fx(0.0), fx(0.0));
    assert_eq!(v1.mag(), fx(1.0));

    let v2 = Tuple::new_vector(fx(0.0), fx(1.0), fx(0.0));
    assert_eq!(v2.mag(), fx(1.0));

    let v3 = Tuple::new_vector(fx(1.0), fx(2.0), fx(3.0));
    assert!(float_equal(v3.mag(), fx(14.0_f64.sqrt())));
}

#[test]
fn tuple_normalize_vector() {
    let v1 = Tuple::new_vector(fx(1.0), fx(0.0), fx(0.0));
    assert_eq!(v1.normalize(), Tuple::new_vector(fx(1.0), fx(0.0), fx(0.0)));

    let v2 = Tuple::new_vector(fx(1.0), fx(2.0), fx(3.0));
    let n = v2.normalize();
    let s = 14.0_f64.sqrt();
    let expected = Tuple::new_vector(fx(1.0 / s), fx(2.0 / s), fx(3.0 / s));
    assert!(n.approx_eq(&expected));
    assert!(float_equal(n.mag(), SCALE));
}

#[test]
fn tuple_cross_product_vector() {
    let v1 = Tuple::new_vector(fx(1.0), fx(0.0), fx(0.0));
    let v2 = Tuple::new_vector(fx(0.0), fx(0.0), fx(1.0));
    assert_eq!(v2.cross(v1), Tuple::new_vector(fx(0.0), fx(1.0), fx(0.0)));
    assert_eq!(v1.cross(v2), Tuple::new_vector(fx(0.0), fx(-1.0), fx(0.0)));
}

#[test]
fn reflect_vector_at_45deg() {
    let v = Tuple::new_vector(fx(1.0), fx(-1.0), fx(0.0));
    let normal = Tuple::new_vector(fx(0.0), fx(1.0), fx(0.0));
    assert_eq!(reflect(&v, &normal), Tuple::new_vector(fx(1.0), fx(1.0), fx(0.0)));
}

#[test]
fn reflect_vector_at_slanted_surface() {
    let h = fx(2.0_f64.sqrt() / 2.0);
    let v = Tuple::new_vector(fx(0.0), fx(-1.0), fx(0.0));
    let normal = Tuple::new_vector(h, h, fx(0.0));
    let r = reflect(&v, &normal);
    assert!(r.approx_eq(&Tuple::new_vector(fx(1.0), fx(0.0), fx(0.0))));
}

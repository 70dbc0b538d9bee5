use ray_tracer::math::SCALE;
use ray_tracer::matrix::{inverse4, Matrix4};
use ray_tracer::transformation::{
    rotation_x, rotation_y, rotation_z, scaling, shearing, translation, view_transform,
};
use ray_tracer::trig::{HALF_PI, PI};
use ray_tracer::tuple::Tuple;

fn fx(v: f64) -> i64 {
    (v * SCALE as f64).round() as i64
}

fn point(x: f64, y: f64, z: f64) -> Tuple {
    Tuple::new_point(fx(x), fx(y), fx(z))
}

fn vector(x: f64, y: f64, z: f64) -> Tuple {
    Tuple::new_vector(fx(x), fx(y), fx(z))
}

#[test]
fn translate_point() {
    let transform = translation(fx(5.0), fx(-3.0), fx(2.0));
    let p = point(-3.0, 4.0, 5.0);
    let translated_point = transform.mul_tuple(&p);
    assert!(translated_point.approx_eq(&point(2.0, 1.0, 7.0)));

    let inverse_transform = inverse4(&transform).unwrap();
    let inversed_translated_point = inverse_transform.mul_tuple(&translated_point);
    assert!(p.approx_eq(&inversed_translated_point));
}

#[test]
fn scale_point() {
    let transform = scaling(fx(2.0), fx(3.0), fx(4.0));
    let p = point(-4.0, 6.0, 8.0);
    assert!(transform.mul_tuple(&p).approx_eq(&point(-8.0, 18.0, 32.0)));
}

#[test]
fn scale_vector() {
    let transform = scaling(fx(2.0), fx(3.0), fx(4.0));
    let v = vector(-4.0, 6.0, 8.0);
    assert!(transform.mul_tuple(&v).approx_eq(&vector(-8.0, 18.0, 32.0)));
}

#[test]
fn rotation_x_axis() {
    let p = point(0.0, 1.0, 0.0);
    let half_quarter = rotation_x(PI / 4);
    let full_quarter = rotation_x(HALF_PI);
    let s = 2.0_f64.sqrt() / 2.0;

    assert!(half_quarter.mul_tuple(&p).approx_eq(&point(0.0, s, s)));
    assert!(full_quarter.mul_tuple(&p).approx_eq(&point(0.0, 0.0, 1.0)));

    let inverse_half_quarter = inverse4(&half_quarter).unwrap();
    assert!(inverse_half_quarter.mul_tuple(&p).approx_eq(&point(0.0, s, -s)));
}

#[test]
fn rotation_y_axis() {
    let p = point(0.0, 0.0, 1.0);
    let half_quarter = rotation_y(PI / 4);
    let full_quarter = rotation_y(HALF_PI);
    let s = 2.0_f64.sqrt() / 2.0;

    assert!(half_quarter.mul_tuple(&p).approx_eq(&point(s, 0.0, s)));
    assert!(full_quarter.mul_tuple(&p).approx_eq(&point(1.0, 0.0, 0.0)));

    let inverse_half_quarter = inverse4(&half_quarter).unwrap();
    assert!(inverse_half_quarter.mul_tuple(&p).approx_eq(&point(-s, 0.0, s)));
}

#[test]
fn rotation_z_axis() {
    let p = point(0.0, 1.0, 0.0);
    let half_quarter = rotation_z(PI / 4);
    let full_quarter = rotation_z(HALF_PI);
    let s = 2.0_f64.sqrt() / 2.0;

    assert!(half_quarter.mul_tuple(&p).approx_eq(&point(-s, s, 0.0)));
    assert!(full_quarter.mul_tuple(&p).approx_eq(&point(-1.0, 0.0, 0.0)));
}

#[test]
fn shearing_x_in_proportion_to_y() {
    let transform = shearing(fx(1.0), 0, 0, 0, 0, 0);
    let p = point(2.0, 3.0, 4.0);
    assert!(transform.mul_tuple(&p).approx_eq(&point(5.0, 3.0, 4.0)));
}

#[test]
fn shearing_x_in_proportion_to_z() {
    let transform = shearing(0, fx(1.0), 0, 0, 0, 0);
    let p = point(2.0, 3.0, 4.0);
    assert!(transform.mul_tuple(&p).approx_eq(&point(6.0, 3.0, 4.0)));
}

#[test]
fn shearing_y_in_proportion_to_x() {
    let transform = shearing(0, 0, fx(1.0), 0, 0, 0);
    let p = point(2.0, 3.0, 4.0);
    assert!(transform.mul_tuple(&p).approx_eq(&point(2.0, 5.0, 4.0)));
}

#[test]
fn shearing_y_in_proportion_to_z() {
    let transform = shearing(0, 0, 0, fx(1.0), 0, 0);
    let p = point(2.0, 3.0, 4.0);
    assert!(transform.mul_tuple(&p).approx_eq(&point(2.0, 7.0, 4.0)));
}

#[test]
fn shearing_z_in_proportion_to_x() {
    let transform = shearing(0, 0, 0, 0, fx(1.0), 0);
    let p = point(2.0, 3.0, 4.0);
    assert!(transform.mul_tuple(&p).approx_eq(&point(2.0, 3.0, 6.0)));
}

#[test]
fn shearing_z_in_proportion_to_y() {
    let transform = shearing(0, 0, 0, 0, 0, fx(1.0));
    let p = point(2.0, 3.0, 4.0);
    assert!(transform.mul_tuple(&p).approx_eq(&point(2.0, 3.0, 7.0)));
}

#[test]
fn chaining_transformations() {
    let p = point(1.0, 0.0, 1.0);
    let a = rotation_x(HALF_PI);
    let b = scaling(fx(5.0), fx(5.0), fx(5.0));
    let c = translation(fx(10.0), fx(5.0), fx(7.0));

    let point2 = a.mul_tuple(&p);
    assert!(point2.approx_eq(&point(1.0, -1.0, 0.0)));

    let point3 = b.mul_tuple(&point2);
    assert!(point3.approx_eq(&point(5.0, -5.0, 0.0)));

    let point4 = c.mul_tuple(&point3);
    assert!(point4.approx_eq(&point(15.0, 0.0, 7.0)));

    let full_transform = c.mul(&b).mul(&a);
    let point5 = full_transform.mul_tuple(&p);
    assert!(point5.approx_eq(&point(15.0, 0.0, 7.0)));
}

#[test]
fn chaining_fluent_transformations() {
    let p = point(1.0, 0.0, 1.0);
    let full_transform = Matrix4::identity()
        .translate(fx(10.0), fx(5.0), fx(7.0))
        .scale(fx(5.0), fx(5.0), fx(5.0))
        .rotate_x(HALF_PI);
    let moved = full_transform.mul_tuple(&p);
    assert!(moved.approx_eq(&point(15.0, 0.0, 7.0)));
}

#[test]
fn the_view_transformation_matrix_for_the_default_orientation() {
    let from = point(0.0, 0.0, 0.0);
    let to = point(0.0, 0.0, -1.0);
    let up = vector(0.0, 1.0, 0.0);
    let t = view_transform(&from, &to, &up);
    assert!(t.approx_eq(&Matrix4::identity()));
}

#[test]
fn a_view_transformation_matrix_looking_in_positive_z_direction() {
    let from = point(0.0, 0.0, 0.0);
    let to = point(0.0, 0.0, 1.0);
    let up = vector(0.0, 1.0, 0.0);
    let t = view_transform(&from, &to, &up);
    let expected = Matrix4::identity().scale(fx(-1.0), fx(1.0), fx(-1.0));
    assert!(t.approx_eq(&expected));
}

#[test]
fn the_view_transformation_matrix_moves_the_world() {
    let from = point(0.0, 0.0, 8.0);
    let to = point(0.0, 0.0, 0.0);
    let up = vector(0.0, 1.0, 0.0);
    let t = view_transform(&from, &to, &up);
    let expected = Matrix4::identity().translate(fx(0.0), fx(0.0), fx(-8.0));
    assert!(t.approx_eq(&expected));
}

#[test]
fn an_arbitrary_view_transformation() {
    let from = point(1.0, 3.0, 2.0);
    let to = point(4.0, -2.0, 8.0);
    let up = vector(1.0, 1.0, 0.0);
    let t = view_transform(&from, &to, &up);
    let expected = Matrix4::new(
        fx(-0.50709), fx(0.50709), fx(0.67612), fx(-2.36643),
        fx(0.76772), fx(0.60609), fx(0.12122), fx(-2.82843),
        fx(-0.35857), fx(0.59761), fx(-0.71714), fx(0.0),
        fx(0.0), fx(0.0), fx(0.0), fx(1.0),
    );
    assert!(t.approx_eq(&expected));
}

#[test]
fn translation_round_trip_is_exact() {
    let t = translation(fx(5.5), fx(-3.25), fx(2.0));
    let inv = inverse4(&t).unwrap();
    let product = inv.mul(&t);
    let identity = Matrix4::identity();
    for i in 0..4 {
        for j in 0..4 {
            assert_eq!(product.get(i, j), identity.get(i, j));
        }
    }
}

#[test]
fn rotation_round_trip_is_near_identity() {
    let t = rotation_y(PI / 3);
    let inv = inverse4(&t).unwrap();
    assert!(inv.mul(&t).approx_eq(&Matrix4::identity()));

    let s = scaling(fx(2.0), fx(3.0), fx(4.0));
    let s_inv = inverse4(&s).unwrap();
    assert!(s_inv.mul(&s).approx_eq(&Matrix4::identity()));
}

use ray_tracer::cube::Cube;
use ray_tracer::math::SCALE;
use ray_tracer::matrix::Matrix4;
use ray_tracer::plane::Plane;
use ray_tracer::ray::Ray;
use ray_tracer::sphere::Sphere;
use ray_tracer::trig::PI;
use ray_tracer::tuple::Tuple;

fn fx(v: f64) -> i64 {
    (v * SCALE as f64).round() as i64
}

fn point(x: f64, y: f64, z: f64) -> Tuple {
    Tuple::new_point(fx(x), fx(y), fx(z))
}

fn vector(x: f64, y: f64, z: f64) -> Tuple {
    Tuple::new_vector(fx(x), fx(y), fx(z))
}

#[test]
fn the_normal_on_a_sphere_at_a_point_on_the_x_axis() {
    let sphere = Sphere::new(1);
    let normal = sphere.normal_at(&point(1.0, 0.0, 0.0));
    assert!(normal.approx_eq(&vector(1.0, 0.0, 0.0)));
}

#[test]
fn the_normal_on_a_sphere_at_a_point_on_the_y_axis() {
    let sphere = Sphere::new(1);
    let normal = sphere.normal_at(&point(0.0, 1.0, 0.0));
    assert!(normal.approx_eq(&vector(0.0, 1.0, 0.0)));
}

#[test]
fn the_normal_on_a_sphere_at_a_point_on_the_z_axis() {
    let sphere = Sphere::new(1);
    let normal = sphere.normal_at(&point(0.0, 0.0, 1.0));
    assert!(normal.approx_eq(&vector(0.0, 0.0, 1.0)));
}

#[test]
fn the_normal_on_a_sphere_at_a_nonaxial_point() {
    let sphere = Sphere::new(1);
    let c = 3.0_f64.sqrt() / 3.0;
    let normal = sphere.normal_at(&point(c, c, c));
    assert!(normal.approx_eq(&vector(c, c, c)));
}

#[test]
fn the_normal_on_a_sphere_is_normalized() {
    let sphere = Sphere::new(1);
    let c = 3.0_f64.sqrt() / 3.0;
    let normal = sphere.normal_at(&point(c, c, c));
    assert!(normal.approx_eq(&normal.normalize()));
}

#[test]
fn the_normal_on_a_sphere_translated_sphere() {
    let mut sphere = Sphere::new(1);
    assert!(sphere.set_transformation(Matrix4::identity().translate(0, fx(1.0), 0)));
    let normal = sphere.normal_at(&point(0.0, 1.70711, -0.70711));
    assert!(normal.approx_eq(&vector(0.0, 0.70711, -0.70711)));
}

#[test]
fn the_normal_on_a_sphere_transformed_sphere() {
    let mut sphere = Sphere::new(1);
    assert!(sphere.set_transformation(
        Matrix4::identity().scale(fx(1.0), fx(0.5), fx(1.0)).rotate_z(PI / 5)
    ));
    let c = 2.0_f64.sqrt() / 2.0;
    let normal = sphere.normal_at(&point(0.0, c, -c));
    assert!(normal.approx_eq(&vector(0.0, 0.97014, -0.24254)));
}

#[test]
fn the_normal_of_a_plane_is_constant_everywhere() {
    let plane = Plane::new(1);
    let n1 = plane.normal_at(&point(0.0, 0.0, 0.0));
    let n2 = plane.normal_at(&point(10.0, 0.0, -10.0));
    let n3 = plane.normal_at(&point(-5.0, 0.0, 150.0));

    assert!(n1.approx_eq(&vector(0.0, 1.0, 0.0)));
    assert!(n2.approx_eq(&vector(0.0, 1.0, 0.0)));
    assert!(n3.approx_eq(&vector(0.0, 1.0, 0.0)));
}

#[test]
fn intersect_with_a_ray_parallel_to_the_plane() {
    let plane = Plane::new(1);
    let ray = Ray::new(point(0.0, 10.0, 0.0), vector(0.0, 0.0, 1.0));
    let xs = plane.intersections_by(&ray);
    assert_eq!(xs.len(), 0);
}

#[test]
fn intersect_with_a_coplanar_ray() {
    let plane = Plane::new(1);
    let ray = Ray::new(point(0.0, 0.0, 0.0), vector(0.0, 0.0, 1.0));
    let xs = plane.intersections_by(&ray);
    assert_eq!(xs.len(), 0);
}

#[test]
fn a_ray_intersecting_a_plane_from_above() {
    let plane = Plane::new(1);
    let ray = Ray::new(point(0.0, 1.0, 0.0), vector(0.0, -1.0, 0.0));
    let xs = plane.intersections_by(&ray);
    assert_eq!(xs.len(), 1);
    assert_eq!(xs[0], fx(1.0));
}

#[test]
fn a_ray_intersecting_a_plane_from_below() {
    let plane = Plane::new(1);
    let ray = Ray::new(point(0.0, -1.0, 0.0), vector(0.0, 1.0, 0.0));
    let xs = plane.intersections_by(&ray);
    assert_eq!(xs.len(), 1);
    assert_eq!(xs[0], fx(1.0));
}

#[test]
fn a_ray_intersects_a_cube() {
    let test_cases = vec![
        (point(5.0, 0.5, 0.0), vector(-1.0, 0.0, 0.0), 4.0, 6.0),
        (point(-5.0, 0.5, 0.0), vector(1.0, 0.0, 0.0), 4.0, 6.0),
        (point(0.5, 5.0, 0.0), vector(0.0, -1.0, 0.0), 4.0, 6.0),
        (point(0.5, -5.0, 0.0), vector(0.0, 1.0, 0.0), 4.0, 6.0),
        (point(0.5, 0.0, 5.0), vector(0.0, 0.0, -1.0), 4.0, 6.0),
        (point(0.5, 0.0, -5.0), vector(0.0, 0.0, 1.0), 4.0, 6.0),
        (point(0.0, 0.5, 0.0), vector(0.0, 0.0, 1.0), -1.0, 1.0),
    ];
    let cube = Cube::new(1);

    for test_case in test_cases {
        let ray = Ray::new(test_case.0, test_case.1);
        let xs = cube.intersections_by(&ray);
        assert_eq!(xs.len(), 2);
        assert_eq!(xs[0], fx(test_case.2));
        assert_eq!(xs[1], fx(test_case.3));
    }
}

#[test]
fn a_ray_misses_a_cube() {
    let test_cases = vec![
        (point(-2.0, 0.0, 0.0), vector(0.2673, 0.5345, 0.8018)),
        (point(0.0, -2.0, 0.0), vector(0.8018, 0.2673, 0.5345)),
        (point(0.0, 0.0, -2.0), vector(0.5345, 0.8018, 0.2673)),
        (point(2.0, 0.0, 2.0), vector(0.0, 0.0, -1.0)),
        (point(0.0, 2.0, 2.0), vector(0.0, -1.0, 0.0)),
        (point(2.0, 2.0, 0.0), vector(-1.0, 0.0, 0.0)),
    ];
    let cube = Cube::new(1);

    for test_case in test_cases {
        let ray = Ray::new(test_case.0, test_case.1);
        let xs = cube.intersections_by(&ray);
        assert_eq!(xs.len(), 0);
    }
}

#[test]
fn the_normal_on_the_surface_of_a_cube() {
    let test_cases = vec![
        (point(1.0, 0.5, -0.8), vector(1.0, 0.0, 0.0)),
        (point(-1.0, -0.2, 0.9), vector(-1.0, 0.0, 0.0)),
        (point(-0.4, 1.0, -0.1), vector(0.0, 1.0, 0.0)),
        (point(0.3, -1.0, -0.7), vector(0.0, -1.0, 0.0)),
        (point(-0.6, 0.3, 1.0), vector(0.0, 0.0, 1.0)),
        (point(0.4, 0.4, -1.0), vector(0.0, 0.0, -1.0)),
        (point(1.0, 1.0, 1.0), vector(1.0, 0.0, 0.0)),
        (point(-1.0, -1.0, -1.0), vector(-1.0, 0.0, 0.0)),
    ];
    let cube = Cube::new(1);

    for test_case in test_cases {
        let normal = cube.normal_at(&test_case.0);
        assert!(normal.approx_eq(&test_case.1));
    }
}

#[test]
fn a_singular_transform_is_rejected_and_leaves_the_shape_unchanged() {
    let mut sphere = Sphere::new(1);
    let before = sphere.get_inverse_transformation().clone();
    let singular = ray_tracer::transformation::scaling(0, 0, 0);
    assert!(!sphere.set_transformation(singular));
    assert_eq!(*sphere.get_inverse_transformation(), before);
}

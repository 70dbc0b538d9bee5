use ray_tracer::material::GLASS_REFRACTIVE_INDEX;
use ray_tracer::math::{float_equal, EPSILON, SCALE, SHADOW_EPSILON};
use ray_tracer::matrix::Matrix4;
use ray_tracer::plane::Plane;
use ray_tracer::ray::{hit, prepare_computations, schlick, transform, Intersection, Ray};
use ray_tracer::shape::Shape;
use ray_tracer::sphere::Sphere;
use ray_tracer::transformation::{scaling, translation};
use ray_tracer::tuple::Tuple;
use ray_tracer::color::Color;
use ray_tracer::lighting::PointLight;
use ray_tracer::world::World;

fn fx(v: f64) -> i64 {
    (v * SCALE as f64).round() as i64
}

fn point(x: f64, y: f64, z: f64) -> Tuple {
    Tuple::new_point(fx(x), fx(y), fx(z))
}

fn vector(x: f64, y: f64, z: f64) -> Tuple {
    Tuple::new_vector(fx(x), fx(y), fx(z))
}

fn default_ray() -> Ray {
    Ray::new(point(0.0, 0.0, -5.0), vector(0.0, 0.0, 1.0))
}

fn glass_sphere(id: u32) -> Sphere {
    let mut sphere = Sphere::new(id);
    sphere.material.transparency = fx(1.0);
    sphere.material.refractive_index = GLASS_REFRACTIVE_INDEX;
    sphere
}

#[test]
fn ray_position() {
    let ray = Ray::new(point(2.0, 3.0, 4.0), vector(1.0, 0.0, 0.0));
    assert_eq!(ray.position(fx(0.0)), point(2.0, 3.0, 4.0));
    assert_eq!(ray.position(fx(1.0)), point(3.0, 3.0, 4.0));
    assert_eq!(ray.position(fx(-1.0)), point(1.0, 3.0, 4.0));
    assert_eq!(ray.position(fx(2.5)), point(4.5, 3.0, 4.0));
}

#[test]
fn ray_intesects_a_sphere_at_two_points() {
    let ray = default_ray();
    let sphere = Sphere::new(1);
    let xs = sphere.intersections_by(&ray);
    assert_eq!(xs.len(), 2);
    assert_eq!(xs[0], fx(4.0));
    assert_eq!(xs[1], fx(6.0));
}

#[test]
fn ray_intesects_a_sphere_at_a_tangent() {
    let ray = Ray::new(point(0.0, 1.0, -5.0), vector(0.0, 0.0, 1.0));
    let sphere = Sphere::new(1);
    let xs = sphere.intersections_by(&ray);
    assert_eq!(xs.len(), 2);
    assert_eq!(xs[0], fx(5.0));
    assert_eq!(xs[1], fx(5.0));
}

#[test]
fn ray_interspects_but_misses_sphere() {
    let ray = Ray::new(point(0.0, 2.0, -5.0), vector(0.0, 0.0, 1.0));
    let sphere = Sphere::new(1);
    let xs = sphere.intersections_by(&ray);
    assert_eq!(xs.len(), 0);
}

#[test]
fn ray_intersects_when_it_originiates_inside_sphere() {
    let ray = Ray::new(point(0.0, 0.0, 0.0), vector(0.0, 0.0, 1.0));
    let sphere = Sphere::new(1);
    let xs = sphere.intersections_by(&ray);
    assert_eq!(xs.len(), 2);
    assert_eq!(xs[0], fx(-1.0));
    assert_eq!(xs[1], fx(1.0));
}

#[test]
fn ray_intersects_when_sphere_is_behind_ray() {
    let ray = Ray::new(point(0.0, 0.0, 5.0), vector(0.0, 0.0, 1.0));
    let sphere = Sphere::new(1);
    let xs = sphere.intersections_by(&ray);
    assert_eq!(xs.len(), 2);
    assert_eq!(xs[0], fx(-6.0));
    assert_eq!(xs[1], fx(-4.0));
}

#[test]
fn hit_when_all_intersections_have_positive_t() {
    let intersections = vec![
        Intersection { obj: 0, t: fx(2.0) },
        Intersection { obj: 0, t: fx(1.0) },
    ];
    let h = hit(&intersections);
    match h {
        Some(i) => assert_eq!(intersections[i].t, fx(2.0)),
        None => panic!("Hit is none"),
    }
}

#[test]
fn hit_when_some_intersections_have_negative_t() {
    let intersections = vec![
        Intersection { obj: 0, t: fx(-1.0) },
        Intersection { obj: 0, t: fx(4.0) },
        Intersection { obj: 0, t: fx(4.0) },
        Intersection { obj: 0, t: fx(-4.0) },
    ];
    let h = hit(&intersections);
    match h {
        Some(i) => assert_eq!(intersections[i].t, fx(4.0)),
        None => panic!("Hit is none"),
    }
}

#[test]
fn hit_when_all_intersections_have_negative_t() {
    let intersections = vec![
        Intersection { obj: 0, t: fx(-1.0) },
        Intersection { obj: 0, t: fx(-4.0) },
    ];
    let h = hit(&intersections);
    assert!(h.is_none());
}

#[test]
fn translate_a_ray() {
    let ray = Ray::new(point(1.0, 2.0, 3.0), vector(0.0, 1.0, 0.0));
    let m = translation(fx(3.0), fx(4.0), fx(5.0));
    let ray2 = transform(&ray, &m);
    assert!(ray2.origin.approx_eq(&point(4.0, 6.0, 8.0)));
    assert!(ray2.direction.approx_eq(&vector(0.0, 1.0, 0.0)));
}

#[test]
fn scale_a_ray() {
    let ray = Ray::new(point(1.0, 2.0, 3.0), vector(0.0, 1.0, 0.0));
    let m = scaling(fx(2.0), fx(3.0), fx(4.0));
    let ray2 = transform(&ray, &m);
    assert!(ray2.origin.approx_eq(&point(2.0, 6.0, 12.0)));
    assert!(ray2.direction.approx_eq(&vector(0.0, 3.0, 0.0)));
}

#[test]
fn intersecting_a_scaled_sphere_with_a_ray() {
    let ray = default_ray();
    let mut sphere = Sphere::new(1);
    assert!(sphere.set_transformation(scaling(fx(2.0), fx(2.0), fx(2.0))));
    let xs = sphere.intersections_by(&ray);
    assert_eq!(xs.len(), 2);
    assert_eq!(xs[0], fx(3.0));
    assert_eq!(xs[1], fx(7.0));
}

fn white_light() -> PointLight {
    PointLight::new(
        Tuple::new_point(fx(-10.0), fx(10.0), fx(-10.0)),
        Color::new(SCALE, SCALE, SCALE),
    )
}

fn one_shape_world(s: Shape) -> World {
    let mut world = World::new(white_light());
    world.objects.push(s);
    world
}

#[test]
fn precomputing_the_state_of_an_intersection() {
    let ray = default_ray();
    let world = one_shape_world(Shape::Sphere(Sphere::new(1)));
    let xs = vec![Intersection { obj: 0, t: fx(4.0) }];
    let comps = prepare_computations(&world, 0, &ray, &xs);
    assert_eq!(comps.t, fx(4.0));
    assert!(comps.point.approx_eq(&point(0.0, 0.0, -1.0)));
    assert!(comps.eye_direction.approx_eq(&vector(0.0, 0.0, -1.0)));
    assert!(comps.surface_normalv.approx_eq(&vector(0.0, 0.0, -1.0)));
}

#[test]
fn the_hit_when_an_interection_occurs_on_the_outside() {
    let ray = default_ray();
    let world = one_shape_world(Shape::Sphere(Sphere::new(1)));
    let xs = vec![Intersection { obj: 0, t: fx(4.0) }];
    let comps = prepare_computations(&world, 0, &ray, &xs);
    assert_eq!(comps.is_inside, false);
}

#[test]
fn the_hit_when_an_interection_occurs_on_the_inside() {
    let ray = Ray::new(point(0.0, 0.0, 0.0), vector(0.0, 0.0, 1.0));
    let world = one_shape_world(Shape::Sphere(Sphere::new(1)));
    let xs = vec![Intersection { obj: 0, t: fx(1.0) }];
    let comps = prepare_computations(&world, 0, &ray, &xs);
    assert!(comps.point.approx_eq(&point(0.0, 0.0, 1.0)));
    assert!(comps.eye_direction.approx_eq(&vector(0.0, 0.0, -1.0)));
    assert_eq!(comps.is_inside, true);
    assert!(comps.surface_normalv.approx_eq(&vector(0.0, 0.0, -1.0)));
}

#[test]
fn the_hit_should_offset_the_point_to_avoid_acne() {
    let ray = default_ray();
    let mut sphere = Sphere::new(1);
    assert!(sphere.set_transformation(Matrix4::identity().translate(0, 0, fx(1.0))));
    let world = one_shape_world(Shape::Sphere(sphere));
    let xs = vec![Intersection { obj: 0, t: fx(5.0) }];
    let comps = prepare_computations(&world, 0, &ray, &xs);
    assert!(comps.over_point.z < -SHADOW_EPSILON / 2);
    assert!(comps.point.z > comps.over_point.z);
}

#[test]
fn precomputing_the_reflection_vector() {
    let shape = Plane::new(1);
    let s = 2.0_f64.sqrt();
    let ray = Ray::new(point(0.0, 1.0, -1.0), vector(0.0, -(s / 2.0), s / 2.0));
    let world = one_shape_world(Shape::Plane(shape));
    let xs = vec![Intersection { obj: 0, t: fx(s) }];
    let comps = prepare_computations(&world, 0, &ray, &xs);
    assert!(comps.reflectv.approx_eq(&vector(0.0, s / 2.0, s / 2.0)));
}

#[test]
fn finding_n1_and_n2_at_various_intersections() {
    let scenarios: [(f64, f64); 6] = [
        (1.0, 1.5),
        (1.5, 2.0),
        (2.0, 2.5),
        (2.5, 2.5),
        (2.5, 1.5),
        (1.5, 1.0),
    ];
    let mut a = glass_sphere(1);
    assert!(a.set_transformation(Matrix4::identity().scale(fx(2.0), fx(2.0), fx(2.0))));
    let mut b = glass_sphere(2);
    assert!(b.set_transformation(Matrix4::identity().translate(0, 0, fx(-0.25))));
    b.material.refractive_index = fx(2.0);
    let mut c = glass_sphere(3);
    assert!(c.set_transformation(Matrix4::identity().translate(0, 0, fx(0.25))));
    c.material.refractive_index = fx(2.5);

    let mut world = World::new(white_light());
    world.objects.push(Shape::Sphere(a));
    world.objects.push(Shape::Sphere(b));
    world.objects.push(Shape::Sphere(c));

    let ray = Ray::new(point(0.0, 0.0, -4.0), vector(0.0, 0.0, 1.0));
    let xs: Vec<Intersection> = vec![
        Intersection { obj: 0, t: fx(2.0) },
        Intersection { obj: 1, t: fx(2.75) },
        Intersection { obj: 2, t: fx(3.25) },
        Intersection { obj: 1, t: fx(4.75) },
        Intersection { obj: 2, t: fx(5.25) },
        Intersection { obj: 0, t: fx(6.0) },
    ];
    for i in 0..6 {
        let comps = prepare_computations(&world, i, &ray, &xs);
        assert_eq!(comps.n1, fx(scenarios[i].0));
        assert_eq!(comps.n2, fx(scenarios[i].1));
    }
}

#[test]
fn the_schlick_approximation_under_total_internal_reflection() {
    let shape = glass_sphere(1);
    let world = one_shape_world(Shape::Sphere(shape));
    let h = 2.0_f64.sqrt() / 2.0;
    let ray = Ray::new(point(0.0, 0.0, h), vector(0.0, 1.0, 0.0));
    let xs: Vec<Intersection> = vec![
        Intersection { obj: 0, t: fx(-h) },
        Intersection { obj: 0, t: fx(h) },
    ];
    let comps = prepare_computations(&world, 1, &ray, &xs);
    let reflectance = schlick(&comps);
    assert_eq!(reflectance, fx(1.0));
}

#[test]
fn the_schlick_approximation_with_a_perpendicular_viewing_angle() {
    let shape = glass_sphere(1);
    let world = one_shape_world(Shape::Sphere(shape));
    let ray = Ray::new(point(0.0, 0.0, 0.0), vector(0.0, 1.0, 0.0));
    let xs: Vec<Intersection> = vec![
        Intersection { obj: 0, t: fx(-1.0) },
        Intersection { obj: 0, t: fx(1.0) },
    ];
    let comps = prepare_computations(&world, 1, &ray, &xs);
    let reflectance = schlick(&comps);
    assert!((reflectance - fx(0.04)).abs() < EPSILON);
}

#[test]
fn the_schlick_approximation_with_a_small_angle_and_n2_gt_n1() {
    let shape = glass_sphere(1);
    let world = one_shape_world(Shape::Sphere(shape));
    let ray = Ray::new(point(0.0, 0.99, -2.0), vector(0.0, 0.0, 1.0));
    let xs: Vec<Intersection> = vec![Intersection { obj: 0, t: fx(1.8589) }];
    let comps = prepare_computations(&world, 0, &ray, &xs);
    let reflectance = schlick(&comps);
    assert!((reflectance - fx(0.48873)).abs() < 5 * EPSILON);
    assert!(float_equal(comps.n1, fx(1.0)));
}

use ray_tracer::color::Color;
use ray_tracer::math::SCALE;

fn fx(v: f64) -> i64 {
    (v * SCALE as f64).round() as i64
}

fn color(r: f64, g: f64, b: f64) -> Color {
    Color::new(fx(r), fx(g), fx(b))
}

#[test]
fn add_colors() {
    let c1 = color(10.0, 9.0, 8.0);
    let c2 = color(1.0, 2.0, 3.0);
    let result = c1.sub(c2);
    let expected = color(9.0, 7.0, 5.0);
    assert_eq!(result, expected);
}

#[test]
fn sub_colors() {
    let c1 = color(10.0, 9.0, 8.0);
    let c2 = color(1.0, 2.0, 3.0);
    let result = c1.sub(c2);
    let expected = color(9.0, 7.0, 5.0);
    assert_eq!(result, expected);
}

#[test]
fn multiply_color_by_scalar() {
    let c = color(10.0, -9.0, 8.0);
    let result = c.mul(fx(2.0));
    let expected = color(20.0, -18.0, 16.0);
    assert_eq!(result, expected);
}

#[test]
fn multiply_color_by_color() {
    let c1 = color(10.0, -9.0, 8.0);
    let c2 = color(2.0, 3.0, 1.0);
    let result = c1.hadamard(c2);
    let expected = color(20.0, -27.0, 8.0);
    assert_eq!(result, expected);
}

#[test]
fn color_sum_is_componentwise() {
    let c1 = color(0.9, 0.6, 0.75);
    let c2 = color(0.7, 0.1, 0.25);
    assert_eq!(c1.add(c2), color(1.6, 0.7, 1.0));
}

use ray_tracer::canvas::{get_pixel, limit, set_pixel, Canvas};
use ray_tracer::color::Color;
use ray_tracer::math::SCALE;

#[test]
fn init_canvas() {
    let canvas = Canvas::new(5, 10);
    assert_eq!(canvas.width, 5);
    assert_eq!(canvas.height, 10);

    let black = Color::new(0, 0, 0);
    for c in canvas.pixels.iter() {
        assert_eq!(*c, black);
    }
}

#[test]
fn set_pixel_test() {
    let mut canvas = Canvas::new(5, 10);

    let red = Color::new(SCALE, 0, 0);
    let x = 2;
    let y = 3;
    set_pixel(&mut canvas, x, y, red);
    let pixel = get_pixel(&canvas, x, y);
    assert_eq!(pixel, red);
}

#[test]
fn set_pixel_leaves_other_pixels_alone() {
    let mut canvas = Canvas::new(4, 4);
    let red = Color::new(SCALE, 0, 0);
    set_pixel(&mut canvas, 1, 2, red);
    assert_eq!(canvas.pixel_at(1, 2), red);
    assert_eq!(canvas.pixel_at(2, 1), Color::new(0, 0, 0));
    assert_eq!(canvas.pixel_at(0, 0), Color::new(0, 0, 0));
}

#[test]
fn limit_clamps_to_the_channel_range() {
    assert_eq!(limit(-3, 0, 255), 0);
    assert_eq!(limit(382, 0, 255), 255);
    assert_eq!(limit(127, 0, 255), 127);
}

//! The camera: pixel-to-ray projection and the per-pixel render loop.  The
//! canvas lies one unit in front of the camera, so the half view is the
//! tangent of half the field of view; the derived constants are computed at
//! construction and the camera stores only the inverse of its view
//! transform.

use vstd::prelude::*;
use crate::canvas::{pixel_at_s, Canvas};
use crate::color::Color;
use crate::math::{add_s, div_s, mul_s, sub_s, from_units_s, fadd, fdiv, fmul, fsub, from_usize,
    SCALE};
use crate::matrix::{det4_s, inv4_entry, inverse4, mul_tuple_s, Matrix4};
use crate::ray::Ray;
use crate::transformation::identity_seq;
use crate::trig::{tan_s, tan_fp};
use crate::tuple::{normalize_t, sub_t, Tuple};
use crate::world::{color_at, color_at_s, World};

verus! {

/// The fixed recursion budget of a render pass.
pub const REFLECTION_DEPTH: u32 = 5;

pub struct Camera {
    pub hsize: usize,
    pub vsize: usize,
    pub field_of_view: i64,
    pub inverse_transform: Matrix4,
    pub half_height: i64,
    pub half_width: i64,
    pub pixel_size: i64,
}

/// The tangent of half the field of view.
pub open spec fn half_view_s(field_of_view: i64) -> i64 {
    tan_s(div_s(field_of_view, 2_000_000i64))
}

/// Width over height.
pub open spec fn aspect_s(hsize: usize, vsize: usize) -> i64 {
    div_s(from_units_s(hsize as int), from_units_s(vsize as int))
}

/// Half the canvas width in world units: the half view on landscape
/// canvases, scaled by the aspect on portrait ones.
pub open spec fn half_width_s(hsize: usize, vsize: usize, field_of_view: i64) -> i64 {
    if aspect_s(hsize, vsize) >= SCALE {
        half_view_s(field_of_view)
    } else {
        mul_s(half_view_s(field_of_view), aspect_s(hsize, vsize))
    }
}

/// Half the canvas height in world units.
pub open spec fn half_height_s(hsize: usize, vsize: usize, field_of_view: i64) -> i64 {
    if aspect_s(hsize, vsize) >= SCALE {
        div_s(half_view_s(field_of_view), aspect_s(hsize, vsize))
    } else {
        half_view_s(field_of_view)
    }
}

/// The world-unit side of one square pixel.
pub open spec fn pixel_size_s(hsize: usize, vsize: usize, field_of_view: i64) -> i64 {
    div_s(mul_s(half_width_s(hsize, vsize, field_of_view), 2_000_000i64), from_units_s(hsize as int))
}

/// The ray through the center of pixel `(x, y)`: the pixel's world point
/// on the canvas one unit in front, and the camera origin, both taken
/// through the camera's inverse transform.
pub open spec fn ray_for_pixel_s(c: Camera, x: usize, y: usize) -> Ray {
    let x_offset = mul_s(add_s(from_units_s(x as int), 500_000i64), c.pixel_size);
    let y_offset = mul_s(add_s(from_units_s(y as int), 500_000i64), c.pixel_size);
    let world_x = sub_s(c.half_width, x_offset);
    let world_y = sub_s(c.half_height, y_offset);
    let pixel = mul_tuple_s(
        c.inverse_transform,
        Tuple { x: world_x, y: world_y, z: -1_000_000i64, w: SCALE },
    );
    let origin = mul_tuple_s(c.inverse_transform, Tuple { x: 0i64, y: 0i64, z: 0i64, w: SCALE });
    Ray { origin, direction: normalize_t(sub_t(pixel, origin)) }
}

impl Camera {
    pub open spec fn wf(self) -> bool {
        self.inverse_transform.wf()
    }

    /// A camera over a canvas of `hsize` by `vsize` pixels (both at least
    /// one: a zero-sized canvas is rejected before any tracing) with the
    /// given field of view, looking down -z from the origin until a view
    /// transform is set.
    pub fn new(hsize: usize, vsize: usize, field_of_view: i64) -> (c: Camera)
        requires
            hsize >= 1,
            vsize >= 1,
        ensures
            c.wf(),
            c.hsize == hsize,
            c.vsize == vsize,
            c.field_of_view == field_of_view,
            c.inverse_transform.values@ == identity_seq(),
            c.half_width == half_width_s(hsize, vsize, field_of_view),
            c.half_height == half_height_s(hsize, vsize, field_of_view),
            c.pixel_size == pixel_size_s(hsize, vsize, field_of_view),
    {
        let half_view = tan_fp(fdiv(field_of_view, 2_000_000));
        let aspect_ratio = fdiv(from_usize(hsize), from_usize(vsize));
        let half_width: i64;
        let half_height: i64;
        if aspect_ratio >= SCALE {
            half_width = half_view;
            half_height = fdiv(half_view, aspect_ratio);
        } else {
            half_width = fmul(half_view, aspect_ratio);
            half_height = half_view;
        }
        let pixel_size = fdiv(fmul(half_width, 2_000_000), from_usize(hsize));
        Camera {
            hsize,
            vsize,
            field_of_view,
            inverse_transform: Matrix4::identity(),
            half_height,
            half_width,
            pixel_size,
        }
    }

    /// Store the inverse of the view transform eagerly; a singular
    /// transform is rejected and the camera is left unchanged.
    pub fn set_transform(&mut self, transform: &Matrix4) -> (accepted: bool)
        requires
            old(self).wf(),
            transform.wf(),
        ensures
            final(self).wf(),
            accepted == (det4_s(*transform) != 0),
            final(self).hsize == old(self).hsize,
            final(self).vsize == old(self).vsize,
            final(self).field_of_view == old(self).field_of_view,
            final(self).half_width == old(self).half_width,
            final(self).half_height == old(self).half_height,
            final(self).pixel_size == old(self).pixel_size,
            if accepted {
                forall|i: int, j: int|
                    0 <= i < 4 && 0 <= j < 4 ==> final(self).inverse_transform.idx(i, j)
                        == inv4_entry(*transform, i, j)
            } else {
                final(self).inverse_transform == old(self).inverse_transform
            },
    {
        match inverse4(transform) {
            Some(inv) => {
                self.inverse_transform = inv;
                true
            },
            None => false,
        }
    }

    /// The ray through the center of pixel `(x, y)`.
    pub fn ray_for_pixel(&self, x: usize, y: usize) -> (r: Ray)
        requires
            self.wf(),
        ensures
            r == ray_for_pixel_s(*self, x, y),
    {
        let x_offset = fmul(fadd(from_usize(x), 500_000), self.pixel_size);
        let y_offset = fmul(fadd(from_usize(y), 500_000), self.pixel_size);
        let world_x = fsub(self.half_width, x_offset);
        let world_y = fsub(self.half_height, y_offset);
        let pixel = self.inverse_transform.mul_tuple(&Tuple::new_point(world_x, world_y, -1_000_000));
        let origin = self.inverse_transform.mul_tuple(&Tuple::new_point(0, 0, 0));
        let direction = pixel.sub(origin).normalize();
        Ray { origin, direction }
    }
}

/// The color of the single pixel `(x, y)`: the pure per-pixel trace that
/// worker threads of a presentation layer may call in any partition.
pub fn render_at(x: usize, y: usize, camera: &Camera, world: &World) -> (c: Color)
    requires
        camera.wf(),
        world.wf(),
    ensures
        c == color_at_s(*world, ray_for_pixel_s(*camera, x, y), REFLECTION_DEPTH),
{
    let ray = camera.ray_for_pixel(x, y);
    color_at(world, &ray, REFLECTION_DEPTH)
}

/// Trace every pixel of the camera's canvas: each pixel holds the color
/// seen along its center ray, independent of the traversal order.
pub fn render(camera: &Camera, world: &World) -> (canvas: Canvas)
    requires
        camera.wf(),
        world.wf(),
        camera.hsize * camera.vsize <= usize::MAX,
    ensures
        canvas.wf(),
        canvas.width == camera.hsize,
        canvas.height == camera.vsize,
        forall|x: int, y: int|
            0 <= x < camera.hsize && 0 <= y < camera.vsize ==> pixel_at_s(canvas, x, y)
                == color_at_s(
                *world,
                ray_for_pixel_s(*camera, x as usize, y as usize),
                REFLECTION_DEPTH,
            ),
{
    let mut canvas = Canvas::new(camera.hsize, camera.vsize);
    let mut y: usize = 0;
    while y < camera.vsize
        invariant
            camera.wf(),
            world.wf(),
            canvas.wf(),
            canvas.width == camera.hsize,
            canvas.height == camera.vsize,
            y <= camera.vsize,
            forall|a: int, b: int|
                0 <= a < camera.hsize && 0 <= b < y ==> pixel_at_s(canvas, a, b) == color_at_s(
                    *world,
                    ray_for_pixel_s(*camera, a as usize, b as usize),
                    REFLECTION_DEPTH,
                ),
        decreases camera.vsize - y,
    {
        let mut x: usize = 0;
        while x < camera.hsize
            invariant
                camera.wf(),
                world.wf(),
                canvas.wf(),
                canvas.width == camera.hsize,
                canvas.height == camera.vsize,
                y < camera.vsize,
                x <= camera.hsize,
                forall|a: int, b: int|
                    0 <= a < camera.hsize && 0 <= b < y ==> pixel_at_s(canvas, a, b) == color_at_s(
                        *world,
                        ray_for_pixel_s(*camera, a as usize, b as usize),
                        REFLECTION_DEPTH,
                    ),
                forall|a: int|
                    0 <= a < x ==> pixel_at_s(canvas, a, y as int) == color_at_s(
                        *world,
                        ray_for_pixel_s(*camera, a as usize, y as usize),
                        REFLECTION_DEPTH,
                    ),
            decreases camera.hsize - x,
        {
            let color = render_at(x, y, camera, world);
            canvas.set_pixel(x, y, color);
            x = x + 1;
        }
        y = y + 1;
    }
    canvas
}

/// A channel value scaled to a byte range and clamped, the conversion a
/// window or file sink applies to each traced color component.
pub fn limit(value: i32, min: u8, max: u8) -> (r: u8)
    ensures
        r == if value < min { min } else if value > max { max } else { value as u8 },
{
    if value < min as i32 {
        return min;
    }
    if value > max as i32 {
        return max;
    }
    value as u8
}

} // verus!

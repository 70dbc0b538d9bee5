//! The pixel buffer that `render` fills, row-major.  Serialization of the
//! buffer to any file format belongs to the presentation layer outside the
//! core.

use vstd::prelude::*;
use crate::color::{black_c, Color};

verus! {

pub struct Canvas {
    pub width: usize,
    pub height: usize,
    pub pixels: Vec<Color>,
}

/// The color stored for pixel `(x, y)`.
pub open spec fn pixel_at_s(c: Canvas, x: int, y: int) -> Color {
    c.pixels@[y * c.width + x]
}

/// A pixel's row-major index lies inside the buffer.
pub proof fn lemma_pixel_index(x: int, y: int, w: int, h: int) by (nonlinear_arith)
    requires
        0 <= x < w,
        0 <= y < h,
    ensures
        0 <= y * w + x < w * h,
{
}

impl Canvas {
    pub open spec fn wf(self) -> bool {
        self.pixels.len() == self.width * self.height
    }

    /// A black canvas of the given size.
    pub fn new(width: usize, height: usize) -> (c: Canvas)
        requires
            width * height <= usize::MAX,
        ensures
            c.wf(),
            c.width == width,
            c.height == height,
            forall|x: int, y: int|
                0 <= x < width && 0 <= y < height ==> pixel_at_s(c, x, y) == black_c(),
    {
        let n = width * height;
        let mut pixels: Vec<Color> = Vec::new();
        let mut i: usize = 0;
        while i < n
            invariant
                i <= n,
                pixels@.len() == i,
                forall|k: int| 0 <= k < i ==> pixels@[k] == black_c(),
            decreases n - i,
        {
            pixels.push(Color { red: 0, green: 0, blue: 0 });
            i = i + 1;
        }
        let c = Canvas { width, height, pixels };
        proof {
            assert forall|x: int, y: int|
                0 <= x < width && 0 <= y < height implies pixel_at_s(c, x, y) == black_c() by {
                lemma_pixel_index(x, y, width as int, height as int);
            }
        }
        c
    }

    /// The color of pixel `(x, y)`.
    pub fn pixel_at(&self, x: usize, y: usize) -> (c: Color)
        requires
            self.wf(),
            x < self.width,
            y < self.height,
        ensures
            c == pixel_at_s(*self, x as int, y as int),
    {
        proof {
            lemma_pixel_index(x as int, y as int, self.width as int, self.height as int);
        }
        self.pixels[y * self.width + x]
    }

    /// Overwrite pixel `(x, y)`, leaving every other pixel unchanged.
    pub fn set_pixel(&mut self, x: usize, y: usize, color: Color)
        requires
            old(self).wf(),
            x < old(self).width,
            y < old(self).height,
        ensures
            final(self).wf(),
            final(self).width == old(self).width,
            final(self).height == old(self).height,
            pixel_at_s(*final(self), x as int, y as int) == color,
            forall|a: int, b: int|
                0 <= a < final(self).width && 0 <= b < final(self).height && !(a == x && b == y)
                    ==> pixel_at_s(*final(self), a, b) == pixel_at_s(*old(self), a, b),
    {
        proof {
            lemma_pixel_index(x as int, y as int, self.width as int, self.height as int);
        }
        let i = y * self.width + x;
        self.pixels[i] = color;
        proof {
            assert forall|a: int, b: int|
                0 <= a < final(self).width && 0 <= b < final(self).height && !(a == x && b == y)
                    implies pixel_at_s(*final(self), a, b) == pixel_at_s(*old(self), a, b) by {
                lemma_pixel_index(a, b, self.width as int, self.height as int);
                lemma_distinct_pixel(a, b, x as int, y as int, self.width as int);
            }
        }
    }
}

/// Distinct pixel coordinates give distinct row-major indices.
proof fn lemma_distinct_pixel(a: int, b: int, x: int, y: int, w: int) by (nonlinear_arith)
    requires
        0 <= a < w,
        0 <= x < w,
        !(a == x && b == y),
    ensures
        b * w + a != y * w + x,
{
}

/// The color of pixel `(x, y)`.
pub fn get_pixel(canvas: &Canvas, x: usize, y: usize) -> (c: Color)
    requires
        canvas.wf(),
        x < canvas.width,
        y < canvas.height,
    ensures
        c == pixel_at_s(*canvas, x as int, y as int),
{
    canvas.pixel_at(x, y)
}

/// Overwrite pixel `(x, y)`.
pub fn set_pixel(canvas: &mut Canvas, x: usize, y: usize, color: Color)
    requires
        old(canvas).wf(),
        x < old(canvas).width,
        y < old(canvas).height,
    ensures
        final(canvas).wf(),
        final(canvas).width == old(canvas).width,
        final(canvas).height == old(canvas).height,
        pixel_at_s(*final(canvas), x as int, y as int) == color,
        forall|a: int, b: int|
            0 <= a < final(canvas).width && 0 <= b < final(canvas).height && !(a == x && b == y)
                ==> pixel_at_s(*final(canvas), a, b) == pixel_at_s(*old(canvas), a, b),
{
    canvas.set_pixel(x, y, color)
}

/// A channel value clamped to `[min, max]`, the output-stage clamp of the
/// serialization layer.
pub fn limit(value: i32, min: i32, max: i32) -> (r: i32)
    ensures
        r == if value < min { min } else if value > max { max } else { value },
{
    if value < min {
        return min;
    }
    if value > max {
        return max;
    }
    value
}

} // verus!

//! The grid of rendered pixels that the render modes draw from.

use vstd::prelude::*;

use crate::color::Rgb;

verus! {

/// A `width` × `height` grid of colors, stored row by row in `color`.
pub struct Framebuffer {
    pub width: u32,
    pub height: u32,
    pub color: Vec<Rgb>,
}

/// What the luminance of a pixel decides when it is shown as text: whether a
/// braille dot is lit for it (luminance above 0.15), and the position on the
/// ASCII shading ramp that its rounded, scaled luminance names.
#[derive(Debug, Clone, Copy, PartialEq, Eq, Structural)]
pub struct Tone {
    pub lit: bool,
    pub ramp: usize,
}

impl Framebuffer {
    /// The grid holds exactly one color per pixel.
    pub open spec fn wf(&self) -> bool {
        self.color@.len() == self.width * self.height
    }

    /// The row-major position of pixel `(x, y)`.
    pub open spec fn offset(&self, x: int, y: int) -> int {
        y * self.width + x
    }

    /// The color of pixel `(x, y)`.
    pub open spec fn pixel(&self, x: int, y: int) -> Rgb {
        self.color@[self.offset(x, y)]
    }

    /// Whether `(x, y)` is a pixel of the grid.
    pub open spec fn contains(&self, x: int, y: int) -> bool {
        0 <= x < self.width && 0 <= y < self.height
    }

    /// An all-black grid of the given size.
    pub fn new(width: u32, height: u32) -> (fb: Framebuffer)
        requires
            width * height <= usize::MAX,
        ensures
            fb.wf(),
            fb.width == width,
            fb.height == height,
            forall|i: int| 0 <= i < fb.color@.len() ==> fb.color@[i] == Rgb(0, 0, 0),
    {
        let n: usize = width as usize * height as usize;
        let mut color: Vec<Rgb> = Vec::new();
        let mut i: usize = 0;
        while i < n
            invariant
                i <= n,
                color@.len() == i,
                forall|j: int| 0 <= j < i ==> color@[j] == Rgb(0, 0, 0),
            decreases n - i,
        {
            color.push(Rgb::black());
            i = i + 1;
        }
        Framebuffer { width, height, color }
    }

    /// A grid of the given size over the given row-major colors, or `None`
    /// when their number is not `width * height`.
    pub fn from_colors(width: u32, height: u32, color: Vec<Rgb>) -> (r: Option<Framebuffer>)
        ensures
            r is Some <==> color@.len() == width * height,
            r matches Some(fb) ==> fb.width == width && fb.height == height && fb.color@ == color@,
    {
        assert(width * height <= u64::MAX) by (nonlinear_arith)
            requires
                width <= u32::MAX,
                height <= u32::MAX,
        ;
        let n: u64 = width as u64 * height as u64;
        if color.len() as u64 == n {
            Some(Framebuffer { width, height, color })
        } else {
            None
        }
    }

    /// The offset of pixel `(x, y)` in `color`.
    pub fn pixel_offset(&self, x: u32, y: u32) -> (r: usize)
        requires
            self.wf(),
            self.contains(x as int, y as int),
        ensures
            r == self.offset(x as int, y as int),
            r < self.color@.len(),
    {
        let n = self.color.len();
        proof {
            lemma_offset_in_grid(x as int, y as int, self.width as int, self.height as int);
            assert(0 <= y * self.width <= y * self.width + x) by (nonlinear_arith)
                requires
                    0 <= x,
                    0 <= y,
                    0 <= self.width,
            ;
        }
        y as usize * self.width as usize + x as usize
    }

    /// The color of pixel `(x, y)`.
    pub fn get_pixel(&self, x: u32, y: u32) -> (r: Rgb)
        requires
            self.wf(),
            self.contains(x as int, y as int),
        ensures
            r == self.pixel(x as int, y as int),
    {
        let i = self.pixel_offset(x, y);
        self.color[i]
    }
}

/// A pixel inside a `w` × `h` grid has a row-major offset below `w * h`.
pub proof fn lemma_offset_in_grid(x: int, y: int, w: int, h: int)
    requires
        0 <= x < w,
        0 <= y < h,
    ensures
        0 <= y * w + x < w * h,
{
    assert(0 <= y * w + x < w * h) by (nonlinear_arith)
        requires
            0 <= x < w,
            0 <= y < h,
    ;
}

} // verus!

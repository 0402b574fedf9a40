use vstd::prelude::*;
use crate::engine::color::Color;

verus! {

/// The abstract content of a sprite: its size and row-major pixels.
pub struct SpriteView {
    pub width: nat,
    pub height: nat,
    pub pixels: Seq<Option<Color>>,
}

impl SpriteView {
    /// The pixel data matches the sprite's size.
    pub open spec fn wf(self) -> bool {
        self.pixels.len() == self.width * self.height
    }

    /// The pixel at (x, y); None (transparent) outside the sprite.
    pub open spec fn pixel(self, x: int, y: int) -> Option<Color> {
        if 0 <= x < self.width && 0 <= y < self.height {
            self.pixels[y * self.width + x]
        } else {
            None
        }
    }
}

/// Sprite data. Pixels are row-major; None = transparent.
pub struct SpriteData {
    pub width: usize,
    pub height: usize,
    pub pixels: &'static [Option<Color>],
}

impl View for SpriteData {
    type V = SpriteView;

    open spec fn view(&self) -> SpriteView {
        SpriteView { width: self.width as nat, height: self.height as nat, pixels: self.pixels@ }
    }
}

impl SpriteData {
    pub fn new(width: usize, height: usize, pixels: &'static [Option<Color>]) -> (s: Self)
        ensures
            s.width == width,
            s.height == height,
            s.pixels@ == pixels@,
    {
        SpriteData { width, height, pixels }
    }

    pub open spec fn wf(&self) -> bool {
        self.pixels@.len() == self.width * self.height
    }

    pub fn get_pixel(&self, x: usize, y: usize) -> (p: Option<Color>)
        requires
            self.pixels@.len() >= self.width * self.height,
        ensures
            p == self@.pixel(x as int, y as int),
    {
        if x < self.width && y < self.height {
            let _n = self.pixels.len();
            proof {
                lemma_index_in_grid(x as int, y as int, self.width as int, self.height as int);
            }
            self.pixels[y * self.width + x]
        } else {
            None
        }
    }
}

/// Row-major index of a cell inside a `w` by `h` grid lies inside the grid.
pub proof fn lemma_index_in_grid(x: int, y: int, w: int, h: int)
    requires
        0 <= x < w,
        0 <= y < h,
    ensures
        0 <= y * w,
        y * w + x < w * h,
{
    assert(y * w + x < w * h) by (nonlinear_arith)
        requires 0 <= x < w, 0 <= y < h;
    assert(0 <= y * w) by (nonlinear_arith)
        requires 0 <= y, 0 <= w;
}

} // verus!

use vstd::prelude::*;
use crate::engine::color::{Color, DARK_GRAY};
use crate::engine::sprite::{SpriteData, SpriteView, lemma_index_in_grid};

verus! {

/// The abstract content of a framebuffer: its dimensions, a row-major grid of
/// optional pixels (None = background) and its background color.
pub struct FrameView {
    pub width: nat,
    pub height: nat,
    pub cells: Seq<Option<Color>>,
    pub background: Color,
}

impl FrameView {
    pub open spec fn valid(self) -> bool {
        self.cells.len() == self.width * self.height
    }

    pub open spec fn in_bounds(self, x: int, y: int) -> bool {
        0 <= x < self.width && 0 <= y < self.height
    }

    /// The pixel at (x, y); None outside the grid.
    pub open spec fn at(self, x: int, y: int) -> Option<Color> {
        if self.in_bounds(x, y) {
            self.cells[y * self.width + x]
        } else {
            None
        }
    }

    /// The view with pixel (x, y) replaced by `c`; unchanged outside the grid.
    pub open spec fn with(self, x: int, y: int, c: Option<Color>) -> FrameView {
        if self.in_bounds(x, y) {
            FrameView { cells: self.cells.update(y * self.width + x, c), ..self }
        } else {
            self
        }
    }

    /// Same dimensions and background as `other`.
    pub open spec fn same_shape(self, other: FrameView) -> bool {
        self.width == other.width && self.height == other.height && self.background
            == other.background
    }

    /// A blank grid of the given size.
    pub open spec fn blank(width: nat, height: nat, background: Color) -> FrameView {
        FrameView {
            width,
            height,
            cells: Seq::new(width * height, |i: int| None::<Color>),
            background,
        }
    }
}

/// Two distinct grid positions have distinct row-major indices.
pub proof fn lemma_grid_index_injective(x1: int, y1: int, x2: int, y2: int, w: int)
    requires
        0 <= x1 < w,
        0 <= x2 < w,
        0 <= y1,
        0 <= y2,
        y1 * w + x1 == y2 * w + x2,
    ensures
        x1 == x2 && y1 == y2,
{
    if y1 < y2 {
        assert(y1 * w + w <= y2 * w) by (nonlinear_arith)
            requires y1 < y2, 0 <= w;
    } else if y2 < y1 {
        assert(y2 * w + w <= y1 * w) by (nonlinear_arith)
            requires y2 < y1, 0 <= w;
    }
}

/// Every in-bounds position reads what was written there last.
pub proof fn lemma_with_at(v: FrameView, x: int, y: int, c: Option<Color>, a: int, b: int)
    requires
        v.valid(),
    ensures
        v.with(x, y, c).valid(),
        v.with(x, y, c).same_shape(v),
        v.with(x, y, c).at(a, b) == if v.in_bounds(x, y) && a == x && b == y {
            c
        } else {
            v.at(a, b)
        },
{
    if v.in_bounds(x, y) {
        lemma_index_in_grid(x, y, v.width as int, v.height as int);
        if v.in_bounds(a, b) {
            lemma_index_in_grid(a, b, v.width as int, v.height as int);
            if a != x || b != y {
                if a * 0 + b * v.width + a == y * v.width + x {
                    lemma_grid_index_injective(a, b, x, y, v.width as int);
                }
            }
        }
    }
}

/// Two valid views of the same shape that agree on every position are equal.
pub proof fn lemma_view_ext(v1: FrameView, v2: FrameView)
    requires
        v1.valid(),
        v2.valid(),
        v1.same_shape(v2),
        forall|x: int, y: int| v1.in_bounds(x, y) ==> #[trigger] v1.at(x, y) == v2.at(x, y),
    ensures
        v1 == v2,
{
    assert forall|i: int| 0 <= i < v1.cells.len() implies v1.cells[i] == v2.cells[i] by {
        let w = v1.width as int;
        let hh = v1.height as int;
        assert(w > 0) by (nonlinear_arith)
            requires 0 <= i, i < w * hh, 0 <= hh, 0 <= w;
        let y = i / w;
        let x = i % w;
        assert(i == y * w + x) by (nonlinear_arith)
            requires w > 0, y == i / w, x == i % w;
        assert(0 <= x < w && 0 <= y);
        assert(y < v1.height) by (nonlinear_arith)
            requires
                i == y * w + x,
                0 <= x,
                i < w * v1.height,
                w > 0,
        ;
        assert(v1.at(x, y) == v2.at(x, y));
    }
    assert(v1.cells =~= v2.cells);
}

/// The view with every position where `p` holds painted `c`.
pub open spec fn paint_where(v: FrameView, p: spec_fn(int, int) -> bool, c: Color) -> FrameView {
    FrameView {
        cells: Seq::new(v.cells.len(), |i: int| if p(i % (v.width as int), i / (v.width as int)) { Some(c) } else { v.cells[i] }),
        ..v
    }
}

/// The half-open rectangle [x0, x1) x [y0, y1).
pub open spec fn in_rect(x0: int, x1: int, y0: int, y1: int) -> spec_fn(int, int) -> bool {
    |x: int, y: int| x0 <= x < x1 && y0 <= y < y1
}

/// Reading a painted view.
pub proof fn lemma_paint_where_at(v: FrameView, p: spec_fn(int, int) -> bool, c: Color, x: int, y: int)
    requires
        v.valid(),
    ensures
        paint_where(v, p, c).valid(),
        paint_where(v, p, c).same_shape(v),
        paint_where(v, p, c).at(x, y) == if v.in_bounds(x, y) && p(x, y) { Some(c) } else { v.at(x, y) },
{
    if v.in_bounds(x, y) {
        lemma_index_in_grid(x, y, v.width as int, v.height as int);
        let i = y * v.width + x;
        vstd::arithmetic::div_mod::lemma_fundamental_div_mod_converse(i, v.width as int, y, x);
    }
}

/// A view equals the painted view when they agree at every position.
pub proof fn lemma_is_painted(old: FrameView, new: FrameView, p: spec_fn(int, int) -> bool, c: Color)
    requires
        old.valid(),
        new.valid(),
        new.same_shape(old),
        forall|x: int, y: int| old.in_bounds(x, y) ==> #[trigger] new.at(x, y) == if p(x, y) { Some(c) } else { old.at(x, y) },
    ensures
        new == paint_where(old, p, c),
{
    let pv = paint_where(old, p, c);
    assert forall|x: int, y: int| new.in_bounds(x, y) implies #[trigger] new.at(x, y) == pv.at(x, y) by {
        lemma_paint_where_at(old, p, c, x, y);
    }
    lemma_paint_where_at(old, p, c, 0, 0);
    lemma_view_ext(new, pv);
}

/// Painting twice in one color is painting the union once.
pub proof fn lemma_paint_twice(v: FrameView, p: spec_fn(int, int) -> bool, q: spec_fn(int, int) -> bool, c: Color)
    requires
        v.valid(),
    ensures
        paint_where(paint_where(v, p, c), q, c) == paint_where(v, |x: int, y: int| p(x, y) || q(x, y), c),
{
    let v1 = paint_where(v, p, c);
    let v2 = paint_where(v1, q, c);
    let pq = |x: int, y: int| p(x, y) || q(x, y);
    assert forall|x: int, y: int| v.in_bounds(x, y) implies #[trigger] v2.at(x, y) == if pq(x, y) { Some(c) } else { v.at(x, y) } by {
        lemma_paint_where_at(v, p, c, x, y);
        lemma_paint_where_at(v1, q, c, x, y);
    }
    lemma_paint_where_at(v, p, c, 0, 0);
    lemma_paint_where_at(v1, q, c, 0, 0);
    lemma_is_painted(v, v2, pq, c);
}

/// The ways a sprite pixel can be painted.
#[derive(Clone, Copy)]
pub enum Paint {
    Copy,
    Tint(Color),
    Solid(Color),
}

/// Multiply each channel of `c` by `t / 255`.
pub open spec fn tint_spec(c: Color, t: Color) -> Color {
    [
        (c[0] as int * t[0] as int / 255) as u8,
        (c[1] as int * t[1] as int / 255) as u8,
        (c[2] as int * t[2] as int / 255) as u8,
    ]
}

pub open spec fn paint_spec(c: Color, paint: Paint) -> Color {
    match paint {
        Paint::Copy => c,
        Paint::Tint(t) => tint_spec(c, t),
        Paint::Solid(s) => s,
    }
}

/// The sprite pixel that lands on framebuffer position (x, y) when the sprite's
/// top-left corner is placed at (px, py), optionally mirrored horizontally.
pub open spec fn source_pixel(sprite: SpriteView, px: int, py: int, flip: bool, x: int, y: int) -> Option<Color> {
    let sx = x - px;
    let sy = y - py;
    if 0 <= sx < sprite.width && 0 <= sy < sprite.height {
        if flip {
            sprite.pixel(sprite.width - 1 - sx, sy)
        } else {
            sprite.pixel(sx, sy)
        }
    } else {
        None
    }
}

/// What position (x, y) holds after blitting: the painted sprite pixel where the
/// sprite is opaque, the old content elsewhere.
pub open spec fn blit_at(old: FrameView, sprite: SpriteView, px: int, py: int, flip: bool, paint: Paint, x: int, y: int) -> Option<Color> {
    match source_pixel(sprite, px, py, flip, x, y) {
        Some(c) => Some(paint_spec(c, paint)),
        None => old.at(x, y),
    }
}

/// The framebuffer after blitting `sprite` at (px, py).
pub open spec fn blitted(old: FrameView, new: FrameView, sprite: SpriteView, px: int, py: int, flip: bool, paint: Paint) -> bool {
    &&& new.valid()
    &&& new.same_shape(old)
    &&& forall|x: int, y: int| old.in_bounds(x, y) ==> #[trigger] new.at(x, y) == blit_at(old, sprite, px, py, flip, paint, x, y)
}

/// The framebuffer view after blitting `sprite` at (px, py).
pub open spec fn blit_view(old: FrameView, sprite: SpriteView, px: int, py: int, flip: bool, paint: Paint) -> FrameView {
    FrameView {
        cells: Seq::new(
            old.cells.len(),
            |i: int| blit_at(old, sprite, px, py, flip, paint, i % (old.width as int), i / (old.width as int)),
        ),
        ..old
    }
}

/// A blit is the one view `blit_view` names.
pub proof fn lemma_blitted_view(old: FrameView, new: FrameView, sprite: SpriteView, px: int, py: int, flip: bool, paint: Paint)
    requires
        old.valid(),
        blitted(old, new, sprite, px, py, flip, paint),
    ensures
        new == blit_view(old, sprite, px, py, flip, paint),
{
    let bv = blit_view(old, sprite, px, py, flip, paint);
    assert forall|x: int, y: int| new.in_bounds(x, y) implies #[trigger] new.at(x, y) == bv.at(x, y) by {
        lemma_index_in_grid(x, y, old.width as int, old.height as int);
        vstd::arithmetic::div_mod::lemma_fundamental_div_mod_converse(y * old.width + x, old.width as int, y, x);
    }
    lemma_view_ext(new, bv);
}

/// Blitting each (sprite, x, y) of `ops` in order, unflipped and uncolored.
pub open spec fn blit_chain(v: FrameView, ops: Seq<(SpriteView, int, int)>) -> FrameView
    decreases ops.len(),
{
    if ops.len() == 0 {
        v
    } else {
        let last = ops.last();
        blit_view(blit_chain(v, ops.drop_last()), last.0, last.1, last.2, false, Paint::Copy)
    }
}

/// Blitting keeps a view's shape.
pub proof fn lemma_blit_chain_shape(v: FrameView, ops: Seq<(SpriteView, int, int)>)
    requires
        v.valid(),
    ensures
        blit_chain(v, ops).valid(),
        blit_chain(v, ops).same_shape(v),
    decreases ops.len(),
{
    if ops.len() > 0 {
        lemma_blit_chain_shape(v, ops.drop_last());
    }
}

/// `sprite` mirrored left to right: pixel (x, y) takes the sprite's pixel (width-1-x, y).
pub open spec fn mirrored(sprite: SpriteView) -> SpriteView {
    SpriteView {
        pixels: Seq::new(
            sprite.pixels.len(),
            |i: int| {
                let w = sprite.width as int;
                sprite.pixels[(i / w) * w + (w - 1 - i % w)]
            },
        ),
        ..sprite
    }
}

/// A flipped blit draws the mirror image: the mirrored sprite is well formed, its pixel
/// (x, y) is the sprite's pixel (width-1-x, y), and blitting the sprite flipped gives the
/// same picture as blitting its mirror image unflipped, for every paint.
pub proof fn law_flip_is_mirror(old: FrameView, sprite: SpriteView, px: int, py: int, paint: Paint)
    requires
        sprite.wf(),
    ensures
        mirrored(sprite).wf(),
        forall|x: int, y: int| 0 <= x < sprite.width && 0 <= y < sprite.height ==> #[trigger] mirrored(sprite).pixel(x, y) == sprite.pixel(
            sprite.width - 1 - x,
            y,
        ),
        blit_view(old, sprite, px, py, true, paint) == blit_view(old, mirrored(sprite), px, py, false, paint),
{
    let m = mirrored(sprite);
    let w = sprite.width as int;
    let h = sprite.height as int;
    assert forall|x: int, y: int| 0 <= x < w && 0 <= y < h implies #[trigger] m.pixel(x, y) == sprite.pixel(w - 1 - x, y) by {
        lemma_index_in_grid(x, y, w, h);
        lemma_index_in_grid(w - 1 - x, y, w, h);
        vstd::arithmetic::div_mod::lemma_fundamental_div_mod_converse(y * w + x, w, y, x);
    }
    let a = blit_view(old, sprite, px, py, true, paint);
    let b = blit_view(old, m, px, py, false, paint);
    assert forall|i: int| 0 <= i < a.cells.len() implies a.cells[i] == b.cells[i] by {
        let x = i % (old.width as int);
        let y = i / (old.width as int);
        assert(source_pixel(sprite, px, py, true, x, y) == source_pixel(m, px, py, false, x, y)) by {
            let sx = x - px;
            let sy = y - py;
            if 0 <= sx < w && 0 <= sy < h {
                assert(m.pixel(sx, sy) == sprite.pixel(w - 1 - sx, sy));
            }
        }
    }
    assert(a.cells =~= b.cells);
}

/// What a sprite must satisfy to be blitted: consistent pixel data and sizes
/// that keep the signed position arithmetic in range.
pub open spec fn blittable(sprite: SpriteView, px: int, py: int) -> bool {
    &&& sprite.wf()
    &&& sprite.width <= i32::MAX
    &&& sprite.height <= i32::MAX
    &&& px > i32::MIN
    &&& py > i32::MIN
    &&& px + sprite.width <= i32::MAX
    &&& py + sprite.height <= i32::MAX
}

pub struct FrameBuffer {
    width: usize,
    height: usize,
    pixels: Vec<Option<Color>>,
    background: Color,
}

impl View for FrameBuffer {
    type V = FrameView;

    closed spec fn view(&self) -> FrameView {
        FrameView {
            width: self.width as nat,
            height: self.height as nat,
            cells: self.pixels@,
            background: self.background,
        }
    }
}

impl FrameBuffer {
    /// The buffer's pixel storage matches its dimensions.
    pub closed spec fn wf(&self) -> bool {
        self.pixels@.len() == self.width * self.height
    }

    pub proof fn lemma_wf(&self)
        requires
            self.wf(),
        ensures
            self@.valid(),
            self@.width * self@.height <= usize::MAX,
    {
        assert(self.pixels@.len() == self.pixels.len());
    }

    /// Create a new framebuffer. `term_cols` x `term_rows` are terminal dimensions.
    /// Pixel height is `term_rows * 2` (half-block rendering).
    pub fn new(term_cols: usize, term_rows: usize) -> (fb: Self)
        requires
            term_rows * 2 <= usize::MAX,
            term_cols * (term_rows * 2) <= usize::MAX,
        ensures
            fb.wf(),
            fb@ == FrameView::blank(term_cols as nat, (term_rows * 2) as nat, DARK_GRAY),
    {
        let width = term_cols;
        let height = term_rows * 2;
        let pixels = Self::blank_pixels(width * height);
        let fb = Self { width, height, pixels, background: DARK_GRAY };
        assert(fb@.cells =~= FrameView::blank(term_cols as nat, (term_rows * 2) as nat, DARK_GRAY).cells);
        fb
    }

    fn blank_pixels(n: usize) -> (v: Vec<Option<Color>>)
        ensures
            v@ == Seq::new(n as nat, |i: int| None::<Color>),
    {
        let mut v: Vec<Option<Color>> = Vec::with_capacity(n);
        let mut i: usize = 0;
        while i < n
            invariant
                i <= n,
                v@ == Seq::new(i as nat, |k: int| None::<Color>),
            decreases n - i,
        {
            v.push(None);
            i += 1;
            assert(v@ =~= Seq::new(i as nat, |k: int| None::<Color>));
        }
        v
    }

    pub fn width(&self) -> (w: usize)
        ensures
            w == self@.width,
    {
        self.width
    }

    pub fn height(&self) -> (h: usize)
        ensures
            h == self@.height,
    {
        self.height
    }

    pub fn background(&self) -> (c: Color)
        ensures
            c == self@.background,
    {
        self.background
    }

    /// Clear all pixels to None (transparent / background).
    pub fn clear(&mut self)
        requires
            old(self).wf(),
        ensures
            final(self).wf(),
            final(self)@ == FrameView::blank(old(self)@.width, old(self)@.height, old(self)@.background),
    {
        let n = self.pixels.len();
        let mut i: usize = 0;
        while i < n
            invariant
                n == self.pixels@.len(),
                n == old(self).pixels@.len(),
                i <= n,
                self.width == old(self).width,
                self.height == old(self).height,
                self.background == old(self).background,
                forall|k: int| 0 <= k < i ==> #[trigger] self.pixels@[k] == None::<Color>,
            decreases n - i,
        {
            self.pixels[i] = None;
            i += 1;
        }
        assert(self.pixels@ =~= FrameView::blank(old(self)@.width, old(self)@.height, old(self)@.background).cells);
    }

    /// Set a single pixel. Out-of-bounds writes are silently ignored.
    pub fn set_pixel(&mut self, x: usize, y: usize, color: Color)
        requires
            old(self).wf(),
        ensures
            final(self).wf(),
            final(self)@ == old(self)@.with(x as int, y as int, Some(color)),
    {
        if x < self.width && y < self.height {
            proof {
                lemma_index_in_grid(x as int, y as int, self.width as int, self.height as int);
                self.lemma_wf();
            }
            self.pixels[y * self.width + x] = Some(color);
        }
    }

    /// Set a single pixel using signed coordinates. Silently ignores out-of-bounds.
    /// Useful for particles that can drift off-screen.
    pub fn set_pixel_safe(&mut self, x: i32, y: i32, color: Color)
        requires
            old(self).wf(),
        ensures
            final(self).wf(),
            final(self)@ == old(self)@.with(x as int, y as int, Some(color)),
    {
        if x >= 0 && y >= 0 {
            let ux = x as usize;
            let uy = y as usize;
            if ux < self.width && uy < self.height {
                proof {
                    lemma_index_in_grid(ux as int, uy as int, self.width as int, self.height as int);
                    self.lemma_wf();
                }
                self.pixels[uy * self.width + ux] = Some(color);
            }
        }
    }

    /// Get a single pixel. Returns None for out-of-bounds or transparent pixels.
    pub fn get_pixel(&self, x: usize, y: usize) -> (p: Option<Color>)
        requires
            self.wf(),
        ensures
            p == self@.at(x as int, y as int),
    {
        if x < self.width && y < self.height {
            proof {
                lemma_index_in_grid(x as int, y as int, self.width as int, self.height as int);
                self.lemma_wf();
            }
            self.pixels[y * self.width + x]
        } else {
            None
        }
    }

    /// Fill a rectangle with the given color. Clips to framebuffer bounds.
    pub fn fill_rect(&mut self, x: usize, y: usize, w: usize, h: usize, color: Color)
        requires
            old(self).wf(),
            x + w <= usize::MAX,
            y + h <= usize::MAX,
        ensures
            final(self).wf(),
            final(self)@.valid(),
            final(self)@.same_shape(old(self)@),
            forall|a: int, b: int|
                old(self)@.in_bounds(a, b) ==> #[trigger] final(self)@.at(a, b) == if x <= a < x + w
                    && y <= b < y + h {
                    Some(color)
                } else {
                    old(self)@.at(a, b)
                },
    {
        let x_end = if x + w < self.width { x + w } else { self.width };
        let y_end = if y + h < self.height { y + h } else { self.height };
        let ghost v0 = self@;
        proof { self.lemma_wf(); }
        let mut row = y;
        while row < y_end
            invariant
                self.wf(),
                self@.valid(),
                self@.same_shape(v0),
                v0.valid(),
                y <= row,
                row <= y_end || row == y,
                x_end <= self.width,
                y_end <= self.height,
                x_end == if x + w < self.width { x + w } else { self.width as int },
                y_end == if y + h < self.height { y + h } else { self.height as int },
                forall|a: int, b: int|
                    v0.in_bounds(a, b) ==> #[trigger] self@.at(a, b) == if x <= a < x_end && y <= b
                        < row {
                        Some(color)
                    } else {
                        v0.at(a, b)
                    },
            decreases y_end - row,
        {
            let mut col = x;
            while col < x_end
                invariant
                    self.wf(),
                    self@.valid(),
                    self@.same_shape(v0),
                    v0.valid(),
                    y <= row < y_end,
                    x <= col,
                    col <= x_end || col == x,
                    x_end <= self.width,
                    y_end <= self.height,
                    forall|a: int, b: int|
                        v0.in_bounds(a, b) ==> #[trigger] self@.at(a, b) == if (x <= a < x_end && y
                            <= b < row) || (b == row && x <= a < col) {
                            Some(color)
                        } else {
                            v0.at(a, b)
                        },
                decreases x_end - col,
            {
                let ghost before = self@;
                self.set_pixel(col, row, color);
                proof {
                    assert forall|a: int, b: int| v0.in_bounds(a, b) implies #[trigger] self@.at(a, b)
                        == if (x <= a < x_end && y <= b < row) || (b == row && x <= a < col + 1) {
                        Some(color)
                    } else {
                        v0.at(a, b)
                    } by {
                        lemma_with_at(before, col as int, row as int, Some(color), a, b);
                    }
                }
                col += 1;
            }
            row += 1;
        }
    }

    /// Resize the framebuffer to new terminal dimensions. Clears all pixels.
    pub fn resize(&mut self, term_cols: usize, term_rows: usize)
        requires
            term_rows * 2 <= usize::MAX,
            term_cols * (term_rows * 2) <= usize::MAX,
        ensures
            final(self).wf(),
            final(self)@ == FrameView::blank(term_cols as nat, (term_rows * 2) as nat, old(self)@.background),
    {
        self.width = term_cols;
        self.height = term_rows * 2;
        self.pixels = Self::blank_pixels(self.width * self.height);
        assert(self.pixels@ =~= FrameView::blank(term_cols as nat, (term_rows * 2) as nat, old(self)@.background).cells);
    }

    /// Blit a sprite at pixel position (px, py).
    /// Handles clipping for partially off-screen sprites.
    /// Transparent pixels (None) are skipped.
    pub fn blit_sprite(&mut self, sprite: &SpriteData, px: i32, py: i32)
        requires
            old(self).wf(),
            old(self)@.width <= i32::MAX,
            old(self)@.height <= i32::MAX,
            blittable(sprite@, px as int, py as int),
        ensures
            final(self).wf(),
            blitted(old(self)@, final(self)@, sprite@, px as int, py as int, false, Paint::Copy),
    {
        self.blit(sprite, px, py, false, Paint::Copy)
    }

    /// Blit with horizontal flip (for left-facing sprites).
    pub fn blit_sprite_flipped(&mut self, sprite: &SpriteData, px: i32, py: i32)
        requires
            old(self).wf(),
            old(self)@.width <= i32::MAX,
            old(self)@.height <= i32::MAX,
            blittable(sprite@, px as int, py as int),
        ensures
            final(self).wf(),
            blitted(old(self)@, final(self)@, sprite@, px as int, py as int, true, Paint::Copy),
    {
        self.blit(sprite, px, py, true, Paint::Copy)
    }

    /// Blit with a color tint (multiply each pixel channel by tint/255).
    /// Useful for damage flash (red tint) or ghost trail (reduced brightness).
    pub fn blit_sprite_tinted(&mut self, sprite: &SpriteData, px: i32, py: i32, tint: Color)
        requires
            old(self).wf(),
            old(self)@.width <= i32::MAX,
            old(self)@.height <= i32::MAX,
            blittable(sprite@, px as int, py as int),
        ensures
            final(self).wf(),
            blitted(old(self)@, final(self)@, sprite@, px as int, py as int, false, Paint::Tint(tint)),
    {
        self.blit(sprite, px, py, false, Paint::Tint(tint))
    }

    /// Blit all non-transparent pixels as a solid color (for white hit flash).
    pub fn blit_sprite_solid(&mut self, sprite: &SpriteData, px: i32, py: i32, color: Color)
        requires
            old(self).wf(),
            old(self)@.width <= i32::MAX,
            old(self)@.height <= i32::MAX,
            blittable(sprite@, px as int, py as int),
        ensures
            final(self).wf(),
            blitted(old(self)@, final(self)@, sprite@, px as int, py as int, false, Paint::Solid(color)),
    {
        self.blit(sprite, px, py, false, Paint::Solid(color))
    }

    /// Blit with horizontal flip, all non-transparent pixels as a solid color.
    pub fn blit_sprite_flipped_solid(&mut self, sprite: &SpriteData, px: i32, py: i32, color: Color)
        requires
            old(self).wf(),
            old(self)@.width <= i32::MAX,
            old(self)@.height <= i32::MAX,
            blittable(sprite@, px as int, py as int),
        ensures
            final(self).wf(),
            blitted(old(self)@, final(self)@, sprite@, px as int, py as int, true, Paint::Solid(color)),
    {
        self.blit(sprite, px, py, true, Paint::Solid(color))
    }

    /// Blit with horizontal flip and a color tint combined.
    pub fn blit_sprite_flipped_tinted(&mut self, sprite: &SpriteData, px: i32, py: i32, tint: Color)
        requires
            old(self).wf(),
            old(self)@.width <= i32::MAX,
            old(self)@.height <= i32::MAX,
            blittable(sprite@, px as int, py as int),
        ensures
            final(self).wf(),
            blitted(old(self)@, final(self)@, sprite@, px as int, py as int, true, Paint::Tint(tint)),
    {
        self.blit(sprite, px, py, true, Paint::Tint(tint))
    }

    /// Shared body of the blit variants.
    fn blit(&mut self, sprite: &SpriteData, px: i32, py: i32, flip: bool, paint: Paint)
        requires
            old(self).wf(),
            old(self)@.width <= i32::MAX,
            old(self)@.height <= i32::MAX,
            blittable(sprite@, px as int, py as int),
        ensures
            final(self).wf(),
            blitted(old(self)@, final(self)@, sprite@, px as int, py as int, flip, paint),
    {
        proof { self.lemma_wf(); }
        let (src_x0, dst_x0, w) = clip_axis(px, sprite.width, self.width);
        let (src_y0, dst_y0, h) = clip_axis(py, sprite.height, self.height);
        let ghost v0 = self@;
        let ghost s = sprite@;
        let n = sprite.pixels.len();

        let mut row: usize = 0;
        while row < h
            invariant
                self.wf(),
                self@.valid(),
                self@.same_shape(v0),
                v0.valid(),
                s == sprite@,
                s.wf(),
                n == s.pixels.len(),
                row <= h,
                h > 0 ==> src_y0 + h <= sprite.height,
                h > 0 ==> dst_y0 + h <= self.height,
                w > 0 ==> src_x0 + w <= sprite.width,
                w > 0 ==> dst_x0 + w <= self.width,
                w > 0 ==> src_x0 == dst_x0 - px,
                h > 0 ==> src_y0 == dst_y0 - py,
                w == visible_count(px as int, s.width as int, v0.width as int),
                w > 0 ==> dst_x0 == visible_lo(px as int),
                h == visible_count(py as int, s.height as int, v0.height as int),
                h > 0 ==> dst_y0 == visible_lo(py as int),
                forall|a: int, b: int|
                    v0.in_bounds(a, b) ==> #[trigger] self@.at(a, b) == if dst_x0 <= a < dst_x0 + w && dst_y0
                        <= b < dst_y0 + row {
                        blit_at(v0, s, px as int, py as int, flip, paint, a, b)
                    } else {
                        v0.at(a, b)
                    },
            decreases h - row,
        {
            let sy = src_y0 + row;
            let dy = dst_y0 + row;
            let mut col: usize = 0;
            while col < w
                invariant
                    self.wf(),
                    self@.valid(),
                    self@.same_shape(v0),
                    v0.valid(),
                    s == sprite@,
                    s.wf(),
                    n == s.pixels.len(),
                    row < h,
                    col <= w,
                    sy == src_y0 + row,
                    dy == dst_y0 + row,
                    h > 0 ==> src_y0 + h <= sprite.height,
                    h > 0 ==> dst_y0 + h <= self.height,
                    w > 0 ==> src_x0 + w <= sprite.width,
                    w > 0 ==> dst_x0 + w <= self.width,
                    w > 0 ==> src_x0 == dst_x0 - px,
                    h > 0 ==> src_y0 == dst_y0 - py,
                    forall|a: int, b: int|
                        v0.in_bounds(a, b) ==> #[trigger] self@.at(a, b) == if (dst_x0 <= a < dst_x0 + w
                            && dst_y0 <= b < dst_y0 + row) || (b == dy && dst_x0 <= a < dst_x0 + col) {
                            blit_at(v0, s, px as int, py as int, flip, paint, a, b)
                        } else {
                            v0.at(a, b)
                        },
                decreases w - col,
            {
                let sx = src_x0 + col;
                let dx = dst_x0 + col;
                let src_col = if flip { sprite.width - 1 - sx } else { sx };
                proof {
                    lemma_index_in_grid(src_col as int, sy as int, s.width as int, s.height as int);
                }
                let ghost before = self@;
                let p = sprite.pixels[sy * sprite.width + src_col];
                proof {
                    assert(source_pixel(s, px as int, py as int, flip, dx as int, dy as int) == p);
                }
                if let Some(c) = p {
                    let out = paint_color(c, paint);
                    self.set_pixel(dx, dy, out);
                    proof {
                        assert forall|a: int, b: int| v0.in_bounds(a, b) implies #[trigger] self@.at(a, b)
                            == if (dst_x0 <= a < dst_x0 + w && dst_y0 <= b < dst_y0 + row) || (b == dy
                            && dst_x0 <= a < dst_x0 + col + 1) {
                            blit_at(v0, s, px as int, py as int, flip, paint, a, b)
                        } else {
                            v0.at(a, b)
                        } by {
                            lemma_with_at(before, dx as int, dy as int, Some(out), a, b);
                        }
                    }
                }
                col += 1;
            }
            row += 1;
        }
        proof {
            assert forall|a: int, b: int| v0.in_bounds(a, b) implies #[trigger] self@.at(a, b)
                == blit_at(v0, s, px as int, py as int, flip, paint, a, b) by {
                if !(dst_x0 <= a < dst_x0 + w && dst_y0 <= b < dst_y0 + h) {
                    assert(source_pixel(s, px as int, py as int, flip, a, b) is None);
                }
            }
        }
    }
}

/// Paint every pixel of [x0, x1) x [y0, y1) that lies on the framebuffer, row by row.
pub fn paint_rect_safe(fb: &mut FrameBuffer, x0: i32, x1: i32, y0: i32, y1: i32, color: Color)
    requires
        old(fb).wf(),
    ensures
        final(fb).wf(),
        final(fb)@ == paint_where(old(fb)@, in_rect(x0 as int, x1 as int, y0 as int, y1 as int), color),
{
    paint_box(fb, x0 as i64, x1 as i64, y0 as i64, y1 as i64, color);
}

/// Paint [x0, x1) x [y0, y1), clipped to the framebuffer.
pub fn paint_box(fb: &mut FrameBuffer, x0: i64, x1: i64, y0: i64, y1: i64, color: Color)
    requires
        old(fb).wf(),
    ensures
        final(fb).wf(),
        final(fb)@ == paint_where(old(fb)@, in_rect(x0 as int, x1 as int, y0 as int, y1 as int), color),
{
    let ghost v0 = fb@;
    proof { fb.lemma_wf(); }
    let w = fb.width();
    let h = fb.height();
    let xs: usize = if x0 <= 0 { 0 } else if x0 as u64 >= w as u64 { w } else { x0 as usize };
    let xe: usize = if x1 <= 0 { 0 } else if x1 as u64 >= w as u64 { w } else { x1 as usize };
    let ys: usize = if y0 <= 0 { 0 } else if y0 as u64 >= h as u64 { h } else { y0 as usize };
    let ye: usize = if y1 <= 0 { 0 } else if y1 as u64 >= h as u64 { h } else { y1 as usize };
    let mut y = ys;
    while y < ye
        invariant
            fb.wf(),
            fb@.valid(),
            fb@.same_shape(v0),
            v0.valid(),
            w == v0.width,
            h == v0.height,
            ys <= y,
            y <= ye || y == ys,
            ye <= h,
            xe <= w,
            forall|a: int, b: int| v0.in_bounds(a, b) ==> #[trigger] fb@.at(a, b) == if xs <= a < xe && ys <= b < y {
                Some(color)
            } else {
                v0.at(a, b)
            },
        decreases ye - y,
    {
        let mut x = xs;
        while x < xe
            invariant
                fb.wf(),
                fb@.valid(),
                fb@.same_shape(v0),
                v0.valid(),
                w == v0.width,
                h == v0.height,
                ys <= y < ye,
                ye <= h,
                xe <= w,
                xs <= x,
                x <= xe || x == xs,
                forall|a: int, b: int| v0.in_bounds(a, b) ==> #[trigger] fb@.at(a, b) == if (xs <= a < xe && ys <= b < y) || (b == y && xs <= a < x) {
                    Some(color)
                } else {
                    v0.at(a, b)
                },
            decreases xe - x,
        {
            let ghost before = fb@;
            fb.set_pixel(x, y, color);
            proof {
                assert forall|a: int, b: int| v0.in_bounds(a, b) implies #[trigger] fb@.at(a, b) == if (xs <= a < xe && ys <= b < y) || (b == y && xs <= a < x + 1) {
                    Some(color)
                } else {
                    v0.at(a, b)
                } by {
                    lemma_with_at(before, x as int, y as int, Some(color), a, b);
                }
            }
            x += 1;
        }
        y += 1;
    }
    proof {
        assert forall|a: int, b: int| v0.in_bounds(a, b) implies #[trigger] fb@.at(a, b) == if in_rect(x0 as int, x1 as int, y0 as int, y1 as int)(a, b) {
            Some(color)
        } else {
            v0.at(a, b)
        } by {}
        lemma_is_painted(v0, fb@, in_rect(x0 as int, x1 as int, y0 as int, y1 as int), color);
    }
}

fn paint_color(c: Color, paint: Paint) -> (out: Color)
    ensures
        out == paint_spec(c, paint),
{
    match paint {
        Paint::Copy => c,
        Paint::Tint(t) => [tint_channel(c[0], t[0]), tint_channel(c[1], t[1]), tint_channel(c[2], t[2])],
        Paint::Solid(s) => s,
    }
}

fn tint_channel(c: u8, t: u8) -> (out: u8)
    ensures
        out == (c as int * t as int / 255) as u8,
{
    assert(c as int * t as int <= 255 * 255) by (nonlinear_arith)
        requires c <= 255, t <= 255;
    let prod: u16 = c as u16 * t as u16;
    (prod / 255) as u8
}

/// First visible position on an axis for an object starting at `pos`.
pub open spec fn visible_lo(pos: int) -> int {
    if pos < 0 { 0 } else { pos }
}

/// End (exclusive) of the visible range on an axis.
pub open spec fn visible_hi(pos: int, size: int, fb: int) -> int {
    if pos + size < fb { pos + size } else { fb }
}

/// Number of visible positions on an axis.
pub open spec fn visible_count(pos: int, size: int, fb: int) -> int {
    if visible_hi(pos, size, fb) > visible_lo(pos) {
        visible_hi(pos, size, fb) - visible_lo(pos)
    } else {
        0
    }
}

/// Calculate clipped source and destination ranges for one axis.
/// Returns (src_start, dst_start, count) — the visible region.
pub fn clip_axis(pos: i32, sprite_size: usize, fb_size: usize) -> (r: (usize, usize, usize))
    requires
        pos > i32::MIN,
        sprite_size <= i32::MAX,
        fb_size <= i32::MAX,
        pos + sprite_size <= i32::MAX,
    ensures
        r.2 > 0 ==> r.1 + r.2 <= fb_size,
        r.2 > 0 ==> r.0 + r.2 <= sprite_size,
        r.2 == visible_count(pos as int, sprite_size as int, fb_size as int),
        r.2 > 0 ==> r.0 == r.1 - pos,
        r.2 > 0 ==> r.1 == visible_lo(pos as int),
{
    let src_start: usize = if pos < 0 { (-pos) as usize } else { 0 };
    let dst_start: usize = if pos > 0 { pos as usize } else { 0 };
    let sum: i32 = pos + sprite_size as i32;
    let fb: i32 = fb_size as i32;
    let end: i32 = if sum < fb { sum } else { fb };
    if end <= 0 {
        return (0, 0, 0);
    }
    let count: usize = if (end as usize) > dst_start { end as usize - dst_start } else { 0 };
    (src_start, dst_start, count)
}

/// A read gives back what a write wrote: after setting (x, y) to `c`, reading (x, y)
/// yields `c` when it lies on the framebuffer; every other position reads as before,
/// and a write off the framebuffer changes nothing.
pub proof fn law_write_then_read(v: FrameView, x: int, y: int, c: Color, a: int, b: int)
    requires
        v.valid(),
    ensures
        v.in_bounds(x, y) ==> v.with(x, y, Some(c)).at(x, y) == Some(c),
        (a != x || b != y) ==> v.with(x, y, Some(c)).at(a, b) == v.at(a, b),
        !v.in_bounds(x, y) ==> v.with(x, y, Some(c)) == v,
{
    lemma_with_at(v, x, y, Some(c), x, y);
    lemma_with_at(v, x, y, Some(c), a, b);
}

/// A cleared framebuffer reads as background everywhere.
pub proof fn law_blank_reads_none(width: nat, height: nat, background: Color, x: int, y: int)
    ensures
        FrameView::blank(width, height, background).at(x, y) is None,
{
    let v = FrameView::blank(width, height, background);
    if v.in_bounds(x, y) {
        lemma_index_in_grid(x, y, width as int, height as int);
    }
}

/// How a blit paints an opaque sprite pixel `c`: a plain blit copies it, a tinted blit
/// scales each channel by the tint's channel over 255 (so a white tint keeps the colour and
/// a black one gives black), and a solid blit paints the solid colour.
pub proof fn law_paint(c: Color, t: Color)
    ensures
        paint_spec(c, Paint::Copy) == c,
        paint_spec(c, Paint::Solid(t)) == t,
        paint_spec(c, Paint::Tint(t))[0] == c[0] as int * t[0] as int / 255,
        paint_spec(c, Paint::Tint(t))[1] == c[1] as int * t[1] as int / 255,
        paint_spec(c, Paint::Tint(t))[2] == c[2] as int * t[2] as int / 255,
        paint_spec(c, Paint::Tint([255u8, 255u8, 255u8])) == c,
        paint_spec(c, Paint::Tint([0u8, 0u8, 0u8])) == [0u8, 0u8, 0u8],
        forall|i: int| 0 <= i < 3 ==> #[trigger] paint_spec(c, Paint::Tint(t))[i] <= c[i] && paint_spec(c, Paint::Tint(t))[i] <= t[i],
{
    assert forall|i: int| 0 <= i < 3 implies #[trigger] paint_spec(c, Paint::Tint(t))[i] <= c[i] && paint_spec(c, Paint::Tint(t))[i] <= t[i] by {
        let a = c[i] as int;
        let b = t[i] as int;
        assert(a * b / 255 <= a) by (nonlinear_arith)
            requires 0 <= a <= 255, 0 <= b <= 255;
        assert(a * b / 255 <= b) by (nonlinear_arith)
            requires 0 <= a <= 255, 0 <= b <= 255;
        assert(0 <= a * b / 255) by (nonlinear_arith)
            requires 0 <= a <= 255, 0 <= b <= 255;
    }
    let a0 = c[0] as int; let a1 = c[1] as int; let a2 = c[2] as int;
    let b0 = t[0] as int; let b1 = t[1] as int; let b2 = t[2] as int;
    assert(0 <= a0 * b0 / 255 <= 255 && 0 <= a1 * b1 / 255 <= 255 && 0 <= a2 * b2 / 255 <= 255) by (nonlinear_arith)
        requires 0 <= a0 <= 255, 0 <= b0 <= 255, 0 <= a1 <= 255, 0 <= b1 <= 255, 0 <= a2 <= 255, 0 <= b2 <= 255;
    assert(a0 * 255 / 255 == a0 && a1 * 255 / 255 == a1 && a2 * 255 / 255 == a2) by (nonlinear_arith)
        requires 0 <= a0 <= 255, 0 <= a1 <= 255, 0 <= a2 <= 255;
    assert(a0 * 0 / 255 == 0 && a1 * 0 / 255 == 0 && a2 * 0 / 255 == 0) by (nonlinear_arith);
    assert(paint_spec(c, Paint::Tint([255u8, 255u8, 255u8])) =~= c);
    assert(paint_spec(c, Paint::Tint([0u8, 0u8, 0u8])) =~= [0u8, 0u8, 0u8]);
}

/// What a blit leaves at (x, y): inside the sprite's rectangle, an opaque sprite pixel
/// painted with the blit's paint (taken from the mirrored column when flipped); the old
/// content where the sprite is transparent or absent.
pub proof fn law_blit_cell(old: FrameView, sprite: SpriteView, px: int, py: int, flip: bool, paint: Paint, x: int, y: int)
    ensures
        ({
            let sx = x - px;
            let sy = y - py;
            let inside = 0 <= sx < sprite.width && 0 <= sy < sprite.height;
            let src = if flip { sprite.pixel(sprite.width - 1 - sx, sy) } else { sprite.pixel(sx, sy) };
            &&& !inside ==> blit_at(old, sprite, px, py, flip, paint, x, y) == old.at(x, y)
            &&& inside && src is None ==> blit_at(old, sprite, px, py, flip, paint, x, y) == old.at(x, y)
            &&& inside && src is Some ==> blit_at(old, sprite, px, py, flip, paint, x, y) == Some(paint_spec(src->Some_0, paint))
        }),
{
}

} // verus!

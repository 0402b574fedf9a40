use vstd::prelude::*;
use crate::engine::color::Color;
use crate::engine::framebuffer::{FrameBuffer, FrameView, paint_where, lemma_is_painted, lemma_with_at, lemma_paint_twice};
use vstd::string::{StrSliceExecFns, StringSliceAdditionalSpecFns};

verus! {

/// A 3x5 glyph: 15 flags, row-major.
pub type Glyph = [bool; 15];

/// 3x5 pixel font data for digits 0-9.
pub open spec fn digit_font_spec(d: int) -> Glyph {
    if d == 0 {
        [true, true, true, true, false, true, true, false, true, true, false, true, true, true, true]
    } else if d == 1 {
        [false, true, false, true, true, false, false, true, false, false, true, false, true, true, true]
    } else if d == 2 {
        [true, true, true, false, false, true, true, true, true, true, false, false, true, true, true]
    } else if d == 3 {
        [true, true, true, false, false, true, true, true, true, false, false, true, true, true, true]
    } else if d == 4 {
        [true, false, true, true, false, true, true, true, true, false, false, true, false, false, true]
    } else if d == 5 {
        [true, true, true, true, false, false, true, true, true, false, false, true, true, true, true]
    } else if d == 6 {
        [true, true, true, true, false, false, true, true, true, true, false, true, true, true, true]
    } else if d == 7 {
        [true, true, true, false, false, true, false, true, false, false, true, false, false, true, false]
    } else if d == 8 {
        [true, true, true, true, false, true, true, true, true, true, false, true, true, true, true]
    } else {
        [true, true, true, true, false, true, true, true, true, false, false, true, true, true, true]
    }
}

/// The glyph of a digit 0-9.
pub fn digit_font(d: u8) -> (g: Glyph)
    requires
        d <= 9,
    ensures
        g == digit_font_spec(d as int),
{
    match d {
        0 => [true, true, true, true, false, true, true, false, true, true, false, true, true, true, true],
        1 => [false, true, false, true, true, false, false, true, false, false, true, false, true, true, true],
        2 => [true, true, true, false, false, true, true, true, true, true, false, false, true, true, true],
        3 => [true, true, true, false, false, true, true, true, true, false, false, true, true, true, true],
        4 => [true, false, true, true, false, true, true, true, true, false, false, true, false, false, true],
        5 => [true, true, true, true, false, false, true, true, true, false, false, true, true, true, true],
        6 => [true, true, true, true, false, false, true, true, true, true, false, true, true, true, true],
        7 => [true, true, true, false, false, true, false, true, false, false, true, false, false, true, false],
        8 => [true, true, true, true, false, true, true, true, true, true, false, true, true, true, true],
        _ => [true, true, true, true, false, true, true, true, true, false, false, true, true, true, true],
    }
}

/// 3x5 pixel letter fonts for text rendering; None for letters without a glyph.
pub open spec fn letter_font_spec(c: char) -> Option<Glyph> {
    if c == 'A' {
        Some([false, true, false, true, false, true, true, true, true, true, false, true, true, false, true])
    } else if c == 'C' {
        Some([false, true, true, true, false, false, true, false, false, true, false, false, false, true, true])
    } else if c == 'D' {
        Some([true, true, false, true, false, true, true, false, true, true, false, true, true, true, false])
    } else if c == 'E' {
        Some([true, true, true, true, false, false, true, true, false, true, false, false, true, true, true])
    } else if c == 'I' {
        Some([true, true, true, false, true, false, false, true, false, false, true, false, true, true, true])
    } else if c == 'K' {
        Some([true, false, true, true, false, true, true, true, false, true, false, true, true, false, true])
    } else if c == 'O' {
        Some([false, true, false, true, false, true, true, false, true, true, false, true, false, true, false])
    } else if c == 'P' {
        Some([true, true, false, true, false, true, true, true, false, true, false, false, true, false, false])
    } else if c == 'R' {
        Some([true, true, false, true, false, true, true, true, false, true, false, true, true, false, true])
    } else if c == 'S' {
        Some([false, true, true, true, false, false, false, true, false, false, false, true, true, true, false])
    } else if c == 'T' {
        Some([true, true, true, false, true, false, false, true, false, false, true, false, false, true, false])
    } else if c == 'U' {
        Some([true, false, true, true, false, true, true, false, true, true, false, true, false, true, false])
    } else if c == 'Y' {
        Some([true, false, true, true, false, true, false, true, false, false, true, false, false, true, false])
    } else {
        None
    }
}

pub open spec fn char_font_spec(c: char) -> Option<Glyph> {
    if '0' <= c <= '9' {
        Some(digit_font_spec(c as int - '0' as int))
    } else {
        letter_font_spec(c)
    }
}

/// The glyph used to draw `c`, if the font has one.
pub fn char_font(c: char) -> (g: Option<Glyph>)
    ensures
        g == char_font_spec(c),
{
    if '0' <= c && c <= '9' {
        return Some(digit_font((c as u32 - '0' as u32) as u8));
    }
    if c == 'A' {
        return Some([false, true, false, true, false, true, true, true, true, true, false, true, true, false, true]);
    }
    if c == 'C' {
        return Some([false, true, true, true, false, false, true, false, false, true, false, false, false, true, true]);
    }
    if c == 'D' {
        return Some([true, true, false, true, false, true, true, false, true, true, false, true, true, true, false]);
    }
    if c == 'E' {
        return Some([true, true, true, true, false, false, true, true, false, true, false, false, true, true, true]);
    }
    if c == 'I' {
        return Some([true, true, true, false, true, false, false, true, false, false, true, false, true, true, true]);
    }
    if c == 'K' {
        return Some([true, false, true, true, false, true, true, true, false, true, false, true, true, false, true]);
    }
    if c == 'O' {
        return Some([false, true, false, true, false, true, true, false, true, true, false, true, false, true, false]);
    }
    if c == 'P' {
        return Some([true, true, false, true, false, true, true, true, false, true, false, false, true, false, false]);
    }
    if c == 'R' {
        return Some([true, true, false, true, false, true, true, true, false, true, false, true, true, false, true]);
    }
    if c == 'S' {
        return Some([false, true, true, true, false, false, false, true, false, false, false, true, true, true, false]);
    }
    if c == 'T' {
        return Some([true, true, true, false, true, false, false, true, false, false, true, false, false, true, false]);
    }
    if c == 'U' {
        return Some([true, false, true, true, false, true, true, false, true, true, false, true, false, true, false]);
    }
    if c == 'Y' {
        return Some([true, false, true, true, false, true, false, true, false, false, true, false, false, true, false]);
    }
    None
}

/// Glyph `g` drawn with its top-left corner at (px, py) covers (x, y).
pub open spec fn glyph_at(g: Glyph, px: int, py: int, x: int, y: int) -> bool {
    0 <= x - px < 3 && 0 <= y - py < 5 && g[(y - py) * 3 + (x - px)]
}

/// Paint the set cells of glyph `g` at (px, py), row by row; off-screen cells are skipped.
pub fn paint_glyph(fb: &mut FrameBuffer, g: &Glyph, px: i32, py: i32, color: Color)
    requires
        old(fb).wf(),
        px + 2 <= i32::MAX,
        py + 4 <= i32::MAX,
    ensures
        final(fb).wf(),
        final(fb)@ == paint_where(old(fb)@, |x: int, y: int| glyph_at(*g, px as int, py as int, x, y), color),
{
    let ghost v0 = fb@;
    let ghost p = |x: int, y: int| glyph_at(*g, px as int, py as int, x, y);
    proof { fb.lemma_wf(); }
    let mut row: usize = 0;
    while row < 5
        invariant
            fb.wf(),
            fb@.valid(),
            fb@.same_shape(v0),
            v0.valid(),
            row <= 5,
            px + 2 <= i32::MAX,
            py + 4 <= i32::MAX,
            forall|a: int, b: int| v0.in_bounds(a, b) ==> #[trigger] fb@.at(a, b) == if glyph_at(*g, px as int, py as int, a, b) && b - py < row {
                Some(color)
            } else {
                v0.at(a, b)
            },
        decreases 5 - row,
    {
        let mut col: usize = 0;
        while col < 3
            invariant
                fb.wf(),
                fb@.valid(),
                fb@.same_shape(v0),
                v0.valid(),
                row < 5,
                col <= 3,
                px + 2 <= i32::MAX,
                py + 4 <= i32::MAX,
                forall|a: int, b: int| v0.in_bounds(a, b) ==> #[trigger] fb@.at(a, b) == if glyph_at(*g, px as int, py as int, a, b) && (b - py < row || (b - py == row && a - px < col)) {
                    Some(color)
                } else {
                    v0.at(a, b)
                },
            decreases 3 - col,
        {
            if g[row * 3 + col] {
                let ghost before = fb@;
                fb.set_pixel_safe(px + col as i32, py + row as i32, color);
                proof {
                    fb.lemma_wf();
                    assert forall|a: int, b: int| v0.in_bounds(a, b) implies #[trigger] fb@.at(a, b) == if glyph_at(*g, px as int, py as int, a, b) && (b - py < row || (b - py == row && a - px < col + 1)) {
                        Some(color)
                    } else {
                        v0.at(a, b)
                    } by {
                        lemma_with_at(before, px + col, py + row, Some(color), a, b);
                        if a == px + col && b == py + row {
                            assert((b - py) * 3 + (a - px) == row * 3 + col);
                        }
                    }
                }
            } else {
                proof {
                    assert forall|a: int, b: int| v0.in_bounds(a, b) implies #[trigger] fb@.at(a, b) == if glyph_at(*g, px as int, py as int, a, b) && (b - py < row || (b - py == row && a - px < col + 1)) {
                        Some(color)
                    } else {
                        v0.at(a, b)
                    } by {
                        if b - py == row && a - px == col {
                            assert((b - py) * 3 + (a - px) == row * 3 + col);
                        }
                    }
                }
            }
            col += 1;
        }
        row += 1;
    }
    proof {
        assert forall|a: int, b: int| v0.in_bounds(a, b) implies #[trigger] fb@.at(a, b) == if p(a, b) { Some(color) } else { v0.at(a, b) } by {}
        lemma_is_painted(v0, fb@, p, color);
    }
}

/// Render a single digit at screen coordinates (sx, sy) with the given color.
/// Digits above 9 draw nothing.
pub fn render_digit(fb: &mut FrameBuffer, digit: u8, sx: i32, sy: i32, color: Color)
    requires
        old(fb).wf(),
        sx + 2 <= i32::MAX,
        sy + 4 <= i32::MAX,
    ensures
        final(fb).wf(),
        digit > 9 ==> final(fb)@ == old(fb)@,
        digit <= 9 ==> final(fb)@ == paint_where(old(fb)@, |x: int, y: int| glyph_at(digit_font_spec(digit as int), sx as int, sy as int, x, y), color),
{
    if digit > 9 {
        return;
    }
    let font = digit_font(digit);
    paint_glyph(fb, &font, sx, sy, color);
}

/// Characters before position `k` that move the pen (spaces and characters with a glyph).
pub open spec fn pen_x(chars: Seq<char>, sx: int, k: int) -> int
    decreases k,
{
    if k <= 0 {
        sx
    } else {
        pen_x(chars, sx, k - 1) + if chars[k - 1] == ' ' || char_font_spec(chars[k - 1]) is Some { 4int } else { 0int }
    }
}

/// Drawing the first `k` characters of `chars` at (sx, sy) covers (x, y).
pub open spec fn text_covers(chars: Seq<char>, sx: int, sy: int, k: int, x: int, y: int) -> bool
    decreases k,
{
    if k <= 0 {
        false
    } else {
        text_covers(chars, sx, sy, k - 1, x, y) || (chars[k - 1] != ' ' && match char_font_spec(chars[k - 1]) {
            Some(g) => glyph_at(g, pen_x(chars, sx, k - 1), sy, x, y),
            None => false,
        })
    }
}

proof fn lemma_pen_bound(chars: Seq<char>, sx: int, k: int)
    requires
        0 <= k,
    ensures
        sx <= pen_x(chars, sx, k) <= sx + 4 * k,
    decreases k,
{
    if k > 0 {
        lemma_pen_bound(chars, sx, k - 1);
    }
}

/// Render a text string at screen coordinates using the 3x5 pixel font.
/// Spaces and drawn characters advance the pen 4 pixels; characters without a glyph are skipped.
pub fn render_text(fb: &mut FrameBuffer, text: &str, sx: i32, sy: i32, color: Color)
    requires
        old(fb).wf(),
        sx + 4 * text@.len() + 2 <= i32::MAX,
        sy + 4 <= i32::MAX,
    ensures
        final(fb).wf(),
        final(fb)@ == paint_where(old(fb)@, |x: int, y: int| text_covers(text@, sx as int, sy as int, text@.len() as int, x, y), color),
{
    let ghost v0 = fb@;
    let ghost chars = text@;
    let n = text.unicode_len();
    let mut x = sx;
    let mut i: usize = 0;
    proof {
        fb.lemma_wf();
        assert(fb@ =~= paint_where(v0, |a: int, b: int| text_covers(chars, sx as int, sy as int, 0, a, b), color)) by {
            assert forall|a: int, b: int| v0.in_bounds(a, b) implies #[trigger] fb@.at(a, b) == if text_covers(chars, sx as int, sy as int, 0, a, b) { Some(color) } else { v0.at(a, b) } by {}
            lemma_is_painted(v0, fb@, |a: int, b: int| text_covers(chars, sx as int, sy as int, 0, a, b), color);
        }
    }
    while i < n
        invariant
            fb.wf(),
            v0.valid(),
            chars == text@,
            n == chars.len(),
            i <= n,
            sx + 4 * chars.len() + 2 <= i32::MAX,
            sy + 4 <= i32::MAX,
            x == pen_x(chars, sx as int, i as int),
            fb@ == paint_where(v0, |a: int, b: int| text_covers(chars, sx as int, sy as int, i as int, a, b), color),
        decreases n - i,
    {
        proof {
            lemma_pen_bound(chars, sx as int, i as int);
        }
        let c = text.get_char(i);
        let ghost before = fb@;
        let ghost pk = |a: int, b: int| text_covers(chars, sx as int, sy as int, i as int, a, b);
        if c == ' ' {
            x += 4;
            proof {
                assert((|a: int, b: int| text_covers(chars, sx as int, sy as int, i as int + 1, a, b)) =~= pk);
            }
        } else {
            match char_font(c) {
                Some(font) => {
                    paint_glyph(fb, &font, x, sy, color);
                    x += 4;
                    proof {
                        let q = |a: int, b: int| glyph_at(font, pen_x(chars, sx as int, i as int), sy as int, a, b);
                        lemma_paint_twice(v0, pk, q, color);
                        assert((|a: int, b: int| pk(a, b) || q(a, b)) =~= (|a: int, b: int| text_covers(chars, sx as int, sy as int, i as int + 1, a, b)));
                    }
                },
                None => {
                    proof {
                        assert((|a: int, b: int| text_covers(chars, sx as int, sy as int, i as int + 1, a, b)) =~= pk);
                    }
                },
            }
        }
        i += 1;
    }
}

/// Returns the width in pixels of a rendered text string: 4 pixels per byte, less the final gap.
pub fn text_width(text: &str) -> (w: i32)
    requires
        4 * text.spec_bytes().len() <= i32::MAX,
    ensures
        w == if text.spec_bytes().len() == 0 { 0 } else { 4 * text.spec_bytes().len() - 1 },
{
    let chars = text.len() as i32;
    if chars == 0 { 0 } else { chars * 4 - 1 }
}

} // verus!

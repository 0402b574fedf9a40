use vstd::prelude::*;
use crate::engine::color::Color;
use crate::engine::framebuffer::{FrameBuffer, FrameView};

verus! {

/// `String::with_capacity`: a new, empty string (with room for at least `capacity` bytes).
#[verifier::external_body]
fn string_with_capacity(capacity: usize) -> (s: String)
    ensures
        s@ == Seq::<char>::empty(),
{
    String::with_capacity(capacity)
}

/// `String::clear`: the string becomes empty (its capacity is kept).
#[verifier::external_body]
fn string_clear(s: &mut String)
    ensures
        final(s)@ == Seq::<char>::empty(),
{
    s.clear()
}

/// The decimal digit `d` as text.
pub open spec fn digit_text(d: int) -> Seq<char> {
    if d == 0 {
        "0"@
    } else if d == 1 {
        "1"@
    } else if d == 2 {
        "2"@
    } else if d == 3 {
        "3"@
    } else if d == 4 {
        "4"@
    } else if d == 5 {
        "5"@
    } else if d == 6 {
        "6"@
    } else if d == 7 {
        "7"@
    } else if d == 8 {
        "8"@
    } else {
        "9"@
    }
}

pub(crate) fn digit_str(d: u8) -> (s: &'static str)
    requires
        d < 10,
    ensures
        s@ == digit_text(d as int),
{
    if d == 0 {
        "0"
    } else if d == 1 {
        "1"
    } else if d == 2 {
        "2"
    } else if d == 3 {
        "3"
    } else if d == 4 {
        "4"
    } else if d == 5 {
        "5"
    } else if d == 6 {
        "6"
    } else if d == 7 {
        "7"
    } else if d == 8 {
        "8"
    } else {
        "9"
    }
}

/// A byte written in decimal, without leading zeros.
pub open spec fn decimal_text(v: u8) -> Seq<char> {
    let n = v as int;
    let h = if n >= 100 { digit_text(n / 100) } else { Seq::empty() };
    let t = if n >= 10 { digit_text((n / 10) % 10) } else { Seq::empty() };
    h + t + digit_text(n % 10)
}

fn push_decimal(buf: &mut String, v: u8)
    ensures
        final(buf)@ == old(buf)@ + decimal_text(v),
{
    if v >= 100 {
        buf.append(digit_str(v / 100));
    }
    if v >= 10 {
        buf.append(digit_str((v / 10) % 10));
    }
    buf.append(digit_str(v % 10));
    assert(buf@ =~= old(buf)@ + decimal_text(v));
}

/// A 24-bit color escape: `prefix`, then the channels in decimal separated by ';', then 'm'.
pub open spec fn color_text(prefix: Seq<char>, c: Color) -> Seq<char> {
    prefix + decimal_text(c[0]) + ";"@ + decimal_text(c[1]) + ";"@ + decimal_text(c[2]) + "m"@
}

/// Sets the terminal background color.
pub open spec fn bg_prefix() -> Seq<char> {
    "\x1b[48;2;"@
}

/// Sets the terminal foreground color.
pub open spec fn fg_prefix() -> Seq<char> {
    "\x1b[38;2;"@
}

fn push_color(buf: &mut String, background: bool, c: Color)
    ensures
        final(buf)@ == old(buf)@ + color_text(if background { bg_prefix() } else { fg_prefix() }, c),
{
    if background {
        buf.append("\x1b[48;2;");
    } else {
        buf.append("\x1b[38;2;");
    }
    push_decimal(buf, c[0]);
    buf.append(";");
    push_decimal(buf, c[1]);
    buf.append(";");
    push_decimal(buf, c[2]);
    buf.append("m");
    assert(buf@ =~= old(buf)@ + color_text(if background { bg_prefix() } else { fg_prefix() }, c));
}

/// The output so far and the colors the terminal has been set to.
pub struct EmitState {
    pub text: Seq<char>,
    pub fg: Option<Color>,
    pub bg: Option<Color>,
}

/// The color shown at (x, y): the pixel, or the background where there is none.
pub open spec fn shade(v: FrameView, x: int, y: int) -> Color {
    match v.at(x, y) {
        Some(c) => c,
        None => v.background,
    }
}

/// One terminal cell: a lower half block whose background is the `top` pixel and whose
/// foreground is the `bottom` pixel, each color set only when it changes.
pub open spec fn emit_cell(s: EmitState, top: Color, bottom: Color) -> EmitState {
    let t1 = if s.bg != Some(top) { s.text + color_text(bg_prefix(), top) } else { s.text };
    let t2 = if s.fg != Some(bottom) { t1 + color_text(fg_prefix(), bottom) } else { t1 };
    EmitState { text: t2 + "\u{2584}"@, fg: Some(bottom), bg: Some(top) }
}

/// The output after the first `k` cells, row by row, each row after the first starting
/// on a new line.
pub open spec fn emit_cells(v: FrameView, k: int) -> EmitState
    decreases k,
{
    if k <= 0 {
        EmitState { text: "\x1b[?2026h"@ + "\x1b[H"@, fg: None, bg: None }
    } else {
        let w = v.width as int;
        let prev = emit_cells(v, k - 1);
        let row = (k - 1) / w;
        let col = (k - 1) % w;
        let s = if col == 0 && row > 0 { EmitState { text: prev.text + "\r\n"@, ..prev } } else { prev };
        emit_cell(s, shade(v, col, 2 * row), shade(v, col, 2 * row + 1))
    }
}

/// The terminal output for a framebuffer: a synchronized update that homes the cursor,
/// draws every pair of pixel rows as one text row, and resets the colors.
pub open spec fn frame_text(v: FrameView) -> Seq<char> {
    emit_cells(v, (v.width * (v.height / 2)) as int).text + "\x1b[0m"@ + "\x1b[?2026l"@
}

/// `a` holds exactly the color `c`.
fn is_color(a: Option<Color>, c: Color) -> (b: bool)
    ensures
        b == (a == Some(c)),
{
    match a {
        Some(x) => {
            let same = x[0] == c[0] && x[1] == c[1] && x[2] == c[2];
            if same {
                assert(x =~= c);
            } else {
                assert(x != c);
            }
            same
        },
        None => false,
    }
}

/// Turns a framebuffer into terminal output.
pub struct Renderer {
    buf: String,
}

impl Renderer {
    pub fn new(capacity: usize) -> (r: Self)
        ensures
            r.text() == Seq::<char>::empty(),
    {
        Self { buf: string_with_capacity(capacity) }
    }

    /// The output composed last.
    pub closed spec fn text(&self) -> Seq<char> {
        self.buf@
    }

    /// The output composed last, ready to be written to the terminal.
    pub fn output(&self) -> (s: &str)
        ensures
            s@ == self.text(),
    {
        self.buf.as_str()
    }

    /// Compose the framebuffer's terminal output using half-block characters.
    /// Each terminal row maps to two pixel rows (top = background color, bottom = foreground
    /// color). Returns false, leaving the last output in place, when the framebuffer is empty.
    pub fn compose(&mut self, fb: &FrameBuffer) -> (drawn: bool)
        requires
            fb.wf(),
        ensures
            drawn == (fb@.width > 0 && fb@.height > 0),
            drawn ==> final(self).text() == frame_text(fb@),
            !drawn ==> final(self).text() == old(self).text(),
    {
        let width = fb.width();
        let height = fb.height();
        if width == 0 || height == 0 {
            return false;
        }
        let ghost v = fb@;
        proof { fb.lemma_wf(); }
        let bg = fb.background();
        let term_rows = height / 2;

        string_clear(&mut self.buf);
        self.buf.append("\x1b[?2026h");
        self.buf.append("\x1b[H");
        assert(self.buf@ =~= emit_cells(v, 0).text);

        let mut cur_fg: Option<Color> = None;
        let mut cur_bg: Option<Color> = None;
        let mut row: usize = 0;
        while row < term_rows
            invariant
                fb.wf(),
                v == fb@,
                width == v.width,
                height == v.height,
                width > 0,
                term_rows == height / 2,
                bg == v.background,
                row <= term_rows,
                self.buf@ == emit_cells(v, row * width).text,
                cur_fg == emit_cells(v, row * width).fg,
                cur_bg == emit_cells(v, row * width).bg,
            decreases term_rows - row,
        {
            let mut col: usize = 0;
            while col < width
                invariant
                    fb.wf(),
                    v == fb@,
                    width == v.width,
                    height == v.height,
                    width > 0,
                    term_rows == height / 2,
                    bg == v.background,
                    row < term_rows,
                    col <= width,
                    self.buf@ == emit_cells(v, row * width + col).text,
                    cur_fg == emit_cells(v, row * width + col).fg,
                    cur_bg == emit_cells(v, row * width + col).bg,
                decreases width - col,
            {
                let ghost k = row * width + col;
                proof {
                    vstd::arithmetic::div_mod::lemma_fundamental_div_mod_converse(k as int, width as int, row as int, col as int);
                }
                if col == 0 && row > 0 {
                    self.buf.append("\r\n");
                }
                let top = match fb.get_pixel(col, row * 2) {
                    Some(c) => c,
                    None => bg,
                };
                let bottom = match fb.get_pixel(col, row * 2 + 1) {
                    Some(c) => c,
                    None => bg,
                };
                if !is_color(cur_bg, top) {
                    push_color(&mut self.buf, true, top);
                    cur_bg = Some(top);
                }
                if !is_color(cur_fg, bottom) {
                    push_color(&mut self.buf, false, bottom);
                    cur_fg = Some(bottom);
                }
                self.buf.append("\u{2584}");
                proof {
                    assert(self.buf@ =~= emit_cells(v, k + 1).text);
                }
                col += 1;
            }
            proof {
                assert(row * width + width == (row + 1) * width) by (nonlinear_arith);
            }
            row += 1;
        }
        self.buf.append("\x1b[0m");
        self.buf.append("\x1b[?2026l");
        proof {
            assert(row * width == width * (height / 2)) by (nonlinear_arith)
                requires row == height / 2;
        }
        true
    }
}

} // verus!

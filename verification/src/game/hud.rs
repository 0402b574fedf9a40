use vstd::prelude::*;
use crate::engine::color::Color;
use crate::engine::framebuffer::{FrameBuffer, FrameView, blit_chain, lemma_blitted_view, paint_box, paint_rect_safe, paint_where, in_rect, lemma_paint_twice};
use crate::game::sprites::font::{render_text, text_covers, text_width, render_digit, glyph_at, digit_font_spec};
use vstd::string::{StrSliceExecFns, StringSliceAdditionalSpecFns};
use crate::engine::sprite::SpriteView;
use crate::game::dungeon::room_template::RoomType;
use crate::game::dungeon::floor_gen::{FloorLayout, PlacedRoom};
use crate::game::dungeon::graph::conns_in_range;
use crate::game::sprites::effects::{heart_empty, heart_empty_pixels, heart_full, heart_full_pixels};

verus! {

/// 10 to the power `k`.
pub open spec fn pow10(k: nat) -> int
    decreases k,
{
    if k == 0 {
        1
    } else {
        10 * pow10((k - 1) as nat)
    }
}

/// Number of decimal digits of a positive integer (0 for anything else).
pub open spec fn num_digits(v: int) -> nat
    decreases v,
{
    if v <= 0 {
        0
    } else {
        1 + num_digits(v / 10)
    }
}

/// How many digits `get_digits` yields: one for non-positive values, otherwise the
/// number of decimal digits, capped at five.
pub open spec fn digit_count(value: int) -> nat {
    if value <= 0 {
        1
    } else if num_digits(value) < 5 {
        num_digits(value)
    } else {
        5
    }
}

/// Slot `i` of the digit buffer: the decimal digits of `value` most significant first,
/// keeping the low `digit_count(value)` of them, then zeros.
pub open spec fn digit_slot(value: int, i: int) -> u8 {
    let n = digit_count(value) as int;
    if value <= 0 || i >= n {
        0
    } else {
        ((value / pow10((n - 1 - i) as nat)) % 10) as u8
    }
}

proof fn lemma_pow10_positive(k: nat)
    ensures
        pow10(k) >= 1,
    decreases k,
{
    if k > 0 {
        lemma_pow10_positive((k - 1) as nat);
    }
}

proof fn lemma_div_pow10_step(value: int, k: nat)
    requires
        value >= 0,
    ensures
        value / pow10(k) / 10 == value / pow10(k + 1),
        value / pow10(k) >= 0,
{
    lemma_pow10_positive(k);
    vstd::arithmetic::div_mod::lemma_div_denominator(value, pow10(k), 10);
    assert(pow10(k) * 10 == pow10(k + 1));
    vstd::arithmetic::div_mod::lemma_div_pos_is_pos(value, pow10(k));
}

/// Returns digits of a non-negative integer as a fixed-size array.
/// Returns (array, count) where count is the number of valid digits.
pub fn get_digits(value: i32) -> (r: ([u8; 5], usize))
    ensures
        r.1 == digit_count(value as int),
        forall|i: int| 0 <= i < 5 ==> #[trigger] r.0@[i] == digit_slot(value as int, i),
{
    if value <= 0 {
        let arr = [0u8; 5];
        assert(forall|i: int| 0 <= i < 5 ==> #[trigger] arr@[i] == digit_slot(value as int, i));
        return (arr, 1);
    }
    let mut v: i32 = value;
    let mut count: usize = 0;
    while v > 0 && count < 5
        invariant
            value > 0,
            0 <= v,
            count <= 5,
            v == value as int / pow10(count as nat),
            num_digits(value as int) == count + num_digits(v as int),
        decreases 5 - count,
    {
        proof {
            lemma_div_pow10_step(value as int, count as nat);
        }
        v = v / 10;
        count += 1;
    }
    assert(count == digit_count(value as int));
    let mut buf = [0u8; 5];
    let mut w: i32 = value;
    let mut k: usize = 0;
    while k < count
        invariant
            value > 0,
            1 <= count <= 5,
            count == digit_count(value as int),
            k <= count,
            w == value as int / pow10(k as nat),
            0 <= w,
            forall|i: int| 0 <= i < 5 ==> #[trigger] buf@[i] == if count - k <= i < count {
                digit_slot(value as int, i)
            } else {
                0u8
            },
        decreases count - k,
    {
        proof {
            lemma_div_pow10_step(value as int, k as nat);
        }
        let d = (w % 10) as u8;
        buf[count - 1 - k] = d;
        w = w / 10;
        k += 1;
    }
    (buf, count)
}

/// Minimap color of a room.
pub open spec fn room_color_spec(room_type: RoomType, cleared: bool) -> Color {
    match room_type {
        RoomType::Start => [200, 200, 200],
        RoomType::Combat => if cleared { [140, 140, 140] } else { [100, 100, 100] },
        RoomType::Treasure => [200, 180, 50],
        RoomType::Shop => [50, 180, 50],
        RoomType::Boss => [200, 50, 50],
        RoomType::Exit => [50, 100, 200],
        RoomType::Corridor => if cleared { [90, 90, 90] } else { [70, 70, 70] },
    }
}

/// Return the minimap color for a room type.
pub fn room_color(room_type: RoomType, cleared: bool) -> (c: Color)
    ensures
        c == room_color_spec(room_type, cleared),
{
    match room_type {
        RoomType::Start => [200, 200, 200],
        RoomType::Combat => {
            if cleared {
                [140, 140, 140]
            } else {
                [100, 100, 100]
            }
        },
        RoomType::Treasure => [200, 180, 50],
        RoomType::Shop => [50, 180, 50],
        RoomType::Boss => [200, 50, 50],
        RoomType::Exit => [50, 100, 200],
        RoomType::Corridor => {
            if cleared {
                [90, 90, 90]
            } else {
                [70, 70, 70]
            }
        },
    }
}

pub open spec fn heart_full_view() -> SpriteView {
    SpriteView { width: 5, height: 5, pixels: heart_full_pixels() }
}

pub open spec fn heart_empty_view() -> SpriteView {
    SpriteView { width: 5, height: 5, pixels: heart_empty_pixels() }
}

/// The hearts drawn for `hp` out of `max_hp`: one per point of `max_hp`, 6 pixels apart,
/// full while below `hp`.
pub open spec fn heart_ops(hp: int, max_hp: int, sx: int, sy: int) -> Seq<(SpriteView, int, int)> {
    Seq::new(
        if max_hp > 0 { max_hp as nat } else { 0 },
        |i: int| (if i < hp { heart_full_view() } else { heart_empty_view() }, sx + 6 * i, sy),
    )
}

/// Render health hearts at screen position. Hearts are 5x5 with 1px spacing.
pub fn render_hearts(fb: &mut FrameBuffer, hp: i32, max_hp: i32, sx: i32, sy: i32)
    requires
        old(fb).wf(),
        old(fb)@.width <= i32::MAX,
        old(fb)@.height <= i32::MAX,
        max_hp > 0 ==> {
            &&& 6 * (max_hp - 1) <= i32::MAX
            &&& sx > i32::MIN
            &&& sx + 6 * (max_hp - 1) + 5 <= i32::MAX
            &&& sy > i32::MIN
            &&& sy + 5 <= i32::MAX
        },
    ensures
        final(fb).wf(),
        final(fb)@ == blit_chain(old(fb)@, heart_ops(hp as int, max_hp as int, sx as int, sy as int)),
{
    let n = if max_hp < 0 { 0 } else { max_hp };
    let full = heart_full();
    let empty = heart_empty();
    let ghost v0 = fb@;
    let ghost ops = heart_ops(hp as int, max_hp as int, sx as int, sy as int);
    proof {
        fb.lemma_wf();
        assert(ops.take(0) =~= Seq::<(SpriteView, int, int)>::empty());
    }
    let mut i: i32 = 0;
    while i < n
        invariant
            fb.wf(),
            v0.valid(),
            fb@.same_shape(v0),
            0 <= i <= n,
            n == if max_hp > 0 { max_hp } else { 0 },
            ops == heart_ops(hp as int, max_hp as int, sx as int, sy as int),
            full@ == heart_full_view(),
            empty@ == heart_empty_view(),
            full@.wf(),
            empty@.wf(),
            fb@.width <= i32::MAX,
            fb@.height <= i32::MAX,
            max_hp > 0 ==> {
                &&& 6 * (max_hp - 1) <= i32::MAX
                &&& sx > i32::MIN
                &&& sx + 6 * (max_hp - 1) + 5 <= i32::MAX
                &&& sy > i32::MIN
                &&& sy + 5 <= i32::MAX
            },
            fb@ == blit_chain(v0, ops.take(i as int)),
        decreases n - i,
    {
        let x = sx + i * 6;
        let ghost before = fb@;
        if i < hp {
            fb.blit_sprite(&full, x, sy);
        } else {
            fb.blit_sprite(&empty, x, sy);
        }
        proof {
            let s = if i < hp { heart_full_view() } else { heart_empty_view() };
            fb.lemma_wf();
            crate::engine::framebuffer::lemma_blit_chain_shape(v0, ops.take(i as int));
            lemma_blitted_view(before, fb@, s, x as int, sy as int, false, crate::engine::framebuffer::Paint::Copy);
            assert(ops.take(i + 1).drop_last() =~= ops.take(i as int));
            assert(ops.take(i + 1).last() == (s, x as int, sy as int));
        }
        i += 1;
    }
    proof {
        assert(ops.take(n as int) =~= ops);
    }
}

/// The outline of the box with corners (x0, y0) and (x1, y1), both inclusive.
pub open spec fn box_outline(x0: int, y0: int, x1: int, y1: int) -> spec_fn(int, int) -> bool {
    |x: int, y: int| (x0 <= x <= x1 && (y == y0 || y == y1)) || (y0 <= y <= y1 && (x == x0 || x == x1))
}

/// Draw the outline of a screen-space box whose corners (x0, y0) and (x1, y1) are inclusive.
pub fn draw_aabb_outline(fb: &mut FrameBuffer, x0: i32, y0: i32, x1: i32, y1: i32, color: Color)
    requires
        old(fb).wf(),
    ensures
        final(fb).wf(),
        final(fb)@ == paint_where(old(fb)@, box_outline(x0 as int, y0 as int, x1 as int, y1 as int), color),
{
    let ghost v0 = fb@;
    proof { fb.lemma_wf(); }
    let (ax0, ay0, ax1, ay1) = (x0 as i64, y0 as i64, x1 as i64, y1 as i64);
    paint_box(fb, ax0, ax1 + 1, ay0, ay0 + 1, color);
    paint_box(fb, ax0, ax1 + 1, ay1, ay1 + 1, color);
    paint_box(fb, ax0, ax0 + 1, ay0, ay1 + 1, color);
    paint_box(fb, ax1, ax1 + 1, ay0, ay1 + 1, color);
    proof {
        let top = in_rect(x0 as int, x1 + 1, y0 as int, y0 + 1);
        let bottom = in_rect(x0 as int, x1 + 1, y1 as int, y1 + 1);
        let left = in_rect(x0 as int, x0 + 1, y0 as int, y1 + 1);
        let right = in_rect(x1 as int, x1 + 1, y0 as int, y1 + 1);
        let tb = |x: int, y: int| top(x, y) || bottom(x, y);
        let tbl = |x: int, y: int| tb(x, y) || left(x, y);
        let tblr = |x: int, y: int| tbl(x, y) || right(x, y);
        crate::engine::framebuffer::lemma_paint_where_at(v0, top, color, 0, 0);
        lemma_paint_twice(v0, top, bottom, color);
        crate::engine::framebuffer::lemma_paint_where_at(v0, tb, color, 0, 0);
        lemma_paint_twice(v0, tb, left, color);
        crate::engine::framebuffer::lemma_paint_where_at(v0, tbl, color, 0, 0);
        lemma_paint_twice(v0, tbl, right, color);
        assert(tblr =~= box_outline(x0 as int, y0 as int, x1 as int, y1 as int));
    }
}

/// Integer halving that rounds toward zero.
pub open spec fn half_toward_zero(a: int) -> int {
    if a >= 0 {
        a / 2
    } else {
        -((-a) / 2)
    }
}

/// Pixel width of a text drawn with the 3x5 font, counted by its bytes.
pub open spec fn text_width_spec(text: &str) -> int {
    if text.spec_bytes().len() == 0 {
        0
    } else {
        4 * text.spec_bytes().len() - 1
    }
}

/// Left edge of the boss bar on a screen `fw` pixels wide.
pub open spec fn boss_bar_x(fw: int) -> int {
    half_toward_zero(fw - 40)
}

/// The frame of the boss bar: rows 9 and 13 and columns just outside the bar.
pub open spec fn boss_bar_border(bx: int) -> spec_fn(int, int) -> bool {
    |x: int, y: int| (bx - 1 <= x < bx + 41 && (y == 9 || y == 13)) || (9 <= y < 14 && (x == bx - 1 || x == bx + 40))
}

/// The screen after drawing the boss bar: the name centered in the top rows, a dark
/// 40x3 bar at y = 10 filled with red for `fill` pixels, a bright last fill column, and a
/// frame around the bar.
pub open spec fn boss_bar_view(v: FrameView, name: &str, fill: int) -> FrameView {
    let fw = v.width as int;
    let bx = boss_bar_x(fw);
    let tx = half_toward_zero(fw - text_width_spec(name));
    let v1 = paint_where(v, |x: int, y: int| text_covers(name@, tx, 3, name@.len() as int, x, y), [200, 180, 150]);
    let v2 = paint_where(v1, in_rect(bx, bx + 40, 10, 13), [40, 10, 10]);
    let v3 = paint_where(v2, in_rect(bx, bx + fill, 10, 13), [200, 30, 30]);
    let v4 = if fill > 0 { paint_where(v3, in_rect(bx + fill - 1, bx + fill, 10, 13), [255, 80, 80]) } else { v3 };
    paint_where(v4, boss_bar_border(bx), [100, 50, 50])
}

/// Render a boss health bar centered at the top of the screen, with its red part
/// `fill` pixels wide (the full bar is 40 pixels).
pub fn render_boss_bar(fb: &mut FrameBuffer, name: &str, fill: i32)
    requires
        old(fb).wf(),
        old(fb)@.width <= i32::MAX,
        4 * name.spec_bytes().len() <= i32::MAX,
        half_toward_zero(old(fb)@.width - text_width_spec(name)) + 4 * name@.len() + 2 <= i32::MAX,
        i32::MIN <= boss_bar_x(old(fb)@.width as int) + fill <= i32::MAX,
    ensures
        final(fb).wf(),
        final(fb)@ == boss_bar_view(old(fb)@, name, fill as int),
{
    let ghost v0 = fb@;
    let fw = fb.width() as i32;
    let d = fw - 40;
    let bar_x = if d >= 0 { d / 2 } else { -((-d) / 2) };
    let bar_y: i32 = 10;
    let bar_h: i32 = 3;

    let tw = text_width(name);
    let e = fw - tw;
    let tx = if e >= 0 { e / 2 } else { -((-e) / 2) };
    render_text(fb, name, tx, bar_y - 7, [200, 180, 150]);

    paint_rect_safe(fb, bar_x, bar_x + 40, bar_y, bar_y + bar_h, [40, 10, 10]);
    paint_rect_safe(fb, bar_x, bar_x + fill, bar_y, bar_y + bar_h, [200, 30, 30]);
    if fill > 0 {
        paint_rect_safe(fb, bar_x + fill - 1, bar_x + fill, bar_y, bar_y + bar_h, [255, 80, 80]);
    }
    let ghost v4 = fb@;
    let border: Color = [100, 50, 50];
    paint_rect_safe(fb, bar_x - 1, bar_x + 41, bar_y - 1, bar_y, border);
    paint_rect_safe(fb, bar_x - 1, bar_x + 41, bar_y + bar_h, bar_y + bar_h + 1, border);
    paint_rect_safe(fb, bar_x - 1, bar_x, bar_y - 1, bar_y + bar_h + 1, border);
    paint_rect_safe(fb, bar_x + 40, bar_x + 41, bar_y - 1, bar_y + bar_h + 1, border);
    proof {
        fb.lemma_wf();
        let bx = bar_x as int;
        let top = in_rect(bx - 1, bx + 41, 9, 10);
        let bottom = in_rect(bx - 1, bx + 41, 13, 14);
        let left = in_rect(bx - 1, bx, 9, 14);
        let right = in_rect(bx + 40, bx + 41, 9, 14);
        let tb = |x: int, y: int| top(x, y) || bottom(x, y);
        let tbl = |x: int, y: int| tb(x, y) || left(x, y);
        let tblr = |x: int, y: int| tbl(x, y) || right(x, y);
        crate::engine::framebuffer::lemma_paint_where_at(v4, top, border, 0, 0);
        lemma_paint_twice(v4, top, bottom, border);
        crate::engine::framebuffer::lemma_paint_where_at(v4, tb, border, 0, 0);
        lemma_paint_twice(v4, tb, left, border);
        crate::engine::framebuffer::lemma_paint_where_at(v4, tbl, border, 0, 0);
        lemma_paint_twice(v4, tbl, right, border);
        assert(tblr =~= boss_bar_border(bx));
    }
}

/// Connection `c` joins room `i` to a discovered room.
pub open spec fn touches_discovered(rooms: Seq<PlacedRoom>, c: (usize, usize), i: int) -> bool {
    (c.0 == i && rooms[c.1 as int].discovered) || (c.1 == i && rooms[c.0 as int].discovered)
}

/// One of the first `k` connections joins room `i` to a discovered room.
pub open spec fn neighbor_discovered(rooms: Seq<PlacedRoom>, conns: Seq<(usize, usize)>, i: int, k: int) -> bool {
    exists|j: int| 0 <= j < k && #[trigger] touches_discovered(rooms, conns[j], i)
}

/// Room `i` appears on the minimap: it is discovered or next to a discovered room.
pub open spec fn room_shown(rooms: Seq<PlacedRoom>, conns: Seq<(usize, usize)>, i: int) -> bool {
    rooms[i].discovered || neighbor_discovered(rooms, conns, i, conns.len() as int)
}

/// Room `i` appears only as a dim outline: undiscovered, but next to a discovered room.
pub open spec fn room_dim(rooms: Seq<PlacedRoom>, conns: Seq<(usize, usize)>, i: int) -> bool {
    !rooms[i].discovered && neighbor_discovered(rooms, conns, i, conns.len() as int)
}

/// A box of grid cells; empty when `min_x > max_x`.
pub struct GridBox {
    pub min_x: int,
    pub max_x: int,
    pub min_y: int,
    pub max_y: int,
}

pub open spec fn min_i(a: int, b: int) -> int {
    if a <= b { a } else { b }
}

pub open spec fn max_i(a: int, b: int) -> int {
    if a >= b { a } else { b }
}

/// The bounding box of the shown rooms among the first `k`.
pub open spec fn shown_box(rooms: Seq<PlacedRoom>, conns: Seq<(usize, usize)>, k: int) -> GridBox
    decreases k,
{
    if k <= 0 {
        GridBox { min_x: i32::MAX as int, max_x: i32::MIN as int, min_y: i32::MAX as int, max_y: i32::MIN as int }
    } else {
        let b = shown_box(rooms, conns, k - 1);
        if room_shown(rooms, conns, k - 1) {
            let r = rooms[k - 1];
            GridBox {
                min_x: min_i(b.min_x, r.grid_x as int),
                max_x: max_i(b.max_x, r.grid_x as int),
                min_y: min_i(b.min_y, r.grid_y as int),
                max_y: max_i(b.max_y, r.grid_y as int),
            }
        } else {
            b
        }
    }
}

/// Minimap pixel width: 6 pixels per grid column.
pub open spec fn map_w(b: GridBox) -> int {
    (b.max_x - b.min_x + 1) * 6
}

/// Minimap pixel height: 4 pixels per grid row.
pub open spec fn map_h(b: GridBox) -> int {
    (b.max_y - b.min_y + 1) * 4
}

/// Left edge of the minimap: flush with the right screen edge, 3 pixels in.
pub open spec fn map_left(fw: int, b: GridBox) -> int {
    fw - map_w(b) - 3
}

/// Top-left pixel of room `i`'s rectangle on the minimap.
pub open spec fn room_px(rooms: Seq<PlacedRoom>, i: int, b: GridBox, fw: int) -> (int, int) {
    (map_left(fw, b) + (rooms[i].grid_x - b.min_x) * 6, 3 + (rooms[i].grid_y - b.min_y) * 4)
}

/// The minimap fits in signed 32-bit screen coordinates.
pub open spec fn minimap_fits(fw: int, b: GridBox) -> bool {
    b.min_x <= b.max_x ==> {
        &&& map_w(b) <= i32::MAX
        &&& map_left(fw, b) - 1 >= i32::MIN
        &&& map_h(b) + 4 <= i32::MAX
    }
}

/// The screen after drawing connection `c`: a line between the centers of its rooms
/// when both are shown, dimmer if either is only outlined.
pub open spec fn conn_paint(v: FrameView, rooms: Seq<PlacedRoom>, conns: Seq<(usize, usize)>, c: (usize, usize), b: GridBox, fw: int) -> FrameView {
    let a = c.0 as int;
    let d = c.1 as int;
    if room_shown(rooms, conns, a) && room_shown(rooms, conns, d) {
        let ax = room_px(rooms, a, b, fw).0 + 2;
        let ay = room_px(rooms, a, b, fw).1 + 1;
        let bx = room_px(rooms, d, b, fw).0 + 2;
        let by = room_px(rooms, d, b, fw).1 + 1;
        let color: Color = if room_dim(rooms, conns, a) || room_dim(rooms, conns, d) { [30, 30, 35] } else { [60, 60, 70] };
        if ax == bx {
            paint_where(v, in_rect(ax, ax + 1, min_i(ay, by), max_i(ay, by) + 1), color)
        } else {
            paint_where(v, in_rect(min_i(ax, bx), max_i(ax, bx) + 1, ay, ay + 1), color)
        }
    } else {
        v
    }
}

/// The screen after drawing the first `k` connections.
pub open spec fn conn_fold(v: FrameView, rooms: Seq<PlacedRoom>, conns: Seq<(usize, usize)>, k: int, b: GridBox, fw: int) -> FrameView
    decreases k,
{
    if k <= 0 {
        v
    } else {
        conn_paint(conn_fold(v, rooms, conns, k - 1, b, fw), rooms, conns, conns[k - 1], b, fw)
    }
}

/// The screen after drawing room `i`: a dim outline for an undiscovered neighbour, else a
/// 5x3 block in the room's color, framed in white when it is the current room.
pub open spec fn room_paint(v: FrameView, rooms: Seq<PlacedRoom>, conns: Seq<(usize, usize)>, i: int, b: GridBox, fw: int, current: int) -> FrameView {
    let rx = room_px(rooms, i, b, fw).0;
    let ry = room_px(rooms, i, b, fw).1;
    if !room_shown(rooms, conns, i) {
        v
    } else if room_dim(rooms, conns, i) {
        paint_where(v, box_outline(rx, ry, rx + 4, ry + 2), [40, 40, 45])
    } else {
        let filled = paint_where(v, in_rect(rx, rx + 5, ry, ry + 3), room_color_spec(rooms[i].room_type, rooms[i].cleared));
        if i == current {
            paint_where(filled, box_outline(rx - 1, ry - 1, rx + 5, ry + 3), [255, 255, 255])
        } else {
            filled
        }
    }
}

/// The screen after drawing the first `k` rooms.
pub open spec fn room_fold(v: FrameView, rooms: Seq<PlacedRoom>, conns: Seq<(usize, usize)>, k: int, b: GridBox, fw: int, current: int) -> FrameView
    decreases k,
{
    if k <= 0 {
        v
    } else {
        room_paint(room_fold(v, rooms, conns, k - 1, b, fw, current), rooms, conns, k - 1, b, fw, current)
    }
}

/// The screen after drawing the minimap: nothing when no room is shown; otherwise a dark
/// backdrop in the top-right corner, then the connections, then the rooms.
pub open spec fn minimap_view(v: FrameView, rooms: Seq<PlacedRoom>, conns: Seq<(usize, usize)>, current: int) -> FrameView {
    let b = shown_box(rooms, conns, rooms.len() as int);
    let fw = v.width as int;
    if b.min_x > b.max_x {
        v
    } else {
        let left = map_left(fw, b);
        let v1 = paint_where(v, in_rect(left - 1, left + map_w(b) + 1, 2, 3 + map_h(b) + 1), [15, 15, 20]);
        let v2 = conn_fold(v1, rooms, conns, conns.len() as int, b, fw);
        room_fold(v2, rooms, conns, rooms.len() as int, b, fw, current)
    }
}

/// Every shown room lies in the bounding box of the shown rooms.
proof fn lemma_shown_box_bounds(rooms: Seq<PlacedRoom>, conns: Seq<(usize, usize)>, k: int, i: int)
    requires
        0 <= i < k <= rooms.len(),
        room_shown(rooms, conns, i),
    ensures
        shown_box(rooms, conns, k).min_x <= rooms[i].grid_x <= shown_box(rooms, conns, k).max_x,
        shown_box(rooms, conns, k).min_y <= rooms[i].grid_y <= shown_box(rooms, conns, k).max_y,
    decreases k,
{
    if i < k - 1 {
        lemma_shown_box_bounds(rooms, conns, k - 1, i);
    }
}

/// The box is empty in both axes or in neither.
proof fn lemma_shown_box_consistent(rooms: Seq<PlacedRoom>, conns: Seq<(usize, usize)>, k: int)
    ensures
        (shown_box(rooms, conns, k).min_x <= shown_box(rooms, conns, k).max_x) == (shown_box(rooms, conns, k).min_y <= shown_box(rooms, conns, k).max_y),
    decreases k,
{
    if k > 0 {
        lemma_shown_box_consistent(rooms, conns, k - 1);
    }
}


/// Which rooms the minimap shows, and which of those only as dim outlines.
fn minimap_flags(floor: &FloorLayout) -> (r: (Vec<bool>, Vec<bool>))
    requires
        conns_in_range(floor.connections@, floor.rooms@.len() as int),
    ensures
        r.0@.len() == floor.rooms@.len(),
        r.1@.len() == floor.rooms@.len(),
        forall|i: int| 0 <= i < floor.rooms@.len() ==> #[trigger] r.0@[i] == room_shown(floor.rooms@, floor.connections@, i),
        forall|i: int| 0 <= i < floor.rooms@.len() ==> #[trigger] r.1@[i] == room_dim(floor.rooms@, floor.connections@, i),
{
    let ghost rooms = floor.rooms@;
    let ghost conns = floor.connections@;
    let n = floor.rooms.len();
    let m = floor.connections.len();
    let mut vis: Vec<bool> = Vec::new();
    let mut dim: Vec<bool> = Vec::new();
    let mut i: usize = 0;
    while i < n
        invariant
            n == rooms.len(),
            rooms == floor.rooms@,
            i <= n,
            vis@.len() == i,
            dim@.len() == i,
            forall|k: int| 0 <= k < i ==> #[trigger] vis@[k] == rooms[k].discovered,
            forall|k: int| 0 <= k < i ==> !(#[trigger] dim@[k]),
        decreases n - i,
    {
        vis.push(floor.rooms[i].discovered);
        dim.push(false);
        i += 1;
    }
    let mut j: usize = 0;
    while j < m
        invariant
            n == rooms.len(),
            m == conns.len(),
            rooms == floor.rooms@,
            conns == floor.connections@,
            conns_in_range(conns, n as int),
            j <= m,
            vis@.len() == n,
            dim@.len() == n,
            forall|k: int| 0 <= k < n ==> #[trigger] vis@[k] == (rooms[k].discovered || neighbor_discovered(rooms, conns, k, j as int)),
            forall|k: int| 0 <= k < n ==> #[trigger] dim@[k] == (!rooms[k].discovered && neighbor_discovered(rooms, conns, k, j as int)),
        decreases m - j,
    {
        let (a, b) = floor.connections[j];
        let ghost vis0 = vis@;
        let ghost dim0 = dim@;
        if floor.rooms[a].discovered {
            vis.set(b, true);
            if !floor.rooms[b].discovered {
                dim.set(b, true);
            }
        }
        if floor.rooms[b].discovered {
            vis.set(a, true);
            if !floor.rooms[a].discovered {
                dim.set(a, true);
            }
        }
        proof {
            assert forall|k: int| 0 <= k < n implies neighbor_discovered(rooms, conns, k, j + 1) == (neighbor_discovered(rooms, conns, k, j as int) || touches_discovered(rooms, conns[j as int], k)) by {
                if touches_discovered(rooms, conns[j as int], k) {
                    assert(neighbor_discovered(rooms, conns, k, j + 1));
                }
                if neighbor_discovered(rooms, conns, k, j + 1) && !touches_discovered(rooms, conns[j as int], k) {
                    let w = choose|w: int| 0 <= w < j + 1 && #[trigger] touches_discovered(rooms, conns[w], k);
                    assert(w < j);
                }
            }
            assert forall|k: int| 0 <= k < n implies #[trigger] vis@[k] == (rooms[k].discovered || neighbor_discovered(rooms, conns, k, j + 1)) by {
                assert(vis0[k] == (rooms[k].discovered || neighbor_discovered(rooms, conns, k, j as int)));
            }
            assert forall|k: int| 0 <= k < n implies #[trigger] dim@[k] == (!rooms[k].discovered && neighbor_discovered(rooms, conns, k, j + 1)) by {
                assert(dim0[k] == (!rooms[k].discovered && neighbor_discovered(rooms, conns, k, j as int)));
            }
        }
        j += 1;
    }
    (vis, dim)
}

/// The grid bounding box of the rooms flagged in `vis`.
fn shown_bounds(floor: &FloorLayout, vis: &Vec<bool>) -> (r: (i32, i32, i32, i32))
    requires
        vis@.len() == floor.rooms@.len(),
        forall|i: int| 0 <= i < floor.rooms@.len() ==> #[trigger] vis@[i] == room_shown(floor.rooms@, floor.connections@, i),
    ensures
        r.0 == shown_box(floor.rooms@, floor.connections@, floor.rooms@.len() as int).min_x,
        r.1 == shown_box(floor.rooms@, floor.connections@, floor.rooms@.len() as int).max_x,
        r.2 == shown_box(floor.rooms@, floor.connections@, floor.rooms@.len() as int).min_y,
        r.3 == shown_box(floor.rooms@, floor.connections@, floor.rooms@.len() as int).max_y,
{
    let ghost rooms = floor.rooms@;
    let ghost conns = floor.connections@;
    let n = floor.rooms.len();
    let mut min_gx = i32::MAX;
    let mut max_gx = i32::MIN;
    let mut min_gy = i32::MAX;
    let mut max_gy = i32::MIN;
    let mut i: usize = 0;
    while i < n
        invariant
            n == rooms.len(),
            rooms == floor.rooms@,
            conns == floor.connections@,
            i <= n,
            vis@.len() == n,
            forall|k: int| 0 <= k < n ==> #[trigger] vis@[k] == room_shown(rooms, conns, k),
            min_gx == shown_box(rooms, conns, i as int).min_x,
            max_gx == shown_box(rooms, conns, i as int).max_x,
            min_gy == shown_box(rooms, conns, i as int).min_y,
            max_gy == shown_box(rooms, conns, i as int).max_y,
        decreases n - i,
    {
        if vis[i] {
            let r = &floor.rooms[i];
            if r.grid_x < min_gx {
                min_gx = r.grid_x;
            }
            if r.grid_x > max_gx {
                max_gx = r.grid_x;
            }
            if r.grid_y < min_gy {
                min_gy = r.grid_y;
            }
            if r.grid_y > max_gy {
                max_gy = r.grid_y;
            }
        }
        i += 1;
    }
    (min_gx, max_gx, min_gy, max_gy)
}

/// Render the floor minimap in the top-right corner.
///
/// Each room is drawn as a small colored rectangle. Connections are shown as
/// single-pixel lines between room centers. Only discovered rooms are shown;
/// rooms adjacent to discovered rooms show as dim outlines.
pub fn render_minimap(fb: &mut FrameBuffer, floor: &FloorLayout, current_room: usize, visible: bool)
    requires
        old(fb).wf(),
        visible ==> old(fb)@.width <= i32::MAX,
        visible ==> conns_in_range(floor.connections@, floor.rooms@.len() as int),
        visible ==> minimap_fits(old(fb)@.width as int, shown_box(floor.rooms@, floor.connections@, floor.rooms@.len() as int)),
    ensures
        final(fb).wf(),
        final(fb)@ == if visible {
            minimap_view(old(fb)@, floor.rooms@, floor.connections@, current_room as int)
        } else {
            old(fb)@
        },
{
    if !visible {
        return;
    }
    let ghost v0 = fb@;
    let ghost rooms = floor.rooms@;
    let ghost conns = floor.connections@;
    let ghost bx = shown_box(rooms, conns, rooms.len() as int);
    let n = floor.rooms.len();
    let m = floor.connections.len();
    let (vis, dim) = minimap_flags(floor);
    let (min_gx, max_gx, min_gy, max_gy) = shown_bounds(floor, &vis);
    if min_gx > max_gx {
        return;
    }
    let ghost fw = v0.width as int;
    proof {
        fb.lemma_wf();
        lemma_shown_box_consistent(rooms, conns, n as int);
        assert(map_w(bx) >= 6) by (nonlinear_arith)
            requires map_w(bx) == (bx.max_x - bx.min_x + 1) * 6, bx.min_x <= bx.max_x;
        assert(map_h(bx) >= 4) by (nonlinear_arith)
            requires map_h(bx) == (bx.max_y - bx.min_y + 1) * 4, bx.min_y <= bx.max_y;
    }
    let grid_w = max_gx - min_gx + 1;
    let grid_h = max_gy - min_gy + 1;
    let map_pixel_w = grid_w * 6;
    let map_pixel_h = grid_h * 4;
    let base_x = fb.width() as i32 - map_pixel_w - 3;
    let base_y: i32 = 3;

    paint_rect_safe(fb, base_x - 1, base_x + map_pixel_w + 1, base_y - 1, base_y + map_pixel_h + 1, [15, 15, 20]);
    let ghost v1 = fb@;

    let mut j: usize = 0;
    while j < m
        invariant
            fb.wf(),
            fb@.width == fw,
            fw <= i32::MAX,
            n == rooms.len(),
            m == conns.len(),
            rooms == floor.rooms@,
            conns == floor.connections@,
            conns_in_range(conns, n as int),
            vis@.len() == n,
            dim@.len() == n,
            forall|i: int| 0 <= i < n ==> #[trigger] vis@[i] == room_shown(rooms, conns, i),
            forall|i: int| 0 <= i < n ==> #[trigger] dim@[i] == room_dim(rooms, conns, i),
            bx == shown_box(rooms, conns, n as int),
            min_gx == bx.min_x,
            max_gx == bx.max_x,
            min_gy == bx.min_y,
            max_gy == bx.max_y,
            bx.min_x <= bx.max_x,
            minimap_fits(fw, bx),
            map_pixel_w == map_w(bx),
            map_pixel_h == map_h(bx),
            base_x == map_left(fw, bx),
            base_y == 3,
            j <= m,
            fb@ == conn_fold(v1, rooms, conns, j as int, bx, fw),
        decreases m - j,
    {
        let (a, c) = floor.connections[j];
        if vis[a] && vis[c] {
            let ra = &floor.rooms[a];
            let rc = &floor.rooms[c];
            proof {
                lemma_shown_box_bounds(rooms, conns, n as int, a as int);
                lemma_shown_box_bounds(rooms, conns, n as int, c as int);
                lemma_cell_offsets(bx, ra.grid_x as int, ra.grid_y as int);
                lemma_cell_offsets(bx, rc.grid_x as int, rc.grid_y as int);
            }
            let ax = base_x + (ra.grid_x - min_gx) * 6 + 2;
            let ay = base_y + (ra.grid_y - min_gy) * 4 + 1;
            let bx2 = base_x + (rc.grid_x - min_gx) * 6 + 2;
            let by2 = base_y + (rc.grid_y - min_gy) * 4 + 1;
            let conn_color: Color = if dim[a] || dim[c] { [30, 30, 35] } else { [60, 60, 70] };
            if ax == bx2 {
                let y0 = if ay <= by2 { ay } else { by2 };
                let y1 = if ay >= by2 { ay } else { by2 };
                paint_rect_safe(fb, ax, ax + 1, y0, y1 + 1, conn_color);
            } else {
                let x0 = if ax <= bx2 { ax } else { bx2 };
                let x1 = if ax >= bx2 { ax } else { bx2 };
                paint_rect_safe(fb, x0, x1 + 1, ay, ay + 1, conn_color);
            }
        }
        j += 1;
    }
    let ghost v2 = fb@;

    let mut i: usize = 0;
    while i < n
        invariant
            fb.wf(),
            fb@.width == fw,
            fw <= i32::MAX,
            n == rooms.len(),
            rooms == floor.rooms@,
            conns == floor.connections@,
            vis@.len() == n,
            dim@.len() == n,
            forall|k: int| 0 <= k < n ==> #[trigger] vis@[k] == room_shown(rooms, conns, k),
            forall|k: int| 0 <= k < n ==> #[trigger] dim@[k] == room_dim(rooms, conns, k),
            bx == shown_box(rooms, conns, n as int),
            min_gx == bx.min_x,
            max_gx == bx.max_x,
            min_gy == bx.min_y,
            max_gy == bx.max_y,
            bx.min_x <= bx.max_x,
            minimap_fits(fw, bx),
            map_pixel_w == map_w(bx),
            map_pixel_h == map_h(bx),
            base_x == map_left(fw, bx),
            base_y == 3,
            i <= n,
            fb@ == room_fold(v2, rooms, conns, i as int, bx, fw, current_room as int),
        decreases n - i,
    {
        if vis[i] {
            let r = &floor.rooms[i];
            proof {
                lemma_shown_box_bounds(rooms, conns, n as int, i as int);
                lemma_cell_offsets(bx, r.grid_x as int, r.grid_y as int);
            }
            let rx = base_x + (r.grid_x - min_gx) * 6;
            let ry = base_y + (r.grid_y - min_gy) * 4;
            if dim[i] {
                draw_aabb_outline(fb, rx, ry, rx + 4, ry + 2, [40, 40, 45]);
            } else {
                let fill = room_color(r.room_type, r.cleared);
                paint_rect_safe(fb, rx, rx + 5, ry, ry + 3, fill);
                if i == current_room {
                    draw_aabb_outline(fb, rx - 1, ry - 1, rx + 5, ry + 3, [255, 255, 255]);
                }
            }
        }
        i += 1;
    }
}

/// A shown room's cell lies inside the minimap grid.
proof fn lemma_cell_offsets(b: GridBox, gx: int, gy: int)
    requires
        b.min_x <= gx <= b.max_x,
        b.min_y <= gy <= b.max_y,
    ensures
        0 <= (gx - b.min_x) * 6 <= map_w(b) - 6,
        0 <= (gy - b.min_y) * 4 <= map_h(b) - 4,
{
    assert(0 <= (gx - b.min_x) * 6 <= (b.max_x - b.min_x + 1) * 6 - 6) by (nonlinear_arith)
        requires b.min_x <= gx <= b.max_x;
    assert(0 <= (gy - b.min_y) * 4 <= (b.max_y - b.min_y + 1) * 4 - 4) by (nonlinear_arith)
        requires b.min_y <= gy <= b.max_y;
}

/// The screen after drawing the first `k` digits of `value` (as `get_digits` gives them),
/// 4 pixels apart from (sx, sy).
pub open spec fn number_fold(v: FrameView, value: int, sx: int, sy: int, c: Color, k: int) -> FrameView
    decreases k,
{
    if k <= 0 {
        v
    } else {
        let d = digit_slot(value, k - 1);
        paint_where(number_fold(v, value, sx, sy, c, k - 1), |x: int, y: int| glyph_at(digit_font_spec(d as int), sx + 4 * (k - 1), sy, x, y), c)
    }
}

/// Draw `value` in decimal at (sx, sy), as a floating damage number shows it: its digits
/// (at most the last five; a single zero for anything not positive) 4 pixels apart.
pub fn render_number(fb: &mut FrameBuffer, value: i32, sx: i32, sy: i32, color: Color)
    requires
        old(fb).wf(),
        sx + 22 <= i32::MAX,
        sy + 4 <= i32::MAX,
    ensures
        final(fb).wf(),
        final(fb)@ == number_fold(old(fb)@, value as int, sx as int, sy as int, color, digit_count(value as int) as int),
{
    let ghost v = fb@;
    let (digits, count) = get_digits(value);
    let mut i: usize = 0;
    while i < count
        invariant
            fb.wf(),
            count == digit_count(value as int),
            count <= 5,
            i <= count,
            sx + 22 <= i32::MAX,
            sy + 4 <= i32::MAX,
            forall|j: int| 0 <= j < 5 ==> #[trigger] digits@[j] == digit_slot(value as int, j),
            fb@ == number_fold(v, value as int, sx as int, sy as int, color, i as int),
        decreases count - i,
    {
        proof {
            lemma_digit_slot_small(value as int, i as int);
        }
        render_digit(fb, digits[i], sx + 4 * (i as i32), sy, color);
        i += 1;
    }
}

proof fn lemma_digit_slot_small(value: int, i: int)
    ensures
        digit_slot(value, i) <= 9,
{
    let n = digit_count(value) as int;
    if !(value <= 0 || i >= n) {
        let p = pow10((n - 1 - i) as nat);
        lemma_pow10_positive((n - 1 - i) as nat);
        vstd::arithmetic::div_mod::lemma_div_pos_is_pos(value, p);
        vstd::arithmetic::div_mod::lemma_mod_bound(value / p, 10);
    }
}

/// The health bar: one heart per point of maximum health, left to right 6 pixels apart on
/// one row; the first `hp` of them full and the rest empty.
pub proof fn law_hearts(hp: int, max_hp: int, sx: int, sy: int)
    ensures
        heart_ops(hp, max_hp, sx, sy).len() == if max_hp > 0 { max_hp } else { 0 },
        forall|i: int| 0 <= i < heart_ops(hp, max_hp, sx, sy).len() ==> {
            &&& (#[trigger] heart_ops(hp, max_hp, sx, sy)[i]).1 == sx + 6 * i
            &&& heart_ops(hp, max_hp, sx, sy)[i].2 == sy
            &&& heart_ops(hp, max_hp, sx, sy)[i].0 == if i < hp { heart_full_view() } else { heart_empty_view() }
        },
{
}

} // verus!

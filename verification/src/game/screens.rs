use vstd::prelude::*;
use crate::engine::color::Color;
use crate::engine::framebuffer::{FrameBuffer, FrameView, Paint, paint_rect_safe, paint_where, in_rect, blit_view, lemma_blitted_view};
use crate::engine::sprite::SpriteView;
use crate::game::sprites::title::{title_logo, title_logo_pixels};
use crate::engine::renderer::{digit_str, digit_text};
use crate::game::hud::{half_toward_zero, pow10, render_hearts, heart_ops};
use crate::engine::framebuffer::blit_chain;
use crate::game::run_state::RunState;
use crate::game::save::{SaveData, upgrades, current_level_spec, upgrade_cost, upgrade_track, upgrade_tier, upgrade_name, upgrade_description};
use crate::game::controls::{UpgradeShopState, shop_line_colors, shop_name_color, shop_description_color, shop_price_color};
use crate::game::sprites::font::{render_text, text_covers, text_width};
use vstd::string::{StrSliceExecFns, StringSliceAdditionalSpecFns};

verus! {

broadcast use vstd::string::group_string_axioms;

/// A number written in decimal, without leading zeros.
pub open spec fn dec_text(v: nat) -> Seq<char>
    decreases v,
{
    if v < 10 {
        digit_text(v as int)
    } else {
        dec_text(v / 10) + digit_text((v % 10) as int)
    }
}

/// A number below 100 written with two digits.
pub open spec fn two_digit_text(v: nat) -> Seq<char> {
    if v < 10 {
        "0"@ + digit_text(v as int)
    } else {
        dec_text(v)
    }
}

/// The text is made of ASCII characters.
pub open spec fn ascii_text(s: Seq<char>) -> bool {
    forall|i: int| 0 <= i < s.len() ==> '\0' <= #[trigger] s[i] <= '\u{7f}'
}

proof fn lemma_digit_text(d: int)
    ensures
        digit_text(d).len() == 1,
        ascii_text(digit_text(d)),
{
    reveal_strlit("0");
    reveal_strlit("1");
    reveal_strlit("2");
    reveal_strlit("3");
    reveal_strlit("4");
    reveal_strlit("5");
    reveal_strlit("6");
    reveal_strlit("7");
    reveal_strlit("8");
    reveal_strlit("9");
}

proof fn lemma_dec_text(v: nat)
    ensures
        dec_text(v).len() >= 1,
        ascii_text(dec_text(v)),
    decreases v,
{
    if v < 10 {
        lemma_digit_text(v as int);
    } else {
        lemma_dec_text(v / 10);
        lemma_digit_text((v % 10) as int);
        assert(ascii_text(dec_text(v))) by {
            let a = dec_text(v / 10);
            let b = digit_text((v % 10) as int);
            assert(dec_text(v) == a + b);
            assert forall|i: int| 0 <= i < (a + b).len() implies '\0' <= #[trigger] (a + b)[i] <= '\u{7f}' by {
                if i < a.len() {
                    assert((a + b)[i] == a[i]);
                } else {
                    assert((a + b)[i] == b[i - a.len()]);
                }
            }
        }
    }
}

/// A number below 10^k has at most k digits.
proof fn lemma_dec_len(v: nat, k: nat)
    requires
        k >= 1,
        v < pow10(k),
    ensures
        dec_text(v).len() <= k,
    decreases v,
{
    if v >= 10 {
        lemma_digit_text((v % 10) as int);
        assert(k >= 2) by {
            if k == 1 {
                assert(pow10(1) == 10 * pow10(0));
            }
        }
        assert(pow10(k) == 10 * pow10((k - 1) as nat));
        lemma_dec_len(v / 10, (k - 1) as nat);
    } else {
        lemma_digit_text(v as int);
    }
}

/// A 32-bit number has at most ten digits.
pub(crate) proof fn lemma_u32_digits(v: u32)
    ensures
        1 <= dec_text(v as nat).len() <= 10,
        ascii_text(dec_text(v as nat)),
{
    lemma_dec_text(v as nat);
    reveal_with_fuel(pow10, 11);
    assert(pow10(10) == 10_000_000_000);
    lemma_dec_len(v as nat, 10);
}

/// Append `v` in decimal.
fn push_dec(buf: &mut String, v: u32)
    ensures
        final(buf)@ == old(buf)@ + dec_text(v as nat),
    decreases v,
{
    if v >= 10 {
        push_dec(buf, v / 10);
    }
    buf.append(digit_str((v % 10) as u8));
    assert(buf@ =~= old(buf)@ + dec_text(v as nat));
}

/// `prefix` followed by `v` in decimal.
pub(crate) fn labeled_number(prefix: &str, v: u32) -> (s: String)
    ensures
        s@ == prefix@ + dec_text(v as nat),
{
    let mut s = String::from_str(prefix);
    push_dec(&mut s, v);
    s
}

/// The screen after writing `chars` at (x, y) in the 3x5 font.
pub open spec fn text_at(v: FrameView, chars: Seq<char>, x: int, y: int, c: Color) -> FrameView {
    paint_where(v, |a: int, b: int| text_covers(chars, x, y, chars.len() as int, a, b), c)
}

/// Left edge of a text of `n` characters centered on a screen `fw` pixels wide.
pub open spec fn centered_x(fw: int, n: int) -> int {
    half_toward_zero(fw - if n == 0 { 0 } else { 4 * n - 1 })
}

/// Write an ASCII text centered horizontally at height y.
fn draw_centered(fb: &mut FrameBuffer, text: &str, y: i32, color: Color)
    requires
        old(fb).wf(),
        old(fb)@.width <= i32::MAX,
        ascii_text(text@),
        text@.len() <= 1000,
        y + 4 <= i32::MAX,
    ensures
        final(fb).wf(),
        final(fb)@ == text_at(old(fb)@, text@, centered_x(old(fb)@.width as int, text@.len() as int), y as int, color),
{
    proof {
        assert(vstd::string::is_ascii(text));
    }
    let fw = fb.width() as i32;
    let tw = text_width(text);
    let e = fw - tw;
    let x = if e >= 0 { e / 2 } else { -((-e) / 2) };
    render_text(fb, text, x, y, color);
}

/// The lines of the end-of-run summary.
pub open spec fn run_summary_lines(run: RunState, elapsed_secs: u32) -> Seq<Seq<char>> {
    seq![
        "FLOOR: "@ + dec_text(run.floor_reached as nat),
        "KILLS: "@ + dec_text(run.kills as nat),
        "ROOMS: "@ + dec_text(run.rooms_cleared as nat),
        "BOONS: "@ + dec_text(run.boons_collected as nat),
        "GOLD: +"@ + dec_text(run.gold_earned as nat),
        "TIME: "@ + dec_text((elapsed_secs / 60) as nat) + ":"@ + two_digit_text((elapsed_secs % 60) as nat),
    ]
}

/// The screen after writing the first `k` summary lines, 7 pixels apart from `y0`.
pub open spec fn summary_fold(v: FrameView, lines: Seq<Seq<char>>, y0: int, k: int) -> FrameView
    decreases k,
{
    if k <= 0 {
        v
    } else {
        let prev = summary_fold(v, lines, y0, k - 1);
        text_at(prev, lines[k - 1], centered_x(v.width as int, lines[k - 1].len() as int), y0 + 7 * (k - 1), [180, 180, 200])
    }
}

/// The end-of-run screen: a dark background, the outcome a quarter of the way down, the
/// run's statistics below it, and a prompt near the bottom.
pub open spec fn run_end_view(v: FrameView, run: RunState, victory: bool, elapsed_secs: u32) -> FrameView {
    let fw = v.width as int;
    let fh = v.height as int;
    let v0 = paint_where(v, in_rect(0, fw, 0, fh), [5, 5, 8]);
    let header = if victory { "RUN COMPLETE"@ } else { "YOU DIED"@ };
    let color: Color = if victory { [255, 220, 50] } else { [200, 30, 30] };
    let v1 = text_at(v0, header, centered_x(fw, header.len() as int), fh / 4, color);
    let lines = run_summary_lines(run, elapsed_secs);
    let v2 = summary_fold(v1, lines, fh / 4 + 12, 6);
    text_at(v2, "PRESS ATTACK"@, centered_x(fw, 12), fh - 10, [120, 120, 130])
}

pub(crate) proof fn lemma_ascii_concat(a: Seq<char>, b: Seq<char>)
    requires
        ascii_text(a),
        ascii_text(b),
    ensures
        ascii_text(a + b),
{
    assert forall|i: int| 0 <= i < (a + b).len() implies '\0' <= #[trigger] (a + b)[i] <= '\u{7f}' by {
        if i < a.len() {
            assert((a + b)[i] == a[i]);
        } else {
            assert((a + b)[i] == b[i - a.len()]);
        }
    }
}

/// `prefix` followed by `v` in decimal, for an ASCII prefix of at most 10 characters.
fn stat_line(prefix: &str, v: u32) -> (s: String)
    requires
        ascii_text(prefix@),
        prefix@.len() <= 10,
    ensures
        s@ == prefix@ + dec_text(v as nat),
        ascii_text(s@),
        s@.len() <= 20,
{
    proof {
        lemma_u32_digits(v);
        lemma_ascii_concat(prefix@, dec_text(v as nat));
    }
    labeled_number(prefix, v)
}

/// The playing time as minutes and zero-padded seconds.
fn time_line(elapsed_secs: u32) -> (s: String)
    ensures
        s@ == "TIME: "@ + dec_text((elapsed_secs / 60) as nat) + ":"@ + two_digit_text((elapsed_secs % 60) as nat),
        ascii_text(s@),
        s@.len() <= 20,
{
    proof {
        reveal_strlit("TIME: ");
        reveal_strlit(":");
        reveal_strlit("0");
    }
    let mins = elapsed_secs / 60;
    let rem = elapsed_secs % 60;
    let mut s = stat_line("TIME: ", mins);
    s.append(":");
    if rem < 10 {
        s.append("0");
    }
    push_dec(&mut s, rem);
    proof {
        lemma_u32_digits(rem);
        let head = "TIME: "@ + dec_text(mins as nat) + ":"@;
        lemma_u32_digits(mins);
        lemma_ascii_concat("TIME: "@, dec_text(mins as nat));
        lemma_ascii_concat("TIME: "@ + dec_text(mins as nat), ":"@);
        lemma_digit_text(rem as int);
        lemma_ascii_concat("0"@, digit_text(rem as int));
        lemma_ascii_concat(head, two_digit_text(rem as nat));
        if rem < 10 {
            assert(s@ =~= head + ("0"@ + digit_text(rem as int)));
        } else {
            reveal_with_fuel(pow10, 3);
            lemma_dec_len(rem as nat, 2);
            assert(s@ =~= head + dec_text(rem as nat));
        }
    }
    s
}

/// Draw the end-of-run summary: the outcome, the run's statistics and the time played.
pub fn render_run_end(fb: &mut FrameBuffer, run: &RunState, victory: bool, elapsed_secs: u32)
    requires
        old(fb).wf(),
        old(fb)@.width <= i32::MAX,
        old(fb)@.height <= i32::MAX,
    ensures
        final(fb).wf(),
        final(fb)@ == run_end_view(old(fb)@, *run, victory, elapsed_secs),
{
    let ghost v = fb@;
    proof {
        fb.lemma_wf();
        reveal_strlit("RUN COMPLETE");
        reveal_strlit("YOU DIED");
        reveal_strlit("PRESS ATTACK");
        reveal_strlit("FLOOR: ");
        reveal_strlit("KILLS: ");
        reveal_strlit("ROOMS: ");
        reveal_strlit("BOONS: ");
        reveal_strlit("GOLD: +");
    }
    let fw = fb.width() as i32;
    let fh = fb.height() as i32;
    paint_rect_safe(fb, 0, fw, 0, fh, [5, 5, 8]);

    let (header, color): (&str, Color) = if victory {
        ("RUN COMPLETE", [255, 220, 50])
    } else {
        ("YOU DIED", [200, 30, 30])
    };
    draw_centered(fb, header, fh / 4, color);
    let ghost v1 = fb@;
    proof {
        crate::engine::framebuffer::lemma_paint_where_at(v, in_rect(0, fw as int, 0, fh as int), [5, 5, 8], 0, 0);
    }

    let stats_y = fh / 4 + 12;
    let mut lines: Vec<String> = Vec::new();
    lines.push(stat_line("FLOOR: ", run.floor_reached));
    lines.push(stat_line("KILLS: ", run.kills));
    lines.push(stat_line("ROOMS: ", run.rooms_cleared));
    lines.push(stat_line("BOONS: ", run.boons_collected));
    lines.push(stat_line("GOLD: +", run.gold_earned));
    lines.push(time_line(elapsed_secs));
    let ghost spec_lines = run_summary_lines(*run, elapsed_secs);
    assert forall|k: int| 0 <= k < 6 implies (#[trigger] lines@[k])@ == spec_lines[k] && ascii_text(lines@[k]@) && lines@[k]@.len() <= 20 by {}

    let mut i: usize = 0;
    while i < 6
        invariant
            fb.wf(),
            fb@.width == v.width,
            v1.width == v.width,
            v.width <= i32::MAX,
            v.height <= i32::MAX,
            fh == v.height,
            stats_y == fh / 4 + 12,
            lines@.len() == 6,
            forall|k: int| 0 <= k < 6 ==> (#[trigger] lines@[k])@ == spec_lines[k] && ascii_text(lines@[k]@) && lines@[k]@.len() <= 20,
            i <= 6,
            fb@ == summary_fold(v1, spec_lines, stats_y as int, i as int),
        decreases 6 - i,
    {
        draw_centered(fb, lines[i].as_str(), stats_y + i as i32 * 7, [180, 180, 200]);
        i += 1;
    }
    draw_centered(fb, "PRESS ATTACK", fh - 10, [120, 120, 130]);
}

/// Width in pixels of a text of `n` characters in the 3x5 font.
pub open spec fn text_w(n: int) -> int {
    if n == 0 { 0 } else { 4 * n - 1 }
}

/// Left edge of a text of `n` characters that ends 4 pixels short of the right border.
pub open spec fn right_x(fw: int, n: int) -> int {
    fw - text_w(n) - 4
}

/// Write an ASCII text so that it ends 4 pixels short of the right border, at height y.
fn draw_right(fb: &mut FrameBuffer, text: &str, y: i32, color: Color)
    requires
        old(fb).wf(),
        old(fb)@.width <= i32::MAX,
        ascii_text(text@),
        text@.len() <= 1000,
        y + 4 <= i32::MAX,
    ensures
        final(fb).wf(),
        final(fb)@ == text_at(old(fb)@, text@, right_x(old(fb)@.width as int, text@.len() as int), y as int, color),
{
    proof {
        assert(vstd::string::is_ascii(text));
    }
    let fw = fb.width() as i32;
    let tw = text_width(text);
    render_text(fb, text, fw - tw - 4, y, color);
}

/// Shop entry `i` has been bought.
pub open spec fn entry_owned(save: SaveData, i: int) -> bool {
    let d = crate::game::save::UpgradeDef { name: "", description: "", cost: upgrade_cost(i), max_level: 1, track: upgrade_track(i), tier: upgrade_tier(i) };
    current_level_spec(d, save.upgrades) >= 1
}

/// The price tag of shop entry `i`.
pub open spec fn price_text(i: int) -> Seq<char> {
    dec_text(upgrade_cost(i) as nat) + "G"@
}

/// The screen after drawing line `i` of the shop, 7 pixels per line from height 16: a
/// marker on the selected line, the name, the description 4 pixels after the name, and at
/// the right border the price, or "[OWNED]" once bought.
pub open spec fn shop_line_view(v: FrameView, save: SaveData, selected: int, i: int) -> FrameView {
    let fw = v.width as int;
    let y = 16 + 7 * i;
    let owned = entry_owned(save, i);
    let afford = save.total_gold >= upgrade_cost(i);
    let sel = i == selected;
    let name = upgrade_name(i);
    let v1 = if sel { text_at(v, ">"@, 2, y, [255u8, 220, 100]) } else { v };
    let v2 = text_at(v1, name, 8, y, shop_name_color(owned, sel, afford));
    let v3 = text_at(v2, upgrade_description(i), 8 + text_w(name.len() as int) + 4, y, shop_description_color(owned));
    let tag = if owned { "[OWNED]"@ } else { price_text(i) };
    text_at(v3, tag, right_x(fw, tag.len() as int), y, shop_price_color(owned, afford))
}

/// The screen after drawing the first `k` lines of the shop.
pub open spec fn shop_fold(v: FrameView, save: SaveData, selected: int, k: int) -> FrameView
    decreases k,
{
    if k <= 0 {
        v
    } else {
        shop_line_view(shop_fold(v, save, selected, k - 1), save, selected, k - 1)
    }
}

/// The upgrade shop screen: a dark background, the title centered at the top with the gold
/// at the right border beside it, the eight entries, and a hint near the bottom.
pub open spec fn upgrade_shop_view(v: FrameView, save: SaveData, selected: int) -> FrameView {
    let fw = v.width as int;
    let fh = v.height as int;
    let v0 = paint_where(v, in_rect(0, fw, 0, fh), [10, 10, 15]);
    let v1 = text_at(v0, "UPGRADE SHOP"@, centered_x(fw, 12), 4, [255, 220, 100]);
    let gold = "GOLD: "@ + dec_text(save.total_gold as nat);
    let v2 = text_at(v1, gold, right_x(fw, gold.len() as int), 4, [255, 200, 50]);
    let v3 = shop_fold(v2, save, selected, 8);
    text_at(v3, "ESC - BACK"@, centered_x(fw, 10), fh - 6, [80, 80, 90])
}

proof fn lemma_shop_texts(i: int)
    requires
        0 <= i < 8,
    ensures
        ascii_text(upgrade_name(i)),
        1 <= upgrade_name(i).len() <= 20,
        ascii_text(upgrade_description(i)),
        upgrade_description(i).len() <= 20,
{
    reveal_strlit("Vitality I");
    reveal_strlit("Vitality II");
    reveal_strlit("Vitality III");
    reveal_strlit("Strength I");
    reveal_strlit("Strength II");
    reveal_strlit("Twin Dash");
    reveal_strlit("Boon Reroll");
    reveal_strlit("Boon Reroll+");
    reveal_strlit("+1 Max HP");
    reveal_strlit("+1 Damage");
    reveal_strlit("2 dash charges");
    reveal_strlit("+1 reroll per run");
}

/// Draw the upgrade shop: every entry with its price or "[OWNED]", the selected one marked,
/// colored by whether it is owned, selected and affordable.
pub fn render_upgrade_shop(fb: &mut FrameBuffer, save: &SaveData, shop: &UpgradeShopState)
    requires
        old(fb).wf(),
        old(fb)@.width <= i32::MAX,
        old(fb)@.height <= i32::MAX,
    ensures
        final(fb).wf(),
        final(fb)@ == upgrade_shop_view(old(fb)@, *save, shop.selected as int),
{
    let ghost v = fb@;
    proof {
        fb.lemma_wf();
        reveal_strlit("UPGRADE SHOP");
        reveal_strlit("GOLD: ");
        reveal_strlit("ESC - BACK");
        lemma_u32_digits(save.total_gold);
    }
    let fw = fb.width() as i32;
    let fh = fb.height() as i32;
    paint_rect_safe(fb, 0, fw, 0, fh, [10, 10, 15]);
    draw_centered(fb, "UPGRADE SHOP", 4, [255, 220, 100]);
    let gold = stat_line("GOLD: ", save.total_gold);
    draw_right(fb, gold.as_str(), 4, [255, 200, 50]);
    let ghost v2 = fb@;

    let defs = upgrades();
    let mut i: usize = 0;
    while i < 8
        invariant
            fb.wf(),
            fb@.width == v.width,
            v2.width == v.width,
            v.width <= i32::MAX,
            defs@.len() == 8,
            forall|k: int| 0 <= k < 8 ==> (#[trigger] defs@[k]).cost == upgrade_cost(k) && defs@[k].track == upgrade_track(k)
                && defs@[k].tier == upgrade_tier(k) && defs@[k].name@ == upgrade_name(k) && defs@[k].description@ == upgrade_description(k)
                && defs@[k].max_level == 1,
            i <= 8,
            fb@ == shop_fold(v2, *save, shop.selected as int, i as int),
        decreases 8 - i,
    {
        let d = &defs[i];
        proof {
            lemma_shop_texts(i as int);
            reveal_strlit(">");
            reveal_strlit("G");
            reveal_strlit("[OWNED]");
            reveal_strlit("");
            assert(vstd::string::is_ascii(d.name));
            lemma_u32_digits(d.cost);
        }
        let ghost w0 = fb@;
        let y: i32 = 16 + (i as i32) * 7;
        let is_sel = i == shop.selected;
        let owned = d.current_level(&save.upgrades) >= d.max_level;
        let afford = save.can_afford(d.cost);
        let colors = shop_line_colors(owned, is_sel, afford);
        if is_sel {
            render_text(fb, ">", 2, y, [255, 220, 100]);
        }
        render_text(fb, d.name, 8, y, colors.name);
        let dx = 8 + text_width(d.name) + 4;
        render_text(fb, d.description, dx, y, colors.description);
        if owned {
            draw_right(fb, "[OWNED]", y, colors.price);
        } else {
            let mut tag = labeled_number("", d.cost);
            tag.append("G");
            proof {
                lemma_ascii_concat(dec_text(d.cost as nat), "G"@);
                assert(tag@ =~= price_text(i as int));
            }
            draw_right(fb, tag.as_str(), y, colors.price);
        }
        proof {
            assert(owned == entry_owned(*save, i as int));
            assert(fb@ == shop_line_view(w0, *save, shop.selected as int, i as int));
        }
        i += 1;
    }
    draw_centered(fb, "ESC - BACK", fh - 6, [80, 80, 90]);
}

/// The title menu's entries.
pub open spec fn menu_item(i: int) -> Seq<char> {
    if i == 0 { "NEW RUN"@ } else if i == 1 { "UPGRADES"@ } else { "QUIT"@ }
}

/// The screen after drawing title menu entry `i`, 8 pixels per entry from the middle of
/// the screen: highlighted, with a marker before it, when selected.
pub open spec fn menu_entry_view(v: FrameView, i: int, selected: int) -> FrameView {
    let fw = v.width as int;
    let item = menu_item(i);
    let ix = centered_x(fw, item.len() as int);
    let iy = v.height as int / 2 + 2 + 8 * i;
    let sel = i == selected;
    let v1 = if sel { text_at(v, ">"@, ix - 3 - 3, iy, [255, 220, 100]) } else { v };
    text_at(v1, item, ix, iy, if sel { [255u8, 220, 100] } else { [120u8, 120, 140] })
}

/// The title screen drawn over its background: the logo centered a sixth of the way down,
/// the tagline under it, the menu, and at the bottom the gold and the best floor reached.
pub open spec fn title_view(v: FrameView, selected: int, gold: u32, best_floor: u32) -> FrameView {
    let fw = v.width as int;
    let fh = v.height as int;
    let logo_x = half_toward_zero(fw - 58);
    let logo_y = fh / 6;
    let v1 = blit_view(v, SpriteView { width: 58, height: 11, pixels: title_logo_pixels() }, logo_x, logo_y, false, Paint::Copy);
    let v2 = text_at(v1, "A TERMINAL ROGUELIKE"@, centered_x(fw, 20), logo_y + 14, [100, 100, 140]);
    let v3 = menu_entry_view(menu_entry_view(menu_entry_view(v2, 0, selected), 1, selected), 2, selected);
    let g = "GOLD: "@ + dec_text(gold as nat);
    let b = "BEST FLOOR: "@ + dec_text(best_floor as nat);
    let v4 = text_at(v3, g, centered_x(fw, g.len() as int), fh - 14, [255, 200, 50]);
    text_at(v4, b, centered_x(fw, b.len() as int), fh - 8, [140, 140, 160])
}

/// Draw a title menu entry.
fn draw_menu_entry(fb: &mut FrameBuffer, item: &str, i: usize, selected: usize)
    requires
        old(fb).wf(),
        old(fb)@.width <= 100_000,
        old(fb)@.height <= 100_000,
        i < 3,
        item@ == menu_item(i as int),
    ensures
        final(fb).wf(),
        final(fb)@ == menu_entry_view(old(fb)@, i as int, selected as int),
{
    proof {
        reveal_strlit("NEW RUN");
        reveal_strlit("UPGRADES");
        reveal_strlit("QUIT");
        reveal_strlit(">");
        assert(ascii_text(item@));
        assert(vstd::string::is_ascii(item));
    }
    let fw = fb.width() as i32;
    let fh = fb.height() as i32;
    let e = fw - text_width(item);
    let ix = if e >= 0 { e / 2 } else { -((-e) / 2) };
    let iy = fh / 2 + 2 + 8 * (i as i32);
    let sel = i == selected;
    if sel {
        render_text(fb, ">", ix - 3 - 3, iy, [255, 220, 100]);
    }
    render_text(fb, item, ix, iy, if sel { [255, 220, 100] } else { [120, 120, 140] });
}

/// Draw the title screen's logo, tagline, menu and totals.
pub fn render_title_menu(fb: &mut FrameBuffer, selected: usize, gold: u32, best_floor: u32)
    requires
        old(fb).wf(),
        old(fb)@.width <= 100_000,
        old(fb)@.height <= 100_000,
    ensures
        final(fb).wf(),
        final(fb)@ == title_view(old(fb)@, selected as int, gold, best_floor),
{
    proof {
        fb.lemma_wf();
        reveal_strlit("A TERMINAL ROGUELIKE");
        reveal_strlit("GOLD: ");
        reveal_strlit("BEST FLOOR: ");
        lemma_u32_digits(gold);
        lemma_u32_digits(best_floor);
    }
    let fw = fb.width() as i32;
    let fh = fb.height() as i32;
    let e = fw - 58;
    let logo_x = if e >= 0 { e / 2 } else { -((-e) / 2) };
    let logo_y = fh / 6;
    let logo = title_logo();
    let ghost before = fb@;
    fb.blit_sprite(&logo, logo_x, logo_y);
    proof {
        lemma_blitted_view(before, fb@, logo@, logo_x as int, logo_y as int, false, Paint::Copy);
        assert(logo@ == SpriteView { width: 58, height: 11, pixels: title_logo_pixels() });
    }
    draw_centered(fb, "A TERMINAL ROGUELIKE", logo_y + 14, [100, 100, 140]);
    draw_menu_entry(fb, "NEW RUN", 0, selected);
    draw_menu_entry(fb, "UPGRADES", 1, selected);
    draw_menu_entry(fb, "QUIT", 2, selected);
    let g = stat_line("GOLD: ", gold);
    draw_centered(fb, g.as_str(), fh - 14, [255, 200, 50]);
    let b = labeled_number("BEST FLOOR: ", best_floor);
    proof {
        lemma_ascii_concat("BEST FLOOR: "@, dec_text(best_floor as nat));
    }
    draw_centered(fb, b.as_str(), fh - 8, [140, 140, 160]);
}

/// A signed number in decimal, with a minus sign when negative.
pub open spec fn signed_text(v: int) -> Seq<char> {
    if v < 0 { "-"@ + dec_text((-v) as nat) } else { dec_text(v as nat) }
}

/// Append `v` in decimal, with a minus sign when negative.
fn push_signed(buf: &mut String, v: i32)
    ensures
        final(buf)@ == old(buf)@ + signed_text(v as int),
        ascii_text(signed_text(v as int)),
        signed_text(v as int).len() <= 11,
{
    proof {
        reveal_strlit("-");
    }
    let m: u32 = if v < 0 { (-(v as i64)) as u32 } else { v as u32 };
    if v < 0 {
        buf.append("-");
    }
    push_dec(buf, m);
    proof {
        lemma_u32_digits(m);
        lemma_ascii_concat("-"@, dec_text(m as nat));
        assert(m as int == if v < 0 { -(v as int) } else { v as int });
        if v < 0 {
            assert(buf@ =~= old(buf)@ + ("-"@ + dec_text(m as nat)));
        }
    }
}

/// "a/b" after a label, for counts such as rooms explored or health.
fn fraction_line(prefix: &str, a: i32, b: i32) -> (s: String)
    requires
        ascii_text(prefix@),
        prefix@.len() <= 12,
    ensures
        s@ == prefix@ + signed_text(a as int) + "/"@ + signed_text(b as int),
        ascii_text(s@),
        s@.len() <= 40,
{
    proof {
        reveal_strlit("/");
    }
    let mut s = String::from_str(prefix);
    push_signed(&mut s, a);
    s.append("/");
    push_signed(&mut s, b);
    proof {
        lemma_ascii_concat(prefix@, signed_text(a as int));
        lemma_ascii_concat(prefix@ + signed_text(a as int), "/"@);
        lemma_ascii_concat(prefix@ + signed_text(a as int) + "/"@, signed_text(b as int));
    }
    s
}

/// The floor's label in the top bar.
pub open spec fn floor_tag(floor: u32) -> Seq<char> {
    if floor == 1 { "F1"@ } else if floor == 2 { "F2"@ } else if floor == 3 { "F3"@ }
    else if floor == 4 { "F4"@ } else if floor == 5 { "F5"@ } else { "F?"@ }
}

/// The top bar while playing: a black band 8 pixels high, the hearts at (2, 1), the floor
/// centered on the top row, and the run's gold at the right border.
pub open spec fn hud_view(v: FrameView, hp: i32, max_hp: i32, floor: u32, gold: u32) -> FrameView {
    let fw = v.width as int;
    let fh = v.height as int;
    let v1 = paint_where(v, in_rect(0, fw, 0, if fh < 8 { fh } else { 8 }), [0, 0, 0]);
    let v2 = blit_chain(v1, heart_ops(hp as int, max_hp as int, 2, 1));
    let tag = floor_tag(floor);
    let v3 = text_at(v2, tag, centered_x(fw, 2), 1, [180, 180, 180]);
    let g = dec_text(gold as nat) + "G"@;
    text_at(v3, g, fw - text_w(g.len() as int) - 2, 5, [255, 200, 50])
}

/// Draw the top bar while playing.
pub fn render_hud(fb: &mut FrameBuffer, hp: i32, max_hp: i32, floor: u32, gold: u32)
    requires
        old(fb).wf(),
        old(fb)@.width <= 100_000,
        old(fb)@.height <= 100_000,
        max_hp <= 10_000,
    ensures
        final(fb).wf(),
        final(fb)@ == hud_view(old(fb)@, hp, max_hp, floor, gold),
{
    proof {
        fb.lemma_wf();
        reveal_strlit("F1");
        reveal_strlit("F2");
        reveal_strlit("F3");
        reveal_strlit("F4");
        reveal_strlit("F5");
        reveal_strlit("F?");
        reveal_strlit("G");
        reveal_strlit("");
        lemma_u32_digits(gold);
    }
    let fw = fb.width() as i32;
    let fh = fb.height() as i32;
    paint_rect_safe(fb, 0, fw, 0, if fh < 8 { fh } else { 8 }, [0, 0, 0]);
    let ghost v1 = fb@;
    proof {
        fb.lemma_wf();
    }
    render_hearts(fb, hp, max_hp, 2, 1);
    proof {
        crate::engine::framebuffer::lemma_blit_chain_shape(v1, heart_ops(hp as int, max_hp as int, 2, 1));
        fb.lemma_wf();
    }
    let tag = if floor == 1 { "F1" } else if floor == 2 { "F2" } else if floor == 3 { "F3" }
        else if floor == 4 { "F4" } else if floor == 5 { "F5" } else { "F?" };
    draw_centered(fb, tag, 1, [180, 180, 180]);
    let mut g = labeled_number("", gold);
    g.append("G");
    proof {
        lemma_ascii_concat(dec_text(gold as nat), "G"@);
        assert(g@ =~= dec_text(gold as nat) + "G"@);
    }
    let gs = g.as_str();
    proof {
        assert(ascii_text(gs@));
        assert(vstd::string::is_ascii(gs));
    }
    let gw = text_width(gs);
    render_text(fb, gs, fw - gw - 2, 5, [255, 200, 50]);
}

/// The pause panel's floor line.
pub open spec fn floor_label(floor: u32) -> Seq<char> {
    if 1 <= floor <= 5 { "FLOOR "@ + dec_text(floor as nat) } else { "FLOOR"@ }
}

/// The pause panel, over the dimmed screen: "PAUSED", the floor, the health, the rooms
/// explored, the boons held and the controls, centered, from 16 pixels above the middle.
pub open spec fn pause_view(v: FrameView, floor: u32, hp: i32, max_hp: i32, explored: i32, total: i32, boons: u32) -> FrameView {
    let fw = v.width as int;
    let ty = v.height as int / 2 - 16;
    let hp_line = "HP "@ + signed_text(hp as int) + "/"@ + signed_text(max_hp as int);
    let rooms = "ROOMS "@ + signed_text(explored as int) + "/"@ + signed_text(total as int);
    let boon_line = "BOONS: "@ + dec_text(boons as nat);
    let v1 = text_at(v, "PAUSED"@, centered_x(fw, 6), ty, [255, 255, 255]);
    let v2 = text_at(v1, floor_label(floor), centered_x(fw, floor_label(floor).len() as int), ty + 10, [180, 180, 180]);
    let v3 = text_at(v2, hp_line, centered_x(fw, hp_line.len() as int), ty + 18, [200, 80, 80]);
    let v4 = text_at(v3, rooms, centered_x(fw, rooms.len() as int), ty + 26, [140, 140, 140]);
    let v5 = text_at(v4, boon_line, centered_x(fw, boon_line.len() as int), ty + 34, [140, 140, 140]);
    text_at(v5, "ESC - RESUME  Q - QUIT"@, centered_x(fw, 22), ty + 44, [100, 100, 100])
}

/// Draw the pause panel's text.
pub fn render_pause_panel(fb: &mut FrameBuffer, floor: u32, hp: i32, max_hp: i32, explored: i32, total: i32, boons: u32)
    requires
        old(fb).wf(),
        old(fb)@.width <= 100_000,
        old(fb)@.height <= 100_000,
    ensures
        final(fb).wf(),
        final(fb)@ == pause_view(old(fb)@, floor, hp, max_hp, explored, total, boons),
{
    proof {
        fb.lemma_wf();
        reveal_strlit("PAUSED");
        reveal_strlit("FLOOR ");
        reveal_strlit("FLOOR");
        reveal_strlit("HP ");
        reveal_strlit("ROOMS ");
        reveal_strlit("BOONS: ");
        reveal_strlit("ESC - RESUME  Q - QUIT");
    }
    let fh = fb.height() as i32;
    let ty = fh / 2 - 16;
    draw_centered(fb, "PAUSED", ty, [255, 255, 255]);
    if 1 <= floor && floor <= 5 {
        let f = stat_line("FLOOR ", floor);
        draw_centered(fb, f.as_str(), ty + 10, [180, 180, 180]);
    } else {
        draw_centered(fb, "FLOOR", ty + 10, [180, 180, 180]);
    }
    let h = fraction_line("HP ", hp, max_hp);
    draw_centered(fb, h.as_str(), ty + 18, [200, 80, 80]);
    let r = fraction_line("ROOMS ", explored, total);
    draw_centered(fb, r.as_str(), ty + 26, [140, 140, 140]);
    let b = stat_line("BOONS: ", boons);
    draw_centered(fb, b.as_str(), ty + 34, [140, 140, 140]);
    draw_centered(fb, "ESC - RESUME  Q - QUIT", ty + 44, [100, 100, 100]);
}

/// The floor-cleared panel, over the dimmed screen: "VICTORY" after the last floor,
/// "FLOOR CLEARED" otherwise, the rooms explored, and the prompt.
pub open spec fn floor_clear_view(v: FrameView, floor: u32, explored: i32, total: i32) -> FrameView {
    let fw = v.width as int;
    let ty = v.height as int / 2 - 10;
    let head = if floor >= 5 { "VICTORY"@ } else { "FLOOR CLEARED"@ };
    let rooms = "ROOMS "@ + signed_text(explored as int) + "/"@ + signed_text(total as int);
    let v1 = text_at(v, head, centered_x(fw, head.len() as int), ty, [255, 220, 50]);
    let v2 = text_at(v1, rooms, centered_x(fw, rooms.len() as int), ty + 10, [180, 180, 180]);
    text_at(v2, "PRESS ATTACK"@, centered_x(fw, 12), ty + 20, [150, 150, 150])
}

/// Draw the floor-cleared panel's text.
pub fn render_floor_clear(fb: &mut FrameBuffer, floor: u32, explored: i32, total: i32)
    requires
        old(fb).wf(),
        old(fb)@.width <= 100_000,
        old(fb)@.height <= 100_000,
    ensures
        final(fb).wf(),
        final(fb)@ == floor_clear_view(old(fb)@, floor, explored, total),
{
    proof {
        fb.lemma_wf();
        reveal_strlit("VICTORY");
        reveal_strlit("FLOOR CLEARED");
        reveal_strlit("ROOMS ");
        reveal_strlit("PRESS ATTACK");
    }
    let fh = fb.height() as i32;
    let ty = fh / 2 - 10;
    if floor >= 5 {
        draw_centered(fb, "VICTORY", ty, [255, 220, 50]);
    } else {
        draw_centered(fb, "FLOOR CLEARED", ty, [255, 220, 50]);
    }
    let r = fraction_line("ROOMS ", explored, total);
    draw_centered(fb, r.as_str(), ty + 10, [180, 180, 180]);
    draw_centered(fb, "PRESS ATTACK", ty + 20, [150, 150, 150]);
}

/// The banner after the player's death, on the blacked-out screen.
pub open spec fn death_banner_view(v: FrameView) -> FrameView {
    let fw = v.width as int;
    let ty = v.height as int / 2 - 4;
    let v1 = text_at(v, "YOU DIED"@, centered_x(fw, 8), ty, [200, 30, 30]);
    text_at(v1, "PRESS ATTACK"@, centered_x(fw, 12), ty + 8, [150, 150, 150])
}

/// Draw the banner after the player's death.
pub fn render_death_banner(fb: &mut FrameBuffer)
    requires
        old(fb).wf(),
        old(fb)@.width <= 100_000,
        old(fb)@.height <= 100_000,
    ensures
        final(fb).wf(),
        final(fb)@ == death_banner_view(old(fb)@),
{
    proof {
        fb.lemma_wf();
        reveal_strlit("YOU DIED");
        reveal_strlit("PRESS ATTACK");
    }
    let fh = fb.height() as i32;
    let ty = fh / 2 - 4;
    draw_centered(fb, "YOU DIED", ty, [200, 30, 30]);
    draw_centered(fb, "PRESS ATTACK", ty + 8, [150, 150, 150]);
}

} // verus!

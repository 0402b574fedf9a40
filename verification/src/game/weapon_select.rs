use vstd::prelude::*;
use crate::engine::color::Color;
use crate::engine::framebuffer::{FrameBuffer, FrameView, paint_where, in_rect, paint_rect_safe};
use crate::game::boon_select::{brighten, dim};
use crate::game::hud::{box_outline, draw_aabb_outline, half_toward_zero};
use crate::game::screens::{ascii_text, dec_text, text_at, text_w, labeled_number, lemma_u32_digits, lemma_ascii_concat};
use crate::game::sprites::font::{render_text, text_width};
use crate::game::weapons::{WeaponId, get_weapon, weapon_color, weapon_color_spec, weapon_damage, weapon_texts};
use vstd::string::{StrSliceExecFns, StringSliceAdditionalSpecFns};

verus! {

broadcast use vstd::string::group_string_axioms;

/// The weapons in the order that the choice shows them.
pub open spec fn weapon_at(i: int) -> WeaponId {
    if i == 0 { WeaponId::Sword } else if i == 1 { WeaponId::Spear } else { WeaponId::Daggers }
}

/// A weapon's card, 28x28 pixels at (x, y): background and border as on a boon card (in
/// the weapon's color), the name centered at the top, then its damage, speed and range.
pub open spec fn weapon_card_view(v: FrameView, id: WeaponId, x: int, y: int, selected: bool, confirmed: bool) -> FrameView {
    let wc = weapon_color_spec(id);
    let bg: Color = if confirmed { [50, 50, 80] } else if selected { [30, 30, 50] } else { [20, 20, 30] };
    let bc: Color = if confirmed { [255, 255, 255] } else if selected { brighten(wc) } else { dim(wc) };
    let name_color: Color = if selected || confirmed { [255, 255, 255] } else { [160, 160, 160] };
    let stat_color: Color = if selected || confirmed { [180, 180, 200] } else { [120, 120, 130] };
    let texts = weapon_texts(id);
    let v1 = paint_where(v, in_rect(x + 1, x + 27, y + 1, y + 27), bg);
    let v2 = paint_where(v1, box_outline(x, y, x + 27, y + 27), bc);
    let v3 = text_at(v2, texts.0, x + half_toward_zero(28 - text_w(texts.0.len() as int)), y + 2, name_color);
    let v4 = text_at(v3, "DMG "@ + dec_text(weapon_damage(id) as nat), x + 2, y + 9, stat_color);
    let v5 = text_at(v4, "SPD "@ + texts.2, x + 2, y + 15, stat_color);
    text_at(v5, "RNG "@ + texts.3, x + 2, y + 21, stat_color)
}

proof fn lemma_weapon_texts(id: WeaponId)
    ensures
        ascii_text(weapon_texts(id).0) && weapon_texts(id).0.len() <= 10,
        ascii_text(weapon_texts(id).2) && weapon_texts(id).2.len() <= 10,
        ascii_text(weapon_texts(id).3) && weapon_texts(id).3.len() <= 10,
        1 <= weapon_damage(id) <= 3,
{
    reveal_strlit("Sword");
    reveal_strlit("Normal");
    reveal_strlit("Medium");
    reveal_strlit("Spear");
    reveal_strlit("Slow");
    reveal_strlit("Long");
    reveal_strlit("Daggers");
    reveal_strlit("Fast");
    reveal_strlit("Short");
}

/// `prefix` followed by `text`.
fn joined(prefix: &str, text: &str) -> (s: String)
    ensures
        s@ == prefix@ + text@,
{
    let mut s = String::from_str(prefix);
    s.append(text);
    s
}

/// Draw a weapon's card at (x, y).
pub fn render_weapon_card(fb: &mut FrameBuffer, id: WeaponId, x: i32, y: i32, selected: bool, confirmed: bool)
    requires
        old(fb).wf(),
        i32::MIN + 100 <= x <= i32::MAX - 200,
        i32::MIN + 100 <= y <= i32::MAX - 100,
    ensures
        final(fb).wf(),
        final(fb)@ == weapon_card_view(old(fb)@, id, x as int, y as int, selected, confirmed),
{
    let w = get_weapon(id);
    let wc = weapon_color(id);
    let bg: Color = if confirmed { [50, 50, 80] } else if selected { [30, 30, 50] } else { [20, 20, 30] };
    let bc: Color = if confirmed {
        [255, 255, 255]
    } else if selected {
        [wc[0].saturating_add(40), wc[1].saturating_add(40), wc[2].saturating_add(40)]
    } else {
        [wc[0] / 2, wc[1] / 2, wc[2] / 2]
    };
    let name_color: Color = if selected || confirmed { [255, 255, 255] } else { [160, 160, 160] };
    let stat_color: Color = if selected || confirmed { [180, 180, 200] } else { [120, 120, 130] };
    proof {
        assert(bc =~= (if confirmed { [255u8, 255, 255] } else if selected { brighten(wc) } else { dim(wc) }));
        lemma_weapon_texts(id);
        reveal_strlit("DMG ");
        reveal_strlit("SPD ");
        reveal_strlit("RNG ");
        assert(vstd::string::is_ascii(w.name));
    }
    paint_rect_safe(fb, x + 1, x + 27, y + 1, y + 27, bg);
    draw_aabb_outline(fb, x, y, x + 27, y + 27, bc);
    let e = 28 - text_width(w.name);
    let half = if e >= 0 { e / 2 } else { -((-e) / 2) };
    render_text(fb, w.name, x + half, y + 2, name_color);
    let dmg = labeled_number("DMG ", w.base_damage as u32);
    proof {
        lemma_u32_digits(w.base_damage as u32);
    }
    render_text(fb, dmg.as_str(), x + 2, y + 9, stat_color);
    let spd = joined("SPD ", w.speed_label);
    render_text(fb, spd.as_str(), x + 2, y + 15, stat_color);
    let rng = joined("RNG ", w.range_label);
    render_text(fb, rng.as_str(), x + 2, y + 21, stat_color);
}

/// The screen after drawing the first `k` weapon cards, 32 pixels apart from (sx, sy).
pub open spec fn weapon_cards_fold(v: FrameView, selected: int, confirmed: Option<usize>, sx: int, sy: int, k: int) -> FrameView
    decreases k,
{
    if k <= 0 {
        v
    } else {
        let i = k - 1;
        weapon_card_view(weapon_cards_fold(v, selected, confirmed, sx, sy, i), weapon_at(i), sx + 32 * i, sy, i == selected,
            confirmed == Some(i as usize))
    }
}

/// The weapon choice: a dark screen, the title above the three cards centered on it, and,
/// until a card is confirmed, a hint below them.
pub open spec fn weapon_choice_view(v: FrameView, selected: int, confirmed: Option<usize>) -> FrameView {
    let fw = v.width as int;
    let fh = v.height as int;
    let v0 = paint_where(v, in_rect(0, fw, 0, fh), [10, 10, 15]);
    let v1 = text_at(v0, "CHOOSE YOUR WEAPON"@, half_toward_zero(fw - text_w(18)), fh / 2 - 14 - 10, [255, 220, 100]);
    let sx = half_toward_zero(fw - 92);
    let sy = half_toward_zero(fh - 28);
    let v2 = weapon_cards_fold(v1, selected, confirmed, sx, sy, 3);
    if confirmed is None {
        text_at(v2, "LEFT/RIGHT - ATTACK SELECT"@, half_toward_zero(fw - text_w(26)), sy + 32, [120, 120, 120])
    } else {
        v2
    }
}

/// Draw the weapon choice before a run.
pub fn render_weapon_choice(fb: &mut FrameBuffer, selected: usize, confirmed: Option<usize>)
    requires
        old(fb).wf(),
        old(fb)@.width <= 100_000,
        old(fb)@.height <= 100_000,
    ensures
        final(fb).wf(),
        final(fb)@ == weapon_choice_view(old(fb)@, selected as int, confirmed),
{
    proof {
        fb.lemma_wf();
        reveal_strlit("CHOOSE YOUR WEAPON");
        reveal_strlit("LEFT/RIGHT - ATTACK SELECT");
    }
    let title = "CHOOSE YOUR WEAPON";
    let hint = "LEFT/RIGHT - ATTACK SELECT";
    proof {
        assert(ascii_text(title@));
        assert(ascii_text(hint@));
        assert(vstd::string::is_ascii(title));
        assert(vstd::string::is_ascii(hint));
    }
    let fw = fb.width() as i32;
    let fh = fb.height() as i32;
    paint_rect_safe(fb, 0, fw, 0, fh, [10, 10, 15]);
    let tw = text_width(title);
    let e = fw - tw;
    let tx = if e >= 0 { e / 2 } else { -((-e) / 2) };
    render_text(fb, title, tx, fh / 2 - 14 - 10, [255, 220, 100]);
    let ex = fw - 92;
    let sx = if ex >= 0 { ex / 2 } else { -((-ex) / 2) };
    let ey = fh - 28;
    let sy = if ey >= 0 { ey / 2 } else { -((-ey) / 2) };
    let ghost v1 = fb@;
    render_weapon_card(fb, WeaponId::Sword, sx, sy, selected == 0, confirmed == Some(0usize));
    let ghost c1 = fb@;
    render_weapon_card(fb, WeaponId::Spear, sx + 32, sy, selected == 1, confirmed == Some(1usize));
    let ghost c2 = fb@;
    render_weapon_card(fb, WeaponId::Daggers, sx + 64, sy, selected == 2, confirmed == Some(2usize));
    proof {
        let (si, so) = (sx as int, sy as int);
        assert(weapon_cards_fold(v1, selected as int, confirmed, si, so, 0) == v1);
        assert(weapon_cards_fold(v1, selected as int, confirmed, si, so, 1) == c1);
        assert(weapon_cards_fold(v1, selected as int, confirmed, si, so, 2) == c2);
        assert(weapon_cards_fold(v1, selected as int, confirmed, si, so, 3) == fb@);
    }
    if confirmed.is_none() {
        let hw = text_width(hint);
        let eh = fw - hw;
        let hx = if eh >= 0 { eh / 2 } else { -((-eh) / 2) };
        render_text(fb, hint, hx, sy + 32, [120, 120, 120]);
    }
}

} // verus!

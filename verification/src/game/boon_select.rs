use vstd::prelude::*;
use crate::engine::color::Color;
use crate::engine::sprite::SpriteData;
use crate::engine::input::{GameKey, InputState, key_index_spec};
use crate::game::boons::{BoonId, Rarity};
use crate::game::sprites::boon_icons;
use crate::engine::framebuffer::{FrameBuffer, FrameView, Paint, paint_where, in_rect, paint_rect_safe, blit_view, lemma_blitted_view};
use crate::game::boons::{boon_def, boon_def_spec};
use crate::game::hud::{box_outline, draw_aabb_outline, half_toward_zero};
use crate::game::screens::{ascii_text, text_at, text_w};
use crate::game::sprites::font::{render_text, text_width};

verus! {

broadcast use vstd::string::group_string_axioms;

pub open spec fn rarity_color_spec(rarity: Rarity) -> Color {
    match rarity {
        Rarity::Common => [200, 200, 200],
        Rarity::Rare => [80, 120, 255],
        Rarity::Legendary => [255, 200, 50],
    }
}

/// Card color for a rarity.
pub fn rarity_color(rarity: Rarity) -> (c: Color)
    ensures
        c == rarity_color_spec(rarity),
{
    match rarity {
        Rarity::Common => [200, 200, 200],
        Rarity::Rare => [80, 120, 255],
        Rarity::Legendary => [255, 200, 50],
    }
}

/// Rarity label text.
pub fn rarity_label(rarity: Rarity) -> (s: &'static str)
    ensures
        s@ == match rarity {
            Rarity::Common => "COMMON"@,
            Rarity::Rare => "RARE"@,
            Rarity::Legendary => "LEGEND"@,
        },
{
    match rarity {
        Rarity::Common => "COMMON",
        Rarity::Rare => "RARE",
        Rarity::Legendary => "LEGEND",
    }
}

/// Pixels of the icon drawn on a boon's card.
pub open spec fn boon_icon_pixels(id: BoonId) -> Seq<Option<Color>> {
    match id {
        BoonId::SharpenedBlade => boon_icons::icon_sharpened_blade_pixels(),
        BoonId::BerserkersRage => boon_icons::icon_berserkers_rage_pixels(),
        BoonId::SwiftStrikes => boon_icons::icon_swift_strikes_pixels(),
        BoonId::KillingBlow => boon_icons::icon_killing_blow_pixels(),
        BoonId::ChainLightning => boon_icons::icon_chain_lightning_pixels(),
        BoonId::ProjectileSlash => boon_icons::icon_projectile_slash_pixels(),
        BoonId::CriticalEdge => boon_icons::icon_critical_edge_pixels(),
        BoonId::Fury => boon_icons::icon_fury_pixels(),
        BoonId::ToughSkin => boon_icons::icon_tough_skin_pixels(),
        BoonId::IronShield => boon_icons::icon_iron_shield_pixels(),
        BoonId::LifeSteal => boon_icons::icon_life_steal_pixels(),
        BoonId::VampiricTouch => boon_icons::icon_vampiric_touch_pixels(),
        BoonId::Retaliation => boon_icons::icon_retaliation_pixels(),
        BoonId::SecondWind => boon_icons::icon_second_wind_pixels(),
        BoonId::SwiftFeet => boon_icons::icon_swift_feet_pixels(),
        BoonId::PhantomDash => boon_icons::icon_phantom_dash_pixels(),
        BoonId::ShadowStep => boon_icons::icon_shadow_step_pixels(),
        BoonId::DashStrike => boon_icons::icon_dash_strike_pixels(),
        BoonId::GoldMagnet => boon_icons::icon_gold_magnet_pixels(),
        BoonId::Lucky => boon_icons::icon_lucky_pixels(),
        BoonId::TreasureSense => boon_icons::icon_treasure_sense_pixels(),
        BoonId::DeathsBargain => boon_icons::icon_deaths_bargain_pixels(),
    }
}

/// The 8x8 icon drawn on a boon's card.
pub fn boon_icon(id: BoonId) -> (s: SpriteData)
    ensures
        s.wf(),
        s.width == 8,
        s.height == 8,
        s.pixels@ == boon_icon_pixels(id),
{
    match id {
        BoonId::SharpenedBlade => boon_icons::icon_sharpened_blade(),
        BoonId::BerserkersRage => boon_icons::icon_berserkers_rage(),
        BoonId::SwiftStrikes => boon_icons::icon_swift_strikes(),
        BoonId::KillingBlow => boon_icons::icon_killing_blow(),
        BoonId::ChainLightning => boon_icons::icon_chain_lightning(),
        BoonId::ProjectileSlash => boon_icons::icon_projectile_slash(),
        BoonId::CriticalEdge => boon_icons::icon_critical_edge(),
        BoonId::Fury => boon_icons::icon_fury(),
        BoonId::ToughSkin => boon_icons::icon_tough_skin(),
        BoonId::IronShield => boon_icons::icon_iron_shield(),
        BoonId::LifeSteal => boon_icons::icon_life_steal(),
        BoonId::VampiricTouch => boon_icons::icon_vampiric_touch(),
        BoonId::Retaliation => boon_icons::icon_retaliation(),
        BoonId::SecondWind => boon_icons::icon_second_wind(),
        BoonId::SwiftFeet => boon_icons::icon_swift_feet(),
        BoonId::PhantomDash => boon_icons::icon_phantom_dash(),
        BoonId::ShadowStep => boon_icons::icon_shadow_step(),
        BoonId::DashStrike => boon_icons::icon_dash_strike(),
        BoonId::GoldMagnet => boon_icons::icon_gold_magnet(),
        BoonId::Lucky => boon_icons::icon_lucky(),
        BoonId::TreasureSense => boon_icons::icon_treasure_sense(),
        BoonId::DeathsBargain => boon_icons::icon_deaths_bargain(),
    }
}

/// One frame of choosing among `count` boon cards: left and right move the cursor within
/// the cards; attack confirms the card under it, whose index is returned.
pub fn update_boon_choice(selected: &mut usize, count: usize, input: &InputState) -> (confirmed: Option<usize>)
    ensures
        ({
            let left = input@.pressed[key_index_spec(GameKey::Left)];
            let right = input@.pressed[key_index_spec(GameKey::Right)];
            let attack = input@.pressed[key_index_spec(GameKey::Attack)];
            let s1 = if left && *old(selected) > 0 { *old(selected) - 1 } else { *old(selected) as int };
            let s2 = if right && s1 + 1 < count { s1 + 1 } else { s1 };
            if count == 0 {
                *final(selected) == *old(selected) && confirmed is None
            } else {
                &&& *final(selected) == s2
                &&& confirmed == if attack { Some(s2 as usize) } else { None }
            }
        }),
{
    if count == 0 {
        return None;
    }
    if input.is_pressed(GameKey::Left) && *selected > 0 {
        *selected -= 1;
    }
    if input.is_pressed(GameKey::Right) && *selected < count - 1 {
        *selected += 1;
    }
    if input.is_pressed(GameKey::Attack) {
        Some(*selected)
    } else {
        None
    }
}

/// A color 40 brighter on each channel, capped at 255.
pub open spec fn brighten(c: Color) -> Color {
    [
        if c[0] + 40 > 255 { 255u8 } else { (c[0] + 40) as u8 },
        if c[1] + 40 > 255 { 255u8 } else { (c[1] + 40) as u8 },
        if c[2] + 40 > 255 { 255u8 } else { (c[2] + 40) as u8 },
    ]
}

/// A color at half strength.
pub open spec fn dim(c: Color) -> Color {
    [c[0] / 2, c[1] / 2, c[2] / 2]
}

/// Left edge of a text of `n` characters centered on a 24-pixel card at `x`.
pub open spec fn card_text_x(x: int, n: int) -> int {
    x + half_toward_zero(24 - text_w(n))
}

/// A boon's card, 24x26 pixels at (x, y): a dark background (lighter when selected,
/// lighter still when confirmed) inside a border in the rarity's color (brightened when
/// selected, white when confirmed, dimmed otherwise), the icon at the top, the name and
/// the rarity label centered below it.
pub open spec fn boon_card_view(v: FrameView, id: BoonId, x: int, y: int, selected: bool, confirmed: bool) -> FrameView {
    let def = boon_def_spec(id);
    let rc = rarity_color_spec(def.rarity);
    let bg: Color = if confirmed { [50, 50, 80] } else if selected { [30, 30, 50] } else { [20, 20, 30] };
    let bc: Color = if confirmed { [255, 255, 255] } else if selected { brighten(rc) } else { dim(rc) };
    let name_color: Color = if selected || confirmed { [255, 255, 255] } else { [160, 160, 160] };
    let label_color: Color = if selected || confirmed { rc } else { dim(rc) };
    let label = match def.rarity {
        Rarity::Common => "COMMON"@,
        Rarity::Rare => "RARE"@,
        Rarity::Legendary => "LEGEND"@,
    };
    let v1 = paint_where(v, in_rect(x + 1, x + 23, y + 1, y + 25), bg);
    let v2 = paint_where(v1, box_outline(x, y, x + 23, y + 25), bc);
    let icon = crate::engine::sprite::SpriteView { width: 8, height: 8, pixels: boon_icon_pixels(id) };
    let v3 = blit_view(v2, icon, x + 8, y + 2, false, Paint::Copy);
    let v4 = text_at(v3, def.name@, card_text_x(x, def.name@.len() as int), y + 12, name_color);
    text_at(v4, label, card_text_x(x, label.len() as int), y + 18, label_color)
}

proof fn lemma_boon_names(id: BoonId)
    ensures
        ascii_text(boon_def_spec(id).name@),
        1 <= boon_def_spec(id).name@.len() <= 20,
{
    reveal_strlit("Berserker's Rage");
    reveal_strlit("Chain Lightning");
    reveal_strlit("Critical Edge");
    reveal_strlit("Dash Strike");
    reveal_strlit("Death's Bargain");
    reveal_strlit("Fury");
    reveal_strlit("Gold Magnet");
    reveal_strlit("Iron Shield");
    reveal_strlit("Killing Blow");
    reveal_strlit("Life Steal");
    reveal_strlit("Lucky");
    reveal_strlit("Phantom Dash");
    reveal_strlit("Projectile Slash");
    reveal_strlit("Retaliation");
    reveal_strlit("Second Wind");
    reveal_strlit("Shadow Step");
    reveal_strlit("Sharpened Blade");
    reveal_strlit("Swift Feet");
    reveal_strlit("Swift Strikes");
    reveal_strlit("Tough Skin");
    reveal_strlit("Treasure Sense");
    reveal_strlit("Vampiric Touch");
}

/// Write an ASCII text centered on a 24-pixel card at `x`.
fn draw_on_card(fb: &mut FrameBuffer, text: &str, x: i32, y: i32, color: Color)
    requires
        old(fb).wf(),
        ascii_text(text@),
        text@.len() <= 20,
        i32::MIN + 100 <= x <= i32::MAX - 200,
        y + 4 <= i32::MAX,
    ensures
        final(fb).wf(),
        final(fb)@ == text_at(old(fb)@, text@, card_text_x(x as int, text@.len() as int), y as int, color),
{
    proof {
        assert(vstd::string::is_ascii(text));
    }
    let e = 24 - text_width(text);
    let half = if e >= 0 { e / 2 } else { -((-e) / 2) };
    render_text(fb, text, x + half, y, color);
}

/// Draw a boon's card at (x, y).
pub fn render_boon_card(fb: &mut FrameBuffer, id: BoonId, x: i32, y: i32, selected: bool, confirmed: bool)
    requires
        old(fb).wf(),
        old(fb)@.width <= i32::MAX,
        old(fb)@.height <= i32::MAX,
        i32::MIN + 100 <= x <= i32::MAX - 200,
        i32::MIN + 100 <= y <= i32::MAX - 100,
    ensures
        final(fb).wf(),
        final(fb)@ == boon_card_view(old(fb)@, id, x as int, y as int, selected, confirmed),
{
    let def = boon_def(id);
    let rc = rarity_color(def.rarity);
    let bg: Color = if confirmed { [50, 50, 80] } else if selected { [30, 30, 50] } else { [20, 20, 30] };
    let bc: Color = if confirmed {
        [255, 255, 255]
    } else if selected {
        [rc[0].saturating_add(40), rc[1].saturating_add(40), rc[2].saturating_add(40)]
    } else {
        [rc[0] / 2, rc[1] / 2, rc[2] / 2]
    };
    let name_color: Color = if selected || confirmed { [255, 255, 255] } else { [160, 160, 160] };
    let label_color: Color = if selected || confirmed { rc } else { [rc[0] / 2, rc[1] / 2, rc[2] / 2] };
    proof {
        assert(bc =~= (if confirmed { [255u8, 255, 255] } else if selected { brighten(rc) } else { dim(rc) }));
        assert(label_color =~= (if selected || confirmed { rc } else { dim(rc) }));
        lemma_boon_names(id);
        reveal_strlit("COMMON");
        reveal_strlit("RARE");
        reveal_strlit("LEGEND");
        fb.lemma_wf();
    }
    paint_rect_safe(fb, x + 1, x + 23, y + 1, y + 25, bg);
    draw_aabb_outline(fb, x, y, x + 23, y + 25, bc);
    let icon = boon_icon(id);
    let ghost before = fb@;
    fb.blit_sprite(&icon, x + 8, y + 2);
    proof {
        lemma_blitted_view(before, fb@, icon@, x + 8, y + 2, false, Paint::Copy);
        assert(icon@ == crate::engine::sprite::SpriteView { width: 8, height: 8, pixels: boon_icon_pixels(id) });
    }
    draw_on_card(fb, def.name, x, y + 12, name_color);
    let label = rarity_label(def.rarity);
    draw_on_card(fb, label, x, y + 18, label_color);
}

/// The screen after drawing the first `k` cards of a boon choice, 28 pixels apart from
/// (sx, sy).
pub open spec fn cards_fold(v: FrameView, options: Seq<BoonId>, selected: int, confirmed: Option<usize>, sx: int, sy: int, k: int) -> FrameView
    decreases k,
{
    if k <= 0 {
        v
    } else {
        let i = k - 1;
        boon_card_view(cards_fold(v, options, selected, confirmed, sx, sy, i), options[i], sx + 28 * i, sy, i == selected,
            confirmed == Some(i as usize))
    }
}

/// The boon choice over the (already darkened) screen: the title above the row of cards
/// centered on the screen, and, until a card is confirmed, a hint below them.
pub open spec fn boon_choice_view(v: FrameView, options: Seq<BoonId>, selected: int, confirmed: Option<usize>) -> FrameView {
    let fw = v.width as int;
    let fh = v.height as int;
    let n = options.len() as int;
    let title_x = half_toward_zero(fw - text_w(13));
    let v1 = text_at(v, "CHOOSE A BOON"@, title_x, fh / 2 - 13 - 10, [255, 220, 100]);
    let sx = half_toward_zero(fw - (n * 24 + (n - 1) * 4));
    let sy = half_toward_zero(fh - 26);
    let v2 = cards_fold(v1, options, selected, confirmed, sx, sy, n);
    if confirmed is None {
        text_at(v2, "LEFT/RIGHT - ATTACK SELECT"@, half_toward_zero(fw - text_w(26)), sy + 30, [120, 120, 120])
    } else {
        v2
    }
}

/// Draw the boon choice: the title, one card per option (the selected one highlighted,
/// the confirmed one lit), and the controls hint until a card is confirmed. Nothing is
/// drawn when there are no options.
pub fn render_boon_choice(fb: &mut FrameBuffer, options: &Vec<BoonId>, selected: usize, confirmed: Option<usize>)
    requires
        old(fb).wf(),
        old(fb)@.width <= 100_000,
        old(fb)@.height <= 100_000,
        options@.len() <= 16,
    ensures
        final(fb).wf(),
        options@.len() == 0 ==> final(fb)@ == old(fb)@,
        options@.len() > 0 ==> final(fb)@ == boon_choice_view(old(fb)@, options@, selected as int, confirmed),
{
    if options.len() == 0 {
        return;
    }
    proof {
        fb.lemma_wf();
        reveal_strlit("CHOOSE A BOON");
        reveal_strlit("LEFT/RIGHT - ATTACK SELECT");
    }
    let fw = fb.width() as i32;
    let fh = fb.height() as i32;
    let ghost v = fb@;
    let title = "CHOOSE A BOON";
    let hint = "LEFT/RIGHT - ATTACK SELECT";
    proof {
        assert(ascii_text(title@));
        assert(ascii_text(hint@));
        assert(vstd::string::is_ascii(title));
        assert(vstd::string::is_ascii(hint));
    }
    let tw = text_width(title);
    let e = fw - tw;
    let tx = if e >= 0 { e / 2 } else { -((-e) / 2) };
    render_text(fb, title, tx, fh / 2 - 13 - 10, [255, 220, 100]);
    let n = options.len() as i32;
    let total = n * 24 + (n - 1) * 4;
    let ex = fw - total;
    let sx = if ex >= 0 { ex / 2 } else { -((-ex) / 2) };
    let ey = fh - 26;
    let sy = if ey >= 0 { ey / 2 } else { -((-ey) / 2) };
    let ghost v1 = fb@;
    let mut i: usize = 0;
    while i < options.len()
        invariant
            fb.wf(),
            fb@.width == v.width,
            fb@.height == v.height,
            v.width <= 100_000,
            v.height <= 100_000,
            options@.len() <= 16,
            i <= options@.len(),
            -60_000 <= sx <= 60_000,
            -60_000 <= sy <= 60_000,
            fb@ == cards_fold(v1, options@, selected as int, confirmed, sx as int, sy as int, i as int),
        decreases options@.len() - i,
    {
        let x = sx + 28 * (i as i32);
        render_boon_card(fb, options[i], x, sy, i == selected, confirmed == Some(i));
        i += 1;
    }
    if confirmed.is_none() {
        let hw = text_width(hint);
        let eh = fw - hw;
        let hx = if eh >= 0 { eh / 2 } else { -((-eh) / 2) };
        render_text(fb, hint, hx, sy + 30, [120, 120, 120]);
    }
}

} // verus!

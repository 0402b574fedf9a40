use cryptfall::engine::color::Color;
use cryptfall::engine::framebuffer::{paint_rect_safe, FrameBuffer};
use cryptfall::game::controls::UpgradeShopState;
use cryptfall::game::run_state::RunState;
use cryptfall::game::save::{upgrades, SaveData};
use cryptfall::game::screens::{
    render_death_banner, render_floor_clear, render_hud, render_pause_panel, render_run_end,
    render_title_menu, render_upgrade_shop,
};
use cryptfall::game::sprites::title::title_logo;
use cryptfall::game::sprites::font::{render_text, text_width};
use cryptfall::game::boon_select::{boon_icon, rarity_color, rarity_label, render_boon_card, render_boon_choice};
use cryptfall::game::boons::{boon_def, BoonId};
use cryptfall::game::weapon_select::{render_weapon_card, render_weapon_choice};
use cryptfall::game::weapons::{weapon_color, WeaponId};

fn centered(fb: &mut FrameBuffer, text: &str, y: i32, color: Color) {
    let fw = fb.width() as i32;
    render_text(fb, text, (fw - text_width(text)) / 2, y, color);
}

fn right(fb: &mut FrameBuffer, text: &str, y: i32, color: Color) {
    let fw = fb.width() as i32;
    render_text(fb, text, fw - text_width(text) - 4, y, color);
}

fn same_pixels(a: &FrameBuffer, b: &FrameBuffer) {
    assert_eq!(a.width(), b.width());
    assert_eq!(a.height(), b.height());
    for y in 0..a.height() {
        for x in 0..a.width() {
            assert_eq!(a.get_pixel(x, y), b.get_pixel(x, y), "pixel ({}, {})", x, y);
        }
    }
}

fn sample_run() -> RunState {
    let mut run = RunState::new();
    run.floor_reached = 3;
    run.kills = 17;
    run.rooms_cleared = 9;
    run.boons_collected = 4;
    run.gold_earned = 125;
    run
}

#[test]
fn test_run_end_defeat_screen() {
    let run = sample_run();
    let mut fb = FrameBuffer::new(80, 30);
    render_run_end(&mut fb, &run, false, 125);

    let mut expected = FrameBuffer::new(80, 30);
    let (fw, fh) = (80, 60);
    paint_rect_safe(&mut expected, 0, fw, 0, fh, [5, 5, 8]);
    centered(&mut expected, "YOU DIED", fh / 4, [200, 30, 30]);
    let lines = ["FLOOR: 3", "KILLS: 17", "ROOMS: 9", "BOONS: 4", "GOLD: +125", "TIME: 2:05"];
    for (i, line) in lines.iter().enumerate() {
        centered(&mut expected, line, fh / 4 + 12 + i as i32 * 7, [180, 180, 200]);
    }
    centered(&mut expected, "PRESS ATTACK", fh - 10, [120, 120, 130]);
    same_pixels(&fb, &expected);
    assert_eq!(fb.get_pixel(0, 0), Some([5, 5, 8]));
}

#[test]
fn test_run_end_victory_header() {
    let run = sample_run();
    let mut fb = FrameBuffer::new(80, 30);
    render_run_end(&mut fb, &run, true, 600);
    let mut gold_pixels = 0;
    let mut red_pixels = 0;
    for y in 0..fb.height() {
        for x in 0..fb.width() {
            match fb.get_pixel(x, y) {
                Some([255, 220, 50]) => gold_pixels += 1,
                Some([200, 30, 30]) => red_pixels += 1,
                _ => {}
            }
        }
    }
    assert!(gold_pixels > 0, "the victory header is drawn in gold");
    assert_eq!(red_pixels, 0, "no defeat header on a won run");
}

#[test]
fn test_run_end_time_is_zero_padded() {
    let run = sample_run();
    let mut fb = FrameBuffer::new(80, 30);
    render_run_end(&mut fb, &run, false, 61);
    let mut expected = FrameBuffer::new(80, 30);
    render_run_end(&mut expected, &run, false, 125);
    // Only the time line differs: "1:01" against "2:05".
    let time_y = 60 / 4 + 12 + 5 * 7;
    paint_rect_safe(&mut fb, 0, 80, time_y, time_y + 5, [5, 5, 8]);
    paint_rect_safe(&mut expected, 0, 80, time_y, time_y + 5, [5, 5, 8]);
    same_pixels(&fb, &expected);

    let mut alone = FrameBuffer::new(80, 30);
    paint_rect_safe(&mut alone, 0, 80, 0, 60, [5, 5, 8]);
    centered(&mut alone, "TIME: 1:01", time_y, [180, 180, 200]);
    let mut fb2 = FrameBuffer::new(80, 30);
    render_run_end(&mut fb2, &run, false, 61);
    for x in 0..80 {
        for y in time_y as usize..time_y as usize + 5 {
            assert_eq!(fb2.get_pixel(x, y), alone.get_pixel(x, y), "pixel ({}, {})", x, y);
        }
    }
}

#[test]
fn test_upgrade_shop_screen() {
    let mut save = SaveData::default();
    save.total_gold = 55;
    save.upgrades.vitality_level = 1;
    let shop = UpgradeShopState { selected: 1 };
    let mut fb = FrameBuffer::new(100, 40);
    render_upgrade_shop(&mut fb, &save, &shop);

    let mut expected = FrameBuffer::new(100, 40);
    let (fw, fh) = (100, 80);
    paint_rect_safe(&mut expected, 0, fw, 0, fh, [10, 10, 15]);
    centered(&mut expected, "UPGRADE SHOP", 4, [255, 220, 100]);
    right(&mut expected, "GOLD: 55", 4, [255, 200, 50]);
    let defs = upgrades();
    for (i, d) in defs.iter().enumerate() {
        let y = 16 + i as i32 * 7;
        let owned = i == 0;
        let selected = i == 1;
        let afford = d.cost <= 55;
        if selected {
            render_text(&mut expected, ">", 2, y, [255, 220, 100]);
        }
        let name_color: Color = if owned {
            [80, 180, 80]
        } else if selected && afford {
            [255, 255, 255]
        } else if selected {
            [180, 80, 80]
        } else if afford {
            [160, 160, 170]
        } else {
            [80, 80, 90]
        };
        render_text(&mut expected, d.name, 8, y, name_color);
        let desc_color: Color = if owned { [60, 120, 60] } else { [100, 100, 110] };
        render_text(&mut expected, d.description, 8 + text_width(d.name) + 4, y, desc_color);
        if owned {
            right(&mut expected, "[OWNED]", y, [80, 180, 80]);
        } else {
            let price_color: Color = if afford { [255, 200, 50] } else { [100, 60, 60] };
            right(&mut expected, &format!("{}G", d.cost), y, price_color);
        }
    }
    centered(&mut expected, "ESC - BACK", fh - 6, [80, 80, 90]);
    same_pixels(&fb, &expected);
}

#[test]
fn test_upgrade_shop_highlights_only_selected_line() {
    // With no gold, the selected entry's name is red and the others dark gray.
    let save = SaveData::default();
    let shop = UpgradeShopState { selected: 3 };
    let mut fb = FrameBuffer::new(100, 40);
    render_upgrade_shop(&mut fb, &save, &shop);
    for i in 0..8usize {
        let y = 16 + i * 7;
        let mut red = false;
        let mut gray = false;
        for yy in y..y + 5 {
            for x in 0..fb.width() {
                match fb.get_pixel(x, yy) {
                    Some([180, 80, 80]) => red = true,
                    Some([80, 80, 90]) => gray = true,
                    _ => {}
                }
            }
        }
        assert_eq!(red, i == 3, "selected color on line {}", i);
        assert_eq!(gray, i != 3, "unselected color on line {}", i);
    }
}

#[test]
fn test_boon_card_layout() {
    let mut fb = FrameBuffer::new(60, 20);
    render_boon_card(&mut fb, BoonId::Fury, 10, 5, true, false);

    let mut expected = FrameBuffer::new(60, 20);
    let def = boon_def(BoonId::Fury);
    let rc = rarity_color(def.rarity);
    paint_rect_safe(&mut expected, 11, 33, 6, 30, [30, 30, 50]);
    let border = [rc[0].saturating_add(40), rc[1].saturating_add(40), rc[2].saturating_add(40)];
    cryptfall::game::hud::draw_aabb_outline(&mut expected, 10, 5, 33, 30, border);
    expected.blit_sprite(&boon_icon(BoonId::Fury), 18, 7);
    render_text(&mut expected, "Fury", 10 + (24 - text_width("Fury")) / 2, 17, [255, 255, 255]);
    let label = rarity_label(def.rarity);
    assert_eq!(label, "LEGEND");
    render_text(&mut expected, label, 10 + (24 - text_width(label)) / 2, 23, rc);
    same_pixels(&fb, &expected);
    assert_eq!(fb.get_pixel(10, 5), Some(border));
    assert_eq!(fb.get_pixel(12, 28), Some([30, 30, 50]));
}

#[test]
fn test_boon_choice_hides_hint_once_confirmed() {
    let options = vec![BoonId::Fury, BoonId::Lucky, BoonId::ToughSkin];
    let mut open_fb = FrameBuffer::new(100, 40);
    render_boon_choice(&mut open_fb, &options, 1, None);
    let mut done_fb = FrameBuffer::new(100, 40);
    render_boon_choice(&mut done_fb, &options, 1, Some(1));
    let sy = (80 - 26) / 2;
    let hint_row = (sy + 30) as usize;
    let lit = |fb: &FrameBuffer| (0..100).any(|x| fb.get_pixel(x, hint_row + 1) == Some([120, 120, 120]));
    assert!(lit(&open_fb));
    assert!(!lit(&done_fb));
    // The confirmed card has the white border.
    let sx = (100 - (3 * 24 + 2 * 4)) / 2;
    assert_eq!(done_fb.get_pixel((sx + 28) as usize, sy as usize), Some([255, 255, 255]));
    let mut empty = FrameBuffer::new(100, 40);
    render_boon_choice(&mut empty, &Vec::new(), 0, None);
    assert_eq!(empty.get_pixel(0, 0), None);
}

#[test]
fn test_weapon_choice_screen() {
    let mut fb = FrameBuffer::new(120, 40);
    render_weapon_choice(&mut fb, 2, None);

    let mut expected = FrameBuffer::new(120, 40);
    paint_rect_safe(&mut expected, 0, 120, 0, 80, [10, 10, 15]);
    centered(&mut expected, "CHOOSE YOUR WEAPON", 80 / 2 - 14 - 10, [255, 220, 100]);
    let (sx, sy) = ((120 - 92) / 2, (80 - 28) / 2);
    render_weapon_card(&mut expected, WeaponId::Sword, sx, sy, false, false);
    render_weapon_card(&mut expected, WeaponId::Spear, sx + 32, sy, false, false);
    render_weapon_card(&mut expected, WeaponId::Daggers, sx + 64, sy, true, false);
    centered(&mut expected, "LEFT/RIGHT - ATTACK SELECT", sy + 32, [120, 120, 120]);
    same_pixels(&fb, &expected);

    // The selected card's border is its color brightened by 40; the others are dimmed.
    let c = weapon_color(WeaponId::Daggers);
    assert_eq!(fb.get_pixel((sx + 64) as usize, sy as usize), Some([c[0] + 40, c[1] + 40, c[2] + 40]));
    let s = weapon_color(WeaponId::Sword);
    assert_eq!(fb.get_pixel(sx as usize, sy as usize), Some([s[0] / 2, s[1] / 2, s[2] / 2]));
}

#[test]
fn test_weapon_card_stats() {
    let mut fb = FrameBuffer::new(40, 20);
    render_weapon_card(&mut fb, WeaponId::Spear, 2, 2, false, true);
    let mut expected = FrameBuffer::new(40, 20);
    paint_rect_safe(&mut expected, 3, 29, 3, 29, [50, 50, 80]);
    cryptfall::game::hud::draw_aabb_outline(&mut expected, 2, 2, 29, 29, [255, 255, 255]);
    render_text(&mut expected, "Spear", 2 + (28 - text_width("Spear")) / 2, 4, [255, 255, 255]);
    render_text(&mut expected, "DMG 3", 4, 11, [180, 180, 200]);
    render_text(&mut expected, "SPD Slow", 4, 17, [180, 180, 200]);
    render_text(&mut expected, "RNG Long", 4, 23, [180, 180, 200]);
    same_pixels(&fb, &expected);
}

#[test]
fn test_title_menu_screen() {
    let mut fb = FrameBuffer::new(100, 40);
    render_title_menu(&mut fb, 1, 42, 3);

    let mut expected = FrameBuffer::new(100, 40);
    let (fw, fh) = (100, 80);
    let logo_y = fh / 6;
    expected.blit_sprite(&title_logo(), (fw - 58) / 2, logo_y);
    centered(&mut expected, "A TERMINAL ROGUELIKE", logo_y + 14, [100, 100, 140]);
    for (i, item) in ["NEW RUN", "UPGRADES", "QUIT"].iter().enumerate() {
        let color = if i == 1 { [255, 220, 100] } else { [120, 120, 140] };
        centered(&mut expected, item, fh / 2 + 2 + 8 * i as i32, color);
    }
    centered(&mut expected, "GOLD: 42", fh - 14, [255, 200, 50]);
    centered(&mut expected, "BEST FLOOR: 3", fh - 8, [140, 140, 160]);
    same_pixels(&fb, &expected);
    // The logo's top-left letter pixel is deep icy blue.
    assert_eq!(fb.get_pixel(((fw - 58) / 2 + 1) as usize, logo_y as usize), Some([70, 120, 255]));
}

#[test]
fn test_hud_bar() {
    let mut fb = FrameBuffer::new(80, 20);
    render_hud(&mut fb, 3, 5, 2, 47);
    let mut expected = FrameBuffer::new(80, 20);
    paint_rect_safe(&mut expected, 0, 80, 0, 8, [0, 0, 0]);
    cryptfall::game::hud::render_hearts(&mut expected, 3, 5, 2, 1);
    centered(&mut expected, "F2", 1, [180, 180, 180]);
    let w = text_width("47G");
    render_text(&mut expected, "47G", 80 - w - 2, 5, [255, 200, 50]);
    same_pixels(&fb, &expected);
    assert_eq!(fb.get_pixel(79, 7), Some([0, 0, 0]));
    assert_eq!(fb.get_pixel(79, 8), None);
}

#[test]
fn test_hud_unknown_floor() {
    let mut fb = FrameBuffer::new(80, 20);
    render_hud(&mut fb, 1, 1, 9, 0);
    let mut expected = FrameBuffer::new(80, 20);
    paint_rect_safe(&mut expected, 0, 80, 0, 8, [0, 0, 0]);
    cryptfall::game::hud::render_hearts(&mut expected, 1, 1, 2, 1);
    centered(&mut expected, "F?", 1, [180, 180, 180]);
    render_text(&mut expected, "0G", 80 - text_width("0G") - 2, 5, [255, 200, 50]);
    same_pixels(&fb, &expected);
}

#[test]
fn test_pause_panel() {
    let mut fb = FrameBuffer::new(100, 40);
    render_pause_panel(&mut fb, 3, 4, 6, 5, 9, 2);
    let mut expected = FrameBuffer::new(100, 40);
    let ty = 80 / 2 - 16;
    centered(&mut expected, "PAUSED", ty, [255, 255, 255]);
    centered(&mut expected, "FLOOR 3", ty + 10, [180, 180, 180]);
    centered(&mut expected, "HP 4/6", ty + 18, [200, 80, 80]);
    centered(&mut expected, "ROOMS 5/9", ty + 26, [140, 140, 140]);
    centered(&mut expected, "BOONS: 2", ty + 34, [140, 140, 140]);
    centered(&mut expected, "ESC - RESUME  Q - QUIT", ty + 44, [100, 100, 100]);
    same_pixels(&fb, &expected);

    let mut odd = FrameBuffer::new(100, 40);
    render_pause_panel(&mut odd, 0, -2, 6, 5, 9, 2);
    let mut expected = FrameBuffer::new(100, 40);
    centered(&mut expected, "PAUSED", ty, [255, 255, 255]);
    centered(&mut expected, "FLOOR", ty + 10, [180, 180, 180]);
    centered(&mut expected, "HP -2/6", ty + 18, [200, 80, 80]);
    centered(&mut expected, "ROOMS 5/9", ty + 26, [140, 140, 140]);
    centered(&mut expected, "BOONS: 2", ty + 34, [140, 140, 140]);
    centered(&mut expected, "ESC - RESUME  Q - QUIT", ty + 44, [100, 100, 100]);
    same_pixels(&odd, &expected);
}

#[test]
fn test_floor_clear_and_death_banners() {
    let mut fb = FrameBuffer::new(100, 40);
    render_floor_clear(&mut fb, 5, 7, 8);
    let mut expected = FrameBuffer::new(100, 40);
    let ty = 80 / 2 - 10;
    centered(&mut expected, "VICTORY", ty, [255, 220, 50]);
    centered(&mut expected, "ROOMS 7/8", ty + 10, [180, 180, 180]);
    centered(&mut expected, "PRESS ATTACK", ty + 20, [150, 150, 150]);
    same_pixels(&fb, &expected);

    let mut fb = FrameBuffer::new(100, 40);
    render_floor_clear(&mut fb, 2, 7, 8);
    let mut expected = FrameBuffer::new(100, 40);
    centered(&mut expected, "FLOOR CLEARED", ty, [255, 220, 50]);
    centered(&mut expected, "ROOMS 7/8", ty + 10, [180, 180, 180]);
    centered(&mut expected, "PRESS ATTACK", ty + 20, [150, 150, 150]);
    same_pixels(&fb, &expected);

    let mut fb = FrameBuffer::new(100, 40);
    render_death_banner(&mut fb);
    let mut expected = FrameBuffer::new(100, 40);
    centered(&mut expected, "YOU DIED", 80 / 2 - 4, [200, 30, 30]);
    centered(&mut expected, "PRESS ATTACK", 80 / 2 + 4, [150, 150, 150]);
    same_pixels(&fb, &expected);
}

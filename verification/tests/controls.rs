use cryptfall::engine::input::{GameKey, InputState, KeyInput};
use cryptfall::game::controls::{has_input, UpgradeShopState};

#[test]
fn idle_until_a_key() {
    let mut input = InputState::new();
    assert!(!has_input(&input));
    input.process_events_at(&[KeyInput::Left], 0);
    assert!(has_input(&input));
    assert!(input.is_held(GameKey::Left));
}

#[test]
fn pause_is_not_play_input() {
    let mut input = InputState::new();
    input.process_events_at(&[KeyInput::Esc], 0);
    assert!(!has_input(&input));
}

#[test]
fn held_keys_time_out() {
    let mut input = InputState::new();
    input.process_events_at(&[KeyInput::Up, KeyInput::Enter], 0);
    assert!(input.is_pressed(GameKey::Up));
    assert!(input.is_pressed(GameKey::Attack));
    // within the timeout the key stays held, no longer pressed
    input.begin_frame_at(150_000_000);
    assert!(!input.is_pressed(GameKey::Up));
    assert!(input.is_held(GameKey::Up));
    assert!(!input.is_released(GameKey::Up));
    // past it, it is released
    input.begin_frame_at(151_000_000);
    assert!(!input.is_held(GameKey::Up));
    assert!(input.is_released(GameKey::Up));
    assert!(input.is_released(GameKey::Attack));
}

#[test]
fn shop_starts_at_top() {
    assert_eq!(UpgradeShopState::new().selected, 0);
}

use cryptfall::game::controls::{update_upgrade_shop, ShopAction};
use cryptfall::game::save::SaveData;

fn pressed(keys: &[KeyInput]) -> InputState {
    let mut input = InputState::new();
    input.process_events_at(keys, 0);
    input
}

#[test]
fn shop_cursor_moves_within_the_list() {
    let mut shop = UpgradeShopState::new();
    let mut save = SaveData::default();
    assert_eq!(update_upgrade_shop(&mut shop, &mut save, &pressed(&[KeyInput::Up])), ShopAction::Browse);
    assert_eq!(shop.selected, 0);
    update_upgrade_shop(&mut shop, &mut save, &pressed(&[KeyInput::Down]));
    assert_eq!(shop.selected, 1);
    shop.selected = 7;
    update_upgrade_shop(&mut shop, &mut save, &pressed(&[KeyInput::Down]));
    assert_eq!(shop.selected, 7);
}

#[test]
fn shop_buys_when_affordable() {
    let mut shop = UpgradeShopState::new();
    let mut save = SaveData { total_gold: 100, ..Default::default() };
    let attack = pressed(&[KeyInput::Enter]);
    assert_eq!(update_upgrade_shop(&mut shop, &mut save, &attack), ShopAction::Bought);
    assert_eq!(save.total_gold, 70);
    assert_eq!(save.upgrades.vitality_level, 1);
    // already owned: nothing happens
    assert_eq!(update_upgrade_shop(&mut shop, &mut save, &attack), ShopAction::Browse);
    assert_eq!(save.total_gold, 70);
    // next tier costs 60
    shop.selected = 1;
    assert_eq!(update_upgrade_shop(&mut shop, &mut save, &attack), ShopAction::Bought);
    assert_eq!(save.total_gold, 10);
    assert_eq!(save.upgrades.vitality_level, 2);
    // twin dash costs 80: not affordable
    shop.selected = 5;
    assert_eq!(update_upgrade_shop(&mut shop, &mut save, &attack), ShopAction::Browse);
    assert!(!save.upgrades.twin_dash);
}

#[test]
fn shop_leaves_on_pause() {
    let mut shop = UpgradeShopState::new();
    let mut save = SaveData { total_gold: 100, ..Default::default() };
    let keys = pressed(&[KeyInput::Esc, KeyInput::Enter]);
    assert_eq!(update_upgrade_shop(&mut shop, &mut save, &keys), ShopAction::Leave);
    assert_eq!(save.total_gold, 100);
}

use cryptfall::game::controls::{update_title_menu, TitleChoice};

#[test]
fn title_menu() {
    let mut sel = 0;
    assert_eq!(update_title_menu(&mut sel, &InputState::default()), TitleChoice::Stay);
    assert_eq!(update_title_menu(&mut sel, &pressed(&[KeyInput::Enter])), TitleChoice::NewRun);
    assert_eq!(update_title_menu(&mut sel, &pressed(&[KeyInput::Down])), TitleChoice::Stay);
    assert_eq!(sel, 1);
    assert_eq!(update_title_menu(&mut sel, &pressed(&[KeyInput::Enter])), TitleChoice::Upgrades);
    assert_eq!(update_title_menu(&mut sel, &pressed(&[KeyInput::Down, KeyInput::Enter])), TitleChoice::Quit);
    assert_eq!(sel, 2);
    assert_eq!(update_title_menu(&mut sel, &pressed(&[KeyInput::Down])), TitleChoice::Stay);
    assert_eq!(sel, 2);
    assert_eq!(update_title_menu(&mut sel, &pressed(&[KeyInput::Char('q')])), TitleChoice::Quit);
}

use cryptfall::game::boon_select::update_boon_choice;

#[test]
fn boon_cards_cursor_and_confirm() {
    let mut sel = 0;
    assert_eq!(update_boon_choice(&mut sel, 3, &pressed(&[KeyInput::Left])), None);
    assert_eq!(sel, 0);
    assert_eq!(update_boon_choice(&mut sel, 3, &pressed(&[KeyInput::Right])), None);
    assert_eq!(update_boon_choice(&mut sel, 3, &pressed(&[KeyInput::Right])), None);
    assert_eq!(update_boon_choice(&mut sel, 3, &pressed(&[KeyInput::Right])), None);
    assert_eq!(sel, 2);
    assert_eq!(update_boon_choice(&mut sel, 3, &pressed(&[KeyInput::Enter])), Some(2));
    assert_eq!(update_boon_choice(&mut sel, 0, &pressed(&[KeyInput::Enter])), None);
}

use cryptfall::game::controls::shop_line_colors;

#[test]
fn shop_line_coloring() {
    let owned = shop_line_colors(true, true, true);
    assert_eq!((owned.name, owned.description, owned.price), ([80, 180, 80], [60, 120, 60], [80, 180, 80]));
    let pick = shop_line_colors(false, true, true);
    assert_eq!((pick.name, pick.price), ([255, 255, 255], [255, 200, 50]));
    let dear = shop_line_colors(false, true, false);
    assert_eq!((dear.name, dear.price), ([180, 80, 80], [100, 60, 60]));
    assert_eq!(shop_line_colors(false, false, true).name, [160, 160, 170]);
    assert_eq!(shop_line_colors(false, false, false).name, [80, 80, 90]);
    assert_eq!(shop_line_colors(false, false, false).description, [100, 100, 110]);
}

use vstd::prelude::*;
use crate::engine::color::Color;
use crate::engine::input::{GameKey, InputState, InputView, key_index_spec};
use crate::game::save::{SaveData, PermanentUpgrades, UpgradeTrack, upgrades, current_level_spec, upgrade_cost, upgrade_track, upgrade_tier};

verus! {

/// Whether the player is doing anything this frame: holding a direction, or pressing
/// attack or dash.
pub fn has_input(input: &InputState) -> (b: bool)
    ensures
        b == (input@.held[key_index_spec(GameKey::Up)] is Some
            || input@.held[key_index_spec(GameKey::Down)] is Some
            || input@.held[key_index_spec(GameKey::Left)] is Some
            || input@.held[key_index_spec(GameKey::Right)] is Some
            || input@.pressed[key_index_spec(GameKey::Attack)]
            || input@.pressed[key_index_spec(GameKey::Dash)]),
{
    input.is_held(GameKey::Up) || input.is_held(GameKey::Down) || input.is_held(GameKey::Left)
        || input.is_held(GameKey::Right) || input.is_pressed(GameKey::Attack) || input.is_pressed(GameKey::Dash)
}

/// What the pause and quit keys do to a frame of play.
#[derive(Clone, Copy, Debug, PartialEq, Eq, Structural)]
pub enum PauseStep {
    /// Pause was pressed: the pause state flips and the frame ends.
    Toggle,
    /// Paused, and quit was pressed: the run ends.
    EndRun,
    /// Paused: nothing else happens this frame.
    Hold,
    /// Playing on; `debug` says whether quit toggled the hitbox overlay.
    Play { debug: bool },
}

/// The pause and quit keys at the start of a frame of play: pause toggles the pause state;
/// while paused, quit ends the run and nothing else runs; while playing, quit toggles the
/// hitbox overlay.
pub fn pause_step(paused: bool, input: &InputState) -> (p: PauseStep)
    ensures
        p == if key_pressed(input@, GameKey::Pause) {
            PauseStep::Toggle
        } else if paused {
            if key_pressed(input@, GameKey::Quit) { PauseStep::EndRun } else { PauseStep::Hold }
        } else {
            PauseStep::Play { debug: key_pressed(input@, GameKey::Quit) }
        },
{
    if input.is_pressed(GameKey::Pause) {
        PauseStep::Toggle
    } else if paused {
        if input.is_pressed(GameKey::Quit) {
            PauseStep::EndRun
        } else {
            PauseStep::Hold
        }
    } else {
        PauseStep::Play { debug: input.is_pressed(GameKey::Quit) }
    }
}

/// The stages of the player's death.
#[derive(Clone, Copy, Debug, PartialEq, Eq, Structural)]
pub enum DeathPhase {
    Alive,
    /// The death animation plays.
    Dying,
    /// The screen fades out.
    FadeOut,
    /// The death banner waits for a key.
    Dead,
}

/// One frame of the death sequence.
#[derive(Clone, Copy, Debug, PartialEq, Eq, Structural)]
pub struct DeathStep {
    pub phase: DeathPhase,
    /// The phase timer starts again from zero.
    pub restart_timer: bool,
    /// The run ends.
    pub end_run: bool,
}

/// The death sequence's step: the animation's end starts the fade (timer restarted), the
/// fade's end shows the banner, and attack on the banner ends the run.
pub fn death_step(phase: DeathPhase, animation_done: bool, fade_done: bool, input: &InputState) -> (d: DeathStep)
    ensures
        d == match phase {
            DeathPhase::Alive => DeathStep { phase: DeathPhase::Alive, restart_timer: false, end_run: false },
            DeathPhase::Dying => if animation_done {
                DeathStep { phase: DeathPhase::FadeOut, restart_timer: true, end_run: false }
            } else {
                DeathStep { phase: DeathPhase::Dying, restart_timer: false, end_run: false }
            },
            DeathPhase::FadeOut => DeathStep {
                phase: if fade_done { DeathPhase::Dead } else { DeathPhase::FadeOut },
                restart_timer: false,
                end_run: false,
            },
            DeathPhase::Dead => DeathStep {
                phase: DeathPhase::Dead,
                restart_timer: false,
                end_run: key_pressed(input@, GameKey::Attack),
            },
        },
{
    match phase {
        DeathPhase::Alive => DeathStep { phase: DeathPhase::Alive, restart_timer: false, end_run: false },
        DeathPhase::Dying => {
            if animation_done {
                DeathStep { phase: DeathPhase::FadeOut, restart_timer: true, end_run: false }
            } else {
                DeathStep { phase: DeathPhase::Dying, restart_timer: false, end_run: false }
            }
        },
        DeathPhase::FadeOut => DeathStep {
            phase: if fade_done { DeathPhase::Dead } else { DeathPhase::FadeOut },
            restart_timer: false,
            end_run: false,
        },
        DeathPhase::Dead => DeathStep {
            phase: DeathPhase::Dead,
            restart_timer: false,
            end_run: input.is_pressed(GameKey::Attack),
        },
    }
}

/// The upgrade shop's cursor.
pub struct UpgradeShopState {
    pub selected: usize,
}

impl UpgradeShopState {
    pub fn new() -> (s: Self)
        ensures
            s.selected == 0,
    {
        Self { selected: 0 }
    }
}

/// What a frame of the upgrade shop did.
#[derive(Clone, Copy, Debug, PartialEq, Eq, Structural)]
pub enum ShopAction {
    /// Back to the title screen.
    Leave,
    /// Moved the cursor, or nothing.
    Browse,
    /// Bought the selected upgrade; the save data should be written out.
    Bought,
}

pub open spec fn key_pressed(v: InputView, k: GameKey) -> bool {
    v.pressed[key_index_spec(k)]
}

/// The upgrades after buying shop entry `i`: one more level on its track, capped at the
/// track's maximum.
pub open spec fn upgrade_applied(u: PermanentUpgrades, i: int) -> PermanentUpgrades {
    match upgrade_track(i) {
        UpgradeTrack::Vitality => PermanentUpgrades { vitality_level: if u.vitality_level + 1 < 3 { (u.vitality_level + 1) as u32 } else { 3 }, ..u },
        UpgradeTrack::Strength => PermanentUpgrades { strength_level: if u.strength_level + 1 < 2 { (u.strength_level + 1) as u32 } else { 2 }, ..u },
        UpgradeTrack::TwinDash => PermanentUpgrades { twin_dash: true, ..u },
        UpgradeTrack::BoonReroll => PermanentUpgrades { boon_reroll_level: if u.boon_reroll_level + 1 < 2 { (u.boon_reroll_level + 1) as u32 } else { 2 }, ..u },
    }
}

/// Shop entry `i` is for sale: not yet bought, and affordable.
pub open spec fn buyable(save: SaveData, i: int) -> bool {
    let d = crate::game::save::UpgradeDef { name: "", description: "", cost: upgrade_cost(i), max_level: 1, track: upgrade_track(i), tier: upgrade_tier(i) };
    current_level_spec(d, save.upgrades) < 1 && save.total_gold >= upgrade_cost(i)
}

/// The cursor after the frame's up and down presses (entries 0 to 7).
pub open spec fn cursor_after(sel: usize, up: bool, down: bool) -> usize {
    let s1 = if up && sel > 0 { (sel - 1) as usize } else { sel };
    if down && s1 < 7 { (s1 + 1) as usize } else { s1 }
}

/// One frame of the upgrade shop: pause or quit leaves; up and down move the cursor;
/// attack buys the selected upgrade when it is not yet owned and there is gold enough.
pub fn update_upgrade_shop(shop: &mut UpgradeShopState, save: &mut SaveData, input: &InputState) -> (a: ShopAction)
    requires
        old(shop).selected < 8,
    ensures
        ({
            let v = input@;
            if key_pressed(v, GameKey::Pause) || key_pressed(v, GameKey::Quit) {
                a == ShopAction::Leave && final(shop).selected == old(shop).selected && *final(save) == *old(save)
            } else {
                let sel = cursor_after(old(shop).selected, key_pressed(v, GameKey::Up), key_pressed(v, GameKey::Down));
                &&& final(shop).selected == sel
                &&& if key_pressed(v, GameKey::Attack) && buyable(*old(save), sel as int) {
                    &&& a == ShopAction::Bought
                    &&& *final(save) == (SaveData {
                        total_gold: (old(save).total_gold - upgrade_cost(sel as int)) as u32,
                        upgrades: upgrade_applied(old(save).upgrades, sel as int),
                        ..*old(save)
                    })
                } else {
                    a == ShopAction::Browse && *final(save) == *old(save)
                }
            }
        }),
{
    if input.is_pressed(GameKey::Pause) || input.is_pressed(GameKey::Quit) {
        return ShopAction::Leave;
    }
    let ups = upgrades();
    let max_idx = ups.len() - 1;
    if input.is_pressed(GameKey::Up) && shop.selected > 0 {
        shop.selected -= 1;
    }
    if input.is_pressed(GameKey::Down) && shop.selected < max_idx {
        shop.selected += 1;
    }
    if input.is_pressed(GameKey::Attack) {
        let idx = shop.selected;
        let upgrade = ups[idx];
        let current_level = upgrade.current_level(&save.upgrades);
        if current_level < upgrade.max_level && save.can_afford(upgrade.cost) {
            save.spend_gold(upgrade.cost);
            match upgrade.track {
                UpgradeTrack::Vitality => {
                    let next = save.upgrades.vitality_level + 1;
                    save.upgrades.vitality_level = if next < 3 { next } else { 3 };
                },
                UpgradeTrack::Strength => {
                    let next = save.upgrades.strength_level + 1;
                    save.upgrades.strength_level = if next < 2 { next } else { 2 };
                },
                UpgradeTrack::TwinDash => {
                    save.upgrades.twin_dash = true;
                },
                UpgradeTrack::BoonReroll => {
                    let next = save.upgrades.boon_reroll_level + 1;
                    save.upgrades.boon_reroll_level = if next < 2 { next } else { 2 };
                },
            }
            return ShopAction::Bought;
        }
    }
    ShopAction::Browse
}

/// What the title menu asked for this frame.
#[derive(Clone, Copy, Debug, PartialEq, Eq, Structural)]
pub enum TitleChoice {
    Stay,
    NewRun,
    Upgrades,
    Quit,
}

/// One frame of the title menu (entries: new run, upgrades, quit): the quit key quits;
/// up and down move the cursor; attack picks the entry under it.
pub fn update_title_menu(selected: &mut usize, input: &InputState) -> (c: TitleChoice)
    requires
        *old(selected) <= 2,
    ensures
        ({
            let v = input@;
            if key_pressed(v, GameKey::Quit) {
                c == TitleChoice::Quit && *final(selected) == *old(selected)
            } else {
                let s1 = if key_pressed(v, GameKey::Up) && *old(selected) > 0 { *old(selected) - 1 } else { *old(selected) as int };
                let s2 = if key_pressed(v, GameKey::Down) && s1 < 2 { s1 + 1 } else { s1 };
                &&& *final(selected) == s2
                &&& c == if !key_pressed(v, GameKey::Attack) {
                    TitleChoice::Stay
                } else if s2 == 0 {
                    TitleChoice::NewRun
                } else if s2 == 1 {
                    TitleChoice::Upgrades
                } else {
                    TitleChoice::Quit
                }
            }
        }),
{
    if input.is_pressed(GameKey::Quit) {
        return TitleChoice::Quit;
    }
    if input.is_pressed(GameKey::Up) && *selected > 0 {
        *selected -= 1;
    }
    if input.is_pressed(GameKey::Down) && *selected < 2 {
        *selected += 1;
    }
    if input.is_pressed(GameKey::Attack) {
        if *selected == 0 {
            return TitleChoice::NewRun;
        } else if *selected == 1 {
            return TitleChoice::Upgrades;
        } else {
            return TitleChoice::Quit;
        }
    }
    TitleChoice::Stay
}

/// The colors of one line of the upgrade shop.
#[derive(Clone, Copy, Debug)]
pub struct ShopLineColors {
    pub name: Color,
    pub description: Color,
    pub price: Color,
}

/// Color of a shop line's name: owned lines green; otherwise white when selected and
/// affordable, red when selected and too dear, light gray when affordable, dark gray when not.
pub open spec fn shop_name_color(is_owned: bool, is_selected: bool, can_afford: bool) -> Color {
    if is_owned {
        [80u8, 180, 80]
    } else if is_selected && can_afford {
        [255u8, 255, 255]
    } else if is_selected {
        [180u8, 80, 80]
    } else if can_afford {
        [160u8, 160, 170]
    } else {
        [80u8, 80, 90]
    }
}

/// Color of a shop line's description: green when owned, gray otherwise.
pub open spec fn shop_description_color(is_owned: bool) -> Color {
    if is_owned { [60u8, 120, 60] } else { [100u8, 100, 110] }
}

/// Color of a shop line's price (or its "owned" mark): green when owned, gold when
/// affordable, dull red when not.
pub open spec fn shop_price_color(is_owned: bool, can_afford: bool) -> Color {
    if is_owned { [80u8, 180, 80] } else if can_afford { [255u8, 200, 50] } else { [100u8, 60, 60] }
}

/// How a shop line is colored.
pub fn shop_line_colors(is_owned: bool, is_selected: bool, can_afford: bool) -> (c: ShopLineColors)
    ensures
        c.name == shop_name_color(is_owned, is_selected, can_afford),
        c.description == shop_description_color(is_owned),
        c.price == shop_price_color(is_owned, can_afford),
{
    let name: Color = if is_owned {
        [80, 180, 80]
    } else if is_selected && can_afford {
        [255, 255, 255]
    } else if is_selected {
        [180, 80, 80]
    } else if can_afford {
        [160, 160, 170]
    } else {
        [80, 80, 90]
    };
    let description: Color = if is_owned { [60, 120, 60] } else { [100, 100, 110] };
    let price: Color = if is_owned { [80, 180, 80] } else if can_afford { [255, 200, 50] } else { [100, 60, 60] };
    ShopLineColors { name, description, price }
}

/// Which shop entries are for sale: an entry sells when the player has its price and its
/// step of the track is not owned yet, that is, the track's level is at most the step
/// (twin dash: not owned). Buying raises the entry's track by one level (up to the track's
/// maximum) and leaves the other tracks alone.
pub proof fn law_shop_for_sale(save: SaveData, i: int)
    requires
        0 <= i < 8,
    ensures
        buyable(save, i) <==> save.total_gold >= upgrade_cost(i) && match upgrade_track(i) {
            UpgradeTrack::Vitality => save.upgrades.vitality_level <= upgrade_tier(i),
            UpgradeTrack::Strength => save.upgrades.strength_level <= upgrade_tier(i),
            UpgradeTrack::TwinDash => !save.upgrades.twin_dash,
            UpgradeTrack::BoonReroll => save.upgrades.boon_reroll_level <= upgrade_tier(i),
        },
        ({
            let u = save.upgrades;
            let n = upgrade_applied(u, i);
            match upgrade_track(i) {
                UpgradeTrack::Vitality => n == (PermanentUpgrades { vitality_level: if u.vitality_level < 3 { (u.vitality_level + 1) as u32 } else { 3 }, ..u }),
                UpgradeTrack::Strength => n == (PermanentUpgrades { strength_level: if u.strength_level < 2 { (u.strength_level + 1) as u32 } else { 2 }, ..u }),
                UpgradeTrack::TwinDash => n == (PermanentUpgrades { twin_dash: true, ..u }),
                UpgradeTrack::BoonReroll => n == (PermanentUpgrades { boon_reroll_level: if u.boon_reroll_level < 2 { (u.boon_reroll_level + 1) as u32 } else { 2 }, ..u }),
            }
        }),
{
}

} // verus!

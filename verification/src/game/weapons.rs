use vstd::prelude::*;
use crate::engine::color::Color;

verus! {

#[derive(Clone, Copy, PartialEq, Eq, Hash, Debug, Structural)]
pub enum WeaponId {
    Sword,
    Spear,
    Daggers,
}

pub open spec fn weapon_color_spec(id: WeaponId) -> Color {
    match id {
        WeaponId::Sword => [180, 180, 200],
        WeaponId::Spear => [160, 120, 80],
        WeaponId::Daggers => [80, 180, 80],
    }
}

/// The card color of a weapon on the weapon select screen.
pub fn weapon_color(id: WeaponId) -> (c: Color)
    ensures
        c == weapon_color_spec(id),
{
    match id {
        WeaponId::Sword => [180, 180, 200],
        WeaponId::Spear => [160, 120, 80],
        WeaponId::Daggers => [80, 180, 80],
    }
}

/// A weapon's statistics. Times are in milliseconds, lengths in pixels and the knockback
/// in pixels per second.
#[derive(Clone, Copy)]
pub struct WeaponDef {
    pub id: WeaponId,
    pub name: &'static str,
    pub base_damage: i32,
    pub attack_cooldown_ms: u32,
    pub hitbox_w: i32,
    pub hitbox_h: i32,
    pub hitbox_offset_x: i32,
    pub hitbox_offset_y: i32,
    pub active_frame_start: usize,
    pub active_frame_end: usize,
    pub knockback_force: i32,
    pub description: &'static str,
    pub speed_label: &'static str,
    pub range_label: &'static str,
}

/// Damage of a weapon.
pub open spec fn weapon_damage(id: WeaponId) -> i32 {
    match id { WeaponId::Sword => 2, WeaponId::Spear => 3, WeaponId::Daggers => 1 }
}

/// Time between attacks, in milliseconds.
pub open spec fn weapon_cooldown_ms(id: WeaponId) -> u32 {
    match id { WeaponId::Sword => 350, WeaponId::Spear => 500, WeaponId::Daggers => 150 }
}

/// Hitbox width, height, and offset from the wielder, in pixels.
pub open spec fn weapon_hitbox(id: WeaponId) -> (i32, i32, i32, i32) {
    match id {
        WeaponId::Sword => (12, 8, 8, 3),
        WeaponId::Spear => (18, 4, 10, 5),
        WeaponId::Daggers => (6, 10, 5, 2),
    }
}

/// First and last frame of the attack animation on which the hitbox is live.
pub open spec fn weapon_active_frames(id: WeaponId) -> (usize, usize) {
    match id { WeaponId::Sword => (2, 3), WeaponId::Spear => (2, 3), WeaponId::Daggers => (1, 2) }
}

/// Knockback given to a struck enemy, in pixels per second.
pub open spec fn weapon_knockback(id: WeaponId) -> i32 {
    match id { WeaponId::Sword => 60, WeaponId::Spear => 80, WeaponId::Daggers => 30 }
}

/// Name, description, speed label and range label.
pub open spec fn weapon_texts(id: WeaponId) -> (Seq<char>, Seq<char>, Seq<char>, Seq<char>) {
    match id {
        WeaponId::Sword => ("Sword"@, "Reliable blade"@, "Normal"@, "Medium"@),
        WeaponId::Spear => ("Spear"@, "Precise thrust"@, "Slow"@, "Long"@),
        WeaponId::Daggers => ("Daggers"@, "Rapid strikes"@, "Fast"@, "Short"@),
    }
}

/// The weapon `w` has the statistics of `id`.
pub open spec fn is_weapon(w: WeaponDef, id: WeaponId) -> bool {
    &&& w.id == id
    &&& w.base_damage == weapon_damage(id)
    &&& w.attack_cooldown_ms == weapon_cooldown_ms(id)
    &&& (w.hitbox_w, w.hitbox_h, w.hitbox_offset_x, w.hitbox_offset_y) == weapon_hitbox(id)
    &&& (w.active_frame_start, w.active_frame_end) == weapon_active_frames(id)
    &&& w.knockback_force == weapon_knockback(id)
    &&& (w.name@, w.description@, w.speed_label@, w.range_label@) == weapon_texts(id)
}

/// The statistics of a weapon: the sword is balanced, the spear slow and long, the daggers
/// quick and short.
pub fn get_weapon(id: WeaponId) -> (w: WeaponDef)
    ensures
        is_weapon(w, id),
{
    match id {
        WeaponId::Sword => WeaponDef {
            id: WeaponId::Sword,
            name: "Sword",
            base_damage: 2,
            attack_cooldown_ms: 350,
            hitbox_w: 12,
            hitbox_h: 8,
            hitbox_offset_x: 8,
            hitbox_offset_y: 3,
            active_frame_start: 2,
            active_frame_end: 3,
            knockback_force: 60,
            description: "Reliable blade",
            speed_label: "Normal",
            range_label: "Medium",
        },
        WeaponId::Spear => WeaponDef {
            id: WeaponId::Spear,
            name: "Spear",
            base_damage: 3,
            attack_cooldown_ms: 500,
            hitbox_w: 18,
            hitbox_h: 4,
            hitbox_offset_x: 10,
            hitbox_offset_y: 5,
            active_frame_start: 2,
            active_frame_end: 3,
            knockback_force: 80,
            description: "Precise thrust",
            speed_label: "Slow",
            range_label: "Long",
        },
        WeaponId::Daggers => WeaponDef {
            id: WeaponId::Daggers,
            name: "Daggers",
            base_damage: 1,
            attack_cooldown_ms: 150,
            hitbox_w: 6,
            hitbox_h: 10,
            hitbox_offset_x: 5,
            hitbox_offset_y: 2,
            active_frame_start: 1,
            active_frame_end: 2,
            knockback_force: 30,
            description: "Rapid strikes",
            speed_label: "Fast",
            range_label: "Short",
        },
    }
}

/// The three weapons: sword, spear, daggers.
pub fn all_weapons() -> (ws: [WeaponDef; 3])
    ensures
        is_weapon(ws[0], WeaponId::Sword),
        is_weapon(ws[1], WeaponId::Spear),
        is_weapon(ws[2], WeaponId::Daggers),
{
    [get_weapon(WeaponId::Sword), get_weapon(WeaponId::Spear), get_weapon(WeaponId::Daggers)]
}

/// The arsenal's balance: the sword sits between daggers and spear in damage and in
/// cooldown; the spear reaches farthest; the daggers strike fastest; every weapon winds up
/// before its hitbox goes live, has a live window, a hitbox of positive size in front of
/// it, and non-empty labels.
pub proof fn law_weapon_balance(w: WeaponDef, id: WeaponId)
    requires
        is_weapon(w, id),
    ensures
        weapon_damage(WeaponId::Daggers) < weapon_damage(WeaponId::Sword) < weapon_damage(WeaponId::Spear),
        weapon_cooldown_ms(WeaponId::Daggers) < weapon_cooldown_ms(WeaponId::Sword) < weapon_cooldown_ms(WeaponId::Spear),
        weapon_hitbox(WeaponId::Spear).0 >= w.hitbox_w,
        weapon_hitbox(WeaponId::Spear).2 >= w.hitbox_offset_x,
        weapon_cooldown_ms(WeaponId::Daggers) <= w.attack_cooldown_ms,
        0 < w.active_frame_start <= w.active_frame_end,
        w.hitbox_w > 0 && w.hitbox_h > 0 && w.hitbox_offset_x > 0,
        w.name@.len() > 0 && w.description@.len() > 0 && w.speed_label@.len() > 0 && w.range_label@.len() > 0,
{
    reveal_strlit("Sword");
    reveal_strlit("Reliable blade");
    reveal_strlit("Normal");
    reveal_strlit("Medium");
    reveal_strlit("Spear");
    reveal_strlit("Precise thrust");
    reveal_strlit("Slow");
    reveal_strlit("Long");
    reveal_strlit("Daggers");
    reveal_strlit("Rapid strikes");
    reveal_strlit("Fast");
    reveal_strlit("Short");
}

} // verus!

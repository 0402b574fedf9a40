use cryptfall::game::boons::effects::PlayerBoons;
use cryptfall::game::boons::BoonId;

#[test]
fn boons_start_empty() {
    let boons = PlayerBoons::new();
    assert_eq!(boons.damage_flat_bonus, 0);
    assert_eq!(boons.berserker_stacks, 0);
    assert_eq!(boons.swift_strike_stacks, 0);
    assert_eq!(boons.max_hp_bonus, 0);
    assert_eq!(boons.swift_feet_stacks, 0);
    assert!(boons.active.is_empty());
}

#[test]
fn flat_damage_and_health_stack() {
    let mut boons = PlayerBoons::new();
    boons.add(BoonId::SharpenedBlade);
    assert_eq!(boons.damage_flat_bonus, 1);
    boons.add(BoonId::SharpenedBlade);
    boons.add(BoonId::SharpenedBlade);
    assert_eq!(boons.damage_flat_bonus, 3);
    boons.add(BoonId::ToughSkin);
    boons.add(BoonId::ToughSkin);
    assert_eq!(boons.max_hp_bonus, 2);
    assert!(boons.has_boon(BoonId::ToughSkin));
    assert!(!boons.has_boon(BoonId::Fury));
}

#[test]
fn multiplier_boons_count_stacks() {
    let mut boons = PlayerBoons::new();
    boons.add(BoonId::SwiftFeet);
    boons.add(BoonId::SwiftFeet);
    boons.add(BoonId::BerserkersRage);
    boons.add(BoonId::SwiftStrikes);
    boons.add(BoonId::GoldMagnet);
    assert_eq!(boons.swift_feet_stacks, 2);
    assert_eq!(boons.berserker_stacks, 1);
    assert_eq!(boons.swift_strike_stacks, 1);
    assert_eq!(boons.gold_magnet_stacks, 1);
    assert_eq!(boons.phantom_dash_stacks, 0);
}

#[test]
fn shield_and_second_wind_reset_per_floor() {
    let mut boons = PlayerBoons::new();
    boons.add(BoonId::IronShield);
    assert_eq!(boons.shield_max, 2);
    assert_eq!(boons.shield_charges, 0);
    boons.reset_floor_state();
    assert_eq!(boons.shield_charges, 2);
    boons.shield_charges -= 1;
    boons.reset_floor_state();
    assert_eq!(boons.shield_charges, 2);
    boons.add(BoonId::SecondWind);
    assert!(boons.has_second_wind);
    boons.second_wind_used = true;
    boons.reset_floor_state();
    assert!(!boons.second_wind_used);
}

#[test]
fn fury_counts_kills_per_room() {
    let mut boons = PlayerBoons::new();
    boons.add(BoonId::Fury);
    boons.record_kill();
    boons.record_kill();
    assert_eq!(boons.fury_kills_this_room, 2);
    boons.reset_room_state();
    assert_eq!(boons.fury_kills_this_room, 0);
}

#[test]
fn deaths_bargain_sets_health_to_one() {
    let mut boons = PlayerBoons::new();
    boons.add(BoonId::ToughSkin);
    boons.add(BoonId::ToughSkin);
    boons.add(BoonId::DeathsBargain);
    assert_eq!(boons.damage_flat_bonus, 3);
    assert!(boons.has_deaths_bargain);
    assert_eq!(5 + boons.effective_max_hp_bonus(5), 1);
    let plain = PlayerBoons::new();
    assert_eq!(plain.effective_max_hp_bonus(5), 0);
}

#[test]
fn flags_from_single_boons() {
    let mut boons = PlayerBoons::new();
    for id in [BoonId::KillingBlow, BoonId::ChainLightning, BoonId::ProjectileSlash, BoonId::CriticalEdge, BoonId::LifeSteal, BoonId::VampiricTouch, BoonId::Retaliation, BoonId::DashStrike, BoonId::Lucky, BoonId::TreasureSense] {
        boons.add(id);
    }
    assert_eq!(boons.on_kill_explode_damage, 2);
    assert_eq!(boons.chain_lightning_targets, 2);
    assert!(boons.has_projectile_attack && boons.has_crit && boons.has_life_steal);
    assert!(boons.has_heal_on_hit && boons.has_retaliation && boons.lucky && boons.treasure_sense);
    assert_eq!(boons.on_dash_damage, 2);
    boons.active.clear();
    boons.recalculate();
    assert!(!boons.lucky);
    assert_eq!(boons.on_dash_damage, 0);
}

#[test]
fn test_sharpened_blade_stacks() {
    let mut boons = PlayerBoons::new();
    boons.add(BoonId::SharpenedBlade);
    assert_eq!(boons.damage_flat_bonus, 1);
    boons.add(BoonId::SharpenedBlade);
    assert_eq!(boons.damage_flat_bonus, 2);
    boons.add(BoonId::SharpenedBlade);
    assert_eq!(boons.damage_flat_bonus, 3);
}

#[test]
fn test_tough_skin_stacks() {
    let mut boons = PlayerBoons::new();
    boons.add(BoonId::ToughSkin);
    boons.add(BoonId::ToughSkin);
    assert_eq!(boons.max_hp_bonus, 2);
}

#[test]
fn test_iron_shield_floor_reset() {
    let mut boons = PlayerBoons::new();
    boons.add(BoonId::IronShield);
    assert_eq!(boons.shield_max, 2);
    assert_eq!(boons.shield_charges, 0); // Not set until reset_floor_state
    boons.reset_floor_state();
    assert_eq!(boons.shield_charges, 2);
    boons.shield_charges -= 1;
    assert_eq!(boons.shield_charges, 1);
    boons.reset_floor_state();
    assert_eq!(boons.shield_charges, 2);
}

#[test]
fn test_second_wind_floor_reset() {
    let mut boons = PlayerBoons::new();
    boons.add(BoonId::SecondWind);
    assert!(boons.has_second_wind);
    assert!(!boons.second_wind_used);
    boons.second_wind_used = true;
    boons.reset_floor_state();
    assert!(!boons.second_wind_used);
}

#[test]
fn test_deaths_bargain() {
    let mut boons = PlayerBoons::new();
    boons.add(BoonId::DeathsBargain);
    assert_eq!(boons.damage_flat_bonus, 3);
    assert!(boons.has_deaths_bargain);
    // With base max HP of 5, effective bonus should bring it to 1
    let bonus = boons.effective_max_hp_bonus(5);
    assert_eq!(5 + bonus, 1);
}

#[test]
fn test_deaths_bargain_with_tough_skin() {
    let mut boons = PlayerBoons::new();
    boons.add(BoonId::ToughSkin);
    boons.add(BoonId::ToughSkin);
    boons.add(BoonId::DeathsBargain);
    assert_eq!(boons.damage_flat_bonus, 3);
    // ToughSkin gives +2 max HP, but Death's Bargain overrides to 1
    let bonus = boons.effective_max_hp_bonus(5);
    assert_eq!(5 + bonus, 1);
}

#[test]
fn test_has_boon() {
    let mut boons = PlayerBoons::new();
    assert!(!boons.has_boon(BoonId::Lucky));
    boons.add(BoonId::Lucky);
    assert!(boons.has_boon(BoonId::Lucky));
    assert!(!boons.has_boon(BoonId::Fury));
}

/// A multiplier given in percent, as the game uses it.
fn ratio(pct: u64) -> f32 {
    pct as f32 / 100.0
}

#[test]
fn test_defaults() {
    let boons = PlayerBoons::new();
    assert_eq!(boons.damage_flat_bonus, 0);
    assert_eq!(ratio(boons.damage_mult_pct()), 1.0);
    assert_eq!(0.7f32.powi(boons.swift_strike_stacks as i32), 1.0);
    assert_eq!(boons.max_hp_bonus, 0);
    assert_eq!(ratio(boons.move_speed_pct()), 1.0);
    assert!(boons.active.is_empty());
}

#[test]
fn test_swift_feet_stacks() {
    let mut boons = PlayerBoons::new();
    boons.add(BoonId::SwiftFeet);
    assert!((ratio(boons.move_speed_pct()) - 1.2).abs() < 0.001);
    boons.add(BoonId::SwiftFeet);
    assert!((ratio(boons.move_speed_pct()) - 1.4).abs() < 0.001);
}

#[test]
fn test_berserkers_rage() {
    let mut boons = PlayerBoons::new();
    boons.add(BoonId::BerserkersRage);
    assert!((ratio(boons.damage_mult_pct()) - 1.25).abs() < 0.001);
}

#[test]
fn test_swift_strikes() {
    let mut boons = PlayerBoons::new();
    boons.add(BoonId::SwiftStrikes);
    assert_eq!(boons.swift_strike_stacks, 1);
    assert!((0.7f32.powi(boons.swift_strike_stacks as i32) - 0.7).abs() < 0.001);
}

#[test]
fn test_fury_damage() {
    let mut boons = PlayerBoons::new();
    boons.add(BoonId::Fury);
    let fury = |b: &PlayerBoons| b.fury_damage_pct() as f32 / 100.0;
    assert!((fury(&boons) - 1.0).abs() < 0.001);
    boons.record_kill();
    assert!((fury(&boons) - 1.05).abs() < 0.001);
    boons.record_kill();
    boons.record_kill();
    assert!((fury(&boons) - 1.15).abs() < 0.001);
    boons.reset_room_state();
    assert!((fury(&boons) - 1.0).abs() < 0.001);
}

#[test]
fn test_combined_offense() {
    let mut boons = PlayerBoons::new();
    boons.add(BoonId::SharpenedBlade);
    boons.add(BoonId::BerserkersRage);
    boons.add(BoonId::CriticalEdge);
    assert_eq!(boons.damage_flat_bonus, 1);
    assert!((ratio(boons.damage_mult_pct()) - 1.25).abs() < 0.001);
    assert!((boons.crit_chance_pct() as f32 / 100.0 - 0.2).abs() < 0.001);
}

#[test]
fn test_mobility_boons() {
    let mut boons = PlayerBoons::new();
    boons.add(BoonId::PhantomDash);
    boons.add(BoonId::ShadowStep);
    boons.add(BoonId::DashStrike);
    assert!((ratio(boons.dash_distance_pct()) - 1.4).abs() < 0.001);
    assert!((ratio(boons.dash_cooldown_reduction_pct()) - 0.5).abs() < 0.001);
    assert_eq!(boons.on_dash_damage, 2);
}

#[test]
fn test_special_boons() {
    let mut boons = PlayerBoons::new();
    boons.add(BoonId::GoldMagnet);
    boons.add(BoonId::Lucky);
    boons.add(BoonId::TreasureSense);
    assert!((ratio(boons.gold_mult_pct()) - 1.5).abs() < 0.001);
    assert!(boons.lucky);
    assert!(boons.treasure_sense);
}

#[test]
fn test_recalculate_resets_properly() {
    let mut boons = PlayerBoons::new();
    boons.add(BoonId::SharpenedBlade);
    boons.add(BoonId::BerserkersRage);
    assert_eq!(boons.damage_flat_bonus, 1);
    assert!((ratio(boons.damage_mult_pct()) - 1.25).abs() < 0.001);

    // Remove BerserkersRage manually and recalculate
    boons.active.retain(|&b| b != BoonId::BerserkersRage);
    boons.recalculate();
    assert_eq!(boons.damage_flat_bonus, 1);
    assert!((ratio(boons.damage_mult_pct()) - 1.0).abs() < 0.001);
}

#[test]
fn test_healing_chances() {
    let mut boons = PlayerBoons::new();
    assert_eq!((boons.life_steal_pct(), boons.heal_on_hit_pct()), (0, 0));
    boons.add(BoonId::LifeSteal);
    boons.add(BoonId::VampiricTouch);
    assert_eq!((boons.life_steal_pct(), boons.heal_on_hit_pct()), (15, 10));
}

use cryptfall::game::weapons::{all_weapons, get_weapon, weapon_color, WeaponId};

fn secs(ms: u32) -> f32 {
    ms as f32 / 1000.0
}

#[test]
fn test_get_weapon_returns_correct_sword() {
    let w = get_weapon(WeaponId::Sword);
    assert_eq!(w.id, WeaponId::Sword);
    assert_eq!(w.name, "Sword");
    assert_eq!(w.base_damage, 2);
    assert!((secs(w.attack_cooldown_ms) - 0.35).abs() < f32::EPSILON);
    assert!((w.knockback_force as f32 - 60.0).abs() < f32::EPSILON);
}

#[test]
fn test_get_weapon_returns_correct_spear() {
    let w = get_weapon(WeaponId::Spear);
    assert_eq!(w.id, WeaponId::Spear);
    assert_eq!(w.name, "Spear");
    assert_eq!(w.base_damage, 3);
    assert!((secs(w.attack_cooldown_ms) - 0.5).abs() < f32::EPSILON);
    assert!((w.knockback_force as f32 - 80.0).abs() < f32::EPSILON);
}

#[test]
fn test_get_weapon_returns_correct_daggers() {
    let w = get_weapon(WeaponId::Daggers);
    assert_eq!(w.id, WeaponId::Daggers);
    assert_eq!(w.name, "Daggers");
    assert_eq!(w.base_damage, 1);
    assert!((secs(w.attack_cooldown_ms) - 0.15).abs() < f32::EPSILON);
    assert!((w.knockback_force as f32 - 30.0).abs() < f32::EPSILON);
}

#[test]
fn test_all_weapons_returns_three_distinct() {
    let weapons = all_weapons();
    assert_eq!(weapons.len(), 3);
    assert_eq!(weapons[0].id, WeaponId::Sword);
    assert_eq!(weapons[1].id, WeaponId::Spear);
    assert_eq!(weapons[2].id, WeaponId::Daggers);
}

#[test]
fn test_sword_is_balanced() {
    let sword = get_weapon(WeaponId::Sword);
    let spear = get_weapon(WeaponId::Spear);
    let daggers = get_weapon(WeaponId::Daggers);

    // Sword damage is between daggers and spear
    assert!(sword.base_damage > daggers.base_damage);
    assert!(sword.base_damage < spear.base_damage);

    // Sword cooldown is between daggers and spear
    assert!(sword.attack_cooldown_ms > daggers.attack_cooldown_ms);
    assert!(sword.attack_cooldown_ms < spear.attack_cooldown_ms);
}

#[test]
fn test_spear_has_longest_range() {
    let weapons = all_weapons();
    let spear = get_weapon(WeaponId::Spear);
    for w in &weapons {
        assert!(spear.hitbox_w >= w.hitbox_w);
        assert!(spear.hitbox_offset_x >= w.hitbox_offset_x);
    }
}

#[test]
fn test_daggers_fastest_cooldown() {
    let weapons = all_weapons();
    let daggers = get_weapon(WeaponId::Daggers);
    for w in &weapons {
        assert!(daggers.attack_cooldown_ms <= w.attack_cooldown_ms);
    }
}

#[test]
fn test_weapon_labels_non_empty() {
    for w in &all_weapons() {
        assert!(!w.speed_label.is_empty());
        assert!(!w.range_label.is_empty());
        assert!(!w.description.is_empty());
        assert!(!w.name.is_empty());
    }
}

#[test]
fn test_active_frames_valid() {
    for w in &all_weapons() {
        assert!(w.active_frame_start <= w.active_frame_end);
        assert!(w.active_frame_start > 0, "active frames should not start at frame 0 (wind-up needed)");
    }
}

#[test]
fn test_hitbox_dimensions_positive() {
    for w in &all_weapons() {
        assert!(w.hitbox_w > 0);
        assert!(w.hitbox_h > 0);
        assert!(w.hitbox_offset_x > 0);
    }
}

#[test]
fn test_weapon_texts_and_geometry() {
    let spear = get_weapon(WeaponId::Spear);
    assert_eq!(spear.description, "Precise thrust");
    assert_eq!(spear.speed_label, "Slow");
    assert_eq!(spear.range_label, "Long");
    assert_eq!((spear.hitbox_w, spear.hitbox_h, spear.hitbox_offset_x, spear.hitbox_offset_y), (18, 4, 10, 5));
    assert_eq!((spear.active_frame_start, spear.active_frame_end), (2, 3));
    let daggers = get_weapon(WeaponId::Daggers);
    assert_eq!((daggers.active_frame_start, daggers.active_frame_end), (1, 2));
    assert_eq!(weapon_color(WeaponId::Daggers), [80, 180, 80]);
}

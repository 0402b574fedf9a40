use cryptfall::game::pickup::PickupType;
use cryptfall::game::player::{
    player_attack_rect, player_step, player_take_damage, PlayerAnim, PlayerMotion, PlayerSense,
    PlayerState,
};

fn sense(moving: bool, attack: bool, dash: bool) -> PlayerSense {
    PlayerSense { moving, attack, dash, attack_ready: true, anim_finished: false, dash_over: false }
}

#[test]
fn test_attack_takes_priority_over_dash() {
    let (st, act) = player_step(PlayerState::Walking, sense(true, true, true));
    assert_eq!(st, PlayerState::Attacking);
    assert!(act.start_attack && !act.start_dash);
    assert_eq!(act.anim, Some(PlayerAnim::Attack));
    assert_eq!(act.motion, PlayerMotion::Still);
}

#[test]
fn test_attack_waits_for_cooldown() {
    let s = PlayerSense { attack_ready: false, ..sense(false, true, false) };
    let (st, act) = player_step(PlayerState::Idle, s);
    assert_eq!(st, PlayerState::Idle);
    assert!(!act.start_attack);
}

#[test]
fn test_dash_needs_a_direction() {
    let (st, _) = player_step(PlayerState::Idle, sense(false, false, true));
    assert_eq!(st, PlayerState::Idle);
    let (st, act) = player_step(PlayerState::Idle, sense(true, false, true));
    assert_eq!(st, PlayerState::Dashing);
    assert!(act.start_dash);
    assert_eq!(act.motion, PlayerMotion::DashStart);
    let (st, act) = player_step(PlayerState::Dashing, sense(false, false, false));
    assert_eq!(st, PlayerState::Dashing);
    assert_eq!(act.motion, PlayerMotion::DashCarry);
    assert_eq!(act.anim, None);
    let (st, act) = player_step(PlayerState::Dashing, PlayerSense { dash_over: true, ..sense(false, false, false) });
    assert_eq!(st, PlayerState::Idle);
    assert_eq!(act.anim, Some(PlayerAnim::Idle));
}

#[test]
fn test_attack_and_hit_lock_until_animation_ends() {
    let (st, act) = player_step(PlayerState::Attacking, sense(true, true, true));
    assert_eq!(st, PlayerState::Attacking);
    assert_eq!(act.motion, PlayerMotion::Still);
    let (st, act) = player_step(PlayerState::Hit, PlayerSense { anim_finished: true, ..sense(true, false, false) });
    assert_eq!(st, PlayerState::Walking);
    assert_eq!(act.anim, Some(PlayerAnim::Walk));
    assert_eq!(act.motion, PlayerMotion::Still);
    let (st, act) = player_step(PlayerState::Dead, sense(true, true, true));
    assert_eq!(st, PlayerState::Dead);
    assert_eq!(act.anim, None);
}

#[test]
fn test_player_damage() {
    let h = player_take_damage(5, PlayerState::Walking, false, 1);
    assert!(h.landed && !h.died);
    assert_eq!((h.hp, h.state), (4, PlayerState::Hit));
    let h = player_take_damage(1, PlayerState::Idle, false, 2);
    assert!(h.died);
    assert_eq!((h.hp, h.state), (0, PlayerState::Dead));
    let h = player_take_damage(3, PlayerState::Dashing, false, 2);
    assert!(!h.landed);
    assert_eq!(h.hp, 3);
    let h = player_take_damage(3, PlayerState::Idle, true, 2);
    assert!(!h.landed);
    let h = player_take_damage(0, PlayerState::Dead, false, 2);
    assert!(!h.landed && !h.died);
}

#[test]
fn test_attack_hitbox_window() {
    assert!(PlayerState::Attacking.attack_live(2));
    assert!(!PlayerState::Attacking.attack_live(1));
    assert!(!PlayerState::Idle.attack_live(2));
    assert!(PlayerState::Dashing.is_invincible(false));
    assert!(!PlayerState::Walking.is_invincible(false));
    assert_eq!(player_attack_rect(false), (-10, 3, 10, 8));
}

#[test]
fn test_heal_amounts() {
    assert_eq!(PickupType::SmallHeal.heal_amount(), 1);
    assert_eq!(PickupType::BigHeal.heal_amount(), 3);
    assert_eq!(PickupType::Gold(7).heal_amount(), 0);
}

use cryptfall::engine::input::{InputState, KeyInput};
use cryptfall::game::enemies::{
    boss_attack_rect, draw_in_range, draw_sample, hurtbox_rect, melee_damage, skeleton_attack_rect, BossBrain,
    BossHitbox, BossSense, Brain, BoneKingState, EnemyCore, EnemyType, GhostBrain, GhostSense,
    GhostState, HitResult, SkeletonBrain, SkeletonSense, SkeletonState, TimerSet,
};

fn lcg(s: u32) -> u32 {
    s.wrapping_mul(1103515245).wrapping_add(12345)
}

fn skel(near: bool, in_reach: bool, lost: bool, timer_done: bool) -> SkeletonSense {
    SkeletonSense { near, in_reach, lost, has_heading: true, timer_done }
}

fn boss_sense(far: bool, in_attack_range: bool, wall_hit: bool, timer_done: bool) -> BossSense {
    BossSense { far, in_attack_range, wall_hit, timer_done, alive: true }
}

#[test]
fn test_draw_sample_values() {
    let mut rng = 0u32;
    assert_eq!(draw_sample(&mut rng), 0);
    assert_eq!(rng, 12345);
    let mut rng = 1u32;
    assert_eq!(draw_sample(&mut rng), 16838);
    assert_eq!(rng, 1103527590);
    let mut rng = u32::MAX;
    let k = draw_sample(&mut rng);
    assert_eq!(rng, lcg(u32::MAX));
    assert_eq!(k, lcg(u32::MAX) >> 16);
}

#[test]
fn test_skeleton_attack_cycle() {
    let mut b = SkeletonBrain::new(42);
    assert_eq!(b.state, SkeletonState::Idle);
    // The player comes near: chase at once.
    let a = b.step(skel(true, false, false, false));
    assert_eq!(b.state, SkeletonState::Chase);
    assert_eq!(a.timer, TimerSet::Fixed(0));
    // Within reach: wind up and fix the heading.
    let a = b.step(skel(true, true, false, false));
    assert_eq!(b.state, SkeletonState::WindUp);
    assert_eq!(a.timer, TimerSet::Fixed(400));
    assert!(a.lock_aim && a.walking);
    // Wind-up over: lunge.
    let a = b.step(skel(true, true, false, true));
    assert_eq!(b.state, SkeletonState::Attack);
    assert!(a.winding_up && a.reset_lunge && !a.attacking);
    assert_eq!(a.timer, TimerSet::Fixed(150));
    assert_eq!(skeleton_attack_rect(b.state, true), Some((8, 3, 10, 8)));
    assert_eq!(skeleton_attack_rect(b.state, false), Some((-10, 3, 10, 8)));
    let a = b.step(skel(true, true, false, true));
    assert_eq!(b.state, SkeletonState::Cooldown);
    assert!(a.attacking);
    assert_eq!(a.timer, TimerSet::Fixed(600));
    assert_eq!(skeleton_attack_rect(b.state, true), None);
    // Cooled down with the player still near: chase again, timer untouched.
    let a = b.step(skel(true, false, false, true));
    assert_eq!(b.state, SkeletonState::Chase);
    assert_eq!(a.timer, TimerSet::Keep);
    assert_eq!(b.rng, 42, "no draw so far");
}

#[test]
fn test_skeleton_patrol_draws_heading_then_duration() {
    let seed = 7u32;
    let mut b = SkeletonBrain::new(seed);
    let a = b.step(skel(false, false, false, true));
    assert_eq!(b.state, SkeletonState::Patrol);
    assert_eq!(a.patrol_angle, Some(lcg(seed) >> 16));
    assert_eq!(a.timer, TimerSet::Random { base_ms: 1500, spread_ms: 2000, sample: lcg(lcg(seed)) >> 16 });
    assert_eq!(b.rng, lcg(lcg(seed)));
    // Patrol time over, nobody near: idle for a random while.
    let a = b.step(skel(false, false, false, true));
    assert_eq!(b.state, SkeletonState::Idle);
    assert!(a.walking);
    assert_eq!(a.timer, TimerSet::Random { base_ms: 1000, spread_ms: 1000, sample: lcg(lcg(lcg(seed))) >> 16 });
}

#[test]
fn test_skeleton_gives_up_and_staggers() {
    let mut b = SkeletonBrain { state: SkeletonState::Chase, rng: 3 };
    b.step(skel(false, false, true, false));
    assert_eq!(b.state, SkeletonState::Idle);
    assert!(b.stagger(true));
    assert_eq!(b.state, SkeletonState::Stagger);
    assert!(!b.stagger(true), "an ongoing stagger does not restart");
    assert!(!b.stagger(false));
    b.step(skel(false, false, false, true));
    assert_eq!(b.state, SkeletonState::Idle);
}

#[test]
fn test_ghost_aims_shoots_and_flees() {
    let mut g = GhostBrain::new(5);
    let quiet = GhostSense { too_close: false, beyond_preferred: false, aim_spoiled: false, out_of_range: false, timer_done: false };
    let a = g.step(GhostSense { timer_done: true, ..quiet });
    assert_eq!(g.state, GhostState::Aim);
    assert!(a.lock_aim);
    assert_eq!(a.timer, TimerSet::Fixed(600));
    let a = g.step(GhostSense { timer_done: true, ..quiet });
    assert_eq!(g.state, GhostState::Shoot);
    assert!(a.fire && a.aiming);
    let a = g.step(quiet);
    assert_eq!(g.state, GhostState::Cooldown);
    assert_eq!(a.timer, TimerSet::Fixed(1200));
    let a = g.step(GhostSense { too_close: true, ..quiet });
    assert_eq!(g.state, GhostState::Reposition);
    assert!(a.flee);
    assert_eq!(a.timer, TimerSet::Fixed(800));
    assert_eq!(g.rng, 5);
    let a = g.step(GhostSense { beyond_preferred: true, ..quiet });
    assert_eq!(g.state, GhostState::Float);
    assert!(a.moving);
    assert_eq!(a.timer, TimerSet::Random { base_ms: 500, spread_ms: 500, sample: lcg(5) >> 16 });
}

#[test]
fn test_ghost_close_player_spoils_aim() {
    let mut g = GhostBrain { state: GhostState::Aim, rng: 9 };
    let a = g.step(GhostSense { too_close: true, beyond_preferred: false, aim_spoiled: true, out_of_range: false, timer_done: true });
    assert_eq!(g.state, GhostState::Reposition);
    assert!(a.flee && !a.fire);
    assert_eq!(a.timer, TimerSet::Fixed(600));
}

#[test]
fn test_boss_alternates_slam_and_sweep() {
    let mut b = BossBrain::new(1);
    let a = b.step(boss_sense(false, false, false, true));
    assert_eq!(b.state, BoneKingState::SlamWindup);
    assert_eq!(a.timer, TimerSet::Fixed(600));
    assert!(!b.next_is_slam);
    let a = b.step(boss_sense(false, false, false, true));
    assert_eq!(b.state, BoneKingState::SlamActive);
    assert!(a.telegraph);
    let a = b.step(boss_sense(false, false, false, false));
    assert!(a.slam_impact);
    assert_eq!(a.hitbox, BossHitbox::Slam);
    let a = b.step(boss_sense(false, false, false, false));
    assert!(!a.slam_impact, "the slam lands once");
    b.step(boss_sense(false, false, false, true));
    assert_eq!(b.state, BoneKingState::SlamRecover);
    let a = b.step(boss_sense(false, false, false, true));
    assert_eq!(b.state, BoneKingState::Idle);
    assert_eq!(a.timer, TimerSet::Fixed(500));
    let a = b.step(boss_sense(false, false, false, true));
    assert_eq!(b.state, BoneKingState::SweepWindup);
    assert_eq!(a.timer, TimerSet::Fixed(500));
    assert_eq!(b.rng, 1, "no draw in the first phase");
}

#[test]
fn test_boss_chases_a_far_player() {
    let mut b = BossBrain::new(1);
    let a = b.step(boss_sense(true, false, false, true));
    assert_eq!(b.state, BoneKingState::Chase);
    assert_eq!(a.timer, TimerSet::Fixed(3000));
    let a = b.step(boss_sense(false, true, false, false));
    assert!(a.chasing);
    assert_eq!(b.state, BoneKingState::SlamWindup);
}

#[test]
fn test_boss_phase_two_charge() {
    let mut b = BossBrain::new(0);
    assert!(b.check_phase_transition(10));
    assert_eq!(b.state, BoneKingState::Roar);
    assert!(b.phase2);
    assert!(!b.check_phase_transition(5), "the second phase begins once");
    let a = b.step(boss_sense(false, false, false, false));
    assert!(a.roaring && a.invulnerable);
    let a = b.step(boss_sense(false, false, false, true));
    assert_eq!(b.state, BoneKingState::Idle);
    assert_eq!(a.timer, TimerSet::Fixed(350));
    // Sample 0 from seed 0 falls under 0.33: a charge.
    let a = b.step(boss_sense(false, false, false, true));
    assert_eq!(b.state, BoneKingState::ChargeWindup);
    assert_eq!(a.timer, TimerSet::Fixed(400));
    let a = b.step(boss_sense(false, false, false, true));
    assert!(a.start_charge);
    assert_eq!(b.state, BoneKingState::ChargeActive);
    let a = b.step(boss_sense(false, false, true, false));
    assert!(a.charge_wall_hit && a.charging);
    assert_eq!(a.hitbox, BossHitbox::Charge);
    assert_eq!(b.state, BoneKingState::ChargeStunned);
    assert_eq!(a.timer, TimerSet::Fixed(1000));
    assert_eq!(boss_attack_rect(BoneKingState::ChargeActive, false), Some((2, 4, 16, 16)));
    assert_eq!(boss_attack_rect(BoneKingState::SweepActive, false), Some((-18, 10, 30, 10)));
    assert_eq!(boss_attack_rect(BoneKingState::Idle, true), None);
}

#[test]
fn test_boss_phase_threshold_bounds() {
    let mut b = BossBrain::new(0);
    assert!(!b.check_phase_transition(11));
    assert!(!b.check_phase_transition(0));
    assert!(!b.phase2);
    assert!(b.check_phase_transition(1));
}

#[test]
fn test_enemy_core_hits() {
    let mut s = EnemyCore::new_skeleton(3);
    assert_eq!(s.hp, 3);
    assert_eq!(s.take_hit(1), HitResult::Hurt);
    assert_eq!(s.take_hit(2), HitResult::Killed);
    assert!(!s.alive);

    let mut k = EnemyCore::new_bone_king(9);
    assert_eq!(k.boss_max_hp(), Some(20));
    assert_eq!(k.take_hit(9), HitResult::Hurt);
    assert_eq!(k.take_hit(1), HitResult::PhaseTwo);
    assert_eq!(k.hp, 10);
    assert_eq!(k.take_hit(5), HitResult::Ignored, "a roaring boss takes no damage");
    assert_eq!(k.hp, 10);
    if let Brain::Boss(mut b) = k.brain {
        b.state = BoneKingState::Idle;
        k.brain = Brain::Boss(b);
    }
    assert_eq!(k.take_hit(12), HitResult::Dying);
    assert!(k.alive, "the boss lives through its dying sequence");
    assert!(matches!(k.brain, Brain::Boss(b) if b.state == BoneKingState::Dying));
    assert_eq!(k.take_hit(1), HitResult::Ignored);

    let g = EnemyCore::new_ghost(1);
    assert_eq!((g.kind, g.hp), (EnemyType::Specter, 2));
    assert_eq!(g.boss_max_hp(), None);
    let slime = EnemyCore::new_slime();
    assert!(slime.can_deal_contact_damage(true));
    assert!(!slime.can_deal_contact_damage(false));
    assert!(!g.can_deal_contact_damage(true));
}

#[test]
fn test_enemy_geometry_and_damage() {
    assert_eq!(hurtbox_rect(EnemyType::BoneKing), (4, 4, 12, 16));
    assert_eq!(hurtbox_rect(EnemyType::Specter), (2, 2, 6, 7));
    assert_eq!(melee_damage(EnemyType::BoneKing), 2);
    assert_eq!(melee_damage(EnemyType::Skeleton), 1);
}

#[test]
fn test_direction_axes() {
    let mut input = InputState::new();
    input.process_events_at(&[KeyInput::Left, KeyInput::Up], 0);
    assert_eq!(input.direction_axes(), (-1, -1));
    let mut input = InputState::new();
    input.process_events_at(&[KeyInput::Left, KeyInput::Right, KeyInput::Down], 0);
    assert_eq!(input.direction_axes(), (0, 1));
    assert_eq!(InputState::new().direction_axes(), (0, 0));
}

#[test]
fn test_draw_in_range() {
    let mut rng = 1u32;
    assert_eq!(draw_in_range(&mut rng, 5, 5), 5);
    assert_eq!(rng, 1, "a single value draws nothing");
    let k = draw_in_range(&mut rng, 8, 12);
    assert_eq!(rng, lcg(1));
    assert_eq!(k, 8 + (lcg(1) >> 16) % 5);
    assert!((8..=12).contains(&k));
}

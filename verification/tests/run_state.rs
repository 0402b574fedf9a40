use cryptfall::game::run_state::{RunState, GOLD_BONE_KING, GOLD_GHOST, GOLD_ROOM_CLEAR_BONUS, GOLD_SKELETON};

#[test]
fn test_record_kill_increments_kills_and_gold() {
    let mut rs = RunState::new();
    rs.record_kill(GOLD_SKELETON);
    assert_eq!(rs.kills, 1);
    assert_eq!(rs.gold_earned, 2);

    rs.record_kill(GOLD_GHOST);
    assert_eq!(rs.kills, 2);
    assert_eq!(rs.gold_earned, 5);

    rs.record_kill(GOLD_BONE_KING);
    assert_eq!(rs.kills, 3);
    assert_eq!(rs.gold_earned, 30);
}

#[test]
fn test_record_damage_dealt() {
    let mut rs = RunState::new();
    rs.record_damage_dealt(5);
    rs.record_damage_dealt(3);
    assert_eq!(rs.damage_dealt, 8);
}

#[test]
fn test_record_damage_taken() {
    let mut rs = RunState::new();
    rs.record_damage_taken(1);
    rs.record_damage_taken(2);
    assert_eq!(rs.damage_taken, 3);
}

#[test]
fn test_record_room_clear() {
    let mut rs = RunState::new();
    rs.record_room_clear(GOLD_ROOM_CLEAR_BONUS);
    assert_eq!(rs.rooms_cleared, 1);
    assert_eq!(rs.gold_earned, 5);

    rs.record_room_clear(GOLD_ROOM_CLEAR_BONUS);
    assert_eq!(rs.rooms_cleared, 2);
    assert_eq!(rs.gold_earned, 10);
}

#[test]
fn test_gold_constants() {
    assert_eq!(GOLD_SKELETON, 2);
    assert_eq!(GOLD_GHOST, 3);
    assert_eq!(GOLD_BONE_KING, 25);
    assert_eq!(GOLD_ROOM_CLEAR_BONUS, 5);
}

#[test]
fn test_mixed_operations() {
    let mut rs = RunState::new();
    rs.record_kill(GOLD_SKELETON);
    rs.record_kill(GOLD_SKELETON);
    rs.record_kill(GOLD_GHOST);
    rs.record_room_clear(GOLD_ROOM_CLEAR_BONUS);
    rs.record_damage_dealt(10);
    rs.record_damage_taken(3);

    assert_eq!(rs.kills, 3);
    assert_eq!(rs.gold_earned, 12); // 2+2+3+5
    assert_eq!(rs.damage_dealt, 10);
    assert_eq!(rs.damage_taken, 3);
    assert_eq!(rs.rooms_cleared, 1);
}

#[test]
fn test_new_run_state_zeroed() {
    let rs = RunState::new();
    assert_eq!(rs.kills, 0);
    assert_eq!(rs.damage_dealt, 0);
    assert_eq!(rs.damage_taken, 0);
    assert_eq!(rs.gold_earned, 0);
    assert_eq!(rs.boons_collected, 0);
    assert_eq!(rs.rooms_cleared, 0);
    assert_eq!(rs.floor_reached, 0);
    assert!((rs.elapsed_ms as f32 / 1000.0 - 0.0).abs() < f32::EPSILON);
}

#[test]
fn test_time_played() {
    let mut rs = RunState::new();
    rs.add_time(59_999);
    assert_eq!(rs.elapsed_secs(), 59);
    rs.add_time(1);
    assert_eq!(rs.elapsed_secs(), 60);
    rs.add_time(u64::MAX);
    assert_eq!(rs.elapsed_ms, u64::MAX);
    assert_eq!(rs.elapsed_secs(), u32::MAX);
    assert_eq!(rs.kills, 0);
}

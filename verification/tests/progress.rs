use cryptfall::game::enemies::EnemyType;
use cryptfall::game::progress::{enemy_gold, is_final_floor, room_clear_rewards, RoomRewards};

#[test]
fn gold_per_enemy() {
    assert_eq!(enemy_gold(EnemyType::Skeleton), 2);
    assert_eq!(enemy_gold(EnemyType::Slime), 2);
    assert_eq!(enemy_gold(EnemyType::Specter), 3);
    assert_eq!(enemy_gold(EnemyType::BoneKing), 25);
}

#[test]
fn fifth_floor_is_last() {
    assert!(!is_final_floor(4));
    assert!(is_final_floor(5));
    assert!(is_final_floor(6));
}

#[test]
fn every_second_room_offers_boons() {
    assert_eq!(
        room_clear_rewards(1, 10, 1, 1),
        RoomRewards { offer_boons: false, boon_seed: 10, drop_heal: false }
    );
    assert_eq!(
        room_clear_rewards(2, 10, 0, 4),
        RoomRewards { offer_boons: true, boon_seed: 10 + 2 * 997, drop_heal: true }
    );
    assert_eq!(room_clear_rewards(0, 10, 0, 0).offer_boons, false);
    assert_eq!(room_clear_rewards(4, u64::MAX, 3, 1).boon_seed, 4 * 997 - 1);
    // 3 + 997 = 1000 is a multiple of 4
    assert!(room_clear_rewards(4, 0, 3, 1).drop_heal);
}

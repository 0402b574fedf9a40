use vstd::prelude::*;
use crate::game::enemies::EnemyType;
use crate::game::run_state::{GOLD_BONE_KING, GOLD_GHOST, GOLD_SKELETON};

verus! {

/// The deepest floor of a run: clearing it wins.
pub const FINAL_FLOOR: u32 = 5;

/// Gold dropped by a defeated enemy (slimes pay as skeletons).
pub open spec fn enemy_gold_spec(t: EnemyType) -> u32 {
    match t {
        EnemyType::Skeleton => GOLD_SKELETON,
        EnemyType::Specter => GOLD_GHOST,
        EnemyType::BoneKing => GOLD_BONE_KING,
        EnemyType::Slime => GOLD_SKELETON,
    }
}

pub fn enemy_gold(t: EnemyType) -> (g: u32)
    ensures
        g == enemy_gold_spec(t),
{
    match t {
        EnemyType::Skeleton => GOLD_SKELETON,
        EnemyType::Specter => GOLD_GHOST,
        EnemyType::BoneKing => GOLD_BONE_KING,
        EnemyType::Slime => GOLD_SKELETON,
    }
}

/// Clearing the exit room of this floor ends the run in victory.
pub fn is_final_floor(floor_number: u32) -> (b: bool)
    ensures
        b == (floor_number >= FINAL_FLOOR),
{
    floor_number >= FINAL_FLOOR
}

/// What clearing a combat room earns.
#[derive(Clone, Copy, Debug, PartialEq, Eq, Structural)]
pub struct RoomRewards {
    /// A boon choice is offered, drawn with the (updated) boon seed.
    pub offer_boons: bool,
    pub boon_seed: u64,
    /// A small heal drops in the middle of the room.
    pub drop_heal: bool,
}

/// The rewards for the `cleared`-th cleared combat room (counting from 1), in room
/// `room_index`: every second one offers boons, advancing the boon seed by
/// `cleared * 997`; a heal drops when the spawn seed plus `room_index * 997` is a
/// multiple of 4.
pub open spec fn rewards_spec(cleared: u32, boon_seed: u64, spawn_seed: u64, room_index: usize) -> RoomRewards {
    let offer = cleared > 0 && cleared % 2 == 0;
    RoomRewards {
        offer_boons: offer,
        boon_seed: if offer { ((boon_seed + cleared * 997) % 0x1_0000_0000_0000_0000) as u64 } else { boon_seed },
        drop_heal: ((spawn_seed + room_index * 997) % 0x1_0000_0000_0000_0000) % 4 == 0,
    }
}

pub fn room_clear_rewards(cleared: u32, boon_seed: u64, spawn_seed: u64, room_index: usize) -> (r: RoomRewards)
    requires
        room_index * 997 <= u64::MAX,
    ensures
        r == rewards_spec(cleared, boon_seed, spawn_seed, room_index),
{
    let offer = cleared > 0 && cleared % 2 == 0;
    let seed = if offer { boon_seed.wrapping_add(cleared as u64 * 997) } else { boon_seed };
    let drop_seed = spawn_seed.wrapping_add(room_index as u64 * 997);
    RoomRewards { offer_boons: offer, boon_seed: seed, drop_heal: drop_seed % 4 == 0 }
}

/// Every defeated enemy pays gold, the Bone King the most (25), a ghost more than a
/// skeleton (3 against 2), and a slime as much as a skeleton.
pub proof fn law_enemy_gold(t: EnemyType)
    ensures
        enemy_gold_spec(t) > 0,
        enemy_gold_spec(t) <= enemy_gold_spec(EnemyType::BoneKing),
        enemy_gold_spec(EnemyType::Skeleton) == 2 && enemy_gold_spec(EnemyType::Specter) == 3
            && enemy_gold_spec(EnemyType::BoneKing) == 25,
        enemy_gold_spec(EnemyType::Slime) == enemy_gold_spec(EnemyType::Skeleton),
{
}

/// Room rewards: every second cleared room (the 2nd, 4th, ...) offers a boon choice and
/// only then moves the boon seed on; whether a heal drops depends on the spawn seed and the
/// room alone, not on how many rooms were cleared.
pub proof fn law_room_rewards(cleared: u32, other: u32, boon_seed: u64, spawn_seed: u64, room_index: usize)
    ensures
        rewards_spec(cleared, boon_seed, spawn_seed, room_index).offer_boons <==> (cleared >= 2 && cleared % 2 == 0),
        !rewards_spec(cleared, boon_seed, spawn_seed, room_index).offer_boons ==> rewards_spec(cleared, boon_seed, spawn_seed, room_index).boon_seed == boon_seed,
        rewards_spec(cleared, boon_seed, spawn_seed, room_index).drop_heal == rewards_spec(other, boon_seed, spawn_seed, room_index).drop_heal,
{
}

} // verus!

use vstd::prelude::*;

verus! {

/// Gold reward values for each enemy type.
pub const GOLD_SKELETON: u32 = 2;
pub const GOLD_GHOST: u32 = 3;
pub const GOLD_BONE_KING: u32 = 25;
pub const GOLD_ROOM_CLEAR_BONUS: u32 = 5;

/// Tracks per-run statistics for end-of-run summary and save integration.
#[derive(Clone, Copy, Debug, PartialEq, Eq, Structural)]
pub struct RunState {
    pub kills: u32,
    pub damage_dealt: u32,
    pub damage_taken: u32,
    pub gold_earned: u32,
    pub boons_collected: u32,
    pub rooms_cleared: u32,
    pub floor_reached: u32,
    /// Time played, in milliseconds.
    pub elapsed_ms: u64,
}

impl RunState {
    pub fn new() -> (s: Self)
        ensures
            s == (RunState {
                kills: 0,
                damage_dealt: 0,
                damage_taken: 0,
                gold_earned: 0,
                boons_collected: 0,
                rooms_cleared: 0,
                floor_reached: 0,
                elapsed_ms: 0,
            }),
    {
        Self {
            kills: 0,
            damage_dealt: 0,
            damage_taken: 0,
            gold_earned: 0,
            boons_collected: 0,
            rooms_cleared: 0,
            floor_reached: 0,
            elapsed_ms: 0,
        }
    }

    /// Add a frame's time to the time played (which stops at its largest value).
    pub fn add_time(&mut self, ms: u64)
        ensures
            *final(self) == (RunState {
                elapsed_ms: if old(self).elapsed_ms + ms > u64::MAX { u64::MAX } else { (old(self).elapsed_ms + ms) as u64 },
                ..*old(self)
            }),
    {
        self.elapsed_ms = self.elapsed_ms.saturating_add(ms);
    }

    /// Whole seconds played (at most `u32::MAX`).
    pub fn elapsed_secs(&self) -> (s: u32)
        ensures
            s == if self.elapsed_ms / 1000 > u32::MAX { u32::MAX } else { (self.elapsed_ms / 1000) as u32 },
    {
        let secs = self.elapsed_ms / 1000;
        if secs > u32::MAX as u64 { u32::MAX } else { secs as u32 }
    }

    /// Count a kill and the gold it drops.
    pub fn record_kill(&mut self, enemy_gold: u32)
        requires
            old(self).kills < u32::MAX,
            old(self).gold_earned + enemy_gold <= u32::MAX,
        ensures
            *final(self) == (RunState { kills: (old(self).kills + 1) as u32, gold_earned: (old(self).gold_earned + enemy_gold) as u32, ..*old(self) }),
    {
        self.kills += 1;
        self.gold_earned += enemy_gold;
    }

    pub fn record_damage_dealt(&mut self, amount: u32)
        requires
            old(self).damage_dealt + amount <= u32::MAX,
        ensures
            *final(self) == (RunState { damage_dealt: (old(self).damage_dealt + amount) as u32, ..*old(self) }),
    {
        self.damage_dealt += amount;
    }

    pub fn record_damage_taken(&mut self, amount: u32)
        requires
            old(self).damage_taken + amount <= u32::MAX,
        ensures
            *final(self) == (RunState { damage_taken: (old(self).damage_taken + amount) as u32, ..*old(self) }),
    {
        self.damage_taken += amount;
    }

    /// Count a cleared room and its bonus gold.
    pub fn record_room_clear(&mut self, bonus_gold: u32)
        requires
            old(self).rooms_cleared < u32::MAX,
            old(self).gold_earned + bonus_gold <= u32::MAX,
        ensures
            *final(self) == (RunState { rooms_cleared: (old(self).rooms_cleared + 1) as u32, gold_earned: (old(self).gold_earned + bonus_gold) as u32, ..*old(self) }),
    {
        self.rooms_cleared += 1;
        self.gold_earned += bonus_gold;
    }
}

} // verus!

use vstd::prelude::*;
use crate::game::boons::BoonId;

verus! {

/// What the active boons add up to. Multipliers that stack (berserker's rage, swift
/// strikes, swift feet, phantom dash, shadow step, gold magnet) are kept as stack counts.
pub struct BoonTotals {
    pub damage_flat_bonus: int,
    pub berserker_stacks: nat,
    pub swift_strike_stacks: nat,
    pub max_hp_bonus: int,
    pub swift_feet_stacks: nat,
    pub phantom_dash_stacks: nat,
    pub shadow_step_stacks: nat,
    pub gold_magnet_stacks: nat,
    pub on_kill_explode_damage: i32,
    pub on_dash_damage: i32,
    pub shield_max: i32,
    pub has_projectile_attack: bool,
    pub chain_lightning_targets: i32,
    pub has_crit: bool,
    pub has_life_steal: bool,
    pub has_heal_on_hit: bool,
    pub has_second_wind: bool,
    pub lucky: bool,
    pub treasure_sense: bool,
    pub has_retaliation: bool,
    pub has_deaths_bargain: bool,
}

pub open spec fn no_boons() -> BoonTotals {
    BoonTotals {
        damage_flat_bonus: 0,
        berserker_stacks: 0,
        swift_strike_stacks: 0,
        max_hp_bonus: 0,
        swift_feet_stacks: 0,
        phantom_dash_stacks: 0,
        shadow_step_stacks: 0,
        gold_magnet_stacks: 0,
        on_kill_explode_damage: 0,
        on_dash_damage: 0,
        shield_max: 0,
        has_projectile_attack: false,
        chain_lightning_targets: 0,
        has_crit: false,
        has_life_steal: false,
        has_heal_on_hit: false,
        has_second_wind: false,
        lucky: false,
        treasure_sense: false,
        has_retaliation: false,
        has_deaths_bargain: false,
    }
}

/// The effect of one more boon.
pub open spec fn add_boon_effect(t: BoonTotals, id: BoonId) -> BoonTotals {
    match id {
        BoonId::SharpenedBlade => BoonTotals { damage_flat_bonus: t.damage_flat_bonus + 1, ..t },
        BoonId::BerserkersRage => BoonTotals { berserker_stacks: t.berserker_stacks + 1, ..t },
        BoonId::SwiftStrikes => BoonTotals { swift_strike_stacks: t.swift_strike_stacks + 1, ..t },
        BoonId::KillingBlow => BoonTotals { on_kill_explode_damage: 2, ..t },
        BoonId::ChainLightning => BoonTotals { chain_lightning_targets: 2, ..t },
        BoonId::ProjectileSlash => BoonTotals { has_projectile_attack: true, ..t },
        BoonId::CriticalEdge => BoonTotals { has_crit: true, ..t },
        BoonId::Fury => t,
        BoonId::ToughSkin => BoonTotals { max_hp_bonus: t.max_hp_bonus + 1, ..t },
        BoonId::IronShield => BoonTotals { shield_max: 2, ..t },
        BoonId::LifeSteal => BoonTotals { has_life_steal: true, ..t },
        BoonId::VampiricTouch => BoonTotals { has_heal_on_hit: true, ..t },
        BoonId::Retaliation => BoonTotals { has_retaliation: true, ..t },
        BoonId::SecondWind => BoonTotals { has_second_wind: true, ..t },
        BoonId::SwiftFeet => BoonTotals { swift_feet_stacks: t.swift_feet_stacks + 1, ..t },
        BoonId::PhantomDash => BoonTotals { phantom_dash_stacks: t.phantom_dash_stacks + 1, ..t },
        BoonId::ShadowStep => BoonTotals { shadow_step_stacks: t.shadow_step_stacks + 1, ..t },
        BoonId::DashStrike => BoonTotals { on_dash_damage: 2, ..t },
        BoonId::GoldMagnet => BoonTotals { gold_magnet_stacks: t.gold_magnet_stacks + 1, ..t },
        BoonId::Lucky => BoonTotals { lucky: true, ..t },
        BoonId::TreasureSense => BoonTotals { treasure_sense: true, ..t },
        BoonId::DeathsBargain => BoonTotals { damage_flat_bonus: t.damage_flat_bonus + 3, has_deaths_bargain: true, ..t },
    }
}

/// The totals of the boons in `active`, applied in order.
pub open spec fn boon_totals(active: Seq<BoonId>) -> BoonTotals
    decreases active.len(),
{
    if active.len() == 0 {
        no_boons()
    } else {
        add_boon_effect(boon_totals(active.drop_last()), active.last())
    }
}

/// Counts and flags only grow with more boons.
proof fn lemma_totals_bounded(active: Seq<BoonId>)
    ensures
        0 <= boon_totals(active).damage_flat_bonus <= 3 * active.len(),
        0 <= boon_totals(active).max_hp_bonus <= active.len(),
        boon_totals(active).berserker_stacks <= active.len(),
        boon_totals(active).swift_strike_stacks <= active.len(),
        boon_totals(active).swift_feet_stacks <= active.len(),
        boon_totals(active).phantom_dash_stacks <= active.len(),
        boon_totals(active).shadow_step_stacks <= active.len(),
        boon_totals(active).gold_magnet_stacks <= active.len(),
    decreases active.len(),
{
    if active.len() > 0 {
        lemma_totals_bounded(active.drop_last());
    }
}

/// The boons a player holds and the stats they give.
pub struct PlayerBoons {
    pub active: Vec<BoonId>,
    pub damage_flat_bonus: i32,
    pub berserker_stacks: u32,
    pub swift_strike_stacks: u32,
    pub max_hp_bonus: i32,
    pub swift_feet_stacks: u32,
    pub phantom_dash_stacks: u32,
    pub shadow_step_stacks: u32,
    pub gold_magnet_stacks: u32,
    pub on_kill_explode_damage: i32,
    pub on_dash_damage: i32,
    pub shield_charges: i32,
    pub shield_max: i32,
    pub has_projectile_attack: bool,
    pub chain_lightning_targets: i32,
    pub has_crit: bool,
    pub has_life_steal: bool,
    pub has_heal_on_hit: bool,
    pub has_second_wind: bool,
    pub second_wind_used: bool,
    pub lucky: bool,
    pub treasure_sense: bool,
    pub fury_kills_this_room: i32,
    pub has_retaliation: bool,
    pub has_deaths_bargain: bool,
}

/// Few enough boons that their totals fit the stat fields.
pub open spec fn boon_count_fits(n: int) -> bool {
    3 * n <= i32::MAX
}

impl PlayerBoons {
    /// The cached stats are those of the active boons.
    pub open spec fn matches(&self, t: BoonTotals) -> bool {
        &&& self.damage_flat_bonus == t.damage_flat_bonus
        &&& self.berserker_stacks == t.berserker_stacks
        &&& self.swift_strike_stacks == t.swift_strike_stacks
        &&& self.max_hp_bonus == t.max_hp_bonus
        &&& self.swift_feet_stacks == t.swift_feet_stacks
        &&& self.phantom_dash_stacks == t.phantom_dash_stacks
        &&& self.shadow_step_stacks == t.shadow_step_stacks
        &&& self.gold_magnet_stacks == t.gold_magnet_stacks
        &&& self.on_kill_explode_damage == t.on_kill_explode_damage
        &&& self.on_dash_damage == t.on_dash_damage
        &&& self.shield_max == t.shield_max
        &&& self.has_projectile_attack == t.has_projectile_attack
        &&& self.chain_lightning_targets == t.chain_lightning_targets
        &&& self.has_crit == t.has_crit
        &&& self.has_life_steal == t.has_life_steal
        &&& self.has_heal_on_hit == t.has_heal_on_hit
        &&& self.has_second_wind == t.has_second_wind
        &&& self.lucky == t.lucky
        &&& self.treasure_sense == t.treasure_sense
        &&& self.has_retaliation == t.has_retaliation
        &&& self.has_deaths_bargain == t.has_deaths_bargain
    }

    pub fn new() -> (b: Self)
        ensures
            b.active@ == Seq::<BoonId>::empty(),
            b.matches(no_boons()),
            b.shield_charges == 0,
            !b.second_wind_used,
            b.fury_kills_this_room == 0,
    {
        Self {
            active: Vec::new(),
            damage_flat_bonus: 0,
            berserker_stacks: 0,
            swift_strike_stacks: 0,
            max_hp_bonus: 0,
            swift_feet_stacks: 0,
            phantom_dash_stacks: 0,
            shadow_step_stacks: 0,
            gold_magnet_stacks: 0,
            on_kill_explode_damage: 0,
            on_dash_damage: 0,
            shield_charges: 0,
            shield_max: 0,
            has_projectile_attack: false,
            chain_lightning_targets: 0,
            has_crit: false,
            has_life_steal: false,
            has_heal_on_hit: false,
            has_second_wind: false,
            second_wind_used: false,
            lucky: false,
            treasure_sense: false,
            fury_kills_this_room: 0,
            has_retaliation: false,
            has_deaths_bargain: false,
        }
    }

    /// Take a boon and update the stats.
    pub fn add(&mut self, boon_id: BoonId)
        requires
            boon_count_fits(old(self).active@.len() + 1int),
        ensures
            final(self).active@ == old(self).active@.push(boon_id),
            final(self).matches(boon_totals(final(self).active@)),
            final(self).shield_charges == old(self).shield_charges,
            final(self).second_wind_used == old(self).second_wind_used,
            final(self).fury_kills_this_room == old(self).fury_kills_this_room,
    {
        self.active.push(boon_id);
        self.recalculate();
    }

    /// Recompute the stats from the active boons.
    pub fn recalculate(&mut self)
        requires
            boon_count_fits(old(self).active@.len() as int),
        ensures
            final(self).active@ == old(self).active@,
            final(self).matches(boon_totals(old(self).active@)),
            final(self).shield_charges == old(self).shield_charges,
            final(self).second_wind_used == old(self).second_wind_used,
            final(self).fury_kills_this_room == old(self).fury_kills_this_room,
    {
        self.damage_flat_bonus = 0;
        self.berserker_stacks = 0;
        self.swift_strike_stacks = 0;
        self.max_hp_bonus = 0;
        self.swift_feet_stacks = 0;
        self.phantom_dash_stacks = 0;
        self.shadow_step_stacks = 0;
        self.gold_magnet_stacks = 0;
        self.on_kill_explode_damage = 0;
        self.on_dash_damage = 0;
        self.shield_max = 0;
        self.has_projectile_attack = false;
        self.chain_lightning_targets = 0;
        self.has_crit = false;
        self.has_life_steal = false;
        self.has_heal_on_hit = false;
        self.has_second_wind = false;
        self.lucky = false;
        self.treasure_sense = false;
        self.has_retaliation = false;
        self.has_deaths_bargain = false;

        let ghost active = self.active@;
        let n = self.active.len();
        let mut i: usize = 0;
        proof {
            assert(active.take(0) =~= Seq::<BoonId>::empty());
        }
        while i < n
            invariant
                self.active@ == active,
                n == active.len(),
                i <= n,
                boon_count_fits(n as int),
                self.matches(boon_totals(active.take(i as int))),
                self.shield_charges == old(self).shield_charges,
                self.second_wind_used == old(self).second_wind_used,
                self.fury_kills_this_room == old(self).fury_kills_this_room,
            decreases n - i,
        {
            proof {
                lemma_totals_bounded(active.take(i as int));
                assert(active.take(i + 1).drop_last() =~= active.take(i as int));
            }
            let id = self.active[i];
            self.apply_boon(id, Ghost(boon_totals(active.take(i as int))));
            i += 1;
        }
        proof {
            assert(active.take(n as int) =~= active);
        }
    }

    /// Add the effect of boon `id` to stats that stand at `t`.
    #[verifier::rlimit(60)]
    fn apply_boon(&mut self, id: BoonId, Ghost(t): Ghost<BoonTotals>)
        requires
            old(self).matches(t),
            t.damage_flat_bonus + 3 <= i32::MAX,
            t.max_hp_bonus + 1 <= i32::MAX,
            t.berserker_stacks + 1 <= u32::MAX,
            t.swift_strike_stacks + 1 <= u32::MAX,
            t.swift_feet_stacks + 1 <= u32::MAX,
            t.phantom_dash_stacks + 1 <= u32::MAX,
            t.shadow_step_stacks + 1 <= u32::MAX,
            t.gold_magnet_stacks + 1 <= u32::MAX,
        ensures
            final(self).matches(add_boon_effect(t, id)),
            final(self).active == old(self).active,
            final(self).shield_charges == old(self).shield_charges,
            final(self).second_wind_used == old(self).second_wind_used,
            final(self).fury_kills_this_room == old(self).fury_kills_this_room,
    {
        match id {
            BoonId::SharpenedBlade => self.damage_flat_bonus += 1,
            BoonId::BerserkersRage => self.berserker_stacks += 1,
            BoonId::SwiftStrikes => self.swift_strike_stacks += 1,
            BoonId::KillingBlow => self.on_kill_explode_damage = 2,
            BoonId::ChainLightning => self.chain_lightning_targets = 2,
            BoonId::ProjectileSlash => self.has_projectile_attack = true,
            BoonId::CriticalEdge => self.has_crit = true,
            BoonId::Fury => {},
            BoonId::ToughSkin => self.max_hp_bonus += 1,
            BoonId::IronShield => self.shield_max = 2,
            BoonId::LifeSteal => self.has_life_steal = true,
            BoonId::VampiricTouch => self.has_heal_on_hit = true,
            BoonId::Retaliation => self.has_retaliation = true,
            BoonId::SecondWind => self.has_second_wind = true,
            BoonId::SwiftFeet => self.swift_feet_stacks += 1,
            BoonId::PhantomDash => self.phantom_dash_stacks += 1,
            BoonId::ShadowStep => self.shadow_step_stacks += 1,
            BoonId::DashStrike => self.on_dash_damage = 2,
            BoonId::GoldMagnet => self.gold_magnet_stacks += 1,
            BoonId::Lucky => self.lucky = true,
            BoonId::TreasureSense => self.treasure_sense = true,
            BoonId::DeathsBargain => {
                self.damage_flat_bonus += 3;
                self.has_deaths_bargain = true;
            },
        }
    }

    /// Calculate effective max HP bonus, accounting for Death's Bargain.
    /// `base_max_hp` is the player's max HP before any boon modifiers.
    pub fn effective_max_hp_bonus(&self, base_max_hp: i32) -> (b: i32)
        requires
            self.has_deaths_bargain ==> 1 - base_max_hp <= i32::MAX,
        ensures
            b == if self.has_deaths_bargain { 1 - base_max_hp } else { self.max_hp_bonus as int },
    {
        if self.has_deaths_bargain {
            1 - base_max_hp
        } else {
            self.max_hp_bonus
        }
    }

    pub fn has_boon(&self, id: BoonId) -> (b: bool)
        ensures
            b == self.active@.contains(id),
    {
        let mut i: usize = 0;
        while i < self.active.len()
            invariant
                i <= self.active@.len(),
                forall|k: int| 0 <= k < i ==> self.active@[k] != id,
            decreases self.active@.len() - i,
        {
            if self.active[i] == id {
                return true;
            }
            i += 1;
        }
        false
    }

    /// Reset per-room state (fury kill counter).
    pub fn reset_room_state(&mut self)
        ensures
            *final(self) == (PlayerBoons { fury_kills_this_room: 0, ..*old(self) }),
    {
        self.fury_kills_this_room = 0;
    }

    /// Reset per-floor state (shield charges, second wind).
    pub fn reset_floor_state(&mut self)
        ensures
            *final(self) == (PlayerBoons { shield_charges: old(self).shield_max, second_wind_used: false, ..*old(self) }),
    {
        self.shield_charges = self.shield_max;
        self.second_wind_used = false;
    }

    /// Record a kill for Fury tracking.
    pub fn record_kill(&mut self)
        requires
            old(self).fury_kills_this_room < i32::MAX,
        ensures
            *final(self) == (PlayerBoons { fury_kills_this_room: (old(self).fury_kills_this_room + 1) as i32, ..*old(self) }),
    {
        self.fury_kills_this_room += 1;
    }

    /// The damage multiplier in percent: +25 for each Berserker's Rage.
    pub fn damage_mult_pct(&self) -> (p: u64)
        ensures
            p == 100 + 25 * self.berserker_stacks,
    {
        100 + 25 * self.berserker_stacks as u64
    }

    /// The move speed multiplier in percent: +20 for each Swift Feet.
    pub fn move_speed_pct(&self) -> (p: u64)
        ensures
            p == 100 + 20 * self.swift_feet_stacks,
    {
        100 + 20 * self.swift_feet_stacks as u64
    }

    /// The dash distance multiplier in percent: +40 for each Phantom Dash.
    pub fn dash_distance_pct(&self) -> (p: u64)
        ensures
            p == 100 + 40 * self.phantom_dash_stacks,
    {
        100 + 40 * self.phantom_dash_stacks as u64
    }

    /// How much shorter the dash cooldown gets, in percent: 50 for each Shadow Step.
    pub fn dash_cooldown_reduction_pct(&self) -> (p: u64)
        ensures
            p == 50 * self.shadow_step_stacks,
    {
        50 * self.shadow_step_stacks as u64
    }

    /// The gold multiplier in percent: +50 for each Gold Magnet.
    pub fn gold_mult_pct(&self) -> (p: u64)
        ensures
            p == 100 + 50 * self.gold_magnet_stacks,
    {
        100 + 50 * self.gold_magnet_stacks as u64
    }

    /// Chance of a critical hit, in percent: 20 with Critical Edge.
    pub fn crit_chance_pct(&self) -> (p: u32)
        ensures
            p == if self.has_crit { 20u32 } else { 0u32 },
    {
        if self.has_crit { 20 } else { 0 }
    }

    /// Share of damage dealt that heals, in percent: 15 with Life Steal.
    pub fn life_steal_pct(&self) -> (p: u32)
        ensures
            p == if self.has_life_steal { 15u32 } else { 0u32 },
    {
        if self.has_life_steal { 15 } else { 0 }
    }

    /// Chance that a hit heals, in percent: 10 with Vampiric Touch.
    pub fn heal_on_hit_pct(&self) -> (p: u32)
        ensures
            p == if self.has_heal_on_hit { 10u32 } else { 0u32 },
    {
        if self.has_heal_on_hit { 10 } else { 0 }
    }

    /// Fury's damage multiplier in percent: +5 for each kill in the current room while
    /// Fury is held, 100 otherwise.
    pub fn fury_damage_pct(&self) -> (p: i64)
        ensures
            p == if self.active@.contains(BoonId::Fury) { 100 + 5 * self.fury_kills_this_room } else { 100 },
    {
        if self.has_boon(BoonId::Fury) {
            100 + 5 * self.fury_kills_this_room as i64
        } else {
            100
        }
    }
}

/// How many times `id` occurs in `active`.
pub open spec fn occurrences(active: Seq<BoonId>, id: BoonId) -> int
    decreases active.len(),
{
    if active.len() == 0 {
        0
    } else {
        occurrences(active.drop_last(), id) + if active.last() == id { 1int } else { 0int }
    }
}

proof fn lemma_contains_last(active: Seq<BoonId>, id: BoonId)
    requires
        active.len() > 0,
    ensures
        active.contains(id) <==> (active.drop_last().contains(id) || active.last() == id),
{
    if active.contains(id) {
        let k = choose|k: int| 0 <= k < active.len() && active[k] == id;
        if k < active.len() - 1 {
            assert(active.drop_last()[k] == id);
        }
    }
    if active.drop_last().contains(id) {
        let k = choose|k: int| 0 <= k < active.drop_last().len() && active.drop_last()[k] == id;
        assert(active[k] == id);
    }
    if active.last() == id {
        assert(active[active.len() - 1] == id);
    }
}

/// What the held boons add up to: each stacking boon counts once per copy held (Sharpened
/// Blade +1 damage, Death's Bargain +3 damage, Tough Skin +1 health, Berserker's Rage, Swift
/// Strikes, Swift Feet, Phantom Dash, Shadow Step and Gold Magnet one stack each), and each
/// other boon's effect is on exactly when it is held, whatever the order of the boons.
pub proof fn law_boon_totals(active: Seq<BoonId>)
    ensures
        boon_totals(active).damage_flat_bonus == occurrences(active, BoonId::SharpenedBlade) + 3 * occurrences(active, BoonId::DeathsBargain),
        boon_totals(active).max_hp_bonus == occurrences(active, BoonId::ToughSkin),
        boon_totals(active).berserker_stacks == occurrences(active, BoonId::BerserkersRage),
        boon_totals(active).swift_strike_stacks == occurrences(active, BoonId::SwiftStrikes),
        boon_totals(active).swift_feet_stacks == occurrences(active, BoonId::SwiftFeet),
        boon_totals(active).phantom_dash_stacks == occurrences(active, BoonId::PhantomDash),
        boon_totals(active).shadow_step_stacks == occurrences(active, BoonId::ShadowStep),
        boon_totals(active).gold_magnet_stacks == occurrences(active, BoonId::GoldMagnet),
        boon_totals(active).on_kill_explode_damage == if active.contains(BoonId::KillingBlow) { 2int } else { 0int },
        boon_totals(active).chain_lightning_targets == if active.contains(BoonId::ChainLightning) { 2int } else { 0int },
        boon_totals(active).shield_max == if active.contains(BoonId::IronShield) { 2int } else { 0int },
        boon_totals(active).on_dash_damage == if active.contains(BoonId::DashStrike) { 2int } else { 0int },
        boon_totals(active).has_projectile_attack == active.contains(BoonId::ProjectileSlash),
        boon_totals(active).has_crit == active.contains(BoonId::CriticalEdge),
        boon_totals(active).has_life_steal == active.contains(BoonId::LifeSteal),
        boon_totals(active).has_heal_on_hit == active.contains(BoonId::VampiricTouch),
        boon_totals(active).has_second_wind == active.contains(BoonId::SecondWind),
        boon_totals(active).lucky == active.contains(BoonId::Lucky),
        boon_totals(active).treasure_sense == active.contains(BoonId::TreasureSense),
        boon_totals(active).has_retaliation == active.contains(BoonId::Retaliation),
        boon_totals(active).has_deaths_bargain == active.contains(BoonId::DeathsBargain),
    decreases active.len(),
{
    if active.len() > 0 {
        law_boon_totals(active.drop_last());
        lemma_contains_last(active, BoonId::KillingBlow);
        lemma_contains_last(active, BoonId::ChainLightning);
        lemma_contains_last(active, BoonId::IronShield);
        lemma_contains_last(active, BoonId::DashStrike);
        lemma_contains_last(active, BoonId::ProjectileSlash);
        lemma_contains_last(active, BoonId::CriticalEdge);
        lemma_contains_last(active, BoonId::LifeSteal);
        lemma_contains_last(active, BoonId::VampiricTouch);
        lemma_contains_last(active, BoonId::SecondWind);
        lemma_contains_last(active, BoonId::Lucky);
        lemma_contains_last(active, BoonId::TreasureSense);
        lemma_contains_last(active, BoonId::Retaliation);
        lemma_contains_last(active, BoonId::DeathsBargain);
    }
}

} // verus!

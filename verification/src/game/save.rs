use vstd::prelude::*;
use crate::game::run_state::RunState;

verus! {

/// What persists between runs.
#[derive(Clone, Copy)]
pub struct SaveData {
    pub total_gold: u32,
    pub total_runs: u32,
    pub best_floor: u32,
    pub total_kills: u32,
    pub total_deaths: u32,
    pub upgrades: PermanentUpgrades,
}

/// Upgrades bought in the shop.
#[derive(Clone, Copy)]
pub struct PermanentUpgrades {
    /// 0-3, each level grants +1 max HP
    pub vitality_level: u32,
    /// 0-2, each level grants +1 damage
    pub strength_level: u32,
    /// Unlocks 2 dash charges
    pub twin_dash: bool,
    /// 0-2, each level grants +1 reroll per run
    pub boon_reroll_level: u32,
}

impl Default for PermanentUpgrades {
    fn default() -> (u: Self)
        ensures
            u.vitality_level == 0,
            u.strength_level == 0,
            !u.twin_dash,
            u.boon_reroll_level == 0,
    {
        PermanentUpgrades { vitality_level: 0, strength_level: 0, twin_dash: false, boon_reroll_level: 0 }
    }
}

impl Default for SaveData {
    fn default() -> (d: Self)
        ensures
            d.total_gold == 0,
            d.total_runs == 0,
            d.best_floor == 0,
            d.total_kills == 0,
            d.total_deaths == 0,
            d.upgrades.vitality_level == 0,
            d.upgrades.strength_level == 0,
            !d.upgrades.twin_dash,
            d.upgrades.boon_reroll_level == 0,
    {
        SaveData {
            total_gold: 0,
            total_runs: 0,
            best_floor: 0,
            total_kills: 0,
            total_deaths: 0,
            upgrades: PermanentUpgrades::default(),
        }
    }
}

impl PermanentUpgrades {
    /// Apply permanent upgrades to a player's stats at the start of a run.
    /// Returns (bonus_max_hp, bonus_damage, dash_charges, rerolls_per_run).
    pub fn stat_bonuses(&self) -> (r: (i32, i32, u32, u32))
        ensures
            r == (self.vitality_level as i32, self.strength_level as i32, if self.twin_dash { 2u32 } else { 1u32 }, self.boon_reroll_level),
    {
        let bonus_hp = self.vitality_level as i32;  // +1 per level
        let bonus_dmg = self.strength_level as i32;  // +1 per level
        let dash_charges = if self.twin_dash { 2 } else { 1 };
        let rerolls = self.boon_reroll_level;
        (bonus_hp, bonus_dmg, dash_charges, rerolls)
    }
}

/// Which upgrade track a shop entry belongs to.
#[derive(Clone, Copy, PartialEq, Eq, Debug, Structural)]
pub enum UpgradeTrack {
    Vitality,
    Strength,
    TwinDash,
    BoonReroll,
}

/// A shop entry: one step (`tier`, counted from 0) of an upgrade track.
#[derive(Clone, Copy)]
pub struct UpgradeDef {
    pub name: &'static str,
    pub description: &'static str,
    pub cost: u32,
    pub max_level: u32,
    pub track: UpgradeTrack,
    pub tier: u32,
}

pub open spec fn level_step(level: u32, tier: u32) -> u32 {
    if level > tier { 1 } else { 0 }
}

pub open spec fn current_level_spec(def: UpgradeDef, u: PermanentUpgrades) -> u32 {
    match def.track {
        UpgradeTrack::Vitality => level_step(u.vitality_level, def.tier),
        UpgradeTrack::Strength => level_step(u.strength_level, def.tier),
        UpgradeTrack::TwinDash => if u.twin_dash { 1 } else { 0 },
        UpgradeTrack::BoonReroll => level_step(u.boon_reroll_level, def.tier),
    }
}

impl UpgradeDef {
    /// 1 when this step of the track is bought, else 0:
    /// the track's level, less the tier, capped at 1.
    pub fn current_level(&self, u: &PermanentUpgrades) -> (l: u32)
        ensures
            l == current_level_spec(*self, *u),
    {
        let level = match self.track {
            UpgradeTrack::Vitality => u.vitality_level,
            UpgradeTrack::Strength => u.strength_level,
            UpgradeTrack::TwinDash => if u.twin_dash { 1 } else { 0 },
            UpgradeTrack::BoonReroll => u.boon_reroll_level,
        };
        let tier = match self.track {
            UpgradeTrack::TwinDash => 0,
            _ => self.tier,
        };
        let above = level.saturating_sub(tier);
        if above < 1 { above } else { 1 }
    }
}

/// Price of shop entry `i`.
pub open spec fn upgrade_cost(i: int) -> u32 {
    if i == 0 { 30 } else if i == 1 { 60 } else if i == 2 { 120 } else if i == 3 { 50 }
    else if i == 4 { 100 } else if i == 5 { 80 } else if i == 6 { 40 } else { 80 }
}

/// Track of shop entry `i`.
pub open spec fn upgrade_track(i: int) -> UpgradeTrack {
    if i <= 2 { UpgradeTrack::Vitality } else if i <= 4 { UpgradeTrack::Strength }
    else if i == 5 { UpgradeTrack::TwinDash } else { UpgradeTrack::BoonReroll }
}

/// Step of its track that shop entry `i` sells.
pub open spec fn upgrade_tier(i: int) -> u32 {
    if i <= 2 { i as u32 } else if i <= 4 { (i - 3) as u32 } else if i == 5 { 0 } else { (i - 6) as u32 }
}

/// Name of shop entry `i`.
pub open spec fn upgrade_name(i: int) -> Seq<char> {
    if i == 0 { "Vitality I"@ } else if i == 1 { "Vitality II"@ } else if i == 2 { "Vitality III"@ }
    else if i == 3 { "Strength I"@ } else if i == 4 { "Strength II"@ } else if i == 5 { "Twin Dash"@ }
    else if i == 6 { "Boon Reroll"@ } else { "Boon Reroll+"@ }
}

/// Description of shop entry `i`.
pub open spec fn upgrade_description(i: int) -> Seq<char> {
    if i <= 2 { "+1 Max HP"@ } else if i <= 4 { "+1 Damage"@ } else if i == 5 { "2 dash charges"@ }
    else { "+1 reroll per run"@ }
}

/// The shop's entries.
pub fn upgrades() -> (v: Vec<UpgradeDef>)
    ensures
        v@.len() == 8,
        forall|i: int| 0 <= i < 8 ==> (#[trigger] v@[i]).cost == upgrade_cost(i) && v@[i].track == upgrade_track(i)
            && v@[i].tier == upgrade_tier(i) && v@[i].name@ == upgrade_name(i) && v@[i].description@ == upgrade_description(i),
        v@[0].cost == 30 && v@[1].cost == 60 && v@[2].cost == 120,
        v@[3].cost == 50 && v@[4].cost == 100,
        v@[5].cost == 80,
        v@[6].cost == 40 && v@[7].cost == 80,
        forall|i: int| 0 <= i < 8 ==> (#[trigger] v@[i]).max_level == 1,
        v@[0].track == UpgradeTrack::Vitality && v@[0].tier == 0,
        v@[1].track == UpgradeTrack::Vitality && v@[1].tier == 1,
        v@[2].track == UpgradeTrack::Vitality && v@[2].tier == 2,
        v@[3].track == UpgradeTrack::Strength && v@[3].tier == 0,
        v@[4].track == UpgradeTrack::Strength && v@[4].tier == 1,
        v@[5].track == UpgradeTrack::TwinDash && v@[5].tier == 0,
        v@[6].track == UpgradeTrack::BoonReroll && v@[6].tier == 0,
        v@[7].track == UpgradeTrack::BoonReroll && v@[7].tier == 1,
        v@[0].name@ == "Vitality I"@ && v@[1].name@ == "Vitality II"@ && v@[2].name@ == "Vitality III"@,
        v@[3].name@ == "Strength I"@ && v@[4].name@ == "Strength II"@,
        v@[5].name@ == "Twin Dash"@,
        v@[6].name@ == "Boon Reroll"@ && v@[7].name@ == "Boon Reroll+"@,
        v@[0].description@ == "+1 Max HP"@ && v@[1].description@ == "+1 Max HP"@ && v@[2].description@ == "+1 Max HP"@,
        v@[3].description@ == "+1 Damage"@ && v@[4].description@ == "+1 Damage"@,
        v@[5].description@ == "2 dash charges"@,
        v@[6].description@ == "+1 reroll per run"@ && v@[7].description@ == "+1 reroll per run"@,
{
    let mut v: Vec<UpgradeDef> = Vec::new();
    v.push(UpgradeDef { name: "Vitality I", description: "+1 Max HP", cost: 30, max_level: 1, track: UpgradeTrack::Vitality, tier: 0 });
    v.push(UpgradeDef { name: "Vitality II", description: "+1 Max HP", cost: 60, max_level: 1, track: UpgradeTrack::Vitality, tier: 1 });
    v.push(UpgradeDef { name: "Vitality III", description: "+1 Max HP", cost: 120, max_level: 1, track: UpgradeTrack::Vitality, tier: 2 });
    v.push(UpgradeDef { name: "Strength I", description: "+1 Damage", cost: 50, max_level: 1, track: UpgradeTrack::Strength, tier: 0 });
    v.push(UpgradeDef { name: "Strength II", description: "+1 Damage", cost: 100, max_level: 1, track: UpgradeTrack::Strength, tier: 1 });
    v.push(UpgradeDef { name: "Twin Dash", description: "2 dash charges", cost: 80, max_level: 1, track: UpgradeTrack::TwinDash, tier: 0 });
    v.push(UpgradeDef { name: "Boon Reroll", description: "+1 reroll per run", cost: 40, max_level: 1, track: UpgradeTrack::BoonReroll, tier: 0 });
    v.push(UpgradeDef { name: "Boon Reroll+", description: "+1 reroll per run", cost: 80, max_level: 1, track: UpgradeTrack::BoonReroll, tier: 1 });
    v
}

impl SaveData {
    pub fn can_afford(&self, cost: u32) -> (b: bool)
        ensures
            b == (self.total_gold >= cost),
    {
        self.total_gold >= cost
    }

    /// Spend `cost` gold if there is enough; report whether it was spent.
    pub fn spend_gold(&mut self, cost: u32) -> (spent: bool)
        ensures
            spent == (old(self).total_gold >= cost),
            final(self).total_gold == if spent { old(self).total_gold - cost } else { old(self).total_gold as int },
            final(self).total_runs == old(self).total_runs,
            final(self).best_floor == old(self).best_floor,
            final(self).total_kills == old(self).total_kills,
            final(self).total_deaths == old(self).total_deaths,
            final(self).upgrades == old(self).upgrades,
    {
        if self.total_gold >= cost {
            self.total_gold -= cost;
            true
        } else {
            false
        }
    }
}

impl SaveData {
    /// Fold a finished run into the totals: one more run, its kills and gold, a death
    /// unless it was won, and the deepest floor reached so far.
    pub fn record_run(&mut self, run: &RunState, victory: bool)
        requires
            old(self).total_runs < u32::MAX,
            old(self).total_kills + run.kills <= u32::MAX,
            old(self).total_gold + run.gold_earned <= u32::MAX,
            !victory ==> old(self).total_deaths < u32::MAX,
        ensures
            *final(self) == (SaveData {
                total_runs: (old(self).total_runs + 1) as u32,
                total_kills: (old(self).total_kills + run.kills) as u32,
                total_deaths: if victory { old(self).total_deaths } else { (old(self).total_deaths + 1) as u32 },
                total_gold: (old(self).total_gold + run.gold_earned) as u32,
                best_floor: if run.floor_reached > old(self).best_floor { run.floor_reached } else { old(self).best_floor },
                upgrades: old(self).upgrades,
            }),
    {
        self.total_runs += 1;
        self.total_kills += run.kills;
        if !victory {
            self.total_deaths += 1;
        }
        self.total_gold += run.gold_earned;
        if run.floor_reached > self.best_floor {
            self.best_floor = run.floor_reached;
        }
    }
}

/// No upgrade is bought with no upgrades owned, and every shop step of a track reports
/// itself bought once the track is at its maximum (vitality 3, strength 2, twin dash,
/// reroll 2).
pub proof fn law_upgrade_levels(d: UpgradeDef)
    requires
        match d.track {
            UpgradeTrack::Vitality => d.tier < 3,
            UpgradeTrack::Strength => d.tier < 2,
            UpgradeTrack::TwinDash => true,
            UpgradeTrack::BoonReroll => d.tier < 2,
        },
    ensures
        current_level_spec(d, PermanentUpgrades { vitality_level: 0, strength_level: 0, twin_dash: false, boon_reroll_level: 0 }) == 0,
        current_level_spec(d, PermanentUpgrades { vitality_level: 3, strength_level: 2, twin_dash: true, boon_reroll_level: 2 }) == 1,
{
}

/// Each shop entry is one step of a track, and it counts as bought exactly when the
/// player's level on that track is above the step: vitality and strength and boon rerolls
/// by their levels, twin dash by whether it is owned. So buying step k of a track leaves
/// step k + 1 for sale.
pub proof fn law_upgrade_step_bought(d: UpgradeDef, u: PermanentUpgrades)
    ensures
        d.track == UpgradeTrack::Vitality ==> (current_level_spec(d, u) == 1 <==> u.vitality_level > d.tier),
        d.track == UpgradeTrack::Strength ==> (current_level_spec(d, u) == 1 <==> u.strength_level > d.tier),
        d.track == UpgradeTrack::BoonReroll ==> (current_level_spec(d, u) == 1 <==> u.boon_reroll_level > d.tier),
        d.track == UpgradeTrack::TwinDash ==> (current_level_spec(d, u) == 1 <==> u.twin_dash),
        current_level_spec(d, u) == 0 || current_level_spec(d, u) == 1,
{
}

} // verus!

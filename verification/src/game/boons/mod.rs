use vstd::prelude::*;

pub mod selection;
pub mod effects;

verus! {

#[derive(Clone, Copy, PartialEq, Eq, Hash, Debug, Structural)]
pub enum BoonId {
    // Offense
    SharpenedBlade,
    BerserkersRage,
    SwiftStrikes,
    KillingBlow,
    ChainLightning,
    ProjectileSlash,
    CriticalEdge,
    Fury,
    // Defense
    ToughSkin,
    IronShield,
    LifeSteal,
    VampiricTouch,
    Retaliation,
    SecondWind,
    // Mobility
    SwiftFeet,
    PhantomDash,
    ShadowStep,
    DashStrike,
    // Special
    GoldMagnet,
    Lucky,
    TreasureSense,
    DeathsBargain,
}

#[derive(Clone, Copy, PartialEq, Eq, Debug, Structural)]
pub enum Rarity {
    Common,
    Rare,
    Legendary,
}

#[derive(Clone, Copy, PartialEq, Eq, Hash, Debug, Structural)]
pub enum BoonCategory {
    Offense,
    Defense,
    Mobility,
    Special,
}

#[derive(Clone, Copy)]
pub struct BoonDef {
    pub id: BoonId,
    pub name: &'static str,
    pub description: &'static str,
    pub rarity: Rarity,
    pub category: BoonCategory,
    pub stackable: bool,
}

/// The definition of each boon.
pub open spec fn boon_def_spec(id: BoonId) -> BoonDef {
    match id {
        BoonId::SharpenedBlade => BoonDef {
            id: BoonId::SharpenedBlade,
            name: "Sharpened Blade",
            description: "+1 attack damage",
            rarity: Rarity::Common,
            category: BoonCategory::Offense,
            stackable: true,
        },
        BoonId::BerserkersRage => BoonDef {
            id: BoonId::BerserkersRage,
            name: "Berserker's Rage",
            description: "+25% damage multiplier",
            rarity: Rarity::Rare,
            category: BoonCategory::Offense,
            stackable: false,
        },
        BoonId::SwiftStrikes => BoonDef {
            id: BoonId::SwiftStrikes,
            name: "Swift Strikes",
            description: "30% faster attack speed",
            rarity: Rarity::Rare,
            category: BoonCategory::Offense,
            stackable: false,
        },
        BoonId::KillingBlow => BoonDef {
            id: BoonId::KillingBlow,
            name: "Killing Blow",
            description: "Enemies explode on death for 2 damage",
            rarity: Rarity::Rare,
            category: BoonCategory::Offense,
            stackable: false,
        },
        BoonId::ChainLightning => BoonDef {
            id: BoonId::ChainLightning,
            name: "Chain Lightning",
            description: "Attacks chain to 2 nearby enemies",
            rarity: Rarity::Legendary,
            category: BoonCategory::Offense,
            stackable: false,
        },
        BoonId::ProjectileSlash => BoonDef {
            id: BoonId::ProjectileSlash,
            name: "Projectile Slash",
            description: "Attacks launch a projectile",
            rarity: Rarity::Legendary,
            category: BoonCategory::Offense,
            stackable: false,
        },
        BoonId::CriticalEdge => BoonDef {
            id: BoonId::CriticalEdge,
            name: "Critical Edge",
            description: "20% chance for double damage",
            rarity: Rarity::Rare,
            category: BoonCategory::Offense,
            stackable: false,
        },
        BoonId::Fury => BoonDef {
            id: BoonId::Fury,
            name: "Fury",
            description: "+5% damage per kill this room",
            rarity: Rarity::Legendary,
            category: BoonCategory::Offense,
            stackable: false,
        },
        BoonId::ToughSkin => BoonDef {
            id: BoonId::ToughSkin,
            name: "Tough Skin",
            description: "+1 max HP",
            rarity: Rarity::Common,
            category: BoonCategory::Defense,
            stackable: true,
        },
        BoonId::IronShield => BoonDef {
            id: BoonId::IronShield,
            name: "Iron Shield",
            description: "Block 2 hits per floor",
            rarity: Rarity::Rare,
            category: BoonCategory::Defense,
            stackable: false,
        },
        BoonId::LifeSteal => BoonDef {
            id: BoonId::LifeSteal,
            name: "Life Steal",
            description: "Heal 15% of damage dealt",
            rarity: Rarity::Rare,
            category: BoonCategory::Defense,
            stackable: false,
        },
        BoonId::VampiricTouch => BoonDef {
            id: BoonId::VampiricTouch,
            name: "Vampiric Touch",
            description: "10% chance to heal on hit",
            rarity: Rarity::Common,
            category: BoonCategory::Defense,
            stackable: false,
        },
        BoonId::Retaliation => BoonDef {
            id: BoonId::Retaliation,
            name: "Retaliation",
            description: "Deal 1 damage to attackers",
            rarity: Rarity::Common,
            category: BoonCategory::Defense,
            stackable: false,
        },
        BoonId::SecondWind => BoonDef {
            id: BoonId::SecondWind,
            name: "Second Wind",
            description: "Survive a killing blow once per floor",
            rarity: Rarity::Legendary,
            category: BoonCategory::Defense,
            stackable: false,
        },
        BoonId::SwiftFeet => BoonDef {
            id: BoonId::SwiftFeet,
            name: "Swift Feet",
            description: "+20% move speed",
            rarity: Rarity::Common,
            category: BoonCategory::Mobility,
            stackable: true,
        },
        BoonId::PhantomDash => BoonDef {
            id: BoonId::PhantomDash,
            name: "Phantom Dash",
            description: "+40% dash distance",
            rarity: Rarity::Rare,
            category: BoonCategory::Mobility,
            stackable: false,
        },
        BoonId::ShadowStep => BoonDef {
            id: BoonId::ShadowStep,
            name: "Shadow Step",
            description: "50% reduced dash cooldown",
            rarity: Rarity::Rare,
            category: BoonCategory::Mobility,
            stackable: false,
        },
        BoonId::DashStrike => BoonDef {
            id: BoonId::DashStrike,
            name: "Dash Strike",
            description: "Deal 2 damage on dash",
            rarity: Rarity::Rare,
            category: BoonCategory::Mobility,
            stackable: false,
        },
        BoonId::GoldMagnet => BoonDef {
            id: BoonId::GoldMagnet,
            name: "Gold Magnet",
            description: "+50% gold earned",
            rarity: Rarity::Common,
            category: BoonCategory::Special,
            stackable: false,
        },
        BoonId::Lucky => BoonDef {
            id: BoonId::Lucky,
            name: "Lucky",
            description: "Better boon rarity odds",
            rarity: Rarity::Rare,
            category: BoonCategory::Special,
            stackable: false,
        },
        BoonId::TreasureSense => BoonDef {
            id: BoonId::TreasureSense,
            name: "Treasure Sense",
            description: "Reveal treasure rooms on minimap",
            rarity: Rarity::Common,
            category: BoonCategory::Special,
            stackable: false,
        },
        BoonId::DeathsBargain => BoonDef {
            id: BoonId::DeathsBargain,
            name: "Death's Bargain",
            description: "+3 damage but reduce to 1 max HP",
            rarity: Rarity::Legendary,
            category: BoonCategory::Special,
            stackable: false,
        },
    }
}

/// Every boon, in definition order.
pub open spec fn all_boon_ids() -> Seq<BoonId> {
    seq![
        BoonId::SharpenedBlade,
        BoonId::BerserkersRage,
        BoonId::SwiftStrikes,
        BoonId::KillingBlow,
        BoonId::ChainLightning,
        BoonId::ProjectileSlash,
        BoonId::CriticalEdge,
        BoonId::Fury,
        BoonId::ToughSkin,
        BoonId::IronShield,
        BoonId::LifeSteal,
        BoonId::VampiricTouch,
        BoonId::Retaliation,
        BoonId::SecondWind,
        BoonId::SwiftFeet,
        BoonId::PhantomDash,
        BoonId::ShadowStep,
        BoonId::DashStrike,
        BoonId::GoldMagnet,
        BoonId::Lucky,
        BoonId::TreasureSense,
        BoonId::DeathsBargain,
    ]
}

/// Look up the definition of a boon.
pub fn boon_def(id: BoonId) -> (b: BoonDef)
    ensures
        b == boon_def_spec(id),
{
    match id {
        BoonId::SharpenedBlade => BoonDef {
            id: BoonId::SharpenedBlade,
            name: "Sharpened Blade",
            description: "+1 attack damage",
            rarity: Rarity::Common,
            category: BoonCategory::Offense,
            stackable: true,
        },
        BoonId::BerserkersRage => BoonDef {
            id: BoonId::BerserkersRage,
            name: "Berserker's Rage",
            description: "+25% damage multiplier",
            rarity: Rarity::Rare,
            category: BoonCategory::Offense,
            stackable: false,
        },
        BoonId::SwiftStrikes => BoonDef {
            id: BoonId::SwiftStrikes,
            name: "Swift Strikes",
            description: "30% faster attack speed",
            rarity: Rarity::Rare,
            category: BoonCategory::Offense,
            stackable: false,
        },
        BoonId::KillingBlow => BoonDef {
            id: BoonId::KillingBlow,
            name: "Killing Blow",
            description: "Enemies explode on death for 2 damage",
            rarity: Rarity::Rare,
            category: BoonCategory::Offense,
            stackable: false,
        },
        BoonId::ChainLightning => BoonDef {
            id: BoonId::ChainLightning,
            name: "Chain Lightning",
            description: "Attacks chain to 2 nearby enemies",
            rarity: Rarity::Legendary,
            category: BoonCategory::Offense,
            stackable: false,
        },
        BoonId::ProjectileSlash => BoonDef {
            id: BoonId::ProjectileSlash,
            name: "Projectile Slash",
            description: "Attacks launch a projectile",
            rarity: Rarity::Legendary,
            category: BoonCategory::Offense,
            stackable: false,
        },
        BoonId::CriticalEdge => BoonDef {
            id: BoonId::CriticalEdge,
            name: "Critical Edge",
            description: "20% chance for double damage",
            rarity: Rarity::Rare,
            category: BoonCategory::Offense,
            stackable: false,
        },
        BoonId::Fury => BoonDef {
            id: BoonId::Fury,
            name: "Fury",
            description: "+5% damage per kill this room",
            rarity: Rarity::Legendary,
            category: BoonCategory::Offense,
            stackable: false,
        },
        BoonId::ToughSkin => BoonDef {
            id: BoonId::ToughSkin,
            name: "Tough Skin",
            description: "+1 max HP",
            rarity: Rarity::Common,
            category: BoonCategory::Defense,
            stackable: true,
        },
        BoonId::IronShield => BoonDef {
            id: BoonId::IronShield,
            name: "Iron Shield",
            description: "Block 2 hits per floor",
            rarity: Rarity::Rare,
            category: BoonCategory::Defense,
            stackable: false,
        },
        BoonId::LifeSteal => BoonDef {
            id: BoonId::LifeSteal,
            name: "Life Steal",
            description: "Heal 15% of damage dealt",
            rarity: Rarity::Rare,
            category: BoonCategory::Defense,
            stackable: false,
        },
        BoonId::VampiricTouch => BoonDef {
            id: BoonId::VampiricTouch,
            name: "Vampiric Touch",
            description: "10% chance to heal on hit",
            rarity: Rarity::Common,
            category: BoonCategory::Defense,
            stackable: false,
        },
        BoonId::Retaliation => BoonDef {
            id: BoonId::Retaliation,
            name: "Retaliation",
            description: "Deal 1 damage to attackers",
            rarity: Rarity::Common,
            category: BoonCategory::Defense,
            stackable: false,
        },
        BoonId::SecondWind => BoonDef {
            id: BoonId::SecondWind,
            name: "Second Wind",
            description: "Survive a killing blow once per floor",
            rarity: Rarity::Legendary,
            category: BoonCategory::Defense,
            stackable: false,
        },
        BoonId::SwiftFeet => BoonDef {
            id: BoonId::SwiftFeet,
            name: "Swift Feet",
            description: "+20% move speed",
            rarity: Rarity::Common,
            category: BoonCategory::Mobility,
            stackable: true,
        },
        BoonId::PhantomDash => BoonDef {
            id: BoonId::PhantomDash,
            name: "Phantom Dash",
            description: "+40% dash distance",
            rarity: Rarity::Rare,
            category: BoonCategory::Mobility,
            stackable: false,
        },
        BoonId::ShadowStep => BoonDef {
            id: BoonId::ShadowStep,
            name: "Shadow Step",
            description: "50% reduced dash cooldown",
            rarity: Rarity::Rare,
            category: BoonCategory::Mobility,
            stackable: false,
        },
        BoonId::DashStrike => BoonDef {
            id: BoonId::DashStrike,
            name: "Dash Strike",
            description: "Deal 2 damage on dash",
            rarity: Rarity::Rare,
            category: BoonCategory::Mobility,
            stackable: false,
        },
        BoonId::GoldMagnet => BoonDef {
            id: BoonId::GoldMagnet,
            name: "Gold Magnet",
            description: "+50% gold earned",
            rarity: Rarity::Common,
            category: BoonCategory::Special,
            stackable: false,
        },
        BoonId::Lucky => BoonDef {
            id: BoonId::Lucky,
            name: "Lucky",
            description: "Better boon rarity odds",
            rarity: Rarity::Rare,
            category: BoonCategory::Special,
            stackable: false,
        },
        BoonId::TreasureSense => BoonDef {
            id: BoonId::TreasureSense,
            name: "Treasure Sense",
            description: "Reveal treasure rooms on minimap",
            rarity: Rarity::Common,
            category: BoonCategory::Special,
            stackable: false,
        },
        BoonId::DeathsBargain => BoonDef {
            id: BoonId::DeathsBargain,
            name: "Death's Bargain",
            description: "+3 damage but reduce to 1 max HP",
            rarity: Rarity::Legendary,
            category: BoonCategory::Special,
            stackable: false,
        },
    }
}

/// All boon definitions, in definition order.
pub fn boon_defs() -> (v: Vec<BoonDef>)
    ensures
        v@ == all_boon_ids().map_values(|id: BoonId| boon_def_spec(id)),
{
    let mut v: Vec<BoonDef> = Vec::new();
    v.push(boon_def(BoonId::SharpenedBlade));
    v.push(boon_def(BoonId::BerserkersRage));
    v.push(boon_def(BoonId::SwiftStrikes));
    v.push(boon_def(BoonId::KillingBlow));
    v.push(boon_def(BoonId::ChainLightning));
    v.push(boon_def(BoonId::ProjectileSlash));
    v.push(boon_def(BoonId::CriticalEdge));
    v.push(boon_def(BoonId::Fury));
    v.push(boon_def(BoonId::ToughSkin));
    v.push(boon_def(BoonId::IronShield));
    v.push(boon_def(BoonId::LifeSteal));
    v.push(boon_def(BoonId::VampiricTouch));
    v.push(boon_def(BoonId::Retaliation));
    v.push(boon_def(BoonId::SecondWind));
    v.push(boon_def(BoonId::SwiftFeet));
    v.push(boon_def(BoonId::PhantomDash));
    v.push(boon_def(BoonId::ShadowStep));
    v.push(boon_def(BoonId::DashStrike));
    v.push(boon_def(BoonId::GoldMagnet));
    v.push(boon_def(BoonId::Lucky));
    v.push(boon_def(BoonId::TreasureSense));
    v.push(boon_def(BoonId::DeathsBargain));
    assert(v@ =~= all_boon_ids().map_values(|id: BoonId| boon_def_spec(id)));
    v
}

} // verus!

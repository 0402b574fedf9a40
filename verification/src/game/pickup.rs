use vstd::prelude::*;

verus! {

/// What a pickup gives.
#[derive(Clone, Copy, PartialEq, Eq, Debug, Structural)]
pub enum PickupType {
    SmallHeal,
    BigHeal,
    Gold(u32),
}

impl PickupType {
    /// Health restored on collection: one for a small heart, three for a big one, none
    /// for gold.
    pub fn heal_amount(&self) -> (h: i32)
        ensures
            h == match *self {
                PickupType::SmallHeal => 1i32,
                PickupType::BigHeal => 3i32,
                PickupType::Gold(_) => 0i32,
            },
    {
        match self {
            PickupType::SmallHeal => 1,
            PickupType::BigHeal => 3,
            PickupType::Gold(_) => 0,
        }
    }
}

} // verus!

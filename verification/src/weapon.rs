//! Weapon classification.

use vstd::prelude::*;

verus! {

/// Kind of weapon, as the host classifies items.
#[derive(Clone, Copy, Debug, PartialEq, Eq, Structural)]
pub enum WeaponKind {
    Knife,
    Pistol,
    SMG,
    Rifle,
    Shotgun,
    SniperRifle,
    Machinegun,
    C4,
    Placeholder,
    Grenade,
    Unknown,
    StackableItem,
    Fists,
    BreachCharge,
    BumpMine,
    Tablet,
    Melee,
}

/// The host's numeric code for each weapon kind.
pub open spec fn weapon_kind_code(k: WeaponKind) -> int {
    match k {
        WeaponKind::Knife => 0,
        WeaponKind::Pistol => 1,
        WeaponKind::SMG => 2,
        WeaponKind::Rifle => 3,
        WeaponKind::Shotgun => 4,
        WeaponKind::SniperRifle => 5,
        WeaponKind::Machinegun => 6,
        WeaponKind::C4 => 7,
        WeaponKind::Placeholder => 8,
        WeaponKind::Grenade => 9,
        WeaponKind::Unknown => 10,
        WeaponKind::StackableItem => 11,
        WeaponKind::Fists => 12,
        WeaponKind::BreachCharge => 13,
        WeaponKind::BumpMine => 14,
        WeaponKind::Tablet => 15,
        WeaponKind::Melee => 16,
    }
}

impl WeaponKind {
    /// The numeric code the host uses for this kind.
    pub fn as_i32(&self) -> (r: i32)
        ensures
            r == weapon_kind_code(*self),
    {
        match self {
            WeaponKind::Knife => 0,
            WeaponKind::Pistol => 1,
            WeaponKind::SMG => 2,
            WeaponKind::Rifle => 3,
            WeaponKind::Shotgun => 4,
            WeaponKind::SniperRifle => 5,
            WeaponKind::Machinegun => 6,
            WeaponKind::C4 => 7,
            WeaponKind::Placeholder => 8,
            WeaponKind::Grenade => 9,
            WeaponKind::Unknown => 10,
            WeaponKind::StackableItem => 11,
            WeaponKind::Fists => 12,
            WeaponKind::BreachCharge => 13,
            WeaponKind::BumpMine => 14,
            WeaponKind::Tablet => 15,
            WeaponKind::Melee => 16,
        }
    }
}

} // verus!

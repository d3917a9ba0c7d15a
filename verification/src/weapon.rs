use vstd::prelude::*;

use crate::inventory::{spec_extract_items, Inventory};
use crate::item::{ItemKind, WeaponKind};

verus! {

/// The name of a weapon kind, as written in definition files.
pub open spec fn spec_weapon_name(kind: WeaponKind) -> Seq<char> {
    match kind {
        WeaponKind::M4 => "M4"@,
        WeaponKind::Ak47 => "Ak47"@,
        WeaponKind::PlasmaRifle => "PlasmaRifle"@,
        WeaponKind::Glock => "Glock"@,
        WeaponKind::RailGun => "RailGun"@,
    }
}

impl WeaponKind {
    /// The name of the kind.
    pub fn as_str(self) -> (r: &'static str)
        ensures
            r@ == spec_weapon_name(self),
    {
        match self {
            WeaponKind::M4 => "M4",
            WeaponKind::Ak47 => "Ak47",
            WeaponKind::PlasmaRifle => "PlasmaRifle",
            WeaponKind::Glock => "Glock",
            WeaponKind::RailGun => "RailGun",
        }
    }

    /// The number the kind is saved as.
    pub fn id(self) -> (r: u32)
        ensures
            r == (match self {
                WeaponKind::M4 => 0u32,
                WeaponKind::Ak47 => 1u32,
                WeaponKind::PlasmaRifle => 2u32,
                WeaponKind::Glock => 3u32,
                WeaponKind::RailGun => 4u32,
            }),
    {
        match self {
            WeaponKind::M4 => 0,
            WeaponKind::Ak47 => 1,
            WeaponKind::PlasmaRifle => 2,
            WeaponKind::Glock => 3,
            WeaponKind::RailGun => 4,
        }
    }
}

/// The names of all weapon kinds, in declaration order.
pub fn weapon_kind_names() -> (r: Vec<&'static str>)
    ensures
        r@.len() == 5,
        r@[0]@ == "M4"@,
        r@[1]@ == "Ak47"@,
        r@[2]@ == "PlasmaRifle"@,
        r@[3]@ == "Glock"@,
        r@[4]@ == "RailGun"@,
{
    let mut v = Vec::new();
    v.push("M4");
    v.push("Ak47");
    v.push("PlasmaRifle");
    v.push("Glock");
    v.push("RailGun");
    v
}

/// Takes the ammo a shot needs. A weapon without an ammo item fires for free; otherwise it
/// fires only when exactly `ammo_per_shot` items could be taken. Returns whether it fires.
pub fn try_consume_ammo(inventory: &mut Inventory, ammo_item: Option<ItemKind>, ammo_per_shot: u32) -> (r: bool)
    ensures
        match ammo_item {
            None => r && final(inventory)@ == old(inventory)@,
            Some(item) => {
                let (s, taken) = spec_extract_items(old(inventory)@, item, ammo_per_shot);
                &&& final(inventory)@ == s
                &&& r == (taken == ammo_per_shot)
            },
        },
{
    match ammo_item {
        None => true,
        Some(item) => inventory.try_extract_exact_items(item, ammo_per_shot) == ammo_per_shot,
    }
}

} // verus!

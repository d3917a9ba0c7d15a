use vstd::prelude::*;

verus! {

/// Every kind of item that can lie in a level or in an inventory.
#[derive(Copy, Clone, PartialEq, Eq, Structural, Debug, Hash)]
pub enum ItemKind {
    Medkit,
    Medpack,
    Ammo,
    Grenade,
    PlasmaGun,
    Ak47,
    M4,
    Glock,
    RailGun,
    MasterKey,
}

/// Every kind of weapon an actor can hold.
#[derive(Copy, Clone, PartialEq, Eq, Structural, Debug, Hash)]
pub enum WeaponKind {
    M4,
    Ak47,
    PlasmaRifle,
    Glock,
    RailGun,
}

/// The weapon that an item stands for, if any.
pub open spec fn spec_associated_weapon(kind: ItemKind) -> Option<WeaponKind> {
    match kind {
        ItemKind::PlasmaGun => Some(WeaponKind::PlasmaRifle),
        ItemKind::Ak47 => Some(WeaponKind::Ak47),
        ItemKind::M4 => Some(WeaponKind::M4),
        ItemKind::Glock => Some(WeaponKind::Glock),
        ItemKind::RailGun => Some(WeaponKind::RailGun),
        _ => None,
    }
}

/// The item that stands for a weapon.
pub open spec fn spec_associated_item(kind: WeaponKind) -> ItemKind {
    match kind {
        WeaponKind::M4 => ItemKind::M4,
        WeaponKind::Ak47 => ItemKind::Ak47,
        WeaponKind::PlasmaRifle => ItemKind::PlasmaGun,
        WeaponKind::Glock => ItemKind::Glock,
        WeaponKind::RailGun => ItemKind::RailGun,
    }
}

impl Default for ItemKind {
    fn default() -> (r: Self)
        ensures
            r == ItemKind::Medkit,
    {
        ItemKind::Medkit
    }
}

impl Default for WeaponKind {
    fn default() -> (r: Self)
        ensures
            r == WeaponKind::M4,
    {
        WeaponKind::M4
    }
}

impl ItemKind {
    /// The weapon this item gives when picked up, `None` for every item that is no weapon.
    pub fn associated_weapon(&self) -> (r: Option<WeaponKind>)
        ensures
            r == spec_associated_weapon(*self),
    {
        match self {
            ItemKind::PlasmaGun => Some(WeaponKind::PlasmaRifle),
            ItemKind::Ak47 => Some(WeaponKind::Ak47),
            ItemKind::M4 => Some(WeaponKind::M4),
            ItemKind::Glock => Some(WeaponKind::Glock),
            ItemKind::RailGun => Some(WeaponKind::RailGun),
            ItemKind::Medkit | ItemKind::Medpack | ItemKind::Ammo | ItemKind::Grenade
            | ItemKind::MasterKey => None,
        }
    }
}

impl WeaponKind {
    /// The item that represents this weapon in an inventory.
    pub fn associated_item(&self) -> (r: ItemKind)
        ensures
            r == spec_associated_item(*self),
    {
        match self {
            WeaponKind::M4 => ItemKind::M4,
            WeaponKind::Ak47 => ItemKind::Ak47,
            WeaponKind::PlasmaRifle => ItemKind::PlasmaGun,
            WeaponKind::Glock => ItemKind::Glock,
            WeaponKind::RailGun => ItemKind::RailGun,
        }
    }
}

/// A weapon's item leads back to the same weapon.
pub proof fn lemma_weapon_item_round_trip(kind: WeaponKind)
    ensures
        spec_associated_weapon(spec_associated_item(kind)) == Some(kind),
{
}

/// An item that stands for a weapon is that weapon's item.
pub proof fn lemma_item_weapon_round_trip(kind: ItemKind)
    ensures
        spec_associated_weapon(kind) matches Some(w) ==> spec_associated_item(w) == kind,
{
}

} // verus!

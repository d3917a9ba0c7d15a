use vstd::prelude::*;

use crate::character::{Character, WeaponVisibility};
use crate::handle::Handle;
use crate::inventory::{count_of, spec_add_item, spec_extract_items};
use crate::item::{spec_associated_item, spec_associated_weapon, ItemKind, WeaponKind};

verus! {

/// The levels of the game.
#[derive(Copy, Clone, PartialEq, Eq, Structural, Debug)]
pub enum LevelKind {
    Arrival,
    Lab,
    Testbed,
}

impl LevelKind {
    /// The level that follows when the player reaches the exit: the lab follows the
    /// arrival level; the other levels have none.
    pub fn next(self) -> (r: Option<LevelKind>)
        ensures
            r == (match self {
                LevelKind::Arrival => Some(LevelKind::Lab),
                _ => None::<LevelKind>,
            }),
    {
        match self {
            LevelKind::Arrival => Some(LevelKind::Lab),
            LevelKind::Lab => None,
            LevelKind::Testbed => None,
        }
    }
}

/// What a trigger volume does when an actor enters it.
#[derive(Copy, Clone, PartialEq, Eq, Structural, Debug)]
pub enum TriggerKind {
    NextLevel,
    EndGame,
}

impl Default for TriggerKind {
    fn default() -> (r: Self)
        ensures
            r == TriggerKind::NextLevel,
    {
        TriggerKind::NextLevel
    }
}

/// The game messages triggers send.
#[derive(Copy, Clone, PartialEq, Eq, Structural, Debug)]
pub enum TriggerMessage {
    LoadNextLevel,
    EndGame,
}

/// The message a trigger sends for an actor inside it.
pub open spec fn spec_trigger_message(kind: TriggerKind) -> TriggerMessage {
    match kind {
        TriggerKind::NextLevel => TriggerMessage::LoadNextLevel,
        TriggerKind::EndGame => TriggerMessage::EndGame,
    }
}

impl TriggerKind {
    /// The message the trigger sends for an actor inside it.
    pub fn message(self) -> (r: TriggerMessage)
        ensures
            r == spec_trigger_message(self),
    {
        match self {
            TriggerKind::NextLevel => TriggerMessage::LoadNextLevel,
            TriggerKind::EndGame => TriggerMessage::EndGame,
        }
    }

    /// The messages the trigger sends in one update: one for each actor inside it.
    pub fn messages(self, actors_inside: usize) -> (r: Vec<TriggerMessage>)
        ensures
            r@ == Seq::new(actors_inside as nat, |i: int| spec_trigger_message(self)),
    {
        let mut v = Vec::new();
        let m = self.message();
        let mut i: usize = 0;
        while i < actors_inside
            invariant
                i <= actors_inside,
                m == spec_trigger_message(self),
                v@ =~= Seq::new(i as nat, |j: int| spec_trigger_message(self)),
            decreases actors_inside - i,
        {
            v.push(m);
            i = i + 1;
        }
        v
    }
}

/// The collision groups of the physics world.
#[derive(Copy, Clone, PartialEq, Eq, Structural, Debug)]
pub enum CollisionGroups {
    ActorCapsule,
    All,
}

impl CollisionGroups {
    /// The bit mask of the group.
    pub fn bits(self) -> (r: u16)
        ensures
            r == (match self {
                CollisionGroups::ActorCapsule => 1u16,
                CollisionGroups::All => u16::MAX,
            }),
    {
        match self {
            CollisionGroups::ActorCapsule => 1,
            CollisionGroups::All => u16::MAX,
        }
    }
}

/// What happens when an actor picks up an item.
#[derive(Copy, Clone, PartialEq, Eq, Structural, Debug)]
pub enum PickupOutcome {
    /// Items go into the actor's inventory.
    AddItems { kind: ItemKind, count: u32 },
    /// The actor gets a new weapon of this kind.
    GiveWeapon(WeaponKind),
}

/// The outcome of picking up an item of `kind`, for an actor whose weapons are of `kinds`:
/// a weapon already owned turns into ammo, any other weapon is given, ammo comes in packs
/// of 24, every other item comes alone.
pub open spec fn spec_pickup_outcome(kind: ItemKind, kinds: Seq<WeaponKind>) -> PickupOutcome {
    match spec_associated_weapon(kind) {
        Some(w) => if kinds.contains(w) {
            PickupOutcome::AddItems { kind: ItemKind::Ammo, count: 24 }
        } else {
            PickupOutcome::GiveWeapon(w)
        },
        None => if kind == ItemKind::Ammo {
            PickupOutcome::AddItems { kind: ItemKind::Ammo, count: 24 }
        } else {
            PickupOutcome::AddItems { kind, count: 1 }
        },
    }
}

/// Whether `kinds` holds `kind`, scanning from the front.
pub fn contains_weapon_kind(kinds: &[WeaponKind], kind: WeaponKind) -> (r: bool)
    ensures
        r == kinds@.contains(kind),
{
    let mut i: usize = 0;
    while i < kinds.len()
        invariant
            i <= kinds@.len(),
            forall|j: int| 0 <= j < i ==> kinds@[j] != kind,
        decreases kinds@.len() - i,
    {
        if kinds[i] == kind {
            return true;
        }
        i = i + 1;
    }
    false
}

/// Decides what picking up an item gives.
pub fn pickup_outcome(kind: ItemKind, kinds: &[WeaponKind]) -> (r: PickupOutcome)
    ensures
        r == spec_pickup_outcome(kind, kinds@),
{
    match kind.associated_weapon() {
        Some(w) => if contains_weapon_kind(kinds, w) {
            PickupOutcome::AddItems { kind: ItemKind::Ammo, count: 24 }
        } else {
            PickupOutcome::GiveWeapon(w)
        },
        None => if kind == ItemKind::Ammo {
            PickupOutcome::AddItems { kind: ItemKind::Ammo, count: 24 }
        } else {
            PickupOutcome::AddItems { kind, count: 1 }
        },
    }
}

/// How much health an item restores when used.
pub fn heal_amount(kind: ItemKind) -> (r: u32)
    ensures
        r == (match kind {
            ItemKind::Medkit => 40u32,
            ItemKind::Medpack => 20u32,
            _ => 0u32,
        }),
{
    match kind {
        ItemKind::Medkit => 40,
        ItemKind::Medpack => 20,
        ItemKind::Ammo | ItemKind::PlasmaGun | ItemKind::Ak47 | ItemKind::M4 | ItemKind::Glock
        | ItemKind::RailGun | ItemKind::Grenade | ItemKind::MasterKey => 0,
    }
}

/// The handles of the weapons whose kind is `kind`, in order.
pub open spec fn weapons_of_kind(weapons: Seq<Handle>, kinds: Seq<WeaponKind>, kind: WeaponKind) -> Seq<Handle>
    decreases weapons.len(),
{
    if weapons.len() == 0 {
        Seq::empty()
    } else {
        let n = weapons.len() - 1;
        let rest = weapons_of_kind(weapons.subrange(0, n), kinds.subrange(0, n), kind);
        if kinds[n] == kind {
            rest.push(weapons[n])
        } else {
            rest
        }
    }
}

impl Character {
    /// Gives the actor a new weapon of `kind`: the weapon becomes the selected one and its
    /// item goes into the inventory.
    pub fn give_weapon(&mut self, weapon: Handle, kind: WeaponKind) -> (r: Vec<WeaponVisibility>)
        requires
            old(self).weapons@.len() < u32::MAX,
            count_of(old(self).inventory@, spec_associated_item(kind)) < u32::MAX,
        ensures
            final(self).weapons@ == old(self).weapons@.push(weapon),
            final(self).current_weapon == old(self).weapons@.len(),
            final(self).inventory@ == spec_add_item(old(self).inventory@, spec_associated_item(kind), 1),
            r@ == crate::character::hide_all(old(self).weapons@) + seq![
                WeaponVisibility { weapon, visible: true },
            ],
    {
        let r = self.add_weapon(weapon);
        self.inventory.add_item(kind.associated_item(), 1);
        r
    }

    /// Applies the pickup of an item (`kinds` lists the kinds of the actor's weapons).
    /// Returns the weapon kind to create and give, when the item is a weapon the actor does
    /// not have yet; otherwise the items go into the inventory.
    pub fn pickup_item(&mut self, kind: ItemKind, kinds: &[WeaponKind]) -> (r: Option<WeaponKind>)
        requires
            spec_pickup_outcome(kind, kinds@) matches PickupOutcome::AddItems { kind: k, count }
                ==> count_of(old(self).inventory@, k) + count <= u32::MAX,
        ensures
            final(self).weapons@ == old(self).weapons@,
            final(self).current_weapon == old(self).current_weapon,
            match spec_pickup_outcome(kind, kinds@) {
                PickupOutcome::AddItems { kind: k, count } => r.is_none()
                    && final(self).inventory@ == spec_add_item(old(self).inventory@, k, count),
                PickupOutcome::GiveWeapon(w) => r == Some(w) && final(self).inventory@ == old(
                    self,
                ).inventory@,
            },
    {
        match pickup_outcome(kind, kinds) {
            PickupOutcome::AddItems { kind, count } => {
                self.inventory.add_item(kind, count);
                None
            },
            PickupOutcome::GiveWeapon(w) => Some(w),
        }
    }

    /// Drops `count` items of a kind when the actor has that many; when the items are a
    /// weapon, the actor's weapons of that kind are to be destroyed (`kinds` lists the kind
    /// of each weapon). Returns whether the items were taken and the weapons to destroy.
    pub fn drop_items(&mut self, item: ItemKind, count: u32, kinds: &[WeaponKind]) -> (r: (bool, Vec<Handle>))
        requires
            kinds@.len() == old(self).weapons@.len(),
        ensures
            final(self).weapons@ == old(self).weapons@,
            final(self).current_weapon == old(self).current_weapon,
            (final(self).inventory@, if r.0 { count } else { 0 }) == spec_extract_items(old(self).inventory@, item, count),
            r.0 == (spec_extract_items(old(self).inventory@, item, count).1 == count),
            r.0 ==> r.1@ == (match spec_associated_weapon(item) {
                Some(w) => weapons_of_kind(old(self).weapons@, kinds@, w),
                None => Seq::<Handle>::empty(),
            }),
            !r.0 ==> r.1@.len() == 0,
    {
        let taken = self.inventory.try_extract_exact_items(item, count);
        let mut to_remove: Vec<Handle> = Vec::new();
        if taken == count {
            match item.associated_weapon() {
                Some(w) => {
                    let mut i: usize = 0;
                    while i < self.weapons.len()
                        invariant
                            i <= self.weapons@.len(),
                            kinds@.len() == self.weapons@.len(),
                            to_remove@ == weapons_of_kind(self.weapons@.subrange(0, i as int), kinds@.subrange(0, i as int), w),
                        decreases self.weapons@.len() - i,
                    {
                        proof {
                            let ws = self.weapons@.subrange(0, i + 1);
                            let ks = kinds@.subrange(0, i + 1);
                            assert(ws.subrange(0, i as int) =~= self.weapons@.subrange(0, i as int));
                            assert(ks.subrange(0, i as int) =~= kinds@.subrange(0, i as int));
                        }
                        if kinds[i] == w {
                            to_remove.push(self.weapons[i]);
                        }
                        i = i + 1;
                    }
                    proof {
                        assert(self.weapons@.subrange(0, i as int) =~= self.weapons@);
                        assert(kinds@.subrange(0, i as int) =~= kinds@);
                    }
                },
                None => {},
            }
            (true, to_remove)
        } else {
            (false, to_remove)
        }
    }
}

} // verus!

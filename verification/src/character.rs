use vstd::prelude::*;

use crate::handle::Handle;
use crate::inventory::Inventory;
use crate::item::WeaponKind;

verus! {

/// A request to show or hide a weapon's model.
#[derive(Copy, Clone, PartialEq, Eq, Structural, Debug)]
pub struct WeaponVisibility {
    pub weapon: Handle,
    pub visible: bool,
}

/// The weapon at `index`, or the handle to nothing when there is none.
pub open spec fn weapon_at(weapons: Seq<Handle>, index: int) -> Handle {
    if 0 <= index < weapons.len() {
        weapons[index]
    } else {
        Handle { index: 0, generation: 0 }
    }
}

/// Hiding requests for every weapon, in order.
pub open spec fn hide_all(weapons: Seq<Handle>) -> Seq<WeaponVisibility> {
    weapons.map_values(|w: Handle| WeaponVisibility { weapon: w, visible: false })
}

/// A request about the weapon at `index`, when there is one.
pub open spec fn request_at(weapons: Seq<Handle>, index: int, visible: bool) -> Seq<
    WeaponVisibility,
> {
    if 0 <= index < weapons.len() {
        seq![WeaponVisibility { weapon: weapons[index], visible }]
    } else {
        Seq::empty()
    }
}

/// The index of the first weapon whose kind is `kind` (meaningful when there is one).
pub open spec fn first_of_kind(kinds: Seq<WeaponKind>, kind: WeaponKind) -> int {
    choose|i: int|
        0 <= i < kinds.len() && kinds[i] == kind && forall|j: int| 0 <= j < i ==> kinds[j] != kind
}

/// The slot selected after asking for the next weapon.
pub open spec fn spec_next_slot(weapon_count: nat, current: u32) -> u32 {
    if weapon_count > 0 && current < weapon_count - 1 {
        (current + 1) as u32
    } else {
        current
    }
}

/// The slot selected after asking for the previous weapon.
pub open spec fn spec_prev_slot(current: u32) -> u32 {
    if current > 0 {
        (current - 1) as u32
    } else {
        current
    }
}

/// The weapons, the selected weapon and the inventory of an actor.
pub struct Character {
    pub weapons: Vec<Handle>,
    pub current_weapon: u32,
    pub inventory: Inventory,
}

impl Character {
    pub fn new() -> (r: Self)
        ensures
            r.weapons@ == Seq::<Handle>::empty(),
            r.current_weapon == 0,
            r.inventory@ == Seq::<crate::inventory::ItemEntry>::empty(),
    {
        Character { weapons: Vec::new(), current_weapon: 0, inventory: Inventory::new() }
    }

    fn request_current_weapon_visible(&self, visible: bool, requests: &mut Vec<WeaponVisibility>)
        ensures
            final(requests)@ == old(requests)@ + request_at(
                self.weapons@,
                self.current_weapon as int,
                visible,
            ),
    {
        if (self.current_weapon as usize) < self.weapons.len() {
            requests.push(
                WeaponVisibility { weapon: self.weapons[self.current_weapon as usize], visible },
            );
        }
        proof {
            assert(final(requests)@ =~= old(requests)@ + request_at(
                self.weapons@,
                self.current_weapon as int,
                visible,
            ));
        }
    }

    fn hide_all_weapons(&self, requests: &mut Vec<WeaponVisibility>)
        ensures
            final(requests)@ == old(requests)@ + hide_all(self.weapons@),
    {
        let mut i: usize = 0;
        while i < self.weapons.len()
            invariant
                i <= self.weapons@.len(),
                requests@ == old(requests)@ + hide_all(self.weapons@.subrange(0, i as int)),
            decreases self.weapons@.len() - i,
        {
            requests.push(WeaponVisibility { weapon: self.weapons[i], visible: false });
            i = i + 1;
            proof {
                assert(hide_all(self.weapons@.subrange(0, i as int)) =~= hide_all(
                    self.weapons@.subrange(0, i - 1),
                ).push(WeaponVisibility { weapon: self.weapons@[i - 1], visible: false }));
            }
        }
        proof {
            assert(self.weapons@.subrange(0, i as int) =~= self.weapons@);
        }
    }

    /// Gives the actor a weapon and makes it the selected one; every other weapon is hidden.
    pub fn add_weapon(&mut self, weapon: Handle) -> (requests: Vec<WeaponVisibility>)
        requires
            old(self).weapons@.len() < u32::MAX,
        ensures
            final(self).weapons@ == old(self).weapons@.push(weapon),
            final(self).current_weapon == old(self).weapons@.len(),
            final(self).inventory@ == old(self).inventory@,
            requests@ == hide_all(old(self).weapons@) + seq![
                WeaponVisibility { weapon, visible: true },
            ],
    {
        let mut requests = Vec::new();
        self.hide_all_weapons(&mut requests);
        self.current_weapon = self.weapons.len() as u32;
        self.weapons.push(weapon);
        self.request_current_weapon_visible(true, &mut requests);
        requests
    }

    /// Selects the first weapon of a kind, when the actor has one; `kinds` lists the kind
    /// of each of the actor's weapons.
    pub fn select_weapon(&mut self, weapon: WeaponKind, kinds: &[WeaponKind]) -> (requests: Vec<
        WeaponVisibility,
    >)
        requires
            kinds@.len() == old(self).weapons@.len(),
            old(self).weapons@.len() <= u32::MAX,
        ensures
            final(self).weapons@ == old(self).weapons@,
            final(self).inventory@ == old(self).inventory@,
            kinds@.contains(weapon) ==> final(self).current_weapon == first_of_kind(kinds@, weapon)
                && requests@ == hide_all(old(self).weapons@) + seq![
                WeaponVisibility {
                    weapon: old(self).weapons@[first_of_kind(kinds@, weapon)],
                    visible: true,
                },
            ],
            !kinds@.contains(weapon) ==> final(self).current_weapon == old(self).current_weapon
                && requests@.len() == 0,
    {
        let mut requests = Vec::new();
        let mut i: usize = 0;
        while i < kinds.len()
            invariant
                i <= kinds@.len(),
                forall|j: int| 0 <= j < i ==> kinds@[j] != weapon,
                kinds@.len() == self.weapons@.len(),
                self.weapons@.len() <= u32::MAX,
                self.weapons@ == old(self).weapons@,
                self.current_weapon == old(self).current_weapon,
                self.inventory@ == old(self).inventory@,
                requests@.len() == 0,
            decreases kinds@.len() - i,
        {
            if kinds[i] == weapon {
                self.hide_all_weapons(&mut requests);
                self.current_weapon = i as u32;
                self.request_current_weapon_visible(true, &mut requests);
                proof {
                    let f = first_of_kind(kinds@, weapon);
                    assert(0 <= i < kinds@.len() && kinds@[i as int] == weapon && forall|j: int|
                        0 <= j < i ==> kinds@[j] != weapon);
                    assert(f == i as int);
                }
                return requests;
            }
            i = i + 1;
        }
        proof {
            if kinds@.contains(weapon) {
                let w = choose|w: int| 0 <= w < kinds@.len() && kinds@[w] == weapon;
                assert(kinds@[w] != weapon);
            }
        }
        requests
    }

    /// The selected weapon, or the handle to nothing when the selection is empty.
    pub fn current_weapon(&self) -> (r: Handle)
        ensures
            r == weapon_at(self.weapons@, self.current_weapon as int),
    {
        if (self.current_weapon as usize) < self.weapons.len() {
            self.weapons[self.current_weapon as usize]
        } else {
            Handle::none()
        }
    }

    /// Selects the next weapon, when the selected one is not the last.
    pub fn next_weapon(&mut self) -> (requests: Vec<WeaponVisibility>)
        requires
            old(self).weapons@.len() <= u32::MAX,
        ensures
            final(self).weapons@ == old(self).weapons@,
            final(self).inventory@ == old(self).inventory@,
            ({
                let w = old(self).weapons@;
                let c = old(self).current_weapon as int;
                &&& final(self).current_weapon == spec_next_slot(w.len(), old(self).current_weapon)
                &&& if w.len() > 0 && c < w.len() - 1 {
                    requests@ == seq![
                        WeaponVisibility { weapon: w[c], visible: false },
                        WeaponVisibility { weapon: w[c + 1], visible: true },
                    ]
                } else {
                    requests@.len() == 0
                }
            }),
    {
        let mut requests = Vec::new();
        if self.weapons.len() > 0 && (self.current_weapon as usize) < self.weapons.len() - 1 {
            self.request_current_weapon_visible(false, &mut requests);
            self.current_weapon = self.current_weapon + 1;
            self.request_current_weapon_visible(true, &mut requests);
        }
        requests
    }

    /// Selects the previous weapon, when the selection is not at the first slot.
    pub fn prev_weapon(&mut self) -> (requests: Vec<WeaponVisibility>)
        ensures
            final(self).weapons@ == old(self).weapons@,
            final(self).inventory@ == old(self).inventory@,
            ({
                let w = old(self).weapons@;
                let c = old(self).current_weapon as int;
                &&& final(self).current_weapon == spec_prev_slot(old(self).current_weapon)
                &&& if c > 0 {
                    requests@ == request_at(w, c, false) + request_at(w, c - 1, true)
                } else {
                    requests@.len() == 0
                }
            }),
    {
        let mut requests = Vec::new();
        if self.current_weapon > 0 {
            self.request_current_weapon_visible(false, &mut requests);
            self.current_weapon = self.current_weapon - 1;
            self.request_current_weapon_visible(true, &mut requests);
        }
        requests
    }

    /// Selects the first weapon, when the actor has any.
    pub fn use_first_weapon_or_none(&mut self) -> (requests: Vec<WeaponVisibility>)
        ensures
            final(self).weapons@ == old(self).weapons@,
            final(self).inventory@ == old(self).inventory@,
            ({
                let w = old(self).weapons@;
                let c = old(self).current_weapon as int;
                if w.len() > 0 {
                    &&& final(self).current_weapon == 0
                    &&& requests@ == request_at(w, c, false) + seq![
                        WeaponVisibility { weapon: w[0], visible: true },
                    ]
                } else {
                    &&& final(self).current_weapon == c
                    &&& requests@.len() == 0
                }
            }),
    {
        let mut requests = Vec::new();
        if self.weapons.len() > 0 {
            self.request_current_weapon_visible(false, &mut requests);
            self.current_weapon = 0;
            self.request_current_weapon_visible(true, &mut requests);
        }
        requests
    }

    /// Selects the weapon at slot `i`, when there is one.
    pub fn set_current_weapon(&mut self, i: usize) -> (requests: Vec<WeaponVisibility>)
        requires
            old(self).weapons@.len() <= u32::MAX,
        ensures
            final(self).weapons@ == old(self).weapons@,
            final(self).inventory@ == old(self).inventory@,
            ({
                let w = old(self).weapons@;
                let c = old(self).current_weapon as int;
                if i < w.len() {
                    &&& final(self).current_weapon == i
                    &&& requests@ == request_at(w, c, false) + seq![
                        WeaponVisibility { weapon: w[i as int], visible: true },
                    ]
                } else {
                    &&& final(self).current_weapon == c
                    &&& requests@.len() == 0
                }
            }),
    {
        let mut requests = Vec::new();
        if i < self.weapons.len() {
            self.request_current_weapon_visible(false, &mut requests);
            self.current_weapon = i as u32;
            self.request_current_weapon_visible(true, &mut requests);
        }
        requests
    }

    /// Forgets a weapon that is being destroyed: when it was the selected one, the first
    /// weapon becomes selected and is shown; then the weapon leaves the list.
    pub fn remove_weapon(&mut self, weapon: Handle) -> (requests: Vec<WeaponVisibility>)
        ensures
            final(self).inventory@ == old(self).inventory@,
            ({
                let w = old(self).weapons@;
                let c = old(self).current_weapon;
                let was_current = weapon_at(w, c as int) == weapon && w.len() > 0;
                &&& was_current ==> final(self).current_weapon == 0 && requests@ == seq![
                    WeaponVisibility { weapon: w[0], visible: true },
                ]
                &&& !was_current ==> final(self).current_weapon == c && requests@.len() == 0
                &&& w.contains(weapon) ==> final(self).weapons@ == w.remove(
                    first_handle(w, weapon),
                )
                &&& !w.contains(weapon) ==> final(self).weapons@ == w
            }),
    {
        let mut requests = Vec::new();
        if self.current_weapon() == weapon && self.weapons.len() > 0 {
            self.current_weapon = 0;
            requests.push(WeaponVisibility { weapon: self.weapons[0], visible: true });
        }
        let mut i: usize = 0;
        while i < self.weapons.len()
            invariant
                i <= self.weapons@.len(),
                self.weapons@ == old(self).weapons@,
                forall|j: int| 0 <= j < i ==> self.weapons@[j] != weapon,
                self.inventory@ == old(self).inventory@,
                ({
                    let w = old(self).weapons@;
                    let c = old(self).current_weapon;
                    let was_current = weapon_at(w, c as int) == weapon && w.len() > 0;
                    &&& was_current ==> self.current_weapon == 0 && requests@ == seq![
                        WeaponVisibility { weapon: w[0], visible: true },
                    ]
                    &&& !was_current ==> self.current_weapon == c && requests@.len() == 0
                }),
            decreases self.weapons@.len() - i,
        {
            if self.weapons[i] == weapon {
                proof {
                    let f = first_handle(self.weapons@, weapon);
                    assert(0 <= i < self.weapons@.len() && self.weapons@[i as int] == weapon
                        && forall|j: int| 0 <= j < i ==> self.weapons@[j] != weapon);
                    assert(f == i as int);
                }
                self.weapons.remove(i);
                return requests;
            }
            i = i + 1;
        }
        proof {
            if old(self).weapons@.contains(weapon) {
                let w = choose|w: int|
                    0 <= w < old(self).weapons@.len() && old(self).weapons@[w] == weapon;
                assert(self.weapons@[w] != weapon);
            }
        }
        requests
    }
}

/// The index of the first occurrence of a handle (meaningful when it occurs).
pub open spec fn first_handle(weapons: Seq<Handle>, weapon: Handle) -> int {
    choose|i: int|
        0 <= i < weapons.len() && weapons[i] == weapon && forall|j: int|
            0 <= j < i ==> weapons[j] != weapon
}

} // verus!

use vstd::prelude::*;

use crate::anim::{push_rule, push_transition, rules_view, transitions_view, AnimState, Rule, TransitionDef, TransitionView};
use crate::character::{
    first_of_kind, hide_all, request_at, spec_next_slot, spec_prev_slot, Character, WeaponVisibility,
};
use crate::handle::Handle;
use crate::inventory::{has_kind, Inventory, ItemEntry};
use crate::item::{ItemKind, WeaponKind};
use crate::text::{decimal, message_with_number};

verus! {

/// The weapon pose the player's upper body takes when aiming.
#[derive(Copy, Clone, PartialEq, Eq, Structural, Debug)]
pub enum CombatMachineWeapon {
    Pistol,
    Rifle,
}

/// What drives the player's upper-body animation machine.
#[derive(Copy, Clone, PartialEq, Eq, Structural, Debug)]
pub struct UpperBodyMachineInput {
    pub is_walking: bool,
    pub is_jumping: bool,
    pub has_ground_contact: bool,
    pub is_aiming: bool,
    pub toss_grenade: bool,
    pub weapon: CombatMachineWeapon,
    pub put_back_weapon: bool,
    pub grab_new_weapon: bool,
}

/// What drives the player's lower-body animation machine.
#[derive(Copy, Clone, PartialEq, Eq, Structural, Debug)]
pub struct LowerBodyMachineInput {
    pub is_walking: bool,
    pub is_jumping: bool,
    pub has_ground_contact: bool,
}

/// Which animations of the upper body have played to their end.
#[derive(Copy, Clone, PartialEq, Eq, Structural, Debug)]
pub struct UpperBodyAnimationsEnded {
    pub jump: bool,
    pub land: bool,
    pub put_back: bool,
    pub toss_grenade: bool,
}

/// The rule values of the player's upper-body machine.
pub open spec fn spec_upper_body_rules(i: UpperBodyMachineInput, e: UpperBodyAnimationsEnded) -> Seq<(Seq<char>, bool)> {
    seq![
        ("IdleToWalk"@, i.is_walking),
        ("WalkToIdle"@, !i.is_walking),
        ("WalkToJump"@, i.is_jumping),
        ("IdleToJump"@, i.is_jumping),
        ("JumpToFall"@, e.jump),
        ("WalkToFall"@, !i.has_ground_contact),
        ("IdleToFall"@, !i.has_ground_contact),
        ("FallToLand"@, i.has_ground_contact),
        ("LandToIdle"@, e.land),
        ("IdleToAim"@, i.is_aiming && i.has_ground_contact),
        ("WalkToAim"@, i.is_aiming && i.has_ground_contact),
        ("AimToIdle"@, !i.is_aiming || !i.has_ground_contact),
        ("AimToWalk"@, !i.is_aiming || !i.has_ground_contact),
        ("AimToPutBack"@, i.is_aiming && i.put_back_weapon),
        ("WalkToPutBack"@, i.put_back_weapon),
        ("IdleToPutBack"@, i.put_back_weapon),
        ("PutBackToIdle"@, !i.put_back_weapon),
        ("PutBackToWalk"@, !i.put_back_weapon && i.is_walking),
        ("PutBackToGrab"@, i.grab_new_weapon && e.put_back),
        ("GrabToIdle"@, !i.grab_new_weapon),
        ("GrabToWalk"@, !i.grab_new_weapon && i.is_walking),
        ("TossGrenadeToAim"@, !i.toss_grenade && e.toss_grenade),
        ("AimToTossGrenade"@, i.toss_grenade && i.is_aiming),
    ]
}

/// The transitions of the player's upper-body machine.
pub open spec fn spec_upper_body_transitions() -> Seq<TransitionView> {
    seq![
        ("Walk->Idle"@, AnimState::Walk, AnimState::Idle, 300u32, "WalkToIdle"@),
        ("Walk->Jump"@, AnimState::Walk, AnimState::Jump, 200u32, "WalkToJump"@),
        ("Idle->Walk"@, AnimState::Idle, AnimState::Walk, 300u32, "IdleToWalk"@),
        ("Idle->Jump"@, AnimState::Idle, AnimState::Jump, 250u32, "IdleToJump"@),
        ("Falling->Landing"@, AnimState::Fall, AnimState::Land, 200u32, "FallToLand"@),
        ("Landing->Idle"@, AnimState::Land, AnimState::Idle, 200u32, "LandToIdle"@),
        ("Jump->Falling"@, AnimState::Jump, AnimState::Fall, 300u32, "JumpToFall"@),
        ("Walk->Falling"@, AnimState::Walk, AnimState::Fall, 300u32, "WalkToFall"@),
        ("Idle->Falling"@, AnimState::Idle, AnimState::Fall, 200u32, "IdleToFall"@),
        ("Idle->Aim"@, AnimState::Idle, AnimState::Aim, 200u32, "IdleToAim"@),
        ("Walk->Aim"@, AnimState::Walk, AnimState::Aim, 200u32, "WalkToAim"@),
        ("Aim->Idle"@, AnimState::Aim, AnimState::Idle, 200u32, "AimToIdle"@),
        ("Walk->Aim"@, AnimState::Aim, AnimState::Walk, 200u32, "AimToWalk"@),
        ("Aim->TossGrenade"@, AnimState::Aim, AnimState::TossGrenade, 200u32, "AimToTossGrenade"@),
        ("TossGrenade->Aim"@, AnimState::TossGrenade, AnimState::Aim, 200u32, "TossGrenadeToAim"@),
        ("Aim->PutBack"@, AnimState::Aim, AnimState::PutBack, 200u32, "AimToPutBack"@),
        ("Walk->PutBack"@, AnimState::Walk, AnimState::PutBack, 200u32, "WalkToPutBack"@),
        ("Idle->PutBack"@, AnimState::Idle, AnimState::PutBack, 200u32, "IdleToPutBack"@),
        ("PutBack->Idle"@, AnimState::PutBack, AnimState::Idle, 200u32, "PutBackToIdle"@),
        ("PutBack->Walk"@, AnimState::PutBack, AnimState::Walk, 200u32, "PutBackToWalk"@),
        ("PutBack->Grab"@, AnimState::PutBack, AnimState::Grab, 200u32, "PutBackToGrab"@),
        ("Grab->Idle"@, AnimState::Grab, AnimState::Idle, 200u32, "GrabToIdle"@),
        ("Grab->Walk"@, AnimState::Grab, AnimState::Walk, 200u32, "GrabToWalk"@)
    ]
}

/// The layout of the player's upper-body machine, entered in the idle state.
pub fn upper_body_transitions() -> (r: Vec<TransitionDef>)
    ensures
        transitions_view(r@) == spec_upper_body_transitions(),
{
    let mut v: Vec<TransitionDef> = Vec::new();
    push_transition(&mut v, "Walk->Idle", AnimState::Walk, AnimState::Idle, 300, "WalkToIdle");
    push_transition(&mut v, "Walk->Jump", AnimState::Walk, AnimState::Jump, 200, "WalkToJump");
    push_transition(&mut v, "Idle->Walk", AnimState::Idle, AnimState::Walk, 300, "IdleToWalk");
    push_transition(&mut v, "Idle->Jump", AnimState::Idle, AnimState::Jump, 250, "IdleToJump");
    push_transition(&mut v, "Falling->Landing", AnimState::Fall, AnimState::Land, 200, "FallToLand");
    push_transition(&mut v, "Landing->Idle", AnimState::Land, AnimState::Idle, 200, "LandToIdle");
    push_transition(&mut v, "Jump->Falling", AnimState::Jump, AnimState::Fall, 300, "JumpToFall");
    push_transition(&mut v, "Walk->Falling", AnimState::Walk, AnimState::Fall, 300, "WalkToFall");
    push_transition(&mut v, "Idle->Falling", AnimState::Idle, AnimState::Fall, 200, "IdleToFall");
    push_transition(&mut v, "Idle->Aim", AnimState::Idle, AnimState::Aim, 200, "IdleToAim");
    push_transition(&mut v, "Walk->Aim", AnimState::Walk, AnimState::Aim, 200, "WalkToAim");
    push_transition(&mut v, "Aim->Idle", AnimState::Aim, AnimState::Idle, 200, "AimToIdle");
    push_transition(&mut v, "Walk->Aim", AnimState::Aim, AnimState::Walk, 200, "AimToWalk");
    push_transition(&mut v, "Aim->TossGrenade", AnimState::Aim, AnimState::TossGrenade, 200, "AimToTossGrenade");
    push_transition(&mut v, "TossGrenade->Aim", AnimState::TossGrenade, AnimState::Aim, 200, "TossGrenadeToAim");
    push_transition(&mut v, "Aim->PutBack", AnimState::Aim, AnimState::PutBack, 200, "AimToPutBack");
    push_transition(&mut v, "Walk->PutBack", AnimState::Walk, AnimState::PutBack, 200, "WalkToPutBack");
    push_transition(&mut v, "Idle->PutBack", AnimState::Idle, AnimState::PutBack, 200, "IdleToPutBack");
    push_transition(&mut v, "PutBack->Idle", AnimState::PutBack, AnimState::Idle, 200, "PutBackToIdle");
    push_transition(&mut v, "PutBack->Walk", AnimState::PutBack, AnimState::Walk, 200, "PutBackToWalk");
    push_transition(&mut v, "PutBack->Grab", AnimState::PutBack, AnimState::Grab, 200, "PutBackToGrab");
    push_transition(&mut v, "Grab->Idle", AnimState::Grab, AnimState::Idle, 200, "GrabToIdle");
    push_transition(&mut v, "Grab->Walk", AnimState::Grab, AnimState::Walk, 200, "GrabToWalk");
    proof {
        assert(transitions_view(v@) =~= spec_upper_body_transitions());
    }
    v
}

impl UpperBodyMachineInput {
    /// The rule values of the upper-body machine.
    #[verifier::rlimit(60)]
    pub fn rules(&self, ended: UpperBodyAnimationsEnded) -> (r: Vec<Rule>)
        ensures
            rules_view(r@) == spec_upper_body_rules(*self, ended),
    {
        let i = *self;
        let mut v: Vec<Rule> = Vec::new();
        push_rule(&mut v, "IdleToWalk", i.is_walking);
        push_rule(&mut v, "WalkToIdle", !i.is_walking);
        push_rule(&mut v, "WalkToJump", i.is_jumping);
        push_rule(&mut v, "IdleToJump", i.is_jumping);
        push_rule(&mut v, "JumpToFall", ended.jump);
        push_rule(&mut v, "WalkToFall", !i.has_ground_contact);
        push_rule(&mut v, "IdleToFall", !i.has_ground_contact);
        push_rule(&mut v, "FallToLand", i.has_ground_contact);
        push_rule(&mut v, "LandToIdle", ended.land);
        push_rule(&mut v, "IdleToAim", i.is_aiming && i.has_ground_contact);
        push_rule(&mut v, "WalkToAim", i.is_aiming && i.has_ground_contact);
        push_rule(&mut v, "AimToIdle", !i.is_aiming || !i.has_ground_contact);
        push_rule(&mut v, "AimToWalk", !i.is_aiming || !i.has_ground_contact);
        push_rule(&mut v, "AimToPutBack", i.is_aiming && i.put_back_weapon);
        push_rule(&mut v, "WalkToPutBack", i.put_back_weapon);
        push_rule(&mut v, "IdleToPutBack", i.put_back_weapon);
        push_rule(&mut v, "PutBackToIdle", !i.put_back_weapon);
        push_rule(&mut v, "PutBackToWalk", !i.put_back_weapon && i.is_walking);
        push_rule(&mut v, "PutBackToGrab", i.grab_new_weapon && ended.put_back);
        push_rule(&mut v, "GrabToIdle", !i.grab_new_weapon);
        push_rule(&mut v, "GrabToWalk", !i.grab_new_weapon && i.is_walking);
        push_rule(&mut v, "TossGrenadeToAim", !i.toss_grenade && ended.toss_grenade);
        push_rule(&mut v, "AimToTossGrenade", i.toss_grenade && i.is_aiming);
        proof {
            assert(rules_view(v@) =~= spec_upper_body_rules(*self, ended));
        }
        v
    }

    /// The aiming pose weights: the pistol pose and the rifle pose each get weight 1 when
    /// the weapon is of that kind and weight 0 otherwise; `true` stands for weight 1.
    pub fn aim_weights(&self) -> (r: Vec<Rule>)
        ensures
            rules_view(r@) == seq![
                ("PistolAimFactor"@, self.weapon == CombatMachineWeapon::Pistol),
                ("RifleAimFactor"@, self.weapon == CombatMachineWeapon::Rifle),
            ],
    {
        let mut v: Vec<Rule> = Vec::new();
        push_rule(&mut v, "PistolAimFactor", self.weapon == CombatMachineWeapon::Pistol);
        push_rule(&mut v, "RifleAimFactor", self.weapon == CombatMachineWeapon::Rifle);
        proof {
            assert(rules_view(v@) =~= seq![
                ("PistolAimFactor"@, self.weapon == CombatMachineWeapon::Pistol),
                ("RifleAimFactor"@, self.weapon == CombatMachineWeapon::Rifle),
            ]);
        }
        v
    }
}

impl LowerBodyMachineInput {
    /// The rule values of the lower-body machine; `jump_ended` and `land_ended` tell
    /// whether those animations have played to their end.
    pub fn rules(&self, jump_ended: bool, land_ended: bool) -> (r: Vec<Rule>)
        ensures
            rules_view(r@) == seq![
                ("IdleToWalk"@, self.is_walking),
                ("WalkToIdle"@, !self.is_walking),
                ("WalkToJump"@, self.is_jumping),
                ("IdleToJump"@, self.is_jumping),
                ("JumpToFall"@, jump_ended),
                ("WalkToFall"@, !self.has_ground_contact),
                ("IdleToFall"@, !self.has_ground_contact),
                ("FallToLand"@, self.has_ground_contact),
                ("LandToIdle"@, land_ended),
            ],
    {
        let mut v: Vec<Rule> = Vec::new();
        push_rule(&mut v, "IdleToWalk", self.is_walking);
        push_rule(&mut v, "WalkToIdle", !self.is_walking);
        push_rule(&mut v, "WalkToJump", self.is_jumping);
        push_rule(&mut v, "IdleToJump", self.is_jumping);
        push_rule(&mut v, "JumpToFall", jump_ended);
        push_rule(&mut v, "WalkToFall", !self.has_ground_contact);
        push_rule(&mut v, "IdleToFall", !self.has_ground_contact);
        push_rule(&mut v, "FallToLand", self.has_ground_contact);
        push_rule(&mut v, "LandToIdle", land_ended);
        proof {
            assert(rules_view(v@) =~= seq![
                ("IdleToWalk"@, self.is_walking),
                ("WalkToIdle"@, !self.is_walking),
                ("WalkToJump"@, self.is_jumping),
                ("IdleToJump"@, self.is_jumping),
                ("JumpToFall"@, jump_ended),
                ("WalkToFall"@, !self.has_ground_contact),
                ("IdleToFall"@, !self.has_ground_contact),
                ("FallToLand"@, self.has_ground_contact),
                ("LandToIdle"@, land_ended),
            ]);
        }
        v
    }
}

/// Which weapon the player asked for while the current one is put away.
#[derive(Copy, Clone, PartialEq, Eq, Structural, Debug)]
pub enum Direction {
    NoChange,
    Next,
    Previous,
}

impl Default for Direction {
    fn default() -> (r: Self)
        ensures
            r == Direction::NoChange,
    {
        Direction::NoChange
    }
}

/// The number a direction is saved as.
pub open spec fn direction_id(d: Direction) -> u32 {
    match d {
        Direction::NoChange => 0,
        Direction::Next => 1,
        Direction::Previous => 2,
    }
}

impl Direction {
    pub fn id(self) -> (r: u32)
        ensures
            r == direction_id(self),
    {
        match self {
            Direction::NoChange => 0,
            Direction::Next => 1,
            Direction::Previous => 2,
        }
    }

    /// The direction saved as `id`; any number but 0 to 2 is an error.
    pub fn from_id(id: u32) -> (r: Result<Self, String>)
        ensures
            id < 3 <==> r is Ok,
            r matches Ok(d) ==> direction_id(d) == id,
            r matches Err(e) ==> e@ == "Invalid Direction id "@ + decimal(id as nat) + "!"@,
    {
        match id {
            0 => Ok(Direction::NoChange),
            1 => Ok(Direction::Next),
            2 => Ok(Direction::Previous),
            _ => Err(message_with_number("Invalid Direction id ", id as u64, "!")),
        }
    }
}

/// A saved weapon-change direction leads back to the same direction: every direction's
/// number is one that `from_id` accepts, and no two directions share a number.
pub proof fn lemma_direction_id_round_trip(d: Direction)
    ensures
        direction_id(d) < 3,
        forall|e: Direction| direction_id(e) == direction_id(d) ==> e == d,
{
}

/// The weapon change the player asked for, carried out when the grab animation signals.
#[derive(Copy, Clone, PartialEq, Eq, Structural, Debug)]
pub enum RequiredWeapon {
    NoChange,
    Next,
    Previous,
    Specific(WeaponKind),
}

impl Default for RequiredWeapon {
    fn default() -> (r: Self)
        ensures
            r == RequiredWeapon::NoChange,
    {
        RequiredWeapon::NoChange
    }
}

/// The number a required weapon is saved as (the kind of a specific weapon is saved apart).
pub open spec fn required_weapon_id(r: RequiredWeapon) -> u32 {
    match r {
        RequiredWeapon::NoChange => 0,
        RequiredWeapon::Next => 1,
        RequiredWeapon::Previous => 2,
        RequiredWeapon::Specific(_) => 3,
    }
}

impl RequiredWeapon {
    pub fn is_none(self) -> (r: bool)
        ensures
            r == (self == RequiredWeapon::NoChange),
    {
        match self {
            RequiredWeapon::NoChange => true,
            _ => false,
        }
    }

    pub fn id(self) -> (r: u32)
        ensures
            r == required_weapon_id(self),
    {
        match self {
            RequiredWeapon::NoChange => 0,
            RequiredWeapon::Next => 1,
            RequiredWeapon::Previous => 2,
            RequiredWeapon::Specific(_) => 3,
        }
    }

    /// The value saved as `id`; a specific weapon comes back with the default weapon kind,
    /// to be replaced by the kind saved beside it. Any number but 0 to 3 is an error.
    pub fn from_id(id: u32) -> (r: Result<Self, String>)
        ensures
            id < 4 <==> r is Ok,
            r matches Ok(w) ==> required_weapon_id(w) == id,
            r matches Ok(w) ==> (id == 3 ==> w == RequiredWeapon::Specific(WeaponKind::M4)),
            r matches Err(e) ==> e@ == "Invalid Direction id "@ + decimal(id as nat) + "!"@,
    {
        match id {
            0 => Ok(RequiredWeapon::NoChange),
            1 => Ok(RequiredWeapon::Next),
            2 => Ok(RequiredWeapon::Previous),
            3 => Ok(RequiredWeapon::Specific(WeaponKind::default())),
            _ => Err(message_with_number("Invalid Direction id ", id as u64, "!")),
        }
    }
}

/// A saved weapon change leads back to the same change: every value's number is one that
/// `from_id` accepts, and a value other than a specific weapon is the only one with its
/// number (a specific weapon's kind is saved apart).
pub proof fn lemma_required_weapon_id_round_trip(r: RequiredWeapon)
    ensures
        required_weapon_id(r) < 4,
        !(r is Specific) ==> forall|w: RequiredWeapon| required_weapon_id(w) == required_weapon_id(r) ==> w == r,
        r is Specific ==> forall|w: RequiredWeapon| required_weapon_id(w) == required_weapon_id(r) ==> w is Specific,
{
}

/// The player's controls that ask for another weapon.
#[derive(Copy, Clone, PartialEq, Eq, Structural, Debug)]
pub enum WeaponControl {
    GrabAk47,
    GrabM4,
    GrabPlasmaGun,
    GrabPistol,
    NextWeapon,
    PrevWeapon,
}

/// The weapon a grab control asks for.
pub open spec fn grab_target(control: WeaponControl) -> Option<WeaponKind> {
    match control {
        WeaponControl::GrabAk47 => Some(WeaponKind::Ak47),
        WeaponControl::GrabM4 => Some(WeaponKind::M4),
        WeaponControl::GrabPlasmaGun => Some(WeaponKind::PlasmaRifle),
        WeaponControl::GrabPistol => Some(WeaponKind::Glock),
        _ => None,
    }
}

/// The weapon change a control asks for. A grab control asks for its weapon when a
/// change may start and the current weapon is not of that kind (or there is none); next and previous are
/// asked on a press, when a change may start and there is such a weapon.
pub open spec fn spec_weapon_change_request(
    control: WeaponControl,
    pressed: bool,
    can_change_weapon: bool,
    current_kind: Option<WeaponKind>,
    current_weapon: u32,
    weapon_count: u32,
) -> Option<RequiredWeapon> {
    match control {
        WeaponControl::NextWeapon => if pressed && current_weapon + 1 < weapon_count && can_change_weapon {
            Some(RequiredWeapon::Next)
        } else {
            None
        },
        WeaponControl::PrevWeapon => if pressed && current_weapon > 0 && can_change_weapon {
            Some(RequiredWeapon::Previous)
        } else {
            None
        },
        _ => {
            let target = grab_target(control).unwrap();
            if can_change_weapon && current_kind != Some(target) {
                Some(RequiredWeapon::Specific(target))
            } else {
                None
            }
        },
    }
}

/// Decides which weapon change a control asks for.
pub fn weapon_change_request(
    control: WeaponControl,
    pressed: bool,
    can_change_weapon: bool,
    current_kind: Option<WeaponKind>,
    current_weapon: u32,
    weapon_count: u32,
) -> (r: Option<RequiredWeapon>)
    ensures
        r == spec_weapon_change_request(
            control,
            pressed,
            can_change_weapon,
            current_kind,
            current_weapon,
            weapon_count,
        ),
{
    let target = match control {
        WeaponControl::GrabAk47 => WeaponKind::Ak47,
        WeaponControl::GrabM4 => WeaponKind::M4,
        WeaponControl::GrabPlasmaGun => WeaponKind::PlasmaRifle,
        WeaponControl::GrabPistol => WeaponKind::Glock,
        WeaponControl::NextWeapon => {
            if pressed && current_weapon < weapon_count.saturating_sub(1) && can_change_weapon {
                return Some(RequiredWeapon::Next);
            }
            return None;
        },
        WeaponControl::PrevWeapon => {
            if pressed && current_weapon > 0 && can_change_weapon {
                return Some(RequiredWeapon::Previous);
            }
            return None;
        },
    };
    if can_change_weapon {
        match current_kind {
            Some(k) => if k != target {
                return Some(RequiredWeapon::Specific(target));
            },
            None => {
                return Some(RequiredWeapon::Specific(target));
            },
        }
    }
    None
}

/// The selected slot and the visibility requests after carrying out `required` on the
/// weapons `w` with slot `c` selected (`kinds` lists the kind of each weapon).
pub open spec fn spec_weapon_change(
    w: Seq<Handle>,
    c: u32,
    kinds: Seq<WeaponKind>,
    required: RequiredWeapon,
) -> (u32, Seq<WeaponVisibility>) {
    match required {
        RequiredWeapon::NoChange => (c, Seq::empty()),
        RequiredWeapon::Next => (
            spec_next_slot(w.len(), c),
            if w.len() > 0 && c < w.len() - 1 {
                seq![
                    WeaponVisibility { weapon: w[c as int], visible: false },
                    WeaponVisibility { weapon: w[c + 1], visible: true },
                ]
            } else {
                Seq::empty()
            },
        ),
        RequiredWeapon::Previous => (
            spec_prev_slot(c),
            if c > 0 {
                request_at(w, c as int, false) + request_at(w, c - 1, true)
            } else {
                Seq::empty()
            },
        ),
        RequiredWeapon::Specific(k) => if kinds.contains(k) {
            (
                first_of_kind(kinds, k) as u32,
                hide_all(w) + seq![WeaponVisibility { weapon: w[first_of_kind(kinds, k)], visible: true }],
            )
        } else {
            (c, Seq::empty())
        },
    }
}

/// Carries out a requested weapon change when the grab animation signals: the next or
/// previous weapon, or the first weapon of the asked kind (`kinds` lists the kind of each of
/// the character's weapons). Returns the visibility requests.
pub fn apply_weapon_change(
    required: RequiredWeapon,
    character: &mut Character,
    kinds: &[WeaponKind],
) -> (r: Vec<WeaponVisibility>)
    requires
        kinds@.len() == old(character).weapons@.len(),
        old(character).weapons@.len() <= u32::MAX,
    ensures
        final(character).weapons@ == old(character).weapons@,
        final(character).inventory@ == old(character).inventory@,
        (final(character).current_weapon, r@) == spec_weapon_change(
            old(character).weapons@,
            old(character).current_weapon,
            kinds@,
            required,
        ),
        required == RequiredWeapon::NoChange ==> *final(character) == *old(character) && r@.len() == 0,
        required == RequiredWeapon::Next ==> ({
            let w = old(character).weapons@;
            let c = old(character).current_weapon as int;
            &&& final(character).current_weapon == spec_next_slot(w.len(), old(character).current_weapon)
            &&& if w.len() > 0 && c < w.len() - 1 {
                r@ == seq![
                    WeaponVisibility { weapon: w[c], visible: false },
                    WeaponVisibility { weapon: w[c + 1], visible: true },
                ]
            } else {
                r@.len() == 0
            }
        }),
        required == RequiredWeapon::Previous ==> ({
            let w = old(character).weapons@;
            let c = old(character).current_weapon as int;
            &&& final(character).current_weapon == spec_prev_slot(old(character).current_weapon)
            &&& if c > 0 {
                r@ == request_at(w, c, false) + request_at(w, c - 1, true)
            } else {
                r@.len() == 0
            }
        }),
        required matches RequiredWeapon::Specific(k) ==> (if kinds@.contains(k) {
            &&& final(character).current_weapon == first_of_kind(kinds@, k)
            &&& r@ == hide_all(old(character).weapons@) + seq![
                WeaponVisibility { weapon: old(character).weapons@[first_of_kind(kinds@, k)], visible: true },
            ]
        } else {
            &&& final(character).current_weapon == old(character).current_weapon
            &&& r@.len() == 0
        }),
{
    match required {
        RequiredWeapon::NoChange => Vec::new(),
        RequiredWeapon::Next => character.next_weapon(),
        RequiredWeapon::Previous => character.prev_weapon(),
        RequiredWeapon::Specific(kind) => character.select_weapon(kind, kinds),
    }
}

/// The movement keys the player holds, and the other controls of the player.
#[derive(Copy, Clone, PartialEq, Eq, Structural, Debug, Default)]
pub struct InputController {
    pub walk_forward: bool,
    pub walk_backward: bool,
    pub walk_left: bool,
    pub walk_right: bool,
    pub jump: bool,
    pub aim: bool,
    pub toss_grenade: bool,
    pub shoot: bool,
    pub run: bool,
    pub action: bool,
    pub cursor_up: bool,
    pub cursor_down: bool,
}

/// The angle, in degrees, the player's model turns to: while aiming it leans 45 degrees
/// into sideways movement, otherwise it faces the direction of movement.
pub open spec fn spec_model_angle(c: InputController) -> int {
    if c.aim {
        if c.walk_left {
            if c.walk_backward { -45 } else { 45 }
        } else if c.walk_right {
            if c.walk_backward { 45 } else { -45 }
        } else {
            0
        }
    } else if c.walk_left {
        if c.walk_forward { 45 } else if c.walk_backward { 135 } else { 90 }
    } else if c.walk_right {
        if c.walk_forward { -45 } else if c.walk_backward { -135 } else { -90 }
    } else if c.walk_backward {
        180
    } else {
        0
    }
}

impl InputController {
    /// Whether any movement key is held.
    pub fn is_walking(&self) -> (r: bool)
        ensures
            r == (self.walk_backward || self.walk_forward || self.walk_right || self.walk_left),
    {
        self.walk_backward || self.walk_forward || self.walk_right || self.walk_left
    }

    /// Whether the player runs: the run key is held, the player is not aiming, not dead and
    /// not stunned by a hit.
    pub fn is_running(&self, is_dead: bool, is_stunned: bool) -> (r: bool)
        ensures
            r == (!is_dead && self.run && !self.aim && !is_stunned),
    {
        !is_dead && self.run && !self.aim && !is_stunned
    }

    /// The angle, in degrees, the model turns to for the held keys.
    pub fn model_angle_degrees(&self) -> (r: i32)
        ensures
            r == spec_model_angle(*self),
    {
        if self.aim {
            if self.walk_left {
                if self.walk_backward {
                    -45
                } else {
                    45
                }
            } else if self.walk_right {
                if self.walk_backward {
                    45
                } else {
                    -45
                }
            } else {
                0
            }
        } else if self.walk_left {
            if self.walk_forward {
                45
            } else if self.walk_backward {
                135
            } else {
                90
            }
        } else if self.walk_right {
            if self.walk_forward {
                -45
            } else if self.walk_backward {
                -135
            } else {
                -90
            }
        } else if self.walk_backward {
            180
        } else {
            0
        }
    }
}


/// The inventory a new player starts with: two medkits, two medpacks, 400 rounds of ammo
/// and three grenades.
pub fn starting_inventory() -> (r: Inventory)
    ensures
        r@ == seq![
            ItemEntry { kind: ItemKind::Medkit, amount: 2 },
            ItemEntry { kind: ItemKind::Medpack, amount: 2 },
            ItemEntry { kind: ItemKind::Ammo, amount: 400 },
            ItemEntry { kind: ItemKind::Grenade, amount: 3 },
        ],
{
    let mut inventory = Inventory::new();
    inventory.add_item(ItemKind::Medkit, 2);
    proof {
        assert(!has_kind(inventory@, ItemKind::Medpack));
    }
    inventory.add_item(ItemKind::Medpack, 2);
    proof {
        assert(inventory@[0].kind != ItemKind::Ammo && inventory@[1].kind != ItemKind::Ammo);
        assert(!has_kind(inventory@, ItemKind::Ammo));
    }
    inventory.add_item(ItemKind::Ammo, 400);
    proof {
        assert(!has_kind(inventory@, ItemKind::Grenade));
    }
    inventory.add_item(ItemKind::Grenade, 3);
    inventory
}

} // verus!

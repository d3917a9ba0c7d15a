use vstd::prelude::*;

use crate::anim::{push_rule, push_transition, rules_view, transitions_view, AnimState, Rule, TransitionDef, TransitionView};

verus! {

/// The two kinds of weapons a character fights with.
#[derive(Copy, Clone, PartialEq, Eq, Structural, Debug)]
pub enum CombatWeaponKind {
    Pistol,
    Rifle,
}

impl Default for CombatWeaponKind {
    fn default() -> (r: Self)
        ensures
            r == CombatWeaponKind::Pistol,
    {
        CombatWeaponKind::Pistol
    }
}

impl CombatWeaponKind {
    /// The number the weapon kind is saved as.
    pub fn id(self) -> (r: u32)
        ensures
            r == (match self {
                CombatWeaponKind::Pistol => 0u32,
                CombatWeaponKind::Rifle => 1u32,
            }),
    {
        match self {
            CombatWeaponKind::Pistol => 0,
            CombatWeaponKind::Rifle => 1,
        }
    }

    /// The index of the hit-reaction animation for this weapon kind in the hit-reaction
    /// blend: the rifle's comes first.
    pub fn hit_reaction_index(self) -> (r: u32)
        ensures
            r == (match self {
                CombatWeaponKind::Rifle => 0u32,
                CombatWeaponKind::Pistol => 1u32,
            }),
    {
        match self {
            CombatWeaponKind::Rifle => 0,
            CombatWeaponKind::Pistol => 1,
        }
    }
}

/// What drives the lower body of the player's agent; the blend between walking and
/// running is applied by the caller.
#[derive(Copy, Clone, PartialEq, Eq, Structural, Debug)]
pub struct LowerBodyMachineInput {
    pub is_walking: bool,
    pub is_jumping: bool,
    pub has_ground_contact: bool,
    pub is_dead: bool,
    pub should_be_stunned: bool,
    pub weapon_kind: CombatWeaponKind,
}

/// Which lower-body animations have played to their end.
#[derive(Copy, Clone, PartialEq, Eq, Structural, Debug)]
pub struct LowerBodyAnimationsEnded {
    pub jump: bool,
    pub land: bool,
    /// The hit reaction of the current weapon kind.
    pub hit_reaction: bool,
}

/// Whether the agent has recovered from a hit: not stunned anew and the hit reaction over.
pub open spec fn spec_recovered(i: LowerBodyMachineInput, e: LowerBodyAnimationsEnded) -> bool {
    !i.should_be_stunned && e.hit_reaction
}

/// The rule values of the lower-body machine.
pub open spec fn spec_lower_body_rules(i: LowerBodyMachineInput, e: LowerBodyAnimationsEnded) -> Seq<(Seq<char>, bool)> {
    seq![
        ("IdleToWalk"@, i.is_walking),
        ("WalkToIdle"@, !i.is_walking),
        ("WalkToJump"@, i.is_jumping),
        ("IdleToJump"@, i.is_jumping),
        ("JumpToFall"@, e.jump),
        ("WalkToFall"@, !i.has_ground_contact),
        ("IdleToFall"@, !i.has_ground_contact),
        ("FallToLand"@, i.has_ground_contact),
        ("LandToIdle"@, e.land),
        ("LandToDying"@, i.is_dead),
        ("IdleToDying"@, i.is_dead),
        ("FallToDying"@, i.is_dead),
        ("WalkToDying"@, i.is_dead),
        ("JumpToDying"@, i.is_dead),
        ("IdleToHitReaction"@, i.should_be_stunned),
        ("WalkToHitReaction"@, i.should_be_stunned),
        ("HitReactionToIdle"@, spec_recovered(i, e)),
        ("HitReactionToWalk"@, spec_recovered(i, e)),
        ("HitReactionToDying"@, i.is_dead),
    ]
}

/// The transitions of the agent's lower-body machine.
pub open spec fn spec_lower_body_transitions() -> Seq<TransitionView> {
    seq![
        ("Walk->Idle"@, AnimState::Walk, AnimState::Idle, 300u32, "WalkToIdle"@),
        ("Walk->Jump"@, AnimState::Walk, AnimState::Jump, 200u32, "WalkToJump"@),
        ("Idle->Walk"@, AnimState::Idle, AnimState::Walk, 400u32, "IdleToWalk"@),
        ("Idle->Jump"@, AnimState::Idle, AnimState::Jump, 250u32, "IdleToJump"@),
        ("Falling->Landing"@, AnimState::Fall, AnimState::Land, 200u32, "FallToLand"@),
        ("Landing->Idle"@, AnimState::Land, AnimState::Idle, 200u32, "LandToIdle"@),
        ("Jump->Falling"@, AnimState::Jump, AnimState::Fall, 200u32, "JumpToFall"@),
        ("Walk->Falling"@, AnimState::Walk, AnimState::Fall, 200u32, "WalkToFall"@),
        ("Idle->Falling"@, AnimState::Idle, AnimState::Fall, 200u32, "IdleToFall"@),
        ("Land->Dying"@, AnimState::Land, AnimState::Dying, 200u32, "LandToDying"@),
        ("Fall->Dying"@, AnimState::Fall, AnimState::Dying, 200u32, "FallToDying"@),
        ("Idle->Dying"@, AnimState::Idle, AnimState::Dying, 200u32, "IdleToDying"@),
        ("Walk->Dying"@, AnimState::Walk, AnimState::Dying, 200u32, "WalkToDying"@),
        ("Jump->Dying"@, AnimState::Jump, AnimState::Dying, 200u32, "JumpToDying"@),
        ("Idle->Hit"@, AnimState::Idle, AnimState::HitReaction, 200u32, "IdleToHitReaction"@),
        ("Walk->Hit"@, AnimState::Walk, AnimState::HitReaction, 200u32, "WalkToHitReaction"@),
        ("HitReaction->Idle"@, AnimState::HitReaction, AnimState::Idle, 200u32, "HitReactionToIdle"@),
        ("HitReaction->Walk"@, AnimState::HitReaction, AnimState::Walk, 200u32, "HitReactionToWalk"@),
        ("HitReaction->Dying"@, AnimState::HitReaction, AnimState::Dying, 200u32, "HitReactionToDying"@)
    ]
}

/// The layout of the agent's lower-body machine, entered in the idle state.
pub fn lower_body_transitions() -> (r: Vec<TransitionDef>)
    ensures
        transitions_view(r@) == spec_lower_body_transitions(),
{
    let mut v: Vec<TransitionDef> = Vec::new();
    push_transition(&mut v, "Walk->Idle", AnimState::Walk, AnimState::Idle, 300, "WalkToIdle");
    push_transition(&mut v, "Walk->Jump", AnimState::Walk, AnimState::Jump, 200, "WalkToJump");
    push_transition(&mut v, "Idle->Walk", AnimState::Idle, AnimState::Walk, 400, "IdleToWalk");
    push_transition(&mut v, "Idle->Jump", AnimState::Idle, AnimState::Jump, 250, "IdleToJump");
    push_transition(&mut v, "Falling->Landing", AnimState::Fall, AnimState::Land, 200, "FallToLand");
    push_transition(&mut v, "Landing->Idle", AnimState::Land, AnimState::Idle, 200, "LandToIdle");
    push_transition(&mut v, "Jump->Falling", AnimState::Jump, AnimState::Fall, 200, "JumpToFall");
    push_transition(&mut v, "Walk->Falling", AnimState::Walk, AnimState::Fall, 200, "WalkToFall");
    push_transition(&mut v, "Idle->Falling", AnimState::Idle, AnimState::Fall, 200, "IdleToFall");
    push_transition(&mut v, "Land->Dying", AnimState::Land, AnimState::Dying, 200, "LandToDying");
    push_transition(&mut v, "Fall->Dying", AnimState::Fall, AnimState::Dying, 200, "FallToDying");
    push_transition(&mut v, "Idle->Dying", AnimState::Idle, AnimState::Dying, 200, "IdleToDying");
    push_transition(&mut v, "Walk->Dying", AnimState::Walk, AnimState::Dying, 200, "WalkToDying");
    push_transition(&mut v, "Jump->Dying", AnimState::Jump, AnimState::Dying, 200, "JumpToDying");
    push_transition(&mut v, "Idle->Hit", AnimState::Idle, AnimState::HitReaction, 200, "IdleToHitReaction");
    push_transition(&mut v, "Walk->Hit", AnimState::Walk, AnimState::HitReaction, 200, "WalkToHitReaction");
    push_transition(&mut v, "HitReaction->Idle", AnimState::HitReaction, AnimState::Idle, 200, "HitReactionToIdle");
    push_transition(&mut v, "HitReaction->Walk", AnimState::HitReaction, AnimState::Walk, 200, "HitReactionToWalk");
    push_transition(&mut v, "HitReaction->Dying", AnimState::HitReaction, AnimState::Dying, 200, "HitReactionToDying");
    proof {
        assert(transitions_view(v@) =~= spec_lower_body_transitions());
    }
    v
}

impl LowerBodyMachineInput {
    /// Whether the agent has recovered from a hit.
    pub fn recovered(&self, ended: LowerBodyAnimationsEnded) -> (r: bool)
        ensures
            r == spec_recovered(*self, ended),
    {
        !self.should_be_stunned && ended.hit_reaction
    }

    /// The rule values of the lower-body machine.
    #[verifier::rlimit(60)]
    pub fn rules(&self, ended: LowerBodyAnimationsEnded) -> (r: Vec<Rule>)
        ensures
            rules_view(r@) == spec_lower_body_rules(*self, ended),
    {
        let i = *self;
        let recovered = self.recovered(ended);
        let mut v: Vec<Rule> = Vec::new();
        push_rule(&mut v, "IdleToWalk", i.is_walking);
        push_rule(&mut v, "WalkToIdle", !i.is_walking);
        push_rule(&mut v, "WalkToJump", i.is_jumping);
        push_rule(&mut v, "IdleToJump", i.is_jumping);
        push_rule(&mut v, "JumpToFall", ended.jump);
        push_rule(&mut v, "WalkToFall", !i.has_ground_contact);
        push_rule(&mut v, "IdleToFall", !i.has_ground_contact);
        push_rule(&mut v, "FallToLand", i.has_ground_contact);
        push_rule(&mut v, "LandToIdle", ended.land);
        push_rule(&mut v, "LandToDying", i.is_dead);
        push_rule(&mut v, "IdleToDying", i.is_dead);
        push_rule(&mut v, "FallToDying", i.is_dead);
        push_rule(&mut v, "WalkToDying", i.is_dead);
        push_rule(&mut v, "JumpToDying", i.is_dead);
        push_rule(&mut v, "IdleToHitReaction", i.should_be_stunned);
        push_rule(&mut v, "WalkToHitReaction", i.should_be_stunned);
        push_rule(&mut v, "HitReactionToIdle", recovered);
        push_rule(&mut v, "HitReactionToWalk", recovered);
        push_rule(&mut v, "HitReactionToDying", i.is_dead);
        proof {
            assert(rules_view(v@) =~= spec_lower_body_rules(*self, ended));
        }
        v
    }
}

/// What the caller feeds the agent's blended state machine, except the walk/run blend and
/// the velocity sample point.
#[derive(Copy, Clone, PartialEq, Eq, Structural, Debug)]
pub struct StateMachineInput {
    pub is_walking: bool,
    pub is_jumping: bool,
    pub has_ground_contact: bool,
    pub is_aiming: bool,
    pub toss_grenade: bool,
    pub weapon_kind: CombatWeaponKind,
    pub change_weapon: bool,
    pub is_dead: bool,
    pub should_be_stunned: bool,
    pub melee_attack: bool,
    pub hit_something: bool,
}

/// The rule values of the agent's blended state machine.
pub open spec fn spec_state_machine_rules(i: StateMachineInput, land_ended: bool, hit_reaction_ended: bool) -> Seq<(Seq<char>, bool)> {
    seq![
        ("Walk"@, i.is_walking),
        ("Jump"@, i.is_jumping),
        ("Landed"@, i.has_ground_contact && land_ended),
        ("HasGroundContact"@, i.has_ground_contact),
        ("Dead"@, i.is_dead),
        ("Aim"@, i.is_aiming),
        ("TossGrenade"@, i.toss_grenade),
        ("ReactToHit"@, i.should_be_stunned),
        ("RemoveWeapon"@, i.change_weapon),
        ("Recovered"@, !i.should_be_stunned && hit_reaction_ended),
        ("HitSomething"@, i.hit_something),
        ("MeleeAttack"@, i.melee_attack),
    ]
}

impl StateMachineInput {
    /// The input derived from the player's state: the player touches the ground unless it
    /// has been in the air for too long, aims only with a weapon in hand, and strikes in
    /// melee when shooting without aiming.
    pub fn from_player(
        is_walking: bool,
        is_jumping: bool,
        in_air_too_long: bool,
        aim_pressed: bool,
        has_weapons: bool,
        shoot_pressed: bool,
        toss_grenade: bool,
        weapon_kind: CombatWeaponKind,
        changing_weapon: bool,
        is_dead: bool,
        should_be_stunned: bool,
        hit_something: bool,
    ) -> (r: Self)
        ensures
            r == (StateMachineInput {
                is_walking,
                is_jumping,
                has_ground_contact: !in_air_too_long,
                is_aiming: aim_pressed && has_weapons,
                toss_grenade,
                weapon_kind,
                change_weapon: changing_weapon,
                is_dead,
                should_be_stunned,
                melee_attack: shoot_pressed && !aim_pressed,
                hit_something,
            }),
    {
        StateMachineInput {
            is_walking,
            is_jumping,
            has_ground_contact: !in_air_too_long,
            is_aiming: aim_pressed && has_weapons,
            toss_grenade,
            weapon_kind,
            change_weapon: changing_weapon,
            is_dead,
            should_be_stunned,
            melee_attack: shoot_pressed && !aim_pressed,
            hit_something,
        }
    }

    /// The rule values; `land_ended` and `hit_reaction_ended` tell whether the landing
    /// animation and the hit reaction of the current weapon kind have played to their end.
    #[verifier::rlimit(40)]
    pub fn rules(&self, land_ended: bool, hit_reaction_ended: bool) -> (r: Vec<Rule>)
        ensures
            rules_view(r@) == spec_state_machine_rules(*self, land_ended, hit_reaction_ended),
    {
        let i = *self;
        let mut v: Vec<Rule> = Vec::new();
        push_rule(&mut v, "Walk", i.is_walking);
        push_rule(&mut v, "Jump", i.is_jumping);
        push_rule(&mut v, "Landed", i.has_ground_contact && land_ended);
        push_rule(&mut v, "HasGroundContact", i.has_ground_contact);
        push_rule(&mut v, "Dead", i.is_dead);
        push_rule(&mut v, "Aim", i.is_aiming);
        push_rule(&mut v, "TossGrenade", i.toss_grenade);
        push_rule(&mut v, "ReactToHit", i.should_be_stunned);
        push_rule(&mut v, "RemoveWeapon", i.change_weapon);
        push_rule(&mut v, "Recovered", !i.should_be_stunned && hit_reaction_ended);
        push_rule(&mut v, "HitSomething", i.hit_something);
        push_rule(&mut v, "MeleeAttack", i.melee_attack);
        proof {
            assert(rules_view(v@) =~= spec_state_machine_rules(*self, land_ended, hit_reaction_ended));
        }
        v
    }

    /// The index parameter that picks the weapon kind's animations.
    pub fn weapon_kind_index(&self) -> (r: u32)
        ensures
            r == (match self.weapon_kind {
                CombatWeaponKind::Pistol => 0u32,
                CombatWeaponKind::Rifle => 1u32,
            }),
    {
        self.weapon_kind.id()
    }
}

} // verus!

use vstd::prelude::*;

use crate::anim::{push_rule, push_transition, rules_view, transitions_view, AnimState, Rule, TransitionDef, TransitionView};
use crate::inventory::ItemEntry;
use crate::item::ItemKind;

verus! {

/// The kinds of monsters.
#[derive(Copy, Clone, PartialEq, Eq, Structural, Debug, Hash)]
pub enum BotKind {
    Mutant,
    Parasite,
    Zombie,
}

/// Whom a monster attacks.
#[derive(Copy, Clone, PartialEq, Eq, Structural, Debug, Hash)]
pub enum BotHostility {
    Everyone,
    OtherSpecies,
    Player,
}

/// What a possible target is.
#[derive(Copy, Clone, PartialEq, Eq, Structural, Debug)]
pub enum TargetKind {
    Player,
    Bot(BotKind),
}

/// The name shown for a kind of monster.
pub open spec fn spec_bot_description(kind: BotKind) -> Seq<char> {
    match kind {
        BotKind::Mutant => "Mutant"@,
        BotKind::Parasite => "Parasite"@,
        BotKind::Zombie => "Zombie"@,
    }
}

/// Whether a monster of `own` kind with `hostility` may pick a target of `target` kind.
pub open spec fn spec_may_target(hostility: BotHostility, own: BotKind, target: TargetKind) -> bool {
    match hostility {
        BotHostility::OtherSpecies => match target {
            TargetKind::Bot(k) => k != own,
            TargetKind::Player => true,
        },
        BotHostility::Player => target == TargetKind::Player,
        BotHostility::Everyone => true,
    }
}

impl BotKind {
    pub fn description(self) -> (r: &'static str)
        ensures
            r@ == spec_bot_description(self),
    {
        match self {
            BotKind::Mutant => "Mutant",
            BotKind::Parasite => "Parasite",
            BotKind::Zombie => "Zombie",
        }
    }

    /// The number the kind is saved as.
    pub fn id(self) -> (r: i32)
        ensures
            r == (match self {
                BotKind::Mutant => 0i32,
                BotKind::Parasite => 1i32,
                BotKind::Zombie => 2i32,
            }),
    {
        match self {
            BotKind::Mutant => 0,
            BotKind::Parasite => 1,
            BotKind::Zombie => 2,
        }
    }
}

impl BotHostility {
    /// Whether a monster of kind `own` with this hostility may pick a target of kind
    /// `target`: monsters hostile to other species spare their own kind, monsters hostile
    /// to the player spare all monsters.
    pub fn may_target(self, own: BotKind, target: TargetKind) -> (r: bool)
        ensures
            r == spec_may_target(self, own, target),
    {
        match self {
            BotHostility::OtherSpecies => match target {
                TargetKind::Bot(k) => k != own,
                TargetKind::Player => true,
            },
            BotHostility::Player => match target {
                TargetKind::Bot(_) => false,
                TargetKind::Player => true,
            },
            BotHostility::Everyone => true,
        }
    }
}

/// The loot a new monster may carry: the caller draws one of these at random.
pub open spec fn possible_loot() -> Seq<ItemEntry> {
    seq![
        ItemEntry { kind: ItemKind::Ammo, amount: 10 },
        ItemEntry { kind: ItemKind::Medkit, amount: 1 },
        ItemEntry { kind: ItemKind::Medpack, amount: 1 },
    ]
}

/// The items a new monster carries: the drawn loot, and the drawn amount of ammo when the
/// monster can use weapons.
pub fn initial_items(choice: usize, can_use_weapons: bool, ammo: u32) -> (r: Vec<ItemEntry>)
    requires
        choice < 3,
    ensures
        r@ == (if can_use_weapons {
            seq![possible_loot()[choice as int], ItemEntry { kind: ItemKind::Ammo, amount: ammo }]
        } else {
            seq![possible_loot()[choice as int]]
        }),
{
    let possible = [
        ItemEntry { kind: ItemKind::Ammo, amount: 10 },
        ItemEntry { kind: ItemKind::Medkit, amount: 1 },
        ItemEntry { kind: ItemKind::Medpack, amount: 1 },
    ];
    let mut items = Vec::new();
    items.push(possible[choice]);
    if can_use_weapons {
        items.push(ItemEntry { kind: ItemKind::Ammo, amount: ammo });
    }
    proof {
        assert(possible@ =~= possible_loot());
    }
    items
}

/// What drives a monster's upper-body animation machine.
#[derive(Copy, Clone, PartialEq, Eq, Structural, Debug)]
pub struct UpperBodyMachineInput {
    pub attack: bool,
    pub walk: bool,
    pub scream: bool,
    pub dead: bool,
    pub aim: bool,
}

/// What drives a monster's lower-body animation machine.
#[derive(Copy, Clone, PartialEq, Eq, Structural, Debug)]
pub struct LowerBodyMachineInput {
    pub walk: bool,
    pub scream: bool,
    pub dead: bool,
}

/// The rule values of a monster's upper-body machine; `attack_ended` tells whether the
/// attack animation has played to its end.
pub open spec fn spec_bot_upper_body_rules(i: UpperBodyMachineInput, attack_ended: bool) -> Seq<(Seq<char>, bool)> {
    seq![
        ("AttackToIdle"@, !i.walk && attack_ended),
        ("AttackToWalk"@, i.walk && attack_ended),
        ("IdleToAttack"@, i.attack),
        ("WalkToAttack"@, i.attack),
        ("IdleToWalk"@, i.walk),
        ("WalkToIdle"@, !i.walk),
        ("IdleToScream"@, i.scream),
        ("ScreamToWalk"@, !i.scream),
        ("ScreamToIdle"@, !i.scream),
        ("IdleToAim"@, i.aim),
        ("AimToIdle"@, !i.aim),
        ("AimToWalk"@, i.walk && !i.aim),
        ("AttackToDying"@, i.dead),
        ("WalkToDying"@, i.dead),
        ("IdleToDying"@, i.dead),
    ]
}

/// The rule values of a monster's lower-body machine.
pub open spec fn spec_bot_lower_body_rules(i: LowerBodyMachineInput) -> Seq<(Seq<char>, bool)> {
    seq![
        ("IdleToWalk"@, i.walk),
        ("WalkToIdle"@, !i.walk),
        ("IdleToScream"@, i.scream),
        ("ScreamToWalk"@, !i.scream),
        ("ScreamToIdle"@, !i.scream),
        ("WalkToDying"@, i.dead),
        ("IdleToDying"@, i.dead),
    ]
}

/// The transitions of a monster's upper-body machine; the aiming ones exist only for
/// monsters that have an aiming animation.
pub open spec fn spec_upper_body_transitions(has_aim: bool) -> Seq<TransitionView> {
    let base = seq![
        ("Attack->Idle"@, AnimState::Attack, AnimState::Idle, 200u32, "AttackToIdle"@),
        ("Attack->Walk"@, AnimState::Attack, AnimState::Walk, 200u32, "AttackToWalk"@),
        ("Idle->Attack"@, AnimState::Idle, AnimState::Attack, 200u32, "IdleToAttack"@),
        ("Walk->Attack"@, AnimState::Walk, AnimState::Attack, 200u32, "WalkToAttack"@),
        ("Idle->Walk"@, AnimState::Idle, AnimState::Walk, 200u32, "IdleToWalk"@),
        ("Walk->Idle"@, AnimState::Walk, AnimState::Idle, 200u32, "WalkToIdle"@),
        ("Idle->Scream"@, AnimState::Idle, AnimState::Scream, 200u32, "IdleToScream"@),
        ("Scream->Walk"@, AnimState::Scream, AnimState::Walk, 200u32, "ScreamToWalk"@),
        ("Scream->Idle"@, AnimState::Scream, AnimState::Idle, 200u32, "ScreamToIdle"@)
    ];
    let aim = seq![
        ("Idle->Aim"@, AnimState::Idle, AnimState::Aim, 200u32, "IdleToAim"@),
        ("Aim->Idle"@, AnimState::Aim, AnimState::Idle, 200u32, "AimToIdle"@),
        ("Aim->Walk"@, AnimState::Aim, AnimState::Walk, 200u32, "AimToWalk"@)
    ];
    let dying = seq![
        ("Attack->Dying"@, AnimState::Attack, AnimState::Dying, 200u32, "AttackToDying"@),
        ("Walk->Dying"@, AnimState::Walk, AnimState::Dying, 200u32, "WalkToDying"@),
        ("Idle->Dying"@, AnimState::Idle, AnimState::Dying, 200u32, "IdleToDying"@)
    ];
    if has_aim {
        base + aim + dying
    } else {
        base + dying
    }
}

/// The transitions of a monster's lower-body machine.
pub open spec fn spec_lower_body_transitions() -> Seq<TransitionView> {
    seq![
        ("Idle->Walk"@, AnimState::Idle, AnimState::Walk, 200u32, "IdleToWalk"@),
        ("Walk->Idle"@, AnimState::Walk, AnimState::Idle, 200u32, "WalkToIdle"@),
        ("Idle->Scream"@, AnimState::Idle, AnimState::Scream, 200u32, "IdleToScream"@),
        ("Scream->Walk"@, AnimState::Scream, AnimState::Walk, 200u32, "ScreamToWalk"@),
        ("Scream->Idle"@, AnimState::Scream, AnimState::Idle, 200u32, "ScreamToIdle"@),
        ("Walk->Dying"@, AnimState::Walk, AnimState::Dying, 200u32, "WalkToDying"@),
        ("Idle->Dying"@, AnimState::Idle, AnimState::Dying, 200u32, "IdleToDying"@)
    ]
}

/// The layout of a monster's upper-body machine, entered in the idle state.
pub fn upper_body_transitions(has_aim: bool) -> (r: Vec<TransitionDef>)
    ensures
        transitions_view(r@) == spec_upper_body_transitions(has_aim),
{
    let mut v: Vec<TransitionDef> = Vec::new();
    push_transition(&mut v, "Attack->Idle", AnimState::Attack, AnimState::Idle, 200, "AttackToIdle");
    push_transition(&mut v, "Attack->Walk", AnimState::Attack, AnimState::Walk, 200, "AttackToWalk");
    push_transition(&mut v, "Idle->Attack", AnimState::Idle, AnimState::Attack, 200, "IdleToAttack");
    push_transition(&mut v, "Walk->Attack", AnimState::Walk, AnimState::Attack, 200, "WalkToAttack");
    push_transition(&mut v, "Idle->Walk", AnimState::Idle, AnimState::Walk, 200, "IdleToWalk");
    push_transition(&mut v, "Walk->Idle", AnimState::Walk, AnimState::Idle, 200, "WalkToIdle");
    push_transition(&mut v, "Idle->Scream", AnimState::Idle, AnimState::Scream, 200, "IdleToScream");
    push_transition(&mut v, "Scream->Walk", AnimState::Scream, AnimState::Walk, 200, "ScreamToWalk");
    push_transition(&mut v, "Scream->Idle", AnimState::Scream, AnimState::Idle, 200, "ScreamToIdle");
    if has_aim {
        push_transition(&mut v, "Idle->Aim", AnimState::Idle, AnimState::Aim, 200, "IdleToAim");
        push_transition(&mut v, "Aim->Idle", AnimState::Aim, AnimState::Idle, 200, "AimToIdle");
        push_transition(&mut v, "Aim->Walk", AnimState::Aim, AnimState::Walk, 200, "AimToWalk");
    }
    push_transition(&mut v, "Attack->Dying", AnimState::Attack, AnimState::Dying, 200, "AttackToDying");
    push_transition(&mut v, "Walk->Dying", AnimState::Walk, AnimState::Dying, 200, "WalkToDying");
    push_transition(&mut v, "Idle->Dying", AnimState::Idle, AnimState::Dying, 200, "IdleToDying");
    proof {
        assert(transitions_view(v@) =~= spec_upper_body_transitions(has_aim));
    }
    v
}

/// The layout of a monster's lower-body machine, entered in the idle state.
pub fn lower_body_transitions() -> (r: Vec<TransitionDef>)
    ensures
        transitions_view(r@) == spec_lower_body_transitions(),
{
    let mut v: Vec<TransitionDef> = Vec::new();
    push_transition(&mut v, "Idle->Walk", AnimState::Idle, AnimState::Walk, 200, "IdleToWalk");
    push_transition(&mut v, "Walk->Idle", AnimState::Walk, AnimState::Idle, 200, "WalkToIdle");
    push_transition(&mut v, "Idle->Scream", AnimState::Idle, AnimState::Scream, 200, "IdleToScream");
    push_transition(&mut v, "Scream->Walk", AnimState::Scream, AnimState::Walk, 200, "ScreamToWalk");
    push_transition(&mut v, "Scream->Idle", AnimState::Scream, AnimState::Idle, 200, "ScreamToIdle");
    push_transition(&mut v, "Walk->Dying", AnimState::Walk, AnimState::Dying, 200, "WalkToDying");
    push_transition(&mut v, "Idle->Dying", AnimState::Idle, AnimState::Dying, 200, "IdleToDying");
    proof {
        assert(transitions_view(v@) =~= spec_lower_body_transitions());
    }
    v
}

impl UpperBodyMachineInput {
    /// The rule values for the upper-body machine; `attack_ended` tells whether the attack
    /// animation has played to its end.
    pub fn rules(&self, attack_ended: bool) -> (r: Vec<Rule>)
        ensures
            rules_view(r@) == spec_bot_upper_body_rules(*self, attack_ended),
    {
        let mut v: Vec<Rule> = Vec::new();
        push_rule(&mut v, "AttackToIdle", !self.walk && attack_ended);
        push_rule(&mut v, "AttackToWalk", self.walk && attack_ended);
        push_rule(&mut v, "IdleToAttack", self.attack);
        push_rule(&mut v, "WalkToAttack", self.attack);
        push_rule(&mut v, "IdleToWalk", self.walk);
        push_rule(&mut v, "WalkToIdle", !self.walk);
        push_rule(&mut v, "IdleToScream", self.scream);
        push_rule(&mut v, "ScreamToWalk", !self.scream);
        push_rule(&mut v, "ScreamToIdle", !self.scream);
        push_rule(&mut v, "IdleToAim", self.aim);
        push_rule(&mut v, "AimToIdle", !self.aim);
        push_rule(&mut v, "AimToWalk", self.walk && !self.aim);
        push_rule(&mut v, "AttackToDying", self.dead);
        push_rule(&mut v, "WalkToDying", self.dead);
        push_rule(&mut v, "IdleToDying", self.dead);
        proof {
            assert(rules_view(v@) =~= spec_bot_upper_body_rules(*self, attack_ended));
        }
        v
    }
}

impl LowerBodyMachineInput {
    /// The rule values for the lower-body machine.
    pub fn rules(&self) -> (r: Vec<Rule>)
        ensures
            rules_view(r@) == spec_bot_lower_body_rules(*self),
    {
        let mut v: Vec<Rule> = Vec::new();
        push_rule(&mut v, "IdleToWalk", self.walk);
        push_rule(&mut v, "WalkToIdle", !self.walk);
        push_rule(&mut v, "IdleToScream", self.scream);
        push_rule(&mut v, "ScreamToWalk", !self.scream);
        push_rule(&mut v, "ScreamToIdle", !self.scream);
        push_rule(&mut v, "WalkToDying", self.dead);
        push_rule(&mut v, "IdleToDying", self.dead);
        proof {
            assert(rules_view(v@) =~= spec_bot_lower_body_rules(*self));
        }
        v
    }
}

/// The distance a monster closes in to before acting: the fixed shooting range, or its
/// close-combat distance from its definition.
#[derive(Copy, Clone, PartialEq, Eq, Structural, Debug)]
pub enum MoveRange {
    Shooting,
    CloseCombat,
}

/// The leaves of a monster's behavior tree.
#[derive(Copy, Clone, PartialEq, Eq, Structural, Debug)]
pub enum BotAction {
    IsDead,
    StayDead,
    FindTarget,
    AimOnTarget,
    CanShootTarget,
    MoveToTarget(MoveRange),
    ShootTarget,
    CanMeleeAttack,
    DoMeleeAttack,
}

/// A node of a behavior tree: a selector runs its children until one does not fail, a
/// sequence until one does not succeed, a leaf runs an action.
#[derive(Copy, Clone, PartialEq, Eq, Structural, Debug)]
pub enum BehaviorNodeKind {
    Selector,
    Sequence,
    Leaf(BotAction),
}

/// A node of a behavior tree and the positions of its children in the tree's node list.
#[derive(Clone, Debug)]
pub struct BehaviorNodeDef {
    pub kind: BehaviorNodeKind,
    pub children: Vec<usize>,
}

impl View for BehaviorNodeDef {
    type V = (BehaviorNodeKind, Seq<usize>);

    open spec fn view(&self) -> (BehaviorNodeKind, Seq<usize>) {
        (self.kind, self.children@)
    }
}

/// A behavior tree: its nodes, each added after its children, and its entry node.
pub struct BehaviorTreeDef {
    pub nodes: Vec<BehaviorNodeDef>,
    pub entry: usize,
}

/// The nodes of a monster's behavior tree: first it checks whether it is dead and then stays
/// dead; otherwise it finds a target and aims at it, then either shoots it from range (when
/// it can) or walks up to it and strikes.
pub open spec fn spec_bot_behavior_nodes() -> Seq<(BehaviorNodeKind, Seq<usize>)> {
    seq![
        (BehaviorNodeKind::Leaf(BotAction::IsDead), Seq::<usize>::empty()),
        (BehaviorNodeKind::Leaf(BotAction::StayDead), Seq::<usize>::empty()),
        (BehaviorNodeKind::Sequence, seq![0usize, 1usize]),
        (BehaviorNodeKind::Leaf(BotAction::FindTarget), Seq::<usize>::empty()),
        (BehaviorNodeKind::Leaf(BotAction::AimOnTarget), Seq::<usize>::empty()),
        (BehaviorNodeKind::Leaf(BotAction::CanShootTarget), Seq::<usize>::empty()),
        (BehaviorNodeKind::Leaf(BotAction::MoveToTarget(MoveRange::Shooting)), Seq::<usize>::empty()),
        (BehaviorNodeKind::Leaf(BotAction::ShootTarget), Seq::<usize>::empty()),
        (BehaviorNodeKind::Sequence, seq![5usize, 6usize, 7usize]),
        (BehaviorNodeKind::Leaf(BotAction::MoveToTarget(MoveRange::CloseCombat)), Seq::<usize>::empty()),
        (BehaviorNodeKind::Leaf(BotAction::CanMeleeAttack), Seq::<usize>::empty()),
        (BehaviorNodeKind::Leaf(BotAction::DoMeleeAttack), Seq::<usize>::empty()),
        (BehaviorNodeKind::Sequence, seq![9usize, 10usize, 11usize]),
        (BehaviorNodeKind::Selector, seq![8usize, 12usize]),
        (BehaviorNodeKind::Sequence, seq![4usize, 13usize]),
        (BehaviorNodeKind::Sequence, seq![3usize, 14usize]),
        (BehaviorNodeKind::Selector, seq![2usize, 15usize]),
    ]
}

/// Node `c` is listed among the children of some node of `nodes`.
pub open spec fn has_parent(nodes: Seq<(BehaviorNodeKind, Seq<usize>)>, c: int) -> bool {
    exists|i: int, k: int| 0 <= i < nodes.len() && 0 <= k < nodes[i].1.len() && #[trigger] nodes[i].1[k] == c
}

fn add_node(nodes: &mut Vec<BehaviorNodeDef>, kind: BehaviorNodeKind, children: Vec<usize>) -> (r: usize)
    requires
        old(nodes)@.len() < usize::MAX,
    ensures
        r == old(nodes)@.len(),
        final(nodes)@.len() == old(nodes)@.len() + 1,
        final(nodes)@.map_values(|n: BehaviorNodeDef| n@) == old(nodes)@.map_values(|n: BehaviorNodeDef| n@).push((kind, children@)),
{
    let r = nodes.len();
    nodes.push(BehaviorNodeDef { kind, children });
    proof {
        assert(nodes@.map_values(|n: BehaviorNodeDef| n@) =~= old(nodes)@.map_values(|n: BehaviorNodeDef| n@).push((kind, children@)));
    }
    r
}

fn leaf(nodes: &mut Vec<BehaviorNodeDef>, action: BotAction) -> (r: usize)
    requires
        old(nodes)@.len() < usize::MAX,
    ensures
        r == old(nodes)@.len(),
        final(nodes)@.len() == old(nodes)@.len() + 1,
        final(nodes)@.map_values(|n: BehaviorNodeDef| n@) == old(nodes)@.map_values(|n: BehaviorNodeDef| n@).push((BehaviorNodeKind::Leaf(action), Seq::<usize>::empty())),
{
    let children: Vec<usize> = Vec::new();
    add_node(nodes, BehaviorNodeKind::Leaf(action), children)
}

fn pair(a: usize, b: usize) -> (r: Vec<usize>)
    ensures
        r@ == seq![a, b],
{
    let mut v = Vec::new();
    v.push(a);
    v.push(b);
    proof {
        assert(v@ =~= seq![a, b]);
    }
    v
}

fn triple(a: usize, b: usize, c: usize) -> (r: Vec<usize>)
    ensures
        r@ == seq![a, b, c],
{
    let mut v = Vec::new();
    v.push(a);
    v.push(b);
    v.push(c);
    proof {
        assert(v@ =~= seq![a, b, c]);
    }
    v
}

impl BehaviorTreeDef {
    /// The behavior tree every monster runs; the entry node is the last one.
    #[verifier::rlimit(60)]
    pub fn bot_behavior() -> (r: Self)
        ensures
            r.nodes@.map_values(|n: BehaviorNodeDef| n@) == spec_bot_behavior_nodes(),
            r.entry == 16,
    {
        let mut nodes: Vec<BehaviorNodeDef> = Vec::new();
        let is_dead = leaf(&mut nodes, BotAction::IsDead);
        let stay_dead = leaf(&mut nodes, BotAction::StayDead);
        let death = add_node(&mut nodes, BehaviorNodeKind::Sequence, pair(is_dead, stay_dead));
        let find = leaf(&mut nodes, BotAction::FindTarget);
        let aim = leaf(&mut nodes, BotAction::AimOnTarget);
        let can_shoot = leaf(&mut nodes, BotAction::CanShootTarget);
        let approach = leaf(&mut nodes, BotAction::MoveToTarget(MoveRange::Shooting));
        let shoot = leaf(&mut nodes, BotAction::ShootTarget);
        let shooting = add_node(&mut nodes, BehaviorNodeKind::Sequence, triple(can_shoot, approach, shoot));
        let close_in = leaf(&mut nodes, BotAction::MoveToTarget(MoveRange::CloseCombat));
        let can_melee = leaf(&mut nodes, BotAction::CanMeleeAttack);
        let melee = leaf(&mut nodes, BotAction::DoMeleeAttack);
        let melee_seq = add_node(&mut nodes, BehaviorNodeKind::Sequence, triple(close_in, can_melee, melee));
        let attack = add_node(&mut nodes, BehaviorNodeKind::Selector, pair(shooting, melee_seq));
        let aim_and_attack = add_node(&mut nodes, BehaviorNodeKind::Sequence, pair(aim, attack));
        let hunt = add_node(&mut nodes, BehaviorNodeKind::Sequence, pair(find, aim_and_attack));
        let entry = add_node(&mut nodes, BehaviorNodeKind::Selector, pair(death, hunt));
        proof {
            assert(nodes@.map_values(|n: BehaviorNodeDef| n@) =~= spec_bot_behavior_nodes());
        }
        BehaviorTreeDef { nodes, entry }
    }
}

/// The target a monster keeps after an actor was removed from the level: none when it was
/// the removed actor.
pub fn target_after_removal(target: Option<crate::handle::Handle>, removed: crate::handle::Handle) -> (r: Option<crate::handle::Handle>)
    ensures
        r == (match target {
            Some(t) => if t == removed { None } else { Some(t) },
            None => None,
        }),
{
    match target {
        Some(t) => if t == removed {
            None
        } else {
            Some(t)
        },
        None => None,
    }
}

} // verus!

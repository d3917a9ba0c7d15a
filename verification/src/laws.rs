use vstd::prelude::*;

use crate::agent_machine::{
    spec_lower_body_rules as spec_agent_lower_rules,
    spec_lower_body_transitions as spec_agent_lower_transitions, LowerBodyAnimationsEnded,
    LowerBodyMachineInput as AgentLowerInput,
};
use crate::anim::{rule_is_set, rules_cover};
use crate::bot::{
    has_parent, spec_bot_behavior_nodes,
    spec_bot_lower_body_rules, spec_bot_upper_body_rules,
    spec_lower_body_transitions as spec_bot_lower_transitions,
    spec_upper_body_transitions as spec_bot_upper_transitions,
    LowerBodyMachineInput as BotLowerInput, UpperBodyMachineInput as BotUpperInput,
};
use crate::player::{
    spec_upper_body_rules as spec_player_upper_rules,
    spec_upper_body_transitions as spec_player_upper_transitions, UpperBodyAnimationsEnded,
    UpperBodyMachineInput as PlayerUpperInput,
};
use crate::bot::{spec_may_target, BotHostility, BotKind, TargetKind};
use crate::character::{spec_next_slot, spec_prev_slot, weapon_at};
use crate::controls::{spec_control_effect, spec_controlled, ControlAction, ControlContext, ControlEffect};
use crate::elevator::{spec_requested_floor, spec_selected_floor, CallButton, CallButtonKind, Elevator};
use crate::item::{ItemKind, WeaponKind};
use crate::level::{spec_pickup_outcome, PickupOutcome};
use crate::player::{spec_model_angle, spec_weapon_change_request, InputController, RequiredWeapon, WeaponControl};
use crate::door::{spec_try_open, DoorSound, DoorState};
use crate::handle::Handle;
use crate::journal::spec_move_selection;
use crate::sound::{spec_material_of, spec_ranges, triangles_before, FeatureId, SurfaceInfo, TriangleRange};
use crate::turret::{spec_barrels_to_fire, spec_turret_may_target, Hostility, ShootMode};

verus! {

/// A locked door opens exactly for an actor who carries the master key; without the key it
/// stays locked and only the deny sound plays.
pub proof fn lemma_locked_door_opens_only_with_key(has_key: bool)
    ensures
        spec_try_open(DoorState::Locked, has_key).0 == (if has_key {
            DoorState::Opening
        } else {
            DoorState::Locked
        }),
        !has_key ==> spec_try_open(DoorState::Locked, has_key).1 == seq![DoorSound::Deny],
{
}

/// Trying to open a door that is open, moving or broken changes nothing and plays nothing;
/// a closed door opens whether or not the actor has a key.
pub proof fn lemma_try_open_other_states(state: DoorState, has_key: bool)
    ensures
        state != DoorState::Closed && state != DoorState::Locked ==> spec_try_open(state, has_key)
            == (state, Seq::<DoorSound>::empty()),
        spec_try_open(DoorState::Closed, has_key) == (DoorState::Opening, seq![DoorSound::Open]),
{
}

/// Asking for the next weapon and then the previous one comes back to the same slot,
/// whenever there was a next weapon.
pub proof fn lemma_next_then_prev_weapon(weapon_count: nat, current: u32)
    requires
        weapon_count <= u32::MAX,
        spec_next_slot(weapon_count, current) != current,
    ensures
        spec_prev_slot(spec_next_slot(weapon_count, current)) == current,
{
}

/// Asking for the previous weapon and then the next one comes back to the same slot,
/// whenever the selection was a valid slot past the first.
pub proof fn lemma_prev_then_next_weapon(weapon_count: nat, current: u32)
    requires
        0 < current < weapon_count,
    ensures
        spec_next_slot(weapon_count, spec_prev_slot(current)) == current,
{
}

/// A weapon just added is the selected weapon.
pub proof fn lemma_added_weapon_is_current(weapons: Seq<Handle>, weapon: Handle)
    ensures
        weapon_at(weapons.push(weapon), weapons.len() as int) == weapon,
{
}

/// Moving the journal selection down and then up comes back to the same line, and so
/// does moving it up and then down from any line but the first.
pub proof fn lemma_journal_down_then_up(n: usize)
    requires
        n < usize::MAX,
    ensures
        spec_move_selection(spec_move_selection(Some(n), false), true) == Some(n),
        n > 0 ==> spec_move_selection(spec_move_selection(Some(n), true), false) == Some(n),
{
}

/// A turret firing barrels in turn fires exactly one existing barrel per shot and then
/// points at an existing barrel; firing all of them keeps its position.
pub proof fn lemma_consecutive_barrels_stay_in_range(barrel_index: u32, barrel_count: usize)
    requires
        barrel_index < barrel_count,
        barrel_count <= u32::MAX,
    ensures
        ({
            let (fired, next) = spec_barrels_to_fire(ShootMode::Consecutive, barrel_index, barrel_count);
            &&& fired == seq![barrel_index as usize]
            &&& next < barrel_count
            &&& next == (barrel_index + 1) % (barrel_count as int)
        }),
{
    let (fired, next) = spec_barrels_to_fire(ShootMode::Consecutive, barrel_index, barrel_count);
    if barrel_index + 1 >= barrel_count {
        assert((barrel_index + 1) % (barrel_count as int) == 0) by (nonlinear_arith)
            requires
                barrel_index + 1 == barrel_count,
                barrel_count > 0,
        ;
    } else {
        assert((barrel_index + 1) % (barrel_count as int) == barrel_index + 1) by (nonlinear_arith)
            requires
                0 <= barrel_index + 1 < barrel_count,
        ;
    }
}

/// The triangle ranges built from a list of surfaces lie in order and never overlap: each
/// range ends where it starts or later, and the next range starts where the previous one
/// ends or later.
pub proof fn lemma_ranges_ordered(surfaces: Seq<SurfaceInfo>)
    requires
        triangles_before(surfaces, surfaces.len() as int) <= u32::MAX,
    ensures
        forall|i: int| 0 <= i < spec_ranges(surfaces).len() ==> spec_ranges(surfaces)[i].start
            <= spec_ranges(surfaces)[i].end,
        forall|i: int, j: int|
            0 <= i < j < spec_ranges(surfaces).len() ==> spec_ranges(surfaces)[i].end
                <= spec_ranges(surfaces)[j].start,
        forall|i: int| 0 <= i < spec_ranges(surfaces).len() ==> spec_ranges(surfaces)[i].end
            <= triangles_before(surfaces, surfaces.len() as int),
    decreases surfaces.len(),
{
    if surfaces.len() > 0 {
        let n = surfaces.len() - 1;
        let prefix = surfaces.subrange(0, n);
        lemma_prefix_total(surfaces, n);
        lemma_ranges_ordered(prefix);
        let rest = spec_ranges(prefix);
        let r = spec_ranges(surfaces);
        let total_n = triangles_before(surfaces, n);
        assert(triangles_before(prefix, n) == total_n);
        match surfaces[n].material {
            Some(m) => {
                assert(r == rest.push(
                    TriangleRange {
                        start: total_n as u32,
                        end: triangles_before(surfaces, n + 1) as u32,
                        material: m,
                    },
                ));
            },
            None => {
                assert(r == rest);
            },
        }
    }
}

proof fn lemma_prefix_total(surfaces: Seq<SurfaceInfo>, n: int)
    requires
        0 <= n <= surfaces.len(),
    ensures
        triangles_before(surfaces.subrange(0, n), n) == triangles_before(surfaces, n),
        triangles_before(surfaces, n) <= triangles_before(surfaces, surfaces.len() as int),
    decreases surfaces.len() - n,
{
    lemma_prefix_count(surfaces, n, n);
    if n < surfaces.len() {
        lemma_prefix_total(surfaces, n + 1);
    }
}

proof fn lemma_prefix_count(surfaces: Seq<SurfaceInfo>, k: int, n: int)
    requires
        0 <= n <= k <= surfaces.len(),
    ensures
        triangles_before(surfaces.subrange(0, k), n) == triangles_before(surfaces, n),
    decreases n,
{
    if n > 0 {
        lemma_prefix_count(surfaces, k, n - 1);
    }
}

/// Looking up a face that lies in one of a list of ordered, non-overlapping ranges gives
/// that range's material.
pub proof fn lemma_material_of_face_in_range(ranges: Seq<TriangleRange>, k: int, idx: u32)
    requires
        0 <= k < ranges.len(),
        ranges[k].start <= idx < ranges[k].end,
        forall|i: int, j: int| 0 <= i < j < ranges.len() ==> ranges[i].end <= ranges[j].start,
        forall|i: int| 0 <= i < ranges.len() ==> ranges[i].start <= ranges[i].end,
    ensures
        spec_material_of(ranges, FeatureId::Face(idx)) == Some(ranges[k].material),
    decreases ranges.len(),
{
    if k > 0 {
        assert(ranges[0].end <= ranges[k].start);
        let rest = ranges.drop_first();
        assert forall|i: int, j: int| 0 <= i < j < rest.len() implies rest[i].end <= rest[j].start by {
            assert(rest[i] == ranges[i + 1]);
            assert(rest[j] == ranges[j + 1]);
        }
        assert forall|i: int| 0 <= i < rest.len() implies rest[i].start <= rest[i].end by {
            assert(rest[i] == ranges[i + 1]);
        }
        assert(rest[k - 1] == ranges[k]);
        lemma_material_of_face_in_range(rest, k - 1, idx);
    }
}

/// For the ranges built from a list of surfaces, a face inside a surface's range is found
/// to be of that surface's material.
pub proof fn lemma_built_ranges_find_material(surfaces: Seq<SurfaceInfo>, k: int, idx: u32)
    requires
        triangles_before(surfaces, surfaces.len() as int) <= u32::MAX,
        0 <= k < spec_ranges(surfaces).len(),
        spec_ranges(surfaces)[k].start <= idx < spec_ranges(surfaces)[k].end,
    ensures
        spec_material_of(spec_ranges(surfaces), FeatureId::Face(idx)) == Some(
            spec_ranges(surfaces)[k].material,
        ),
{
    lemma_ranges_ordered(surfaces);
    lemma_material_of_face_in_range(spec_ranges(surfaces), k, idx);
}

/// Every transition of the player's upper-body machine is driven by a rule that the
/// machine's input sets each frame, whatever the input.
pub proof fn lemma_player_upper_body_rules_cover(i: PlayerUpperInput, e: UpperBodyAnimationsEnded)
    ensures
        rules_cover(spec_player_upper_transitions(), spec_player_upper_rules(i, e)),
{
    let ts = spec_player_upper_transitions();
    let rules = spec_player_upper_rules(i, e);
    assert forall|i: int| 0 <= i < ts.len() implies #[trigger] rule_is_set(rules, ts[i].4) by {
        if i == 0 {
            assert(rules[1].0 == ts[0].4);
        } else if i == 1 {
            assert(rules[2].0 == ts[1].4);
        } else if i == 2 {
            assert(rules[0].0 == ts[2].4);
        } else if i == 3 {
            assert(rules[3].0 == ts[3].4);
        } else if i == 4 {
            assert(rules[7].0 == ts[4].4);
        } else if i == 5 {
            assert(rules[8].0 == ts[5].4);
        } else if i == 6 {
            assert(rules[4].0 == ts[6].4);
        } else if i == 7 {
            assert(rules[5].0 == ts[7].4);
        } else if i == 8 {
            assert(rules[6].0 == ts[8].4);
        } else if i == 9 {
            assert(rules[9].0 == ts[9].4);
        } else if i == 10 {
            assert(rules[10].0 == ts[10].4);
        } else if i == 11 {
            assert(rules[11].0 == ts[11].4);
        } else if i == 12 {
            assert(rules[12].0 == ts[12].4);
        } else if i == 13 {
            assert(rules[22].0 == ts[13].4);
        } else if i == 14 {
            assert(rules[21].0 == ts[14].4);
        } else if i == 15 {
            assert(rules[13].0 == ts[15].4);
        } else if i == 16 {
            assert(rules[14].0 == ts[16].4);
        } else if i == 17 {
            assert(rules[15].0 == ts[17].4);
        } else if i == 18 {
            assert(rules[16].0 == ts[18].4);
        } else if i == 19 {
            assert(rules[17].0 == ts[19].4);
        } else if i == 20 {
            assert(rules[18].0 == ts[20].4);
        } else if i == 21 {
            assert(rules[19].0 == ts[21].4);
        } else if i == 22 {
            assert(rules[20].0 == ts[22].4);
        }
    }
}

/// Every transition of the agent's lower-body machine is driven by a rule that the
/// machine's input sets each frame, whatever the input.
pub proof fn lemma_agent_lower_body_rules_cover(i: AgentLowerInput, e: LowerBodyAnimationsEnded)
    ensures
        rules_cover(spec_agent_lower_transitions(), spec_agent_lower_rules(i, e)),
{
    let ts = spec_agent_lower_transitions();
    let rules = spec_agent_lower_rules(i, e);
    assert forall|i: int| 0 <= i < ts.len() implies #[trigger] rule_is_set(rules, ts[i].4) by {
        if i == 0 {
            assert(rules[1].0 == ts[0].4);
        } else if i == 1 {
            assert(rules[2].0 == ts[1].4);
        } else if i == 2 {
            assert(rules[0].0 == ts[2].4);
        } else if i == 3 {
            assert(rules[3].0 == ts[3].4);
        } else if i == 4 {
            assert(rules[7].0 == ts[4].4);
        } else if i == 5 {
            assert(rules[8].0 == ts[5].4);
        } else if i == 6 {
            assert(rules[4].0 == ts[6].4);
        } else if i == 7 {
            assert(rules[5].0 == ts[7].4);
        } else if i == 8 {
            assert(rules[6].0 == ts[8].4);
        } else if i == 9 {
            assert(rules[9].0 == ts[9].4);
        } else if i == 10 {
            assert(rules[11].0 == ts[10].4);
        } else if i == 11 {
            assert(rules[10].0 == ts[11].4);
        } else if i == 12 {
            assert(rules[12].0 == ts[12].4);
        } else if i == 13 {
            assert(rules[13].0 == ts[13].4);
        } else if i == 14 {
            assert(rules[14].0 == ts[14].4);
        } else if i == 15 {
            assert(rules[15].0 == ts[15].4);
        } else if i == 16 {
            assert(rules[16].0 == ts[16].4);
        } else if i == 17 {
            assert(rules[17].0 == ts[17].4);
        } else if i == 18 {
            assert(rules[18].0 == ts[18].4);
        }
    }
}

/// Every transition of an aiming monster's upper-body machine is driven by a rule that the
/// machine's input sets each frame, whatever the input.
pub proof fn lemma_aiming_bot_upper_body_rules_cover(i: BotUpperInput, attack_ended: bool)
    ensures
        rules_cover(spec_bot_upper_transitions(true), spec_bot_upper_body_rules(i, attack_ended)),
{
    let ts = spec_bot_upper_transitions(true);
    let rules = spec_bot_upper_body_rules(i, attack_ended);
    assert forall|i: int| 0 <= i < ts.len() implies #[trigger] rule_is_set(rules, ts[i].4) by {
        if i == 0 {
            assert(rules[0].0 == ts[0].4);
        } else if i == 1 {
            assert(rules[1].0 == ts[1].4);
        } else if i == 2 {
            assert(rules[2].0 == ts[2].4);
        } else if i == 3 {
            assert(rules[3].0 == ts[3].4);
        } else if i == 4 {
            assert(rules[4].0 == ts[4].4);
        } else if i == 5 {
            assert(rules[5].0 == ts[5].4);
        } else if i == 6 {
            assert(rules[6].0 == ts[6].4);
        } else if i == 7 {
            assert(rules[7].0 == ts[7].4);
        } else if i == 8 {
            assert(rules[8].0 == ts[8].4);
        } else if i == 9 {
            assert(rules[9].0 == ts[9].4);
        } else if i == 10 {
            assert(rules[10].0 == ts[10].4);
        } else if i == 11 {
            assert(rules[11].0 == ts[11].4);
        } else if i == 12 {
            assert(rules[12].0 == ts[12].4);
        } else if i == 13 {
            assert(rules[13].0 == ts[13].4);
        } else if i == 14 {
            assert(rules[14].0 == ts[14].4);
        }
    }
}

/// Every transition of a monster's upper-body machine without aiming is driven by a rule
/// that the machine's input sets each frame, whatever the input.
pub proof fn lemma_bot_upper_body_rules_cover(i: BotUpperInput, attack_ended: bool)
    ensures
        rules_cover(spec_bot_upper_transitions(false), spec_bot_upper_body_rules(i, attack_ended)),
{
    let ts = spec_bot_upper_transitions(false);
    let rules = spec_bot_upper_body_rules(i, attack_ended);
    assert forall|i: int| 0 <= i < ts.len() implies #[trigger] rule_is_set(rules, ts[i].4) by {
        if i == 0 {
            assert(rules[0].0 == ts[0].4);
        } else if i == 1 {
            assert(rules[1].0 == ts[1].4);
        } else if i == 2 {
            assert(rules[2].0 == ts[2].4);
        } else if i == 3 {
            assert(rules[3].0 == ts[3].4);
        } else if i == 4 {
            assert(rules[4].0 == ts[4].4);
        } else if i == 5 {
            assert(rules[5].0 == ts[5].4);
        } else if i == 6 {
            assert(rules[6].0 == ts[6].4);
        } else if i == 7 {
            assert(rules[7].0 == ts[7].4);
        } else if i == 8 {
            assert(rules[8].0 == ts[8].4);
        } else if i == 9 {
            assert(rules[12].0 == ts[9].4);
        } else if i == 10 {
            assert(rules[13].0 == ts[10].4);
        } else if i == 11 {
            assert(rules[14].0 == ts[11].4);
        }
    }
}

/// Every transition of a monster's lower-body machine is driven by a rule that the
/// machine's input sets each frame, whatever the input.
pub proof fn lemma_bot_lower_body_rules_cover(i: BotLowerInput)
    ensures
        rules_cover(spec_bot_lower_transitions(), spec_bot_lower_body_rules(i)),
{
    let ts = spec_bot_lower_transitions();
    let rules = spec_bot_lower_body_rules(i);
    assert forall|i: int| 0 <= i < ts.len() implies #[trigger] rule_is_set(rules, ts[i].4) by {
        if i == 0 {
            assert(rules[0].0 == ts[0].4);
        } else if i == 1 {
            assert(rules[1].0 == ts[1].4);
        } else if i == 2 {
            assert(rules[2].0 == ts[2].4);
        } else if i == 3 {
            assert(rules[3].0 == ts[3].4);
        } else if i == 4 {
            assert(rules[4].0 == ts[4].4);
        } else if i == 5 {
            assert(rules[5].0 == ts[5].4);
        } else if i == 6 {
            assert(rules[6].0 == ts[6].4);
        }
    }
}


/// The monsters' behavior tree is a tree rooted at its entry, the last node: every child
/// is listed before its parent, every other node is the child of some node, no node is the
/// child of two nodes or twice of one, and exactly the leaves have no children.
pub proof fn lemma_bot_behavior_is_a_tree()
    ensures
        ({
            let nodes = spec_bot_behavior_nodes();
            &&& nodes.len() == 17
            &&& forall|i: int, k: int|
                0 <= i < nodes.len() && 0 <= k < nodes[i].1.len() ==> (#[trigger] nodes[i].1[k] as int) < i
            &&& forall|c: int| 0 <= c < nodes.len() - 1 ==> #[trigger] has_parent(nodes, c)
            &&& forall|i: int, k: int, j: int, l: int|
                0 <= i < nodes.len() && 0 <= k < nodes[i].1.len() && 0 <= j < nodes.len() && 0 <= l
                    < nodes[j].1.len() && #[trigger] nodes[i].1[k] == #[trigger] nodes[j].1[l] ==> i == j && k == l
            &&& forall|i: int| 0 <= i < nodes.len() ==> ((#[trigger] nodes[i].0 is Leaf) <==> nodes[i].1.len() == 0)
        }),
{
    let nodes = spec_bot_behavior_nodes();
        assert(nodes[2].1 == seq![0usize, 1usize]);
        assert(nodes[8].1 == seq![5usize, 6usize, 7usize]);
        assert(nodes[12].1 == seq![9usize, 10usize, 11usize]);
        assert(nodes[13].1 == seq![8usize, 12usize]);
        assert(nodes[14].1 == seq![4usize, 13usize]);
        assert(nodes[15].1 == seq![3usize, 14usize]);
        assert(nodes[16].1 == seq![2usize, 15usize]);
    assert forall|c: int| 0 <= c < nodes.len() - 1 implies #[trigger] has_parent(nodes, c) by {
        if c == 0 {
            assert(nodes[2].1[0] == 0);
        } else if c == 1 {
            assert(nodes[2].1[1] == 1);
        } else if c == 2 {
            assert(nodes[16].1[0] == 2);
        } else if c == 3 {
            assert(nodes[15].1[0] == 3);
        } else if c == 4 {
            assert(nodes[14].1[0] == 4);
        } else if c == 5 {
            assert(nodes[8].1[0] == 5);
        } else if c == 6 {
            assert(nodes[8].1[1] == 6);
        } else if c == 7 {
            assert(nodes[8].1[2] == 7);
        } else if c == 8 {
            assert(nodes[13].1[0] == 8);
        } else if c == 9 {
            assert(nodes[12].1[0] == 9);
        } else if c == 10 {
            assert(nodes[12].1[1] == 10);
        } else if c == 11 {
            assert(nodes[12].1[2] == 11);
        } else if c == 12 {
            assert(nodes[13].1[1] == 12);
        } else if c == 13 {
            assert(nodes[14].1[1] == 13);
        } else if c == 14 {
            assert(nodes[15].1[1] == 14);
        } else if c == 15 {
            assert(nodes[16].1[1] == 15);
        }
    }
}


/// A monster hostile to everyone may attack every target; every monster may attack the
/// player; a monster hostile to the player alone never attacks a monster; a monster hostile
/// to other species attacks monsters of every kind but its own.
pub proof fn lemma_monster_hostility(hostility: BotHostility, own: BotKind, target: TargetKind, other: BotKind)
    ensures
        spec_may_target(BotHostility::Everyone, own, target),
        spec_may_target(hostility, own, TargetKind::Player),
        !spec_may_target(BotHostility::Player, own, TargetKind::Bot(other)),
        spec_may_target(BotHostility::OtherSpecies, own, TargetKind::Bot(other)) <==> other != own,
{
}

/// The flags of the player's controller, numbered: walk forward, backward, left, right,
/// jump, aim, toss grenade, shoot, run, action, cursor up, cursor down.
pub open spec fn controller_flag(c: InputController, f: int) -> bool {
    if f == 0 {
        c.walk_forward
    } else if f == 1 {
        c.walk_backward
    } else if f == 2 {
        c.walk_left
    } else if f == 3 {
        c.walk_right
    } else if f == 4 {
        c.jump
    } else if f == 5 {
        c.aim
    } else if f == 6 {
        c.toss_grenade
    } else if f == 7 {
        c.shoot
    } else if f == 8 {
        c.run
    } else if f == 9 {
        c.action
    } else if f == 10 {
        c.cursor_up
    } else {
        c.cursor_down
    }
}

/// The flag a control holds, by the numbering of `controller_flag`; -1 for controls that
/// hold no flag.
pub open spec fn held_flag(action: ControlAction) -> int {
    match action {
        ControlAction::MoveForward => 0,
        ControlAction::MoveBackward => 1,
        ControlAction::MoveLeft => 2,
        ControlAction::MoveRight => 3,
        ControlAction::Jump => 4,
        ControlAction::Aim => 5,
        ControlAction::TossGrenade => 6,
        ControlAction::Shoot => 7,
        ControlAction::Run => 8,
        ControlAction::Action => 9,
        ControlAction::CursorUp => 10,
        ControlAction::CursorDown => 11,
        _ => -1,
    }
}

/// A button of a control changes only the flag of that control: a held-key control's flag
/// follows the press or release (jumping only while a jump may start, tossing only while a
/// grenade is carried), and every other flag keeps its value.
pub proof fn lemma_control_sets_its_own_flag(c: InputController, action: ControlAction, pressed: bool, ctx: ControlContext)
    ensures
        forall|f: int| 0 <= f < 12 && f != held_flag(action) ==> controller_flag(
            spec_controlled(c, action, pressed, ctx),
            f,
        ) == controller_flag(c, f),
        held_flag(action) >= 0 && action != ControlAction::Jump && action != ControlAction::TossGrenade
            ==> controller_flag(spec_controlled(c, action, pressed, ctx), held_flag(action)) == pressed,
        action == ControlAction::Jump ==> spec_controlled(c, action, pressed, ctx).jump == (pressed && ctx.can_jump),
        action == ControlAction::TossGrenade ==> spec_controlled(c, action, pressed, ctx).toss_grenade == (if ctx.has_grenade {
            pressed
        } else {
            c.toss_grenade
        }),
{
}

/// Without the action key a player asks nothing of an elevator. With it, a call button in
/// reach sends the elevator to the floor of the last such button; with none in reach,
/// standing at the elevator sends it from the top floor to the ground floor or from the
/// ground floor to the top floor, and from a floor in between nowhere.
pub proof fn lemma_elevator_needs_the_action_key(
    elevator: Elevator,
    near_elevator: bool,
    action: bool,
    buttons: Seq<CallButton>,
    near_buttons: Seq<bool>,
)
    requires
        buttons.len() == near_buttons.len(),
    ensures
        !action ==> spec_requested_floor(elevator, near_elevator, action, buttons, near_buttons) is None,
        action && (exists|i: int| 0 <= i < near_buttons.len() && near_buttons[i]) ==> exists|i: int|
            0 <= i < near_buttons.len() && near_buttons[i] && (forall|j: int| i < j < near_buttons.len() ==> !near_buttons[j])
                && spec_requested_floor(elevator, near_elevator, action, buttons, near_buttons) == Some(#[trigger] buttons[i].floor),
        action && (forall|i: int| 0 <= i < near_buttons.len() ==> !near_buttons[i]) ==> spec_requested_floor(
            elevator,
            near_elevator,
            action,
            buttons,
            near_buttons,
        ) == ({
            let top: u32 = if elevator.floor_count == 0 { 0 } else { (elevator.floor_count - 1) as u32 };
            if !near_elevator {
                None
            } else if elevator.current_floor == top {
                Some(0u32)
            } else if elevator.current_floor == 0 {
                Some(top)
            } else {
                None
            }
        }),
{
    if action && (exists|i: int| 0 <= i < near_buttons.len() && near_buttons[i]) {
        let w = choose|i: int| 0 <= i < near_buttons.len() && near_buttons[i];
        let i = choose|i: int|
            0 <= i < near_buttons.len() && near_buttons[i] && forall|j: int|
                i < j < near_buttons.len() ==> !near_buttons[j];
        lemma_last_true_exists(near_buttons, w);
        assert(near_buttons[i]);
    }
}

proof fn lemma_last_true_exists(flags: Seq<bool>, w: int)
    requires
        0 <= w < flags.len(),
        flags[w],
    ensures
        exists|i: int| 0 <= i < flags.len() && flags[i] && forall|j: int| i < j < flags.len() ==> !flags[j],
    decreases flags.len() - w,
{
    if exists|j: int| w < j < flags.len() && flags[j] {
        let j = choose|j: int| w < j < flags.len() && flags[j];
        lemma_last_true_exists(flags, j);
    } else {
        assert(forall|j: int| w < j < flags.len() ==> !flags[j]);
    }
}

/// Picking up a medkit, a medpack, a grenade or the master key adds one item of that very
/// kind; ammo comes in packs of 24 rounds; a weapon item gives its weapon when the actor has
/// none of that kind, and 24 rounds of ammo when it has.
pub proof fn lemma_pickup_gives(kind: ItemKind, kinds: Seq<WeaponKind>)
    ensures
        (kind == ItemKind::Medkit || kind == ItemKind::Medpack || kind == ItemKind::Grenade || kind
            == ItemKind::MasterKey) ==> spec_pickup_outcome(kind, kinds) == (PickupOutcome::AddItems {
            kind,
            count: 1,
        }),
        spec_pickup_outcome(ItemKind::Ammo, kinds) == (PickupOutcome::AddItems { kind: ItemKind::Ammo, count: 24 }),
        ({
            let weapon = if kind == ItemKind::PlasmaGun {
                WeaponKind::PlasmaRifle
            } else if kind == ItemKind::Ak47 {
                WeaponKind::Ak47
            } else if kind == ItemKind::M4 {
                WeaponKind::M4
            } else if kind == ItemKind::Glock {
                WeaponKind::Glock
            } else {
                WeaponKind::RailGun
            };
            (kind == ItemKind::PlasmaGun || kind == ItemKind::Ak47 || kind == ItemKind::M4 || kind == ItemKind::Glock
                || kind == ItemKind::RailGun) ==> spec_pickup_outcome(kind, kinds) == (if kinds.contains(weapon) {
                PickupOutcome::AddItems { kind: ItemKind::Ammo, count: 24 }
            } else {
                PickupOutcome::GiveWeapon(weapon)
            })
        }),
{
}

/// Only a press of the next or previous weapon button asks to step through the weapons,
/// and only while a change may start and there is a weapon in that direction; a release
/// never does. A grab button asks for its own weapon exactly while a change may start and
/// that weapon is not the one in hand, on press and release alike. Nothing is asked while a
/// change may not start.
pub proof fn lemma_weapon_change_requests(
    control: WeaponControl,
    pressed: bool,
    can_change_weapon: bool,
    current_kind: Option<WeaponKind>,
    current_weapon: u32,
    weapon_count: u32,
)
    ensures
        ({
            let r = spec_weapon_change_request(control, pressed, can_change_weapon, current_kind, current_weapon, weapon_count);
            let target = if control == WeaponControl::GrabAk47 {
                WeaponKind::Ak47
            } else if control == WeaponControl::GrabM4 {
                WeaponKind::M4
            } else if control == WeaponControl::GrabPlasmaGun {
                WeaponKind::PlasmaRifle
            } else {
                WeaponKind::Glock
            };
            &&& !can_change_weapon ==> r is None
            &&& control == WeaponControl::NextWeapon ==> r == (if pressed && can_change_weapon && current_weapon + 1
                < weapon_count {
                Some(RequiredWeapon::Next)
            } else {
                None
            })
            &&& control == WeaponControl::PrevWeapon ==> r == (if pressed && can_change_weapon && current_weapon > 0 {
                Some(RequiredWeapon::Previous)
            } else {
                None
            })
            &&& (control == WeaponControl::NextWeapon || control == WeaponControl::PrevWeapon) && !pressed ==> r is None
            &&& (control != WeaponControl::NextWeapon && control != WeaponControl::PrevWeapon) ==> r == (if can_change_weapon
                && current_kind != Some(target) {
                Some(RequiredWeapon::Specific(target))
            } else {
                None
            })
        }),
{
}


/// What a button asks beyond the held controls: pressing aim hides the panels; pressing the
/// flash light toggles it; pressing quick heal heals only when health is below its maximum;
/// pressing the inventory or journal key toggles that panel only while not aiming; a weapon
/// control asks exactly for the change its request gives; every other case asks nothing,
/// and in particular a release of any control but a grab asks nothing.
pub proof fn lemma_control_effects(c: InputController, action: ControlAction, pressed: bool, ctx: ControlContext)
    ensures
        ({
            let e = spec_control_effect(c, action, pressed, ctx);
            &&& action == ControlAction::Aim ==> e == (if pressed { ControlEffect::HidePanels } else { ControlEffect::Nothing })
            &&& action == ControlAction::FlashLight ==> e == (if pressed {
                ControlEffect::ToggleFlashLight
            } else {
                ControlEffect::Nothing
            })
            &&& action == ControlAction::QuickHeal ==> (e == ControlEffect::QuickHeal <==> pressed && ctx.needs_healing)
                && (e == ControlEffect::QuickHeal || e == ControlEffect::Nothing)
            &&& action == ControlAction::Inventory ==> (e == ControlEffect::ToggleInventory <==> pressed && !c.aim)
                && (e == ControlEffect::ToggleInventory || e == ControlEffect::Nothing)
            &&& action == ControlAction::Journal ==> (e == ControlEffect::ToggleJournal <==> pressed && !c.aim)
                && (e == ControlEffect::ToggleJournal || e == ControlEffect::Nothing)
            &&& (action matches ControlAction::Weapon(w)) ==> e == (match spec_weapon_change_request(
                action->0,
                pressed,
                ctx.can_change_weapon,
                ctx.current_kind,
                ctx.current_weapon,
                ctx.weapon_count,
            ) {
                Some(r) => ControlEffect::ChangeWeapon(r),
                None => ControlEffect::Nothing,
            })
            &&& held_flag(action) >= 0 && action != ControlAction::Aim ==> e == ControlEffect::Nothing
            &&& !pressed && !(action matches ControlAction::Weapon(_)) ==> e == ControlEffect::Nothing
        }),
{
}

/// A turret hostile to all may aim at anyone; one hostile to the player aims only at the
/// player; one hostile to monsters never aims at the player but at every monster.
pub proof fn lemma_turret_hostility(is_player: bool)
    ensures
        spec_turret_may_target(Hostility::All, is_player),
        spec_turret_may_target(Hostility::Player, is_player) == is_player,
        spec_turret_may_target(Hostility::Monsters, is_player) == !is_player,
{
}

/// Swapping left and right mirrors the angle the player's model turns to: the angle is
/// negated (a half turn, 180 degrees, stays a half turn); and walking only forward, or
/// standing still, keeps the model facing ahead.
pub proof fn lemma_model_angle_mirrors(c: InputController)
    ensures
        ({
            let m = InputController { walk_left: c.walk_right, walk_right: c.walk_left, ..c };
            let a = spec_model_angle(c);
            let b = spec_model_angle(m);
            &&& (!c.walk_left || !c.walk_right) ==> (b == -a || (a == 180 && b == 180))
            &&& -180 < a <= 180
        }),
        !c.walk_left && !c.walk_right && !c.walk_backward ==> spec_model_angle(c) == 0,
        !c.aim && c.walk_right && !c.walk_left && !c.walk_forward && !c.walk_backward ==> spec_model_angle(c) == -90,
        !c.aim && c.walk_left && !c.walk_right && !c.walk_forward && !c.walk_backward ==> spec_model_angle(c) == 90,
{
}

/// A floor selector within reach moves one floor down on the cursor-down key, but not below
/// the ground floor, and one floor up on the cursor-up key, but not above the top floor; any
/// other call button keeps its floor.
pub proof fn lemma_floor_selection_moves_one_floor(b: CallButton, floor_count: u32, cursor_up: bool, cursor_down: bool)
    ensures
        ({
            let f = spec_selected_floor(b, floor_count, cursor_up, cursor_down);
            let top = if floor_count == 0 { 0 } else { floor_count - 1 };
            &&& b.kind != CallButtonKind::FloorSelector ==> f == b.floor
            &&& b.kind == CallButtonKind::FloorSelector && cursor_down ==> f == (if b.floor == 0 { 0 } else { b.floor - 1 })
            &&& b.kind == CallButtonKind::FloorSelector && !cursor_down && cursor_up && b.floor < top ==> f == b.floor + 1
            &&& b.kind == CallButtonKind::FloorSelector && !cursor_down && cursor_up && b.floor >= top ==> f == top
            &&& !cursor_down && !cursor_up ==> f == b.floor
        }),
{
}

} // verus!

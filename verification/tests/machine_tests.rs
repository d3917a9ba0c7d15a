use station_iapetus::agent_machine::{
    lower_body_transitions as agent_lower_transitions, CombatWeaponKind, LowerBodyAnimationsEnded,
    LowerBodyMachineInput as AgentLowerInput, StateMachineInput,
};
use station_iapetus::anim::{AnimState, Rule, TransitionDef};
use station_iapetus::bot::{
    initial_items, lower_body_transitions as bot_lower_transitions, upper_body_transitions as bot_upper_transitions,
    BehaviorNodeKind, BehaviorTreeDef, BotAction, LowerBodyMachineInput as BotLowerInput, MoveRange,
    UpperBodyMachineInput as BotUpperInput,
};
use station_iapetus::inventory::ItemEntry;
use station_iapetus::item::ItemKind;
use station_iapetus::player::{
    upper_body_transitions, CombatMachineWeapon, Direction, InputController, LowerBodyMachineInput,
    UpperBodyAnimationsEnded, UpperBodyMachineInput,
};

fn rule(rules: &[Rule], name: &str) -> bool {
    rules.iter().find(|r| r.name == name).map(|r| r.value).unwrap()
}

fn find<'a>(ts: &'a [TransitionDef], name: &str, from: AnimState) -> &'a TransitionDef {
    ts.iter().find(|t| t.name == name && t.from == from).unwrap()
}

#[test]
fn bot_machines() {
    let with_aim = bot_upper_transitions(true);
    let without = bot_upper_transitions(false);
    assert_eq!(with_aim.len(), 15);
    assert_eq!(without.len(), 12);
    assert!(without.iter().all(|t| t.to != AnimState::Aim && t.from != AnimState::Aim));
    let t = find(&with_aim, "Aim->Walk", AnimState::Aim);
    assert_eq!((t.to, t.duration_ms, t.rule), (AnimState::Walk, 200, "AimToWalk"));
    assert_eq!(bot_lower_transitions().len(), 7);

    let input = BotUpperInput { attack: false, walk: true, scream: false, dead: false, aim: false };
    let rules = input.rules(true);
    assert_eq!(rules.len(), 15);
    assert!(rule(&rules, "AttackToWalk"));
    assert!(!rule(&rules, "AttackToIdle"));
    assert!(rule(&rules, "AimToWalk"));
    assert!(!rule(&rules, "IdleToDying"));
    let lower = BotLowerInput { walk: false, scream: true, dead: true }.rules();
    assert!(rule(&lower, "WalkToIdle"));
    assert!(rule(&lower, "IdleToScream"));
    assert!(rule(&lower, "IdleToDying"));
}

#[test]
fn bot_loot() {
    assert_eq!(initial_items(1, false, 50), vec![ItemEntry { kind: ItemKind::Medkit, amount: 1 }]);
    assert_eq!(
        initial_items(0, true, 40),
        vec![ItemEntry { kind: ItemKind::Ammo, amount: 10 }, ItemEntry { kind: ItemKind::Ammo, amount: 40 }]
    );
}

#[test]
fn bot_behavior_tree() {
    let tree = BehaviorTreeDef::bot_behavior();
    assert_eq!(tree.nodes.len(), 17);
    assert_eq!(tree.entry, 16);
    assert_eq!(tree.nodes[16].kind, BehaviorNodeKind::Selector);
    assert_eq!(tree.nodes[16].children, vec![2, 15]);
    assert_eq!(tree.nodes[9].kind, BehaviorNodeKind::Leaf(BotAction::MoveToTarget(MoveRange::CloseCombat)));
    assert_eq!(tree.nodes[2].children, vec![0, 1]);

    let mut parents = vec![0usize; tree.nodes.len()];
    for (i, node) in tree.nodes.iter().enumerate() {
        assert_eq!(matches!(node.kind, BehaviorNodeKind::Leaf(_)), node.children.is_empty());
        for &c in &node.children {
            assert!(c < i);
            parents[c] += 1;
        }
    }
    assert!(parents[..tree.entry].iter().all(|&p| p == 1));
    assert_eq!(parents[tree.entry], 0);
}

#[test]
fn player_machines() {
    let ts = upper_body_transitions();
    assert_eq!(ts.len(), 23);
    let t = find(&ts, "Idle->Jump", AnimState::Idle);
    assert_eq!((t.to, t.duration_ms, t.rule), (AnimState::Jump, 250, "IdleToJump"));
    // The aim-to-walk transition is named "Walk->Aim".
    let t = find(&ts, "Walk->Aim", AnimState::Aim);
    assert_eq!((t.to, t.rule), (AnimState::Walk, "AimToWalk"));

    let input = UpperBodyMachineInput {
        is_walking: true,
        is_jumping: false,
        has_ground_contact: true,
        is_aiming: true,
        toss_grenade: true,
        weapon: CombatMachineWeapon::Pistol,
        put_back_weapon: false,
        grab_new_weapon: false,
    };
    let ended = UpperBodyAnimationsEnded { jump: false, land: true, put_back: true, toss_grenade: true };
    let rules = input.rules(ended);
    assert_eq!(rules.len(), 23);
    assert!(rule(&rules, "WalkToAim"));
    assert!(!rule(&rules, "AimToIdle"));
    assert!(rule(&rules, "AimToTossGrenade"));
    assert!(!rule(&rules, "TossGrenadeToAim"));
    assert!(rule(&rules, "PutBackToWalk"));
    assert!(!rule(&rules, "PutBackToGrab"));
    let weights = input.aim_weights();
    assert!(rule(&weights, "PistolAimFactor"));
    assert!(!rule(&weights, "RifleAimFactor"));

    let lower = LowerBodyMachineInput { is_walking: false, is_jumping: true, has_ground_contact: false }.rules(true, false);
    assert!(rule(&lower, "IdleToJump"));
    assert!(rule(&lower, "JumpToFall"));
    assert!(rule(&lower, "IdleToFall"));
    assert!(!rule(&lower, "FallToLand"));
}

#[test]
fn directions() {
    assert_eq!(Direction::from_id(1), Ok(Direction::Next));
    assert_eq!(Direction::from_id(3), Err("Invalid Direction id 3!".to_string()));
    assert_eq!(Direction::Previous.id(), 2);
    assert_eq!(Direction::default(), Direction::NoChange);
    for d in [Direction::NoChange, Direction::Next, Direction::Previous] {
        assert_eq!(Direction::from_id(d.id()), Ok(d));
    }
}

#[test]
fn model_angles() {
    let mut c = InputController::default();
    assert_eq!(c.model_angle_degrees(), 0);
    assert!(!c.is_walking());
    c.walk_left = true;
    c.walk_backward = true;
    assert_eq!(c.model_angle_degrees(), 135);
    assert!(c.is_walking());
    c.aim = true;
    assert_eq!(c.model_angle_degrees(), -45);
    c.walk_left = false;
    assert_eq!(c.model_angle_degrees(), 0);
    c.aim = false;
    assert_eq!(c.model_angle_degrees(), 180);
    c.walk_backward = false;
    c.walk_right = true;
    c.walk_forward = true;
    assert_eq!(c.model_angle_degrees(), -45);
}

#[test]
fn agent_machine() {
    let ts = agent_lower_transitions();
    assert_eq!(ts.len(), 19);
    let t = find(&ts, "Idle->Walk", AnimState::Idle);
    assert_eq!(t.duration_ms, 400);
    let input = AgentLowerInput {
        is_walking: true,
        is_jumping: false,
        has_ground_contact: true,
        is_dead: false,
        should_be_stunned: false,
        weapon_kind: CombatWeaponKind::Rifle,
    };
    let ended = LowerBodyAnimationsEnded { jump: false, land: false, hit_reaction: true };
    assert!(input.recovered(ended));
    let rules = input.rules(ended);
    assert_eq!(rules.len(), 19);
    assert!(rule(&rules, "HitReactionToWalk"));
    assert!(!rule(&rules, "WalkToHitReaction"));
    assert_eq!(CombatWeaponKind::Rifle.hit_reaction_index(), 0);
    assert_eq!(CombatWeaponKind::Pistol.hit_reaction_index(), 1);

    let sm = StateMachineInput::from_player(true, false, false, true, false, true, false, CombatWeaponKind::Pistol, true, false, true, false);
    assert!(sm.has_ground_contact);
    assert!(!sm.is_aiming);
    assert!(!sm.melee_attack);
    assert!(sm.change_weapon);
    let rules = sm.rules(true, true);
    assert_eq!(rules.len(), 12);
    assert!(rule(&rules, "Landed"));
    assert!(!rule(&rules, "Recovered"));
    assert!(rule(&rules, "ReactToHit"));
    assert_eq!(sm.weapon_kind_index(), 0);
}

fn every_rule_is_set(ts: &[TransitionDef], rules: &[Rule]) -> bool {
    ts.iter().all(|t| rules.iter().any(|r| r.name == t.rule))
}

#[test]
fn every_transition_has_its_rule_set() {
    let player_input = UpperBodyMachineInput {
        is_walking: false,
        is_jumping: true,
        has_ground_contact: false,
        is_aiming: false,
        toss_grenade: false,
        weapon: CombatMachineWeapon::Rifle,
        put_back_weapon: true,
        grab_new_weapon: true,
    };
    let ended = UpperBodyAnimationsEnded { jump: true, land: false, put_back: false, toss_grenade: false };
    assert!(every_rule_is_set(&upper_body_transitions(), &player_input.rules(ended)));

    let agent_input = AgentLowerInput {
        is_walking: false,
        is_jumping: false,
        has_ground_contact: true,
        is_dead: true,
        should_be_stunned: true,
        weapon_kind: CombatWeaponKind::Pistol,
    };
    let agent_ended = LowerBodyAnimationsEnded { jump: true, land: true, hit_reaction: false };
    assert!(every_rule_is_set(&agent_lower_transitions(), &agent_input.rules(agent_ended)));

    let bot_input = BotUpperInput { attack: true, walk: false, scream: true, dead: false, aim: true };
    assert!(every_rule_is_set(&bot_upper_transitions(true), &bot_input.rules(false)));
    assert!(every_rule_is_set(&bot_upper_transitions(false), &bot_input.rules(true)));
    let bot_lower = BotLowerInput { walk: true, scream: false, dead: false };
    assert!(every_rule_is_set(&bot_lower_transitions(), &bot_lower.rules()));
}

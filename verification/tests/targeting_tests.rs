use station_iapetus::bot::{BotHostility, BotKind, TargetKind};
use station_iapetus::handle::Handle;
use station_iapetus::targeting::{find_target, select_turret_target, TargetCandidate, TargetSearch};
use station_iapetus::turret::Hostility;

fn h(i: u32) -> Handle {
    Handle { index: i, generation: 1 }
}

fn cand(i: u32, kind: TargetKind, alive: bool, in_sight: bool, distance_key: u32) -> TargetCandidate {
    TargetCandidate { handle: h(i), kind, alive, in_sight, distance_key }
}

#[test]
fn monster_keeps_a_living_target() {
    let cands = vec![
        cand(1, TargetKind::Player, true, false, 50),
        cand(2, TargetKind::Bot(BotKind::Mutant), true, true, 5),
    ];
    let r = find_target(h(9), BotKind::Zombie, BotHostility::Everyone, Some(h(1)), &cands);
    assert_eq!(r, TargetSearch { target: Some(h(1)), success: true });
}

#[test]
fn monster_takes_the_closest_it_may_choose() {
    let cands = vec![
        cand(9, TargetKind::Bot(BotKind::Zombie), true, true, 0),
        cand(1, TargetKind::Player, true, true, 40),
        cand(2, TargetKind::Bot(BotKind::Zombie), true, true, 10),
        cand(3, TargetKind::Bot(BotKind::Mutant), true, true, 20),
        cand(4, TargetKind::Bot(BotKind::Mutant), true, false, 5),
        cand(5, TargetKind::Bot(BotKind::Parasite), true, true, 20),
    ];
    // Another species only: the own kind and the monster itself are skipped.
    let r = find_target(h(9), BotKind::Zombie, BotHostility::OtherSpecies, None, &cands);
    assert_eq!(r, TargetSearch { target: Some(h(3)), success: true });
    let r = find_target(h(9), BotKind::Zombie, BotHostility::Everyone, None, &cands);
    assert_eq!(r, TargetSearch { target: Some(h(2)), success: true });
    let r = find_target(h(9), BotKind::Zombie, BotHostility::Player, None, &cands);
    assert_eq!(r, TargetSearch { target: Some(h(1)), success: true });
}

#[test]
fn monster_with_a_dead_target_and_nobody_in_sight_keeps_it() {
    let cands = vec![cand(1, TargetKind::Player, false, false, 3)];
    let r = find_target(h(9), BotKind::Zombie, BotHostility::Player, Some(h(1)), &cands);
    assert_eq!(r, TargetSearch { target: Some(h(1)), success: true });
    let r = find_target(h(9), BotKind::Zombie, BotHostility::Player, None, &cands);
    assert_eq!(r, TargetSearch { target: None, success: false });
}

#[test]
fn turret_targets() {
    let cands = vec![
        cand(1, TargetKind::Player, true, true, 30),
        cand(2, TargetKind::Bot(BotKind::Mutant), true, true, 10),
        cand(3, TargetKind::Bot(BotKind::Mutant), false, true, 1),
        cand(4, TargetKind::Bot(BotKind::Zombie), true, true, 10),
    ];
    assert_eq!(select_turret_target(Hostility::All, false, &cands), Some(h(2)));
    assert_eq!(select_turret_target(Hostility::Player, false, &cands), Some(h(1)));
    assert_eq!(select_turret_target(Hostility::Monsters, false, &cands), Some(h(2)));
    assert_eq!(select_turret_target(Hostility::All, true, &cands), None);
    assert_eq!(select_turret_target(Hostility::Player, false, &cands[1..]), None);
}

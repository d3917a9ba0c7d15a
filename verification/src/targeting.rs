use vstd::prelude::*;

use crate::bot::{spec_may_target, BotHostility, BotKind, TargetKind};
use crate::handle::Handle;
use crate::turret::{spec_turret_may_target, Hostility};

verus! {

/// An actor that a monster or a turret may aim at, as the choice of a target reads it.
#[derive(Copy, Clone, PartialEq, Eq, Structural, Debug)]
pub struct TargetCandidate {
    pub handle: Handle,
    pub kind: TargetKind,
    /// The actor's health is above zero.
    pub alive: bool,
    /// The searcher sees the actor and nothing but actors stands between them.
    pub in_sight: bool,
    /// Orders the candidates by their distance to the searcher: a farther actor has a
    /// larger key.
    pub distance_key: u32,
}

/// Entry `i` is, among the entries that `eligible` accepts, the first of the closest.
pub open spec fn is_first_closest(
    cands: Seq<TargetCandidate>,
    eligible: spec_fn(TargetCandidate) -> bool,
    i: int,
) -> bool {
    &&& 0 <= i < cands.len()
    &&& eligible(cands[i])
    &&& forall|j: int| 0 <= j < cands.len() && eligible(#[trigger] cands[j])
        ==> cands[i].distance_key <= cands[j].distance_key
    &&& forall|j: int| 0 <= j < i && eligible(#[trigger] cands[j])
        ==> cands[i].distance_key < cands[j].distance_key
}

/// Some entry is accepted by `eligible`.
pub open spec fn any_eligible(cands: Seq<TargetCandidate>, eligible: spec_fn(TargetCandidate) -> bool) -> bool {
    exists|i: int| 0 <= i < cands.len() && eligible(#[trigger] cands[i])
}

/// A monster may choose this candidate: it is not the monster itself, the monster's
/// hostility allows it and the monster sees it.
pub open spec fn bot_may_choose(own: Handle, own_kind: BotKind, hostility: BotHostility, c: TargetCandidate) -> bool {
    c.handle != own && spec_may_target(hostility, own_kind, c.kind) && c.in_sight
}

/// The monster's current target is still listed, alive and not the monster itself.
pub open spec fn target_still_valid(own: Handle, target: Handle, cands: Seq<TargetCandidate>) -> bool {
    exists|i: int| 0 <= i < cands.len() && #[trigger] cands[i].handle == target && target != own && cands[i].alive
}

/// A turret may choose this candidate: it is alive, the turret's hostility allows it and
/// the turret sees it.
pub open spec fn turret_may_choose(hostility: Hostility, c: TargetCandidate) -> bool {
    c.alive && spec_turret_may_target(hostility, c.kind == TargetKind::Player) && c.in_sight
}

/// The result of a monster's search for a target: the target it has afterwards and
/// whether the search succeeded.
#[derive(Copy, Clone, PartialEq, Eq, Structural, Debug)]
pub struct TargetSearch {
    pub target: Option<Handle>,
    pub success: bool,
}

fn bot_candidate_ok(own: Handle, own_kind: BotKind, hostility: BotHostility, c: TargetCandidate) -> (r: bool)
    ensures
        r == bot_may_choose(own, own_kind, hostility, c),
{
    c.handle != own && hostility.may_target(own_kind, c.kind) && c.in_sight
}

fn turret_candidate_ok(hostility: Hostility, c: TargetCandidate) -> (r: bool)
    ensures
        r == turret_may_choose(hostility, c),
{
    let is_player = match c.kind {
        TargetKind::Player => true,
        TargetKind::Bot(_) => false,
    };
    c.alive && hostility.may_target(is_player) && c.in_sight
}

/// A monster looks for a target. It keeps its current target while that target is still
/// listed and alive. Otherwise it takes the first of the closest candidates it may choose;
/// when there is none it keeps what it had. The search succeeds when the monster has a
/// target afterwards.
pub fn find_target(
    own: Handle,
    own_kind: BotKind,
    hostility: BotHostility,
    current: Option<Handle>,
    candidates: &[TargetCandidate],
) -> (r: TargetSearch)
    ensures
        (current matches Some(t) && target_still_valid(own, t, candidates@)) ==> r == (TargetSearch {
            target: current,
            success: true,
        }),
        !(current matches Some(t) && target_still_valid(own, t, candidates@)) ==> {
            let eligible = |c: TargetCandidate| bot_may_choose(own, own_kind, hostility, c);
            &&& any_eligible(candidates@, eligible) ==> exists|i: int|
                is_first_closest(candidates@, eligible, i) && r.target == Some(#[trigger] candidates@[i].handle)
            &&& !any_eligible(candidates@, eligible) ==> r.target == current
        },
        r.success == r.target is Some,
{
    let ghost eligible = |c: TargetCandidate| bot_may_choose(own, own_kind, hostility, c);
    if let Some(t) = current {
        let mut k: usize = 0;
        while k < candidates.len()
            invariant
                k <= candidates@.len(),
                current == Some(t),
                forall|j: int| 0 <= j < k ==> !(#[trigger] candidates@[j].handle == t && t != own && candidates@[j].alive),
            decreases candidates@.len() - k,
        {
            let c = candidates[k];
            if c.handle != own && c.handle == t && c.alive {
                proof {
                    assert(candidates@[k as int].handle == t);
                }
                return TargetSearch { target: current, success: true };
            }
            k = k + 1;
        }
    }
    let mut best: Option<usize> = None;
    let mut i: usize = 0;
    while i < candidates.len()
        invariant
            i <= candidates@.len(),
            eligible == (|c: TargetCandidate| bot_may_choose(own, own_kind, hostility, c)),
            best is None <==> (forall|j: int| 0 <= j < i ==> !eligible(#[trigger] candidates@[j])),
            best matches Some(b) ==> {
                &&& b < i
                &&& eligible(candidates@[b as int])
                &&& forall|j: int| 0 <= j < i && eligible(#[trigger] candidates@[j])
                    ==> candidates@[b as int].distance_key <= candidates@[j].distance_key
                &&& forall|j: int| 0 <= j < b && eligible(#[trigger] candidates@[j])
                    ==> candidates@[b as int].distance_key < candidates@[j].distance_key
            },
        decreases candidates@.len() - i,
    {
        let c = candidates[i];
        if bot_candidate_ok(own, own_kind, hostility, c) {
            match best {
                Some(b) => {
                    if c.distance_key < candidates[b].distance_key {
                        best = Some(i);
                    }
                },
                None => {
                    best = Some(i);
                },
            }
        }
        i = i + 1;
    }
    match best {
        Some(b) => {
            proof {
                assert(is_first_closest(candidates@, eligible, b as int));
            }
            TargetSearch { target: Some(candidates[b].handle), success: true }
        },
        None => {
            proof {
                assert(!any_eligible(candidates@, eligible));
            }
            TargetSearch { target: current, success: current.is_some() }
        },
    }
}

/// A turret chooses its target: none when its target has died; otherwise the first of the
/// closest candidates it may choose, or none when there is no such candidate.
pub fn select_turret_target(hostility: Hostility, target_is_dead: bool, candidates: &[TargetCandidate]) -> (r: Option<Handle>)
    ensures
        target_is_dead ==> r is None,
        !target_is_dead ==> {
            let eligible = |c: TargetCandidate| turret_may_choose(hostility, c);
            &&& any_eligible(candidates@, eligible) ==> exists|i: int|
                is_first_closest(candidates@, eligible, i) && r == Some(#[trigger] candidates@[i].handle)
            &&& !any_eligible(candidates@, eligible) ==> r is None
        },
{
    if target_is_dead {
        return None;
    }
    let ghost eligible = |c: TargetCandidate| turret_may_choose(hostility, c);
    let mut best: Option<usize> = None;
    let mut i: usize = 0;
    while i < candidates.len()
        invariant
            i <= candidates@.len(),
            eligible == (|c: TargetCandidate| turret_may_choose(hostility, c)),
            best is None <==> (forall|j: int| 0 <= j < i ==> !eligible(#[trigger] candidates@[j])),
            best matches Some(b) ==> {
                &&& b < i
                &&& eligible(candidates@[b as int])
                &&& forall|j: int| 0 <= j < i && eligible(#[trigger] candidates@[j])
                    ==> candidates@[b as int].distance_key <= candidates@[j].distance_key
                &&& forall|j: int| 0 <= j < b && eligible(#[trigger] candidates@[j])
                    ==> candidates@[b as int].distance_key < candidates@[j].distance_key
            },
        decreases candidates@.len() - i,
    {
        let c = candidates[i];
        if turret_candidate_ok(hostility, c) {
            match best {
                Some(b) => {
                    if c.distance_key < candidates[b].distance_key {
                        best = Some(i);
                    }
                },
                None => {
                    best = Some(i);
                },
            }
        }
        i = i + 1;
    }
    match best {
        Some(b) => {
            proof {
                assert(is_first_closest(candidates@, eligible, b as int));
            }
            Some(candidates[b].handle)
        },
        None => {
            proof {
                assert(!any_eligible(candidates@, eligible));
            }
            None
        },
    }
}

} // verus!

use vstd::prelude::*;

verus! {

/// How a turret with several barrels fires.
#[derive(Copy, Clone, PartialEq, Eq, Structural, Debug, Hash)]
pub enum ShootMode {
    /// One barrel per shot, taking the barrels in turn.
    Consecutive,
    /// Every barrel on every shot.
    Simultaneously,
}

impl Default for ShootMode {
    fn default() -> (r: Self)
        ensures
            r == ShootMode::Consecutive,
    {
        ShootMode::Consecutive
    }
}

/// Whom a turret shoots at.
#[derive(Copy, Clone, PartialEq, Eq, Structural, Debug, Hash)]
pub enum Hostility {
    Player,
    Monsters,
    All,
}

impl Default for Hostility {
    fn default() -> (r: Self)
        ensures
            r == Hostility::Player,
    {
        Hostility::Player
    }
}

/// Whether a turret with this hostility may aim at an actor that is (or is not) the player.
pub open spec fn spec_turret_may_target(hostility: Hostility, is_player: bool) -> bool {
    !(hostility == Hostility::Player && !is_player || hostility == Hostility::Monsters && is_player)
}

impl Hostility {
    /// Whether a turret with this hostility may aim at an actor that is (or is not) the player.
    pub fn may_target(self, is_player: bool) -> (r: bool)
        ensures
            r == spec_turret_may_target(self, is_player),
    {
        !(self == Hostility::Player && !is_player || self == Hostility::Monsters && is_player)
    }
}

/// The barrels that fire on a shot and the barrel that fires next time.
pub open spec fn spec_barrels_to_fire(mode: ShootMode, barrel_index: u32, barrel_count: usize) -> (Seq<usize>, u32) {
    match mode {
        ShootMode::Consecutive => if barrel_index < barrel_count {
            (
                seq![barrel_index as usize],
                if barrel_index + 1 >= barrel_count { 0 } else { (barrel_index + 1) as u32 },
            )
        } else {
            (Seq::empty(), barrel_index)
        },
        ShootMode::Simultaneously => (Seq::new(barrel_count as nat, |i: int| i as usize), barrel_index),
    }
}

/// Decides which barrels fire on a shot.
pub fn barrels_to_fire(mode: ShootMode, barrel_index: u32, barrel_count: usize) -> (r: (Vec<usize>, u32))
    requires
        barrel_count <= u32::MAX,
    ensures
        (r.0@, r.1) == spec_barrels_to_fire(mode, barrel_index, barrel_count),
{
    match mode {
        ShootMode::Consecutive => {
            let mut v: Vec<usize> = Vec::new();
            if (barrel_index as usize) < barrel_count {
                v.push(barrel_index as usize);
                let mut next = barrel_index + 1;
                if next as usize >= barrel_count {
                    next = 0;
                }
                proof {
                    assert(v@ =~= seq![barrel_index as usize]);
                }
                (v, next)
            } else {
                (v, barrel_index)
            }
        },
        ShootMode::Simultaneously => {
            let mut v: Vec<usize> = Vec::new();
            let mut i: usize = 0;
            while i < barrel_count
                invariant
                    i <= barrel_count,
                    v@ =~= Seq::new(i as nat, |j: int| j as usize),
                decreases barrel_count - i,
            {
                v.push(i);
                i = i + 1;
            }
            (v, barrel_index)
        },
    }
}

} // verus!

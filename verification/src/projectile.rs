use vstd::prelude::*;

use crate::text::{decimal, message_with_number};

verus! {

/// The kinds of projectiles weapons fire.
#[derive(Copy, Clone, PartialEq, Eq, Structural, Debug)]
pub enum ProjectileKind {
    Plasma,
    Bullet,
    Rocket,
    Grenade,
}

/// The number a projectile kind is saved as.
pub open spec fn projectile_kind_id(kind: ProjectileKind) -> u32 {
    match kind {
        ProjectileKind::Plasma => 0,
        ProjectileKind::Bullet => 1,
        ProjectileKind::Rocket => 2,
        ProjectileKind::Grenade => 3,
    }
}

impl ProjectileKind {
    /// The kind saved as `id`; any number but 0 to 3 is an error.
    pub fn new(id: u32) -> (r: Result<Self, String>)
        ensures
            id < 4 <==> r is Ok,
            r matches Ok(k) ==> projectile_kind_id(k) == id,
            r matches Err(e) ==> e@ == "Invalid projectile kind id "@ + decimal(id as nat),
    {
        match id {
            0 => Ok(ProjectileKind::Plasma),
            1 => Ok(ProjectileKind::Bullet),
            2 => Ok(ProjectileKind::Rocket),
            3 => Ok(ProjectileKind::Grenade),
            _ => {
                proof {
                    reveal_strlit("");
                }
                Err(message_with_number("Invalid projectile kind id ", id as u64, ""))
            },
        }
    }

    pub fn id(self) -> (r: u32)
        ensures
            r == projectile_kind_id(self),
    {
        match self {
            ProjectileKind::Plasma => 0,
            ProjectileKind::Bullet => 1,
            ProjectileKind::Rocket => 2,
            ProjectileKind::Grenade => 3,
        }
    }

    /// The sound played where the projectile hits.
    pub fn impact_sound(self) -> (r: &'static str)
        ensures
            r@ == (match self {
                ProjectileKind::Plasma | ProjectileKind::Bullet => "data/sounds/bullet_impact_concrete.ogg"@,
                ProjectileKind::Rocket | ProjectileKind::Grenade => "data/sounds/explosion.ogg"@,
            }),
    {
        match self {
            ProjectileKind::Plasma | ProjectileKind::Bullet => "data/sounds/bullet_impact_concrete.ogg",
            ProjectileKind::Rocket | ProjectileKind::Grenade => "data/sounds/explosion.ogg",
        }
    }

    /// Whether the projectile moves under the game's control rather than under physics
    /// (every kind but the grenade).
    pub fn is_kinematic(self) -> (r: bool)
        ensures
            r == (self != ProjectileKind::Grenade),
    {
        match self {
            ProjectileKind::Grenade => false,
            _ => true,
        }
    }
}

/// A kind's number leads back to the same kind, and distinct kinds have distinct numbers.
pub proof fn lemma_projectile_kind_id_round_trip(kind: ProjectileKind, other: ProjectileKind)
    ensures
        projectile_kind_id(kind) < 4,
        projectile_kind_id(kind) == projectile_kind_id(other) ==> kind == other,
{
}

} // verus!

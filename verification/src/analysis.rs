use vstd::prelude::*;

use crate::bot::BotKind;
use crate::door::{DoorDirection, DoorState};
use crate::item::ItemKind;
use crate::level::TriggerKind;
use crate::text::{same_text, starts_with};
use crate::turret::{Hostility, ShootMode};

verus! {

/// What a scene node is for, judged by the start of its name.
#[derive(Copy, Clone, PartialEq, Eq, Structural, Debug)]
pub enum NameRole {
    /// A point where a monster of this kind appears.
    BotSpawn(BotKind),
    /// Where the player appears.
    PlayerSpawnPoint,
    /// A volume that kills (taken only from mesh nodes).
    DeathZone,
}

/// How far a door panel travels when it opens: the size of the door along its side, along
/// its height, or not at all.
#[derive(Copy, Clone, PartialEq, Eq, Structural, Debug)]
pub enum DoorOffset {
    Side,
    Up,
    Zero,
}

/// What a scene node is for, judged by its tag.
#[derive(Copy, Clone, PartialEq, Eq, Structural, Debug)]
pub enum TagRole {
    PlayerSpawnPoint,
    Door { state: DoorState, direction: DoorDirection, offset: DoorOffset },
    FlashingLight,
    Item(ItemKind),
    Turret { shoot_mode: ShootMode, hostility: Hostility },
    Trigger(TriggerKind),
    /// A point where a monster of this kind appears with a gun.
    ArmedBotSpawn(BotKind),
}

/// What a property of an elevator node points at.
#[derive(Copy, Clone, PartialEq, Eq, Structural, Debug)]
pub enum ElevatorProperty {
    PathPoint,
    CallButton,
    FloorSelector,
}

/// The role a node's name gives it; the first matching prefix wins.
pub open spec fn spec_name_role(name: Seq<char>) -> Option<NameRole> {
    if "Zombie"@.is_prefix_of(name) {
        Some(NameRole::BotSpawn(BotKind::Zombie))
    } else if "Mutant"@.is_prefix_of(name) {
        Some(NameRole::BotSpawn(BotKind::Mutant))
    } else if "Parasite"@.is_prefix_of(name) {
        Some(NameRole::BotSpawn(BotKind::Parasite))
    } else if "PlayerSpawnPoint"@.is_prefix_of(name) {
        Some(NameRole::PlayerSpawnPoint)
    } else if "DeathZone"@.is_prefix_of(name) {
        Some(NameRole::DeathZone)
    } else {
        None
    }
}

/// The role a node's tag gives it.
pub open spec fn spec_tag_role(tag: Seq<char>) -> Option<TagRole> {
    if tag == "PlayerSpawnPoint"@ {
        Some(TagRole::PlayerSpawnPoint)
    } else
    if tag == "SideDoor"@ {
        Some(TagRole::Door { state: DoorState::Closed, direction: DoorDirection::Side, offset: DoorOffset::Side })
    } else
    if tag == "SideDoorBroken"@ {
        Some(TagRole::Door { state: DoorState::Broken, direction: DoorDirection::Side, offset: DoorOffset::Zero })
    } else
    if tag == "SideDoorLocked"@ {
        Some(TagRole::Door { state: DoorState::Locked, direction: DoorDirection::Side, offset: DoorOffset::Side })
    } else
    if tag == "UpDoor"@ {
        Some(TagRole::Door { state: DoorState::Closed, direction: DoorDirection::Up, offset: DoorOffset::Up })
    } else
    if tag == "FlashingLight"@ {
        Some(TagRole::FlashingLight)
    } else
    if tag == "Medkit"@ {
        Some(TagRole::Item(ItemKind::Medkit))
    } else
    if tag == "Medpack"@ {
        Some(TagRole::Item(ItemKind::Medpack))
    } else
    if tag == "Ammo"@ {
        Some(TagRole::Item(ItemKind::Ammo))
    } else
    if tag == "Grenade"@ {
        Some(TagRole::Item(ItemKind::Grenade))
    } else
    if tag == "PlasmaGun"@ {
        Some(TagRole::Item(ItemKind::PlasmaGun))
    } else
    if tag == "Ak47"@ {
        Some(TagRole::Item(ItemKind::Ak47))
    } else
    if tag == "M4"@ {
        Some(TagRole::Item(ItemKind::M4))
    } else
    if tag == "Glock"@ {
        Some(TagRole::Item(ItemKind::Glock))
    } else
    if tag == "RailGun"@ {
        Some(TagRole::Item(ItemKind::RailGun))
    } else
    if tag == "MasterKey"@ {
        Some(TagRole::Item(ItemKind::MasterKey))
    } else
    if tag == "Turret"@ {
        Some(TagRole::Turret { shoot_mode: ShootMode::Consecutive, hostility: Hostility::All })
    } else
    if tag == "NextLevelTrigger"@ {
        Some(TagRole::Trigger(TriggerKind::NextLevel))
    } else
    if tag == "EndGameTrigger"@ {
        Some(TagRole::Trigger(TriggerKind::EndGame))
    } else
    if tag == "ZombieWithGun"@ {
        Some(TagRole::ArmedBotSpawn(BotKind::Zombie))
    } else {
        None
    }
}

/// The target of an elevator node's property.
pub open spec fn spec_elevator_property(name: Seq<char>) -> Option<ElevatorProperty> {
    if name == "PathPoint"@ {
        Some(ElevatorProperty::PathPoint)
    } else if name == "CallButton"@ {
        Some(ElevatorProperty::CallButton)
    } else if name == "FloorSelector"@ {
        Some(ElevatorProperty::FloorSelector)
    } else {
        None
    }
}

/// Classifies a node by its name.
pub fn name_role(name: &str) -> (r: Option<NameRole>)
    ensures
        r == spec_name_role(name@),
{
    if starts_with(name, "Zombie") {
        Some(NameRole::BotSpawn(BotKind::Zombie))
    } else if starts_with(name, "Mutant") {
        Some(NameRole::BotSpawn(BotKind::Mutant))
    } else if starts_with(name, "Parasite") {
        Some(NameRole::BotSpawn(BotKind::Parasite))
    } else if starts_with(name, "PlayerSpawnPoint") {
        Some(NameRole::PlayerSpawnPoint)
    } else if starts_with(name, "DeathZone") {
        Some(NameRole::DeathZone)
    } else {
        None
    }
}

/// Whether a node's tag marks an elevator.
pub fn is_elevator_tag(tag: &str) -> (r: bool)
    ensures
        r == "Elevator"@.is_prefix_of(tag@),
{
    starts_with(tag, "Elevator")
}

/// Classifies a node by its tag.
#[verifier::rlimit(40)]
pub fn tag_role(tag: &str) -> (r: Option<TagRole>)
    ensures
        r == spec_tag_role(tag@),
{
    if same_text(tag, "PlayerSpawnPoint") {
        Some(TagRole::PlayerSpawnPoint)
    } else
    if same_text(tag, "SideDoor") {
        Some(TagRole::Door { state: DoorState::Closed, direction: DoorDirection::Side, offset: DoorOffset::Side })
    } else
    if same_text(tag, "SideDoorBroken") {
        Some(TagRole::Door { state: DoorState::Broken, direction: DoorDirection::Side, offset: DoorOffset::Zero })
    } else
    if same_text(tag, "SideDoorLocked") {
        Some(TagRole::Door { state: DoorState::Locked, direction: DoorDirection::Side, offset: DoorOffset::Side })
    } else
    if same_text(tag, "UpDoor") {
        Some(TagRole::Door { state: DoorState::Closed, direction: DoorDirection::Up, offset: DoorOffset::Up })
    } else
    if same_text(tag, "FlashingLight") {
        Some(TagRole::FlashingLight)
    } else
    if same_text(tag, "Medkit") {
        Some(TagRole::Item(ItemKind::Medkit))
    } else
    if same_text(tag, "Medpack") {
        Some(TagRole::Item(ItemKind::Medpack))
    } else
    if same_text(tag, "Ammo") {
        Some(TagRole::Item(ItemKind::Ammo))
    } else
    if same_text(tag, "Grenade") {
        Some(TagRole::Item(ItemKind::Grenade))
    } else
    if same_text(tag, "PlasmaGun") {
        Some(TagRole::Item(ItemKind::PlasmaGun))
    } else
    if same_text(tag, "Ak47") {
        Some(TagRole::Item(ItemKind::Ak47))
    } else
    if same_text(tag, "M4") {
        Some(TagRole::Item(ItemKind::M4))
    } else
    if same_text(tag, "Glock") {
        Some(TagRole::Item(ItemKind::Glock))
    } else
    if same_text(tag, "RailGun") {
        Some(TagRole::Item(ItemKind::RailGun))
    } else
    if same_text(tag, "MasterKey") {
        Some(TagRole::Item(ItemKind::MasterKey))
    } else
    if same_text(tag, "Turret") {
        Some(TagRole::Turret { shoot_mode: ShootMode::Consecutive, hostility: Hostility::All })
    } else
    if same_text(tag, "NextLevelTrigger") {
        Some(TagRole::Trigger(TriggerKind::NextLevel))
    } else
    if same_text(tag, "EndGameTrigger") {
        Some(TagRole::Trigger(TriggerKind::EndGame))
    } else
    if same_text(tag, "ZombieWithGun") {
        Some(TagRole::ArmedBotSpawn(BotKind::Zombie))
    } else {
        None
    }
}

/// Classifies a property of an elevator node by its name.
pub fn elevator_property(name: &str) -> (r: Option<ElevatorProperty>)
    ensures
        r == spec_elevator_property(name@),
{
    if same_text(name, "PathPoint") {
        Some(ElevatorProperty::PathPoint)
    } else if same_text(name, "CallButton") {
        Some(ElevatorProperty::CallButton)
    } else if same_text(name, "FloorSelector") {
        Some(ElevatorProperty::FloorSelector)
    } else {
        None
    }
}

} // verus!

use station_iapetus::analysis::{
    elevator_property, is_elevator_tag, name_role, tag_role, DoorOffset, ElevatorProperty, NameRole, TagRole,
};
use station_iapetus::bot::{BotKind, BotHostility, TargetKind};
use station_iapetus::door::{DoorDirection, DoorState};
use station_iapetus::elevator::{CallButton, CallButtonKind, Elevator};
use station_iapetus::handle::Handle;
use station_iapetus::item::ItemKind;
use station_iapetus::level::{CollisionGroups, TriggerKind, TriggerMessage};
use station_iapetus::sound::{
    build_triangle_ranges, material_of, FeatureId, MaterialType, SoundBase, SoundKind, SoundLookupError,
    SoundMap, SurfaceInfo, TriangleRange,
};
use station_iapetus::turret::{barrels_to_fire, Hostility, ShootMode};

#[test]
fn elevator_calls() {
    let mut e = Elevator::new(3);
    e.call_to(5);
    assert_eq!(e.dest_floor, 0);
    e.call_to(2);
    assert_eq!(e.dest_floor, 2);
    assert!(e.is_travelling());
    e.arrive();
    assert_eq!(e.current_floor, 2);
    assert!(!e.is_travelling());
    assert_eq!(e.toggle_destination(), Some(0));
    e.call_to(1);
    e.arrive();
    assert_eq!(e.toggle_destination(), None);
    let ground = Elevator::new(4);
    assert_eq!(ground.toggle_destination(), Some(3));
    let empty = Elevator::new(0);
    assert_eq!(empty.toggle_destination(), Some(0));
}

#[test]
fn call_button_text_and_selection() {
    let mut b = CallButton::new(Handle::none(), 1, CallButtonKind::FloorSelector);
    assert_eq!(b.screen_text(1, false), "Ready");
    assert_eq!(b.screen_text(0, true), "Called");
    assert_eq!(b.screen_text(0, false), "Call?");
    b.select_floor(3, true, false);
    assert_eq!(b.floor, 2);
    b.select_floor(3, true, false);
    assert_eq!(b.floor, 2);
    b.select_floor(3, false, true);
    assert_eq!(b.floor, 1);
    b.select_floor(3, true, true);
    assert_eq!(b.floor, 0);
    b.select_floor(3, false, true);
    assert_eq!(b.floor, 0);
    let mut end = CallButton::new(Handle::none(), 2, CallButtonKind::EndPoint);
    end.select_floor(3, true, false);
    assert_eq!(end.floor, 2);
    assert_eq!(CallButtonKind::default(), CallButtonKind::EndPoint);
}

#[test]
fn player_uses_elevator() {
    let mut e = Elevator::new(3);
    let mut buttons = vec![
        CallButton::new(Handle::none(), 2, CallButtonKind::EndPoint),
        CallButton::new(Handle::none(), 0, CallButtonKind::FloorSelector),
    ];
    // At the elevator on the ground floor: go to the top.
    assert_eq!(e.use_by_player(true, true, false, false, &mut buttons, &[false, false]), Some(2));
    assert_eq!(e.dest_floor, 2);
    // A floor selector within reach moves up and the action calls to its floor.
    let mut e = Elevator::new(3);
    assert_eq!(e.use_by_player(true, true, true, false, &mut buttons, &[false, true]), Some(1));
    assert_eq!(buttons[1].floor, 1);
    assert_eq!(e.dest_floor, 1);
    // Without the action key nothing is requested, but the selector still follows the keys.
    assert_eq!(e.use_by_player(false, false, true, false, &mut buttons, &[true, true]), None);
    assert_eq!(buttons[1].floor, 2);
    assert_eq!(buttons[0].floor, 2);
}

#[test]
fn triangle_ranges_and_materials() {
    let surfaces = [
        SurfaceInfo { triangle_count: 10, material: Some(MaterialType::Metal) },
        SurfaceInfo { triangle_count: 5, material: None },
        SurfaceInfo { triangle_count: 7, material: Some(MaterialType::Wood) },
    ];
    let ranges = build_triangle_ranges(&surfaces);
    assert_eq!(
        ranges,
        vec![
            TriangleRange { start: 0, end: 10, material: MaterialType::Metal },
            TriangleRange { start: 15, end: 22, material: MaterialType::Wood },
        ]
    );
    assert_eq!(material_of(&ranges, FeatureId::Face(3)), Some(MaterialType::Metal));
    assert_eq!(material_of(&ranges, FeatureId::Face(12)), None);
    assert_eq!(material_of(&ranges, FeatureId::Face(15)), Some(MaterialType::Wood));
    assert_eq!(material_of(&ranges, FeatureId::Face(22)), None);
    assert_eq!(material_of(&ranges, FeatureId::Other), Some(MaterialType::Metal));
    assert_eq!(material_of(&[], FeatureId::Other), None);
}

#[test]
fn sound_lookup() {
    let collider = Handle { index: 4, generation: 1 };
    let map = SoundMap {
        sound_map: vec![(collider, vec![TriangleRange { start: 0, end: 10, material: MaterialType::Stone }])],
    };
    let base = SoundBase {
        material_to_sound: vec![(
            MaterialType::Stone,
            vec![(SoundKind::FootStep, vec!["step1.ogg".to_string(), "step2.ogg".to_string()])],
        )],
        texture_to_material: vec![("stone.png".to_string(), MaterialType::Stone)],
    };
    assert_eq!(
        base.environment_sounds(&map, collider, FeatureId::Face(2), SoundKind::FootStep).map(|v| v.len()),
        Ok(2)
    );
    assert_eq!(
        base.environment_sounds(&map, collider, FeatureId::Face(2), SoundKind::Impact).map(|v| v.len()),
        Err(SoundLookupError::NoKindMapping(SoundKind::Impact))
    );
    assert_eq!(
        base.environment_sounds(&map, collider, FeatureId::Face(20), SoundKind::Impact).map(|v| v.len()),
        Err(SoundLookupError::UnknownMaterial)
    );
    assert_eq!(
        base.environment_sounds(&map, Handle::none(), FeatureId::Other, SoundKind::Impact).map(|v| v.len()),
        Err(SoundLookupError::UnknownMaterial)
    );
    assert_eq!(
        base.sounds_for(MaterialType::Grass, SoundKind::Impact).map(|v| v.len()),
        Err(SoundLookupError::NoMaterialMapping(MaterialType::Grass))
    );
    assert_eq!(base.material_of_texture(&"stone.png".to_string()), Some(MaterialType::Stone));
    assert_eq!(base.material_of_texture(&"grass.png".to_string()), None);
    assert!(map.ranges_of(collider).is_some());
    assert!(SoundMap::new().ranges_of(collider).is_none());
}

#[test]
fn bot_targets() {
    assert_eq!(BotKind::Parasite.description(), "Parasite");
    assert_eq!(BotKind::Zombie.id(), 2);
    assert!(BotHostility::Everyone.may_target(BotKind::Zombie, TargetKind::Bot(BotKind::Zombie)));
    assert!(!BotHostility::OtherSpecies.may_target(BotKind::Zombie, TargetKind::Bot(BotKind::Zombie)));
    assert!(BotHostility::OtherSpecies.may_target(BotKind::Zombie, TargetKind::Bot(BotKind::Mutant)));
    assert!(BotHostility::OtherSpecies.may_target(BotKind::Zombie, TargetKind::Player));
    assert!(!BotHostility::Player.may_target(BotKind::Zombie, TargetKind::Bot(BotKind::Mutant)));
    assert!(BotHostility::Player.may_target(BotKind::Zombie, TargetKind::Player));
}

#[test]
fn turret_barrels() {
    assert_eq!(barrels_to_fire(ShootMode::Consecutive, 0, 3), (vec![0], 1));
    assert_eq!(barrels_to_fire(ShootMode::Consecutive, 2, 3), (vec![2], 0));
    assert_eq!(barrels_to_fire(ShootMode::Consecutive, 0, 0), (vec![], 0));
    assert_eq!(barrels_to_fire(ShootMode::Simultaneously, 1, 3), (vec![0, 1, 2], 1));
    assert!(Hostility::All.may_target(true));
    assert!(Hostility::All.may_target(false));
    assert!(!Hostility::Player.may_target(false));
    assert!(Hostility::Player.may_target(true));
    assert!(!Hostility::Monsters.may_target(true));
    assert_eq!(ShootMode::default(), ShootMode::Consecutive);
    assert_eq!(Hostility::default(), Hostility::Player);
}

#[test]
fn triggers_and_groups() {
    assert_eq!(TriggerKind::NextLevel.message(), TriggerMessage::LoadNextLevel);
    assert_eq!(TriggerKind::EndGame.messages(2), vec![TriggerMessage::EndGame, TriggerMessage::EndGame]);
    assert!(TriggerKind::EndGame.messages(0).is_empty());
    assert_eq!(CollisionGroups::ActorCapsule.bits(), 1);
    assert_eq!(CollisionGroups::All.bits(), u16::MAX);
}

#[test]
fn scene_node_roles() {
    assert_eq!(name_role("Zombie12"), Some(NameRole::BotSpawn(BotKind::Zombie)));
    assert_eq!(name_role("Mutant"), Some(NameRole::BotSpawn(BotKind::Mutant)));
    assert_eq!(name_role("ParasiteA"), Some(NameRole::BotSpawn(BotKind::Parasite)));
    assert_eq!(name_role("PlayerSpawnPoint2"), Some(NameRole::PlayerSpawnPoint));
    assert_eq!(name_role("DeathZone_1"), Some(NameRole::DeathZone));
    assert_eq!(name_role("Crate"), None);
    assert_eq!(
        tag_role("SideDoorLocked"),
        Some(TagRole::Door { state: DoorState::Locked, direction: DoorDirection::Side, offset: DoorOffset::Side })
    );
    assert_eq!(
        tag_role("SideDoorBroken"),
        Some(TagRole::Door { state: DoorState::Broken, direction: DoorDirection::Side, offset: DoorOffset::Zero })
    );
    assert_eq!(
        tag_role("UpDoor"),
        Some(TagRole::Door { state: DoorState::Closed, direction: DoorDirection::Up, offset: DoorOffset::Up })
    );
    assert_eq!(tag_role("MasterKey"), Some(TagRole::Item(ItemKind::MasterKey)));
    assert_eq!(tag_role("ZombieWithGun"), Some(TagRole::ArmedBotSpawn(BotKind::Zombie)));
    assert_eq!(tag_role("EndGameTrigger"), Some(TagRole::Trigger(TriggerKind::EndGame)));
    assert_eq!(
        tag_role("Turret"),
        Some(TagRole::Turret { shoot_mode: ShootMode::Consecutive, hostility: Hostility::All })
    );
    assert_eq!(tag_role("SideDoorX"), None);
    assert!(is_elevator_tag("Elevator01"));
    assert!(!is_elevator_tag("Elev"));
    assert_eq!(elevator_property("PathPoint"), Some(ElevatorProperty::PathPoint));
    assert_eq!(elevator_property("CallButton"), Some(ElevatorProperty::CallButton));
    assert_eq!(elevator_property("FloorSelector"), Some(ElevatorProperty::FloorSelector));
    assert_eq!(elevator_property("Floor"), None);
}

#[test]
fn sound_map_records_colliders() {
    let a = Handle { index: 1, generation: 1 };
    let b = Handle { index: 2, generation: 1 };
    let mut map = SoundMap::new();
    map.insert_collider(
        a,
        &[
            SurfaceInfo { triangle_count: 4, material: Some(MaterialType::Metal) },
            SurfaceInfo { triangle_count: 6, material: Some(MaterialType::Grass) },
        ],
    );
    map.insert_collider(b, &[SurfaceInfo { triangle_count: 3, material: None }]);
    assert_eq!(
        map.ranges_of(a).unwrap(),
        &[
            TriangleRange { start: 0, end: 4, material: MaterialType::Metal },
            TriangleRange { start: 4, end: 10, material: MaterialType::Grass },
        ]
    );
    assert!(map.ranges_of(b).unwrap().is_empty());
    map.insert_collider(a, &[SurfaceInfo { triangle_count: 2, material: Some(MaterialType::Wood) }]);
    assert_eq!(map.sound_map.len(), 2);
    assert_eq!(map.ranges_of(a).unwrap(), &[TriangleRange { start: 0, end: 2, material: MaterialType::Wood }]);
}

#[test]
fn sound_base_keys_are_unique() {
    let stone = |k: SoundKind| (k, vec!["a.ogg".to_string()]);
    let good = SoundBase {
        material_to_sound: vec![
            (MaterialType::Stone, vec![stone(SoundKind::FootStep), stone(SoundKind::Impact)]),
            (MaterialType::Metal, vec![stone(SoundKind::Impact)]),
        ],
        texture_to_material: vec![
            ("stone.png".to_string(), MaterialType::Stone),
            ("metal.png".to_string(), MaterialType::Metal),
        ],
    };
    assert!(good.has_unique_keys());
    let twice_material = SoundBase {
        material_to_sound: vec![(MaterialType::Stone, vec![]), (MaterialType::Stone, vec![])],
        texture_to_material: vec![],
    };
    assert!(!twice_material.has_unique_keys());
    let twice_kind = SoundBase {
        material_to_sound: vec![(MaterialType::Stone, vec![stone(SoundKind::Impact), stone(SoundKind::Impact)])],
        texture_to_material: vec![],
    };
    assert!(!twice_kind.has_unique_keys());
    let twice_texture = SoundBase {
        material_to_sound: vec![],
        texture_to_material: vec![
            ("stone.png".to_string(), MaterialType::Stone),
            ("stone.png".to_string(), MaterialType::Wood),
        ],
    };
    assert!(!twice_texture.has_unique_keys());
}

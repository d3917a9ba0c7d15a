use station_iapetus::door::{Door, DoorDirection, DoorLights, DoorSound, DoorState, State};
use station_iapetus::inventory::Inventory;
use station_iapetus::item::ItemKind;
use station_iapetus::projectile::ProjectileKind;

#[test]
fn legacy_state_ids_round_trip() {
    for s in [State::Open, State::Opening, State::Close, State::Closing] {
        assert_eq!(State::from_id(s.id()), Ok(s));
    }
    assert_eq!(State::Close.id(), 2);
    assert_eq!(State::default(), State::Close);
}

#[test]
fn legacy_state_bad_id_message() {
    assert_eq!(State::from_id(7), Err("Invalid door state id 7!".to_string()));
    assert_eq!(State::from_id(1234), Err("Invalid door state id 1234!".to_string()));
}

#[test]
fn legacy_state_presence_and_travel() {
    assert_eq!(State::Close.after_presence_check(true), State::Opening);
    assert_eq!(State::Open.after_presence_check(true), State::Open);
    assert_eq!(State::Open.after_presence_check(false), State::Closing);
    assert_eq!(State::Close.after_presence_check(false), State::Close);
    assert_eq!(State::Opening.after_travel_end(), State::Open);
    assert_eq!(State::Closing.after_travel_end(), State::Close);
    assert_eq!(State::Open.after_travel_end(), State::Open);
}

#[test]
fn closed_door_opens_for_anyone() {
    let mut door = Door::new(DoorState::Closed, DoorDirection::Side);
    let sounds = door.try_open(None);
    assert_eq!(sounds, vec![DoorSound::Open]);
    assert_eq!(door.state, DoorState::Opening);
    assert_eq!(door.open_direction, DoorDirection::Side);
}

#[test]
fn locked_door_needs_master_key() {
    let mut door = Door::new(DoorState::Locked, DoorDirection::Up);
    assert_eq!(door.try_open(None), vec![DoorSound::Deny]);
    assert_eq!(door.state, DoorState::Locked);

    let mut inv = Inventory::new();
    inv.add_item(ItemKind::Ammo, 3);
    assert_eq!(door.try_open(Some(&inv)), vec![DoorSound::Deny]);
    assert_eq!(door.state, DoorState::Locked);

    inv.add_item(ItemKind::MasterKey, 1);
    assert_eq!(door.try_open(Some(&inv)), vec![DoorSound::Open, DoorSound::AccessGranted]);
    assert_eq!(door.state, DoorState::Opening);
}

#[test]
fn other_door_states_ignore_open_attempts() {
    for s in [DoorState::Opened, DoorState::Opening, DoorState::Closing, DoorState::Broken] {
        let mut door = Door::new(s, DoorDirection::Side);
        assert!(door.try_open(None).is_empty());
        assert_eq!(door.state, s);
    }
}

#[test]
fn door_closes_when_left_alone() {
    let mut door = Door::new(DoorState::Opened, DoorDirection::Side);
    assert_eq!(door.check_presence(true), None);
    assert_eq!(door.state, DoorState::Opened);
    assert_eq!(door.check_presence(false), Some(DoorSound::Close));
    assert_eq!(door.state, DoorState::Closing);
    assert!(door.is_moving());
    door.finish_travel();
    assert_eq!(door.state, DoorState::Closed);
    assert!(!door.is_moving());
}

#[test]
fn open_then_travel_end_gives_opened() {
    let mut door = Door::default();
    door.try_open(None);
    door.finish_travel();
    assert_eq!(door.state, DoorState::Opened);
}

#[test]
fn door_screen_and_lights() {
    let mut door = Door::new(DoorState::Closed, DoorDirection::Side);
    assert_eq!(door.ui_text(true), "Open?");
    assert_eq!(door.ui_text(false), "Closed");
    assert_eq!(door.lights(), DoorLights::Green);
    door.state = DoorState::Locked;
    assert_eq!(door.ui_text(true), "Locked");
    assert_eq!(door.lights(), DoorLights::Red);
    door.state = DoorState::Opening;
    assert_eq!(door.ui_text(false), "Opening...");
    assert_eq!(door.lights(), DoorLights::Off);
    door.state = DoorState::Closing;
    assert_eq!(door.ui_text(false), "Closing..");
    door.state = DoorState::Broken;
    assert_eq!(door.ui_text(false), "Broken");
    door.state = DoorState::Opened;
    assert_eq!(door.ui_text(false), "Opened");
}

#[test]
fn projectile_kind_ids() {
    for k in [ProjectileKind::Plasma, ProjectileKind::Bullet, ProjectileKind::Rocket, ProjectileKind::Grenade] {
        assert_eq!(ProjectileKind::new(k.id()), Ok(k));
    }
    assert_eq!(ProjectileKind::Rocket.id(), 2);
    assert_eq!(ProjectileKind::new(4), Err("Invalid projectile kind id 4".to_string()));
    assert_eq!(ProjectileKind::new(10), Err("Invalid projectile kind id 10".to_string()));
    assert!(!ProjectileKind::Grenade.is_kinematic());
    assert!(ProjectileKind::Bullet.is_kinematic());
    assert_eq!(ProjectileKind::Rocket.impact_sound(), "data/sounds/explosion.ogg");
    assert_eq!(ProjectileKind::Plasma.impact_sound(), "data/sounds/bullet_impact_concrete.ogg");
}

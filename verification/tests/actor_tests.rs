use station_iapetus::character::{Character, WeaponVisibility};
use station_iapetus::handle::Handle;
use station_iapetus::inventory::{Inventory, ItemEntry};
use station_iapetus::item::{ItemKind, WeaponKind};
use station_iapetus::level::{heal_amount, pickup_outcome, LevelKind, PickupOutcome};
use station_iapetus::player::{apply_weapon_change, weapon_change_request, RequiredWeapon, WeaponControl};
use station_iapetus::weapon::try_consume_ammo;

fn h(i: u32) -> Handle {
    Handle { index: i, generation: 1 }
}

fn shown(i: u32) -> WeaponVisibility {
    WeaponVisibility { weapon: h(i), visible: true }
}

fn hidden(i: u32) -> WeaponVisibility {
    WeaponVisibility { weapon: h(i), visible: false }
}

#[test]
fn handles() {
    assert!(Handle::none().is_none());
    assert!(!h(3).is_none());
    assert!(h(3).is_some());
    assert_eq!(Handle::default(), Handle::none());
}

#[test]
fn adding_weapons_selects_the_newest() {
    let mut c = Character::new();
    assert_eq!(c.current_weapon(), Handle::none());
    assert_eq!(c.add_weapon(h(1)), vec![shown(1)]);
    assert_eq!(c.add_weapon(h(2)), vec![hidden(1), shown(2)]);
    assert_eq!(c.current_weapon, 1);
    assert_eq!(c.current_weapon(), h(2));
}

#[test]
fn next_and_prev_weapon() {
    let mut c = Character::new();
    c.add_weapon(h(1));
    c.add_weapon(h(2));
    c.add_weapon(h(3));
    assert_eq!(c.set_current_weapon(0), vec![hidden(3), shown(1)]);
    assert_eq!(c.next_weapon(), vec![hidden(1), shown(2)]);
    assert_eq!(c.prev_weapon(), vec![hidden(2), shown(1)]);
    assert_eq!(c.current_weapon, 0);
    assert!(c.prev_weapon().is_empty());
    c.set_current_weapon(2);
    assert!(c.next_weapon().is_empty());
    assert_eq!(c.current_weapon, 2);
    assert!(c.set_current_weapon(9).is_empty());
    assert_eq!(c.use_first_weapon_or_none(), vec![hidden(3), shown(1)]);
    assert_eq!(c.current_weapon, 0);
}

#[test]
fn no_weapons_no_requests() {
    let mut c = Character::new();
    assert!(c.next_weapon().is_empty());
    assert!(c.prev_weapon().is_empty());
    assert!(c.use_first_weapon_or_none().is_empty());
}

#[test]
fn select_weapon_by_kind() {
    let mut c = Character::new();
    c.add_weapon(h(1));
    c.add_weapon(h(2));
    c.add_weapon(h(3));
    let kinds = [WeaponKind::Glock, WeaponKind::Ak47, WeaponKind::Ak47];
    assert_eq!(c.select_weapon(WeaponKind::Ak47, &kinds), vec![hidden(1), hidden(2), hidden(3), shown(2)]);
    assert_eq!(c.current_weapon, 1);
    assert!(c.select_weapon(WeaponKind::RailGun, &kinds).is_empty());
    assert_eq!(c.current_weapon, 1);
}

#[test]
fn remove_weapon_reselects_first() {
    let mut c = Character::new();
    c.add_weapon(h(1));
    c.add_weapon(h(2));
    assert_eq!(c.remove_weapon(h(2)), vec![shown(1)]);
    assert_eq!(c.weapons, vec![h(1)]);
    assert_eq!(c.current_weapon, 0);
    assert!(c.remove_weapon(h(7)).is_empty());
    assert_eq!(c.weapons, vec![h(1)]);
}

#[test]
fn weapon_change_requests() {
    let cur = Some(WeaponKind::Glock);
    assert_eq!(
        weapon_change_request(WeaponControl::GrabAk47, true, true, cur, 0, 2),
        Some(RequiredWeapon::Specific(WeaponKind::Ak47))
    );
    assert_eq!(weapon_change_request(WeaponControl::GrabPistol, true, true, cur, 0, 2), None);
    assert_eq!(weapon_change_request(WeaponControl::GrabAk47, true, false, cur, 0, 2), None);
    assert_eq!(weapon_change_request(WeaponControl::GrabM4, true, true, None, 0, 2), Some(RequiredWeapon::Specific(WeaponKind::M4)));
    assert_eq!(weapon_change_request(WeaponControl::NextWeapon, true, true, None, 0, 0), None);
    assert_eq!(weapon_change_request(WeaponControl::NextWeapon, true, true, cur, 0, 2), Some(RequiredWeapon::Next));
    assert_eq!(weapon_change_request(WeaponControl::NextWeapon, true, true, cur, 1, 2), None);
    assert_eq!(weapon_change_request(WeaponControl::NextWeapon, false, true, cur, 0, 2), None);
    assert_eq!(weapon_change_request(WeaponControl::PrevWeapon, true, true, cur, 1, 2), Some(RequiredWeapon::Previous));
    assert_eq!(weapon_change_request(WeaponControl::PrevWeapon, true, true, cur, 0, 2), None);
}

#[test]
fn weapon_change_applies_on_grab_signal() {
    let mut c = Character::new();
    c.add_weapon(h(1));
    c.add_weapon(h(2));
    let kinds = [WeaponKind::Glock, WeaponKind::M4];
    assert_eq!(apply_weapon_change(RequiredWeapon::Previous, &mut c, &kinds), vec![hidden(2), shown(1)]);
    assert_eq!(c.current_weapon, 0);
    assert_eq!(apply_weapon_change(RequiredWeapon::Next, &mut c, &kinds), vec![hidden(1), shown(2)]);
    assert_eq!(apply_weapon_change(RequiredWeapon::Specific(WeaponKind::Glock), &mut c, &kinds), vec![hidden(1), hidden(2), shown(1)]);
    assert!(apply_weapon_change(RequiredWeapon::NoChange, &mut c, &kinds).is_empty());
    assert_eq!(c.current_weapon, 0);
}

#[test]
fn required_weapon_ids() {
    assert_eq!(RequiredWeapon::from_id(3), Ok(RequiredWeapon::Specific(WeaponKind::M4)));
    assert_eq!(RequiredWeapon::from_id(5), Err("Invalid Direction id 5!".to_string()));
    assert_eq!(RequiredWeapon::Previous.id(), 2);
    for r in [RequiredWeapon::NoChange, RequiredWeapon::Next, RequiredWeapon::Previous] {
        assert_eq!(RequiredWeapon::from_id(r.id()), Ok(r));
    }
    assert!(RequiredWeapon::NoChange.is_none());
    assert!(RequiredWeapon::default().is_none());
}

#[test]
fn pickup_rules() {
    assert_eq!(pickup_outcome(ItemKind::Ak47, &[]), PickupOutcome::GiveWeapon(WeaponKind::Ak47));
    assert_eq!(
        pickup_outcome(ItemKind::Ak47, &[WeaponKind::Ak47]),
        PickupOutcome::AddItems { kind: ItemKind::Ammo, count: 24 }
    );
    assert_eq!(pickup_outcome(ItemKind::Ammo, &[]), PickupOutcome::AddItems { kind: ItemKind::Ammo, count: 24 });
    assert_eq!(pickup_outcome(ItemKind::MasterKey, &[]), PickupOutcome::AddItems { kind: ItemKind::MasterKey, count: 1 });
    assert_eq!(heal_amount(ItemKind::Medkit), 40);
    assert_eq!(heal_amount(ItemKind::Medpack), 20);
    assert_eq!(heal_amount(ItemKind::Ammo), 0);
}

#[test]
fn pickup_and_give_weapon() {
    let mut c = Character::new();
    assert_eq!(c.pickup_item(ItemKind::Glock, &[]), Some(WeaponKind::Glock));
    assert_eq!(c.give_weapon(h(1), WeaponKind::Glock), vec![shown(1)]);
    assert_eq!(c.inventory.item_count(ItemKind::Glock), 1);
    assert_eq!(c.pickup_item(ItemKind::Glock, &[WeaponKind::Glock]), None);
    assert_eq!(c.inventory.item_count(ItemKind::Ammo), 24);
    assert_eq!(c.pickup_item(ItemKind::Medkit, &[WeaponKind::Glock]), None);
    assert_eq!(c.inventory.item_count(ItemKind::Medkit), 1);
}

#[test]
fn drop_weapon_items_removes_weapons() {
    let mut c = Character::new();
    c.give_weapon(h(1), WeaponKind::Glock);
    c.give_weapon(h(2), WeaponKind::M4);
    let kinds = [WeaponKind::Glock, WeaponKind::M4];
    let (dropped, remove) = c.drop_items(ItemKind::M4, 1, &kinds);
    assert!(dropped);
    assert_eq!(remove, vec![h(2)]);
    assert_eq!(c.inventory.item_count(ItemKind::M4), 0);
    let (dropped, remove) = c.drop_items(ItemKind::M4, 1, &kinds);
    assert!(!dropped);
    assert!(remove.is_empty());
    let (dropped, remove) = c.drop_items(ItemKind::Glock, 2, &kinds);
    assert!(!dropped);
    assert!(remove.is_empty());
}

#[test]
fn ammo_consumption() {
    let mut inv = Inventory::new();
    assert!(try_consume_ammo(&mut inv, None, 2));
    assert!(!try_consume_ammo(&mut inv, Some(ItemKind::Ammo), 2));
    inv.add_item(ItemKind::Ammo, 3);
    assert!(try_consume_ammo(&mut inv, Some(ItemKind::Ammo), 2));
    assert_eq!(inv.item_count(ItemKind::Ammo), 1);
    assert!(!try_consume_ammo(&mut inv, Some(ItemKind::Ammo), 2));
    assert_eq!(inv.item_count(ItemKind::Ammo), 1);
}

#[test]
fn level_order() {
    assert_eq!(LevelKind::Arrival.next(), Some(LevelKind::Lab));
    assert_eq!(LevelKind::Lab.next(), None);
    assert_eq!(LevelKind::Testbed.next(), None);
}

#[test]
fn entries_expose_fields() {
    let e = ItemEntry { kind: ItemKind::Grenade, amount: 3 };
    assert_eq!(e.kind(), ItemKind::Grenade);
    assert_eq!(e.amount(), 3);
    assert_eq!(ItemEntry::default(), ItemEntry { kind: ItemKind::Medkit, amount: 0 });
}

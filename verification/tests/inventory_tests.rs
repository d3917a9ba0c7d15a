use station_iapetus::inventory::{Inventory, ItemEntry};
use station_iapetus::item::{ItemKind, WeaponKind};

fn entries(inv: &Inventory) -> Vec<(ItemKind, u32)> {
    inv.items().iter().map(|e| (e.kind(), e.amount())).collect()
}

#[test]
fn new_inventory_is_empty() {
    let inv = Inventory::new();
    assert!(inv.items().is_empty());
    assert_eq!(inv.item_count(ItemKind::Ammo), 0);
    assert!(inv.entry(ItemKind::Ammo).is_none());
}

#[test]
fn add_item_stacks_same_kind() {
    let mut inv = Inventory::new();
    inv.add_item(ItemKind::Ammo, 10);
    inv.add_item(ItemKind::Medkit, 1);
    inv.add_item(ItemKind::Ammo, 24);
    assert_eq!(entries(&inv), vec![(ItemKind::Ammo, 34), (ItemKind::Medkit, 1)]);
    assert_eq!(inv.item_count(ItemKind::Ammo), 34);
    assert_eq!(inv.item_count(ItemKind::Medkit), 1);
    assert_eq!(inv.item_count(ItemKind::Grenade), 0);
    assert_eq!(inv.entry(ItemKind::Medkit), Some(&ItemEntry { kind: ItemKind::Medkit, amount: 1 }));
}

#[test]
fn extract_exact_items_takes_only_whole_amount() {
    let mut inv = Inventory::new();
    inv.add_item(ItemKind::Ammo, 5);
    assert_eq!(inv.try_extract_exact_items(ItemKind::Ammo, 6), 0);
    assert_eq!(inv.item_count(ItemKind::Ammo), 5);
    assert_eq!(inv.try_extract_exact_items(ItemKind::Ammo, 2), 2);
    assert_eq!(inv.item_count(ItemKind::Ammo), 3);
    assert_eq!(inv.try_extract_exact_items(ItemKind::Grenade, 1), 0);
}

#[test]
fn extract_last_items_removes_entry() {
    let mut inv = Inventory::new();
    inv.add_item(ItemKind::Medkit, 1);
    inv.add_item(ItemKind::Ammo, 3);
    assert_eq!(inv.try_extract_exact_items(ItemKind::Medkit, 1), 1);
    assert_eq!(entries(&inv), vec![(ItemKind::Ammo, 3)]);
    assert!(inv.entry(ItemKind::Medkit).is_none());
}

#[test]
fn extract_zero_items_succeeds_and_changes_nothing() {
    let mut inv = Inventory::new();
    inv.add_item(ItemKind::Ammo, 3);
    assert_eq!(inv.try_extract_exact_items(ItemKind::Ammo, 0), 0);
    assert_eq!(entries(&inv), vec![(ItemKind::Ammo, 3)]);
}

#[test]
fn law_add_then_extract_restores() {
    let mut inv = Inventory::new();
    inv.add_item(ItemKind::Medkit, 2);
    inv.add_item(ItemKind::Ammo, 7);
    let before = entries(&inv);
    inv.add_item(ItemKind::Grenade, 4);
    assert_eq!(inv.try_extract_exact_items(ItemKind::Grenade, 4), 4);
    assert_eq!(entries(&inv), before);
    inv.add_item(ItemKind::Ammo, 9);
    assert_eq!(inv.try_extract_exact_items(ItemKind::Ammo, 9), 9);
    assert_eq!(entries(&inv), before);
}

#[test]
fn law_add_counts_other_kinds_unchanged() {
    let mut inv = Inventory::new();
    inv.add_item(ItemKind::Medpack, 3);
    inv.add_item(ItemKind::MasterKey, 1);
    assert_eq!(inv.item_count(ItemKind::Medpack), 3);
    assert_eq!(inv.item_count(ItemKind::MasterKey), 1);
}

#[test]
fn clone_keeps_entries() {
    let mut inv = Inventory::new();
    inv.add_item(ItemKind::Ammo, 3);
    let copy = inv.clone();
    assert_eq!(entries(&copy), entries(&inv));
    assert!(copy.is_well_formed());
}

#[test]
fn item_weapon_association() {
    assert_eq!(ItemKind::PlasmaGun.associated_weapon(), Some(WeaponKind::PlasmaRifle));
    assert_eq!(ItemKind::Glock.associated_weapon(), Some(WeaponKind::Glock));
    assert_eq!(ItemKind::Medkit.associated_weapon(), None);
    assert_eq!(ItemKind::MasterKey.associated_weapon(), None);
    assert_eq!(WeaponKind::PlasmaRifle.associated_item(), ItemKind::PlasmaGun);
    for w in [WeaponKind::M4, WeaponKind::Ak47, WeaponKind::PlasmaRifle, WeaponKind::Glock, WeaponKind::RailGun] {
        assert_eq!(w.associated_item().associated_weapon(), Some(w));
    }
    assert_eq!(ItemKind::default(), ItemKind::Medkit);
    assert_eq!(WeaponKind::default(), WeaponKind::M4);
}

#[test]
fn additions_keep_first_insertion_order_and_sum_amounts() {
    let mut inv = Inventory::new();
    let adds = [
        (ItemKind::Ammo, 24),
        (ItemKind::Medkit, 1),
        (ItemKind::Ammo, 6),
        (ItemKind::Grenade, 2),
        (ItemKind::Medkit, 3),
    ];
    for (k, c) in adds {
        inv.add_item(k, c);
    }
    assert_eq!(entries(&inv), vec![(ItemKind::Ammo, 30), (ItemKind::Medkit, 4), (ItemKind::Grenade, 2)]);
}

use station_iapetus::gui::{
    ammo_text, drop_selected_item, item_display_text, use_selected_item, InventoryItemBuilder,
    InventoryItemMessage, InventoryRequest,
};
use station_iapetus::inventory::Inventory;
use station_iapetus::item::{ItemKind, WeaponKind};
use station_iapetus::weapon::weapon_kind_names;

#[test]
fn inventory_item_builder() {
    let b = InventoryItemBuilder::new("widget");
    assert_eq!(b.count, 0);
    let b = b.with_count(12);
    assert_eq!(b.widget_builder, "widget");
    assert_eq!(b.count, 12);
    assert_eq!(b.count_text(), "x12");
    assert_eq!(InventoryItemMessage::Select(true), InventoryItemMessage::Select(true));
}

#[test]
fn texts() {
    assert_eq!(ammo_text(0), "0");
    assert_eq!(ammo_text(96), "96");
    assert_eq!(item_display_text("Medkit", 2), "Medkit-2");
}

#[test]
fn inventory_screen_actions() {
    let mut inv = Inventory::new();
    inv.add_item(ItemKind::Medkit, 1);
    inv.add_item(ItemKind::Ak47, 1);
    assert_eq!(use_selected_item(&mut inv, ItemKind::Ak47, false), InventoryRequest::Nothing);
    assert_eq!(inv.item_count(ItemKind::Ak47), 1);
    assert_eq!(use_selected_item(&mut inv, ItemKind::Medkit, true), InventoryRequest::GiveItem(ItemKind::Medkit));
    assert_eq!(use_selected_item(&mut inv, ItemKind::Medkit, true), InventoryRequest::Nothing);
    assert_eq!(drop_selected_item(&mut inv, ItemKind::Ak47), InventoryRequest::SpawnItem(ItemKind::Ak47));
    assert_eq!(drop_selected_item(&mut inv, ItemKind::Ak47), InventoryRequest::Nothing);
    assert!(inv.items().is_empty());
}

#[test]
fn weapon_names() {
    assert_eq!(WeaponKind::PlasmaRifle.as_str(), "PlasmaRifle");
    assert_eq!(WeaponKind::RailGun.id(), 4);
    assert_eq!(weapon_kind_names(), vec!["M4", "Ak47", "PlasmaRifle", "Glock", "RailGun"]);
}

use vstd::prelude::*;
use vstd::string::StringExecFns;

use crate::inventory::{spec_extract_items, Inventory};
use crate::item::ItemKind;
use crate::text::{decimal, push_decimal};

verus! {

/// The message an inventory item widget takes: select it or not.
#[derive(Copy, Clone, PartialEq, Eq, Structural, Debug)]
pub enum InventoryItemMessage {
    Select(bool),
}

/// Builds an inventory item widget: the caller's widget builder and the item count shown.
pub struct InventoryItemBuilder<W> {
    pub widget_builder: W,
    pub count: usize,
}

impl<W> InventoryItemBuilder<W> {
    pub fn new(widget_builder: W) -> (r: Self)
        ensures
            r.widget_builder == widget_builder,
            r.count == 0,
    {
        InventoryItemBuilder { widget_builder, count: 0 }
    }

    pub fn with_count(self, count: usize) -> (r: Self)
        ensures
            r.widget_builder == self.widget_builder,
            r.count == count,
    {
        InventoryItemBuilder { widget_builder: self.widget_builder, count }
    }

    /// The count text under the item's name, such as `x3`.
    pub fn count_text(&self) -> (r: String)
        ensures
            r@ == "x"@ + decimal(self.count as nat),
    {
        let mut s = String::from_str("x");
        push_decimal(&mut s, self.count as u64);
        s
    }
}

/// The ammo count shown on a weapon's display and on the hud.
pub fn ammo_text(ammo: u32) -> (r: String)
    ensures
        r@ == decimal(ammo as nat),
{
    let mut s = String::new();
    push_decimal(&mut s, ammo as u64);
    proof {
        assert(s@ =~= decimal(ammo as nat));
    }
    s
}

/// The text of the item display: the item's name, a dash and the stack size.
pub fn item_display_text(name: &str, count: u32) -> (r: String)
    ensures
        r@ == name@ + "-"@ + decimal(count as nat),
{
    let mut s = String::from_str(name);
    s.append("-");
    push_decimal(&mut s, count as u64);
    s
}

/// What the inventory screen asks for after an action on the selected item.
#[derive(Copy, Clone, PartialEq, Eq, Structural, Debug)]
pub enum InventoryRequest {
    /// Nothing happens.
    Nothing,
    /// The item is used by the player, then the screen is refreshed.
    GiveItem(ItemKind),
    /// The item is dropped where the player stands, then the screen is refreshed.
    SpawnItem(ItemKind),
}

/// The player uses the selected item: a consumable item is taken out of the inventory, one
/// at a time, and given to the player.
pub fn use_selected_item(inventory: &mut Inventory, item: ItemKind, consumable: bool) -> (r: InventoryRequest)
    ensures
        consumable ==> ({
            let (s, taken) = spec_extract_items(old(inventory)@, item, 1);
            &&& final(inventory)@ == s
            &&& r == (if taken == 1 { InventoryRequest::GiveItem(item) } else { InventoryRequest::Nothing })
        }),
        !consumable ==> final(inventory)@ == old(inventory)@ && r == InventoryRequest::Nothing,
{
    if consumable && inventory.try_extract_exact_items(item, 1) == 1 {
        InventoryRequest::GiveItem(item)
    } else {
        InventoryRequest::Nothing
    }
}

/// The player drops the selected item: one item is taken out and spawned in the level.
pub fn drop_selected_item(inventory: &mut Inventory, item: ItemKind) -> (r: InventoryRequest)
    ensures
        ({
            let (s, taken) = spec_extract_items(old(inventory)@, item, 1);
            &&& final(inventory)@ == s
            &&& r == (if taken == 1 { InventoryRequest::SpawnItem(item) } else { InventoryRequest::Nothing })
        }),
{
    if inventory.try_extract_exact_items(item, 1) == 1 {
        InventoryRequest::SpawnItem(item)
    } else {
        InventoryRequest::Nothing
    }
}

} // verus!

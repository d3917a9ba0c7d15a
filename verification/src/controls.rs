use vstd::prelude::*;

use crate::character::{Character, WeaponVisibility};
use crate::inventory::{
    count_of, lemma_extract_items_counts, lemma_extract_one_more, spec_extract_items, well_formed_items,
    ItemEntry, Inventory,
};
use crate::item::{ItemKind, WeaponKind};
use crate::level::heal_amount;
use crate::text::same_text;
use crate::player::{
    apply_weapon_change, spec_weapon_change,
    spec_weapon_change_request, weapon_change_request, InputController, RequiredWeapon,
    WeaponControl,
};

verus! {

/// What a bound button does for the player.
#[derive(Copy, Clone, PartialEq, Eq, Structural, Debug)]
pub enum ControlAction {
    Aim,
    MoveForward,
    MoveBackward,
    MoveLeft,
    MoveRight,
    Jump,
    Run,
    FlashLight,
    Weapon(WeaponControl),
    TossGrenade,
    QuickHeal,
    Shoot,
    CursorUp,
    CursorDown,
    Action,
    Inventory,
    Journal,
}

/// What the player's reaction to a button asks of the world around the controller.
#[derive(Copy, Clone, PartialEq, Eq, Structural, Debug)]
pub enum ControlEffect {
    Nothing,
    HidePanels,
    ToggleFlashLight,
    ChangeWeapon(RequiredWeapon),
    QuickHeal,
    ToggleInventory,
    ToggleJournal,
}

/// What the player's state tells the reaction to a button.
#[derive(Copy, Clone, PartialEq, Eq, Structural, Debug)]
pub struct ControlContext {
    /// The jump animation is off or has played to its end.
    pub can_jump: bool,
    /// No weapon change is pending, the grab animation has ended and there are two weapons or more.
    pub can_change_weapon: bool,
    /// The kind of the weapon in hand, if any.
    pub current_kind: Option<WeaponKind>,
    pub current_weapon: u32,
    pub weapon_count: u32,
    /// The inventory holds a grenade.
    pub has_grenade: bool,
    /// The player's health is below its maximum.
    pub needs_healing: bool,
}

/// The effect of a weapon control: the weapon change it asks for, if any.
pub open spec fn spec_weapon_effect(control: WeaponControl, pressed: bool, ctx: ControlContext) -> ControlEffect {
    match spec_weapon_change_request(
        control,
        pressed,
        ctx.can_change_weapon,
        ctx.current_kind,
        ctx.current_weapon,
        ctx.weapon_count,
    ) {
        Some(r) => ControlEffect::ChangeWeapon(r),
        None => ControlEffect::Nothing,
    }
}

fn weapon_effect(control: WeaponControl, pressed: bool, ctx: ControlContext) -> (r: ControlEffect)
    ensures
        r == spec_weapon_effect(control, pressed, ctx),
{
    match weapon_change_request(
        control,
        pressed,
        ctx.can_change_weapon,
        ctx.current_kind,
        ctx.current_weapon,
        ctx.weapon_count,
    ) {
        Some(r) => ControlEffect::ChangeWeapon(r),
        None => ControlEffect::Nothing,
    }
}

/// The held controls after a button of `action` was pressed (`pressed`) or released.
pub open spec fn spec_controlled(c: InputController, action: ControlAction, pressed: bool, ctx: ControlContext) -> InputController {
    match action {
        ControlAction::Aim => InputController { aim: pressed, ..c },
        ControlAction::MoveForward => InputController { walk_forward: pressed, ..c },
        ControlAction::MoveBackward => InputController { walk_backward: pressed, ..c },
        ControlAction::MoveLeft => InputController { walk_left: pressed, ..c },
        ControlAction::MoveRight => InputController { walk_right: pressed, ..c },
        ControlAction::Jump => InputController { jump: pressed && ctx.can_jump, ..c },
        ControlAction::Run => InputController { run: pressed, ..c },
        ControlAction::TossGrenade => if ctx.has_grenade {
            InputController { toss_grenade: pressed, ..c }
        } else {
            c
        },
        ControlAction::Shoot => InputController { shoot: pressed, ..c },
        ControlAction::CursorUp => InputController { cursor_up: pressed, ..c },
        ControlAction::CursorDown => InputController { cursor_down: pressed, ..c },
        ControlAction::Action => InputController { action: pressed, ..c },
        _ => c,
    }
}

/// What else a press or release of a button of `action` asks for.
pub open spec fn spec_control_effect(c: InputController, action: ControlAction, pressed: bool, ctx: ControlContext) -> ControlEffect {
    match action {
        ControlAction::Aim => if pressed { ControlEffect::HidePanels } else { ControlEffect::Nothing },
        ControlAction::FlashLight => if pressed { ControlEffect::ToggleFlashLight } else { ControlEffect::Nothing },
        ControlAction::Weapon(control) => spec_weapon_effect(control, pressed, ctx),
        ControlAction::QuickHeal => if pressed && ctx.needs_healing {
            ControlEffect::QuickHeal
        } else {
            ControlEffect::Nothing
        },
        ControlAction::Inventory => if pressed && !c.aim { ControlEffect::ToggleInventory } else { ControlEffect::Nothing },
        ControlAction::Journal => if pressed && !c.aim { ControlEffect::ToggleJournal } else { ControlEffect::Nothing },
        _ => ControlEffect::Nothing,
    }
}

fn controlled(c: InputController, action: ControlAction, pressed: bool, ctx: ControlContext) -> (r: InputController)
    ensures
        r == spec_controlled(c, action, pressed, ctx),
{
    match action {
        ControlAction::Aim => InputController { aim: pressed, ..c },
        ControlAction::MoveForward => InputController { walk_forward: pressed, ..c },
        ControlAction::MoveBackward => InputController { walk_backward: pressed, ..c },
        ControlAction::MoveLeft => InputController { walk_left: pressed, ..c },
        ControlAction::MoveRight => InputController { walk_right: pressed, ..c },
        ControlAction::Jump => InputController { jump: pressed && ctx.can_jump, ..c },
        ControlAction::Run => InputController { run: pressed, ..c },
        ControlAction::TossGrenade => if ctx.has_grenade {
            InputController { toss_grenade: pressed, ..c }
        } else {
            c
        },
        ControlAction::Shoot => InputController { shoot: pressed, ..c },
        ControlAction::CursorUp => InputController { cursor_up: pressed, ..c },
        ControlAction::CursorDown => InputController { cursor_down: pressed, ..c },
        ControlAction::Action => InputController { action: pressed, ..c },
        ControlAction::FlashLight | ControlAction::Weapon(_) | ControlAction::QuickHeal
        | ControlAction::Inventory | ControlAction::Journal => c,
    }
}

fn control_effect(c: InputController, action: ControlAction, pressed: bool, ctx: ControlContext) -> (r: ControlEffect)
    ensures
        r == spec_control_effect(c, action, pressed, ctx),
{
    match action {
        ControlAction::Aim => if pressed { ControlEffect::HidePanels } else { ControlEffect::Nothing },
        ControlAction::FlashLight => if pressed { ControlEffect::ToggleFlashLight } else { ControlEffect::Nothing },
        ControlAction::Weapon(control) => weapon_effect(control, pressed, ctx),
        ControlAction::QuickHeal => if pressed && ctx.needs_healing {
            ControlEffect::QuickHeal
        } else {
            ControlEffect::Nothing
        },
        ControlAction::Inventory => if pressed && !c.aim { ControlEffect::ToggleInventory } else { ControlEffect::Nothing },
        ControlAction::Journal => if pressed && !c.aim { ControlEffect::ToggleJournal } else { ControlEffect::Nothing },
        _ => ControlEffect::Nothing,
    }
}

impl InputController {
    /// Reacts to a press (`pressed`) or release of a button bound to `action`: updates the
    /// held controls and returns what else the press asks for.
    pub fn apply_control(&mut self, action: ControlAction, pressed: bool, ctx: ControlContext) -> (r: ControlEffect)
        ensures
            *final(self) == spec_controlled(*old(self), action, pressed, ctx),
            r == spec_control_effect(*old(self), action, pressed, ctx),
    {
        let c = *self;
        let effect = control_effect(c, action, pressed, ctx);
        *self = controlled(c, action, pressed, ctx);
        effect
    }
}

/// Which of the player's two panels, inventory and journal, are shown.
#[derive(Copy, Clone, PartialEq, Eq, Structural, Debug, Default)]
pub struct PanelState {
    pub inventory_visible: bool,
    pub journal_visible: bool,
}

impl PanelState {
    /// Hides both panels (the player started aiming).
    pub fn hide_all(&mut self)
        ensures
            !final(self).inventory_visible,
            !final(self).journal_visible,
    {
        self.inventory_visible = false;
        self.journal_visible = false;
    }

    /// Hides the journal and shows the inventory if it was hidden, or hides it.
    pub fn toggle_inventory(&mut self)
        ensures
            final(self).inventory_visible == !old(self).inventory_visible,
            !final(self).journal_visible,
    {
        self.journal_visible = false;
        self.inventory_visible = !self.inventory_visible;
    }

    /// Hides the inventory and shows the journal if it was hidden, or hides it. Returns
    /// whether the journal is now shown, in which case its entries are to be brought up to date.
    pub fn toggle_journal(&mut self) -> (sync: bool)
        ensures
            final(self).journal_visible == !old(self).journal_visible,
            !final(self).inventory_visible,
            sync == final(self).journal_visible,
    {
        self.inventory_visible = false;
        self.journal_visible = !self.journal_visible;
        self.journal_visible
    }
}

/// Some entry of `items` holds a kind that heals.
pub open spec fn has_healing_item(items: Seq<ItemEntry>) -> bool {
    exists|i: int| 0 <= i < items.len() && heals(items[i].kind)
}

/// Items of this kind restore health when used.
pub open spec fn heals(kind: ItemKind) -> bool {
    kind == ItemKind::Medkit || kind == ItemKind::Medpack
}

/// The health an item of this kind restores.
pub open spec fn spec_heal_amount(kind: ItemKind) -> int {
    match kind {
        ItemKind::Medkit => 40,
        ItemKind::Medpack => 20,
        _ => 0,
    }
}

/// Entry `i` is the first of the entries that heal least.
pub open spec fn is_first_least_healing(items: Seq<ItemEntry>, i: int) -> bool {
    &&& 0 <= i < items.len()
    &&& heals(items[i].kind)
    &&& forall|j: int| 0 <= j < items.len() && heals(items[j].kind)
        ==> spec_heal_amount(items[i].kind) <= spec_heal_amount(items[j].kind)
    &&& forall|j: int| 0 <= j < i && heals(items[j].kind)
        ==> spec_heal_amount(items[i].kind) < spec_heal_amount(items[j].kind)
}

/// The kind a quick heal uses: the first of the carried kinds that restore the least health.
pub fn quick_heal_item(items: &[ItemEntry]) -> (r: Option<ItemKind>)
    ensures
        r is None <==> !has_healing_item(items@),
        r matches Some(k) ==> exists|i: int| is_first_least_healing(items@, i) && #[trigger] items@[i].kind == k,
{
    let mut best: Option<usize> = None;
    let mut i: usize = 0;
    while i < items.len()
        invariant
            i <= items@.len(),
            best is None <==> (forall|j: int| 0 <= j < i ==> !heals(#[trigger] items@[j].kind)),
            best matches Some(b) ==> {
                &&& b < i
                &&& heals(items@[b as int].kind)
                &&& forall|j: int| 0 <= j < i && heals(#[trigger] items@[j].kind)
                    ==> spec_heal_amount(items@[b as int].kind) <= spec_heal_amount(items@[j].kind)
                &&& forall|j: int| 0 <= j < b && heals(#[trigger] items@[j].kind)
                    ==> spec_heal_amount(items@[b as int].kind) < spec_heal_amount(items@[j].kind)
            },
        decreases items@.len() - i,
    {
        let kind = items[i].kind;
        let amount = heal_amount(kind);
        if amount > 0 {
            match best {
                Some(b) => {
                    if amount < heal_amount(items[b].kind) {
                        best = Some(i);
                    }
                },
                None => {
                    best = Some(i);
                },
            }
        }
        i = i + 1;
    }
    match best {
        Some(b) => {
            proof {
                assert(is_first_least_healing(items@, b as int));
            }
            Some(items[b].kind)
        },
        None => {
            proof {
                assert(!has_healing_item(items@));
            }
            None
        },
    }
}

/// Uses one item of the kind a quick heal picks: takes it from the inventory and returns
/// the health it restores; with no healing item the inventory is left as it was.
pub fn take_quick_heal(inventory: &mut Inventory) -> (r: Option<u32>)
    ensures
        r is None <==> !has_healing_item(old(inventory)@),
        r is None ==> final(inventory)@ == old(inventory)@,
        r matches Some(amount) ==> exists|i: int| {
            &&& is_first_least_healing(old(inventory)@, i)
            &&& amount == spec_heal_amount(#[trigger] old(inventory)@[i].kind)
            &&& final(inventory)@ == spec_extract_items(old(inventory)@, old(inventory)@[i].kind, 1).0
        },
{
    let kind = match quick_heal_item(inventory.items()) {
        Some(k) => k,
        None => {
            return None;
        },
    };
    let ghost before = inventory@;
    let taken = inventory.try_extract_exact_items(kind, 1);
    proof {
        let i = choose|i: int| is_first_least_healing(before, i) && #[trigger] before[i].kind == kind;
        crate::inventory::lemma_index_of_unique(before, kind, i);
        assert(taken == 1);
    }
    Some(heal_amount(kind))
}


/// The grenade signal of the upper-body animation: takes exactly one grenade from the
/// inventory, and a grenade is thrown only when one was taken.
pub fn take_grenade(inventory: &mut Inventory) -> (thrown: bool)
    ensures
        thrown == (count_of(old(inventory)@, ItemKind::Grenade) >= 1),
        (final(inventory)@, if thrown { 1u32 } else { 0u32 }) == spec_extract_items(
            old(inventory)@,
            ItemKind::Grenade,
            1,
        ),
{
    let _ = inventory.is_well_formed();
    proof {
        let s = inventory@;
        lemma_extract_items_counts(s, ItemKind::Grenade, 1, ItemKind::Grenade);
    }
    let taken = inventory.try_extract_exact_items(ItemKind::Grenade, 1);
    taken == 1
}


/// A button the player can bind a control to. A key is carried by its name as the
/// engine's key-code enumeration spells it ("W", "Space", "LShift", ...).
#[derive(Clone, PartialEq, Eq, Debug)]
pub enum ControlButton {
    Mouse(u16),
    Key(String),
    WheelUp,
    WheelDown,
}

/// A button as plain values.
pub enum ButtonView {
    Mouse(u16),
    Key(Seq<char>),
    WheelUp,
    WheelDown,
}

impl View for ControlButton {
    type V = ButtonView;

    open spec fn view(&self) -> ButtonView {
        match self {
            ControlButton::Mouse(i) => ButtonView::Mouse(*i),
            ControlButton::Key(k) => ButtonView::Key(k@),
            ControlButton::WheelUp => ButtonView::WheelUp,
            ControlButton::WheelDown => ButtonView::WheelDown,
        }
    }
}

/// The name shown for a button; a key's name comes from the engine's key table.
pub open spec fn spec_button_name(button: ButtonView) -> Option<Seq<char>> {
    match button {
        ButtonView::Mouse(index) => Some(
            if index == 1 {
                "LMB"@
            } else if index == 2 {
                "RMB"@
            } else if index == 3 {
                "MMB"@
            } else if index == 4 {
                "MB4"@
            } else if index == 5 {
                "MB5"@
            } else {
                "Unknown"@
            },
        ),
        ButtonView::Key(_) => None,
        ButtonView::WheelUp => Some("Wheel Up"@),
        ButtonView::WheelDown => Some("Wheel Down"@),
    }
}

impl ControlButton {
    /// The name shown for a mouse button or the wheel; `None` for a key, which the engine
    /// names.
    pub fn name(&self) -> (r: Option<&'static str>)
        ensures
            r is None <==> spec_button_name(self@) is None,
            r matches Some(n) ==> spec_button_name(self@) == Some(n@),
    {
        match self {
            ControlButton::Mouse(index) => Some(
                if *index == 1 {
                    "LMB"
                } else if *index == 2 {
                    "RMB"
                } else if *index == 3 {
                    "MMB"
                } else if *index == 4 {
                    "MB4"
                } else if *index == 5 {
                    "MB5"
                } else {
                    "Unknown"
                },
            ),
            ControlButton::Key(_) => None,
            ControlButton::WheelUp => Some("Wheel Up"),
            ControlButton::WheelDown => Some("Wheel Down"),
        }
    }

    /// Whether two buttons are the same button.
    pub fn same(&self, other: &ControlButton) -> (r: bool)
        ensures
            r == (self@ == other@),
    {
        match (self, other) {
            (ControlButton::Mouse(a), ControlButton::Mouse(b)) => *a == *b,
            (ControlButton::Key(a), ControlButton::Key(b)) => same_text(a.as_str(), b.as_str()),
            (ControlButton::WheelUp, ControlButton::WheelUp) => true,
            (ControlButton::WheelDown, ControlButton::WheelDown) => true,
            _ => false,
        }
    }
}

/// A control's description and the button bound to it.
#[derive(Clone, Debug)]
pub struct ControlButtonDefinition {
    pub description: String,
    pub button: ControlButton,
}

/// The buttons bound to the player's controls, and whether vertical mouse motion is inverted.
#[derive(Clone, Debug)]
pub struct ControlScheme {
    pub move_forward: ControlButtonDefinition,
    pub move_backward: ControlButtonDefinition,
    pub move_left: ControlButtonDefinition,
    pub move_right: ControlButtonDefinition,
    pub jump: ControlButtonDefinition,
    pub shoot: ControlButtonDefinition,
    pub next_weapon: ControlButtonDefinition,
    pub prev_weapon: ControlButtonDefinition,
    pub run: ControlButtonDefinition,
    pub aim: ControlButtonDefinition,
    pub toss_grenade: ControlButtonDefinition,
    pub mouse_y_inverse: bool,
}

fn definition(description: &str, button: ControlButton) -> (r: ControlButtonDefinition)
    ensures
        r.description@ == description@,
        r.button == button,
{
    ControlButtonDefinition { description: String::from_str(description), button }
}

fn key(name: &str) -> (r: ControlButton)
    ensures
        r@ == ButtonView::Key(name@),
{
    ControlButton::Key(String::from_str(name))
}

/// The descriptions and buttons of a scheme's controls, in the order `buttons` lists them.
pub open spec fn scheme_definitions(s: ControlScheme) -> Seq<(Seq<char>, ButtonView)> {
    seq![
        (s.move_forward.description@, s.move_forward.button@),
        (s.move_backward.description@, s.move_backward.button@),
        (s.move_left.description@, s.move_left.button@),
        (s.move_right.description@, s.move_right.button@),
        (s.jump.description@, s.jump.button@),
        (s.shoot.description@, s.shoot.button@),
        (s.next_weapon.description@, s.next_weapon.button@),
        (s.prev_weapon.description@, s.prev_weapon.button@),
        (s.run.description@, s.run.button@),
        (s.aim.description@, s.aim.button@),
        (s.toss_grenade.description@, s.toss_grenade.button@),
    ]
}

/// The default scheme: WASD to move, space to jump, left mouse button to shoot, the wheel
/// to change weapons, left shift to run, middle mouse button to aim, G to toss a grenade.
pub open spec fn default_definitions() -> Seq<(Seq<char>, ButtonView)> {
    seq![
        ("Move Forward"@, ButtonView::Key("W"@)),
        ("Move Backward"@, ButtonView::Key("S"@)),
        ("Move Left"@, ButtonView::Key("A"@)),
        ("Move Right"@, ButtonView::Key("D"@)),
        ("Jump"@, ButtonView::Key("Space"@)),
        ("Shoot"@, ButtonView::Mouse(1)),
        ("Next Weapon"@, ButtonView::WheelUp),
        ("Previous Weapon"@, ButtonView::WheelDown),
        ("Run"@, ButtonView::Key("LShift"@)),
        ("Aim"@, ButtonView::Mouse(3)),
        ("Toss Grenade"@, ButtonView::Key("G"@)),
    ]
}

impl Default for ControlScheme {
    fn default() -> (r: Self)
        ensures
            scheme_definitions(r) == default_definitions(),
            !r.mouse_y_inverse,
    {
        ControlScheme {
            move_forward: definition("Move Forward", key("W")),
            move_backward: definition("Move Backward", key("S")),
            move_left: definition("Move Left", key("A")),
            move_right: definition("Move Right", key("D")),
            jump: definition("Jump", key("Space")),
            shoot: definition("Shoot", ControlButton::Mouse(1)),
            next_weapon: definition("Next Weapon", ControlButton::WheelUp),
            prev_weapon: definition("Previous Weapon", ControlButton::WheelDown),
            run: definition("Run", key("LShift")),
            aim: definition("Aim", ControlButton::Mouse(3)),
            toss_grenade: definition("Toss Grenade", key("G")),
            mouse_y_inverse: false,
        }
    }
}

/// Whether a bound control may take a button event: a grab control only while a weapon
/// change may start, the inventory and journal controls only on a press while not aiming.
pub open spec fn guard_holds(action: ControlAction, pressed: bool, aiming: bool, can_change_weapon: bool) -> bool {
    match action {
        ControlAction::Weapon(WeaponControl::GrabAk47) | ControlAction::Weapon(WeaponControl::GrabM4)
        | ControlAction::Weapon(WeaponControl::GrabPlasmaGun)
        | ControlAction::Weapon(WeaponControl::GrabPistol) => can_change_weapon,
        ControlAction::Inventory | ControlAction::Journal => pressed && !aiming,
        _ => true,
    }
}

/// Binding `i` takes an event of `button`.
pub open spec fn binding_takes(
    bindings: Seq<(ButtonView, ControlAction)>,
    i: int,
    button: ButtonView,
    pressed: bool,
    aiming: bool,
    can_change_weapon: bool,
) -> bool {
    &&& 0 <= i < bindings.len()
    &&& bindings[i].0 == button
    &&& guard_holds(bindings[i].1, pressed, aiming, can_change_weapon)
}

/// The action a button event goes to: that of the first binding, in order, that takes it.
pub open spec fn spec_resolve(
    bindings: Seq<(ButtonView, ControlAction)>,
    button: ButtonView,
    pressed: bool,
    aiming: bool,
    can_change_weapon: bool,
) -> Option<ControlAction> {
    if exists|i: int| #[trigger] binding_takes(bindings, i, button, pressed, aiming, can_change_weapon) {
        let i = choose|i: int|
            #[trigger] binding_takes(bindings, i, button, pressed, aiming, can_change_weapon) && forall|j: int|
                0 <= j < i ==> !binding_takes(bindings, j, button, pressed, aiming, can_change_weapon);
        Some(bindings[i].1)
    } else {
        None
    }
}

/// The bindings as plain values.
pub open spec fn bindings_view(bindings: Seq<(&ControlButton, ControlAction)>) -> Seq<(ButtonView, ControlAction)> {
    bindings.map_values(|b: (&ControlButton, ControlAction)| (b.0@, b.1))
}

/// Sends a button event to the first binding, in order, whose button it is and whose
/// guard holds, as the player's chain of checks does.
pub fn resolve_button(
    bindings: &[(&ControlButton, ControlAction)],
    button: &ControlButton,
    pressed: bool,
    aiming: bool,
    can_change_weapon: bool,
) -> (r: Option<ControlAction>)
    ensures
        r == spec_resolve(bindings_view(bindings@), button@, pressed, aiming, can_change_weapon),
{
    let ghost v = bindings_view(bindings@);
    let mut i: usize = 0;
    while i < bindings.len()
        invariant
            i <= bindings@.len(),
            v == bindings_view(bindings@),
            forall|j: int| 0 <= j < i ==> !binding_takes(v, j, button@, pressed, aiming, can_change_weapon),
        decreases bindings@.len() - i,
    {
        let (b, action) = bindings[i];
        let guard = match action {
            ControlAction::Weapon(WeaponControl::GrabAk47) | ControlAction::Weapon(WeaponControl::GrabM4)
            | ControlAction::Weapon(WeaponControl::GrabPlasmaGun)
            | ControlAction::Weapon(WeaponControl::GrabPistol) => can_change_weapon,
            ControlAction::Inventory | ControlAction::Journal => pressed && !aiming,
            _ => true,
        };
        if b.same(button) && guard {
            proof {
                assert(binding_takes(v, i as int, button@, pressed, aiming, can_change_weapon));
                let k = choose|k: int|
                    #[trigger] binding_takes(v, k, button@, pressed, aiming, can_change_weapon) && forall|j: int|
                        0 <= j < k ==> !binding_takes(v, j, button@, pressed, aiming, can_change_weapon);
                if k < i {
                } else if k > i {
                    assert(!binding_takes(v, i as int, button@, pressed, aiming, can_change_weapon));
                }
            }
            return Some(action);
        }
        proof {
            assert(!binding_takes(v, i as int, button@, pressed, aiming, can_change_weapon));
        }
        i = i + 1;
    }
    None
}

/// The controls of a scheme in the order the player checks them, with the button of each.
pub open spec fn scheme_bindings(s: ControlScheme) -> Seq<(ButtonView, ControlAction)> {
    seq![
        (s.aim.button@, ControlAction::Aim),
        (s.move_forward.button@, ControlAction::MoveForward),
        (s.move_backward.button@, ControlAction::MoveBackward),
        (s.move_left.button@, ControlAction::MoveLeft),
        (s.move_right.button@, ControlAction::MoveRight),
        (s.jump.button@, ControlAction::Jump),
        (s.run.button@, ControlAction::Run),
        (s.next_weapon.button@, ControlAction::Weapon(WeaponControl::NextWeapon)),
        (s.prev_weapon.button@, ControlAction::Weapon(WeaponControl::PrevWeapon)),
        (s.toss_grenade.button@, ControlAction::TossGrenade),
        (s.shoot.button@, ControlAction::Shoot),
    ]
}

impl ControlScheme {
    /// The scheme's controls in the order the player checks them, with the button of each.
    pub fn bindings(&self) -> (r: Vec<(&ControlButton, ControlAction)>)
        ensures
            bindings_view(r@) == scheme_bindings(*self),
    {
        let mut v: Vec<(&ControlButton, ControlAction)> = Vec::new();
        v.push((&self.aim.button, ControlAction::Aim));
        v.push((&self.move_forward.button, ControlAction::MoveForward));
        v.push((&self.move_backward.button, ControlAction::MoveBackward));
        v.push((&self.move_left.button, ControlAction::MoveLeft));
        v.push((&self.move_right.button, ControlAction::MoveRight));
        v.push((&self.jump.button, ControlAction::Jump));
        v.push((&self.run.button, ControlAction::Run));
        v.push((&self.next_weapon.button, ControlAction::Weapon(WeaponControl::NextWeapon)));
        v.push((&self.prev_weapon.button, ControlAction::Weapon(WeaponControl::PrevWeapon)));
        v.push((&self.toss_grenade.button, ControlAction::TossGrenade));
        v.push((&self.shoot.button, ControlAction::Shoot));
        proof {
            assert(bindings_view(v@) =~= scheme_bindings(*self));
        }
        v
    }

    /// The action a button event goes to under this scheme, if any.
    pub fn action_for(&self, button: &ControlButton, pressed: bool, aiming: bool, can_change_weapon: bool) -> (r:
        Option<ControlAction>)
        ensures
            r == spec_resolve(scheme_bindings(*self), button@, pressed, aiming, can_change_weapon),
    {
        let b = self.bindings();
        resolve_button(b.as_slice(), button, pressed, aiming, can_change_weapon)
    }

    /// The descriptions and buttons of the controls, in the order a settings menu lists them.
    pub fn buttons(&self) -> (r: Vec<&ControlButtonDefinition>)
        ensures
            r@.map_values(|d: &ControlButtonDefinition| (d.description@, d.button@)) == scheme_definitions(*self),
    {
        let mut v: Vec<&ControlButtonDefinition> = Vec::new();
        v.push(&self.move_forward);
        v.push(&self.move_backward);
        v.push(&self.move_left);
        v.push(&self.move_right);
        v.push(&self.jump);
        v.push(&self.shoot);
        v.push(&self.next_weapon);
        v.push(&self.prev_weapon);
        v.push(&self.run);
        v.push(&self.aim);
        v.push(&self.toss_grenade);
        proof {
            assert(v@.map_values(|d: &ControlButtonDefinition| (d.description@, d.button@)) =~= scheme_definitions(*self));
        }
        v
    }

    /// Puts every binding back to the default.
    pub fn reset(&mut self)
        ensures
            scheme_definitions(*final(self)) == default_definitions(),
            !final(self).mouse_y_inverse,
    {
        *self = ControlScheme::default();
    }
}

/// A signal raised by the player's upper-body animations during a frame.
#[derive(Copy, Clone, PartialEq, Eq, Structural, Debug)]
pub enum AnimationSignal {
    /// The grab animation reached the point where the new weapon is in hand.
    GrabWeapon,
    /// The put-back animation ended.
    PutBackEnded,
    /// The toss animation reached the point where the grenade leaves the hand.
    TossGrenade,
    /// A melee hit starts.
    HitStarted,
    /// A melee hit ends.
    HitEnded,
    /// Any other signal.
    Other,
}

/// How often `signal` occurs in `signals`.
pub open spec fn signal_count(signals: Seq<AnimationSignal>, signal: AnimationSignal) -> nat
    decreases signals.len(),
{
    if signals.len() == 0 {
        0
    } else {
        signal_count(signals.drop_last(), signal) + if signals.last() == signal {
            1nat
        } else {
            0nat
        }
    }
}

proof fn lemma_signal_count_bound(signals: Seq<AnimationSignal>, signal: AnimationSignal)
    ensures
        signal_count(signals, signal) <= signals.len(),
    decreases signals.len(),
{
    if signals.len() > 0 {
        lemma_signal_count_bound(signals.drop_last(), signal);
    }
}

/// Whether a melee hit is under way after the signals, given whether one was before.
pub open spec fn melee_after(active: bool, signals: Seq<AnimationSignal>) -> bool
    decreases signals.len(),
{
    if signals.len() == 0 {
        active
    } else if signals.last() == AnimationSignal::HitStarted {
        true
    } else if signals.last() == AnimationSignal::HitEnded {
        false
    } else {
        melee_after(active, signals.drop_last())
    }
}

/// What the player's animation signals of one frame did.
#[derive(Clone, Debug)]
pub struct SignalOutcome {
    /// The weapon change still pending.
    pub pending: RequiredWeapon,
    /// The show and hide requests of the weapon change carried out.
    pub requests: Vec<WeaponVisibility>,
    /// How many grenades were taken from the inventory and are to be thrown.
    pub grenades_thrown: u32,
    /// The grab animation is to be switched on.
    pub enable_grab: bool,
    /// A melee hit is under way.
    pub melee_active: bool,
}

/// Handles the signals the player's upper-body animations raised during a frame, in order.
/// The first grab signal carries out the pending weapon change and clears it; each toss
/// signal takes one grenade, and throws one only when it was taken; the end of the put-back
/// animation switches the grab animation on; hit signals start and end a melee hit.
/// `kinds` lists the kind of each of the character's weapons.
pub fn handle_upper_body_signals(
    pending: RequiredWeapon,
    melee_active: bool,
    signals: &[AnimationSignal],
    character: &mut Character,
    kinds: &[WeaponKind],
) -> (r: SignalOutcome)
    requires
        kinds@.len() == old(character).weapons@.len(),
        old(character).weapons@.len() <= u32::MAX,
        signals@.len() < u32::MAX,
    ensures
        final(character).weapons@ == old(character).weapons@,
        r.pending == (if signals@.contains(AnimationSignal::GrabWeapon) {
            RequiredWeapon::NoChange
        } else {
            pending
        }),
        signals@.contains(AnimationSignal::GrabWeapon) ==> (final(character).current_weapon, r.requests@)
            == spec_weapon_change(old(character).weapons@, old(character).current_weapon, kinds@, pending),
        !signals@.contains(AnimationSignal::GrabWeapon) ==> final(character).current_weapon == old(
            character,
        ).current_weapon && r.requests@.len() == 0,
        r.grenades_thrown == (if signal_count(signals@, AnimationSignal::TossGrenade) <= count_of(
            old(character).inventory@,
            ItemKind::Grenade,
        ) {
            signal_count(signals@, AnimationSignal::TossGrenade)
        } else {
            count_of(old(character).inventory@, ItemKind::Grenade)
        }),
        final(character).inventory@ == spec_extract_items(
            old(character).inventory@,
            ItemKind::Grenade,
            r.grenades_thrown,
        ).0,
        r.enable_grab == signals@.contains(AnimationSignal::PutBackEnded),
        r.melee_active == melee_after(melee_active, signals@),
{
    let ghost start_inventory = character.inventory@;
    let ghost start_current = character.current_weapon;
    let ghost start = spec_weapon_change(character.weapons@, character.current_weapon, kinds@, pending);
    let _ = character.inventory.is_well_formed();
    let mut current = pending;
    let mut requests: Vec<WeaponVisibility> = Vec::new();
    let mut grabbed = false;
    let mut thrown: u32 = 0;
    let mut enable_grab = false;
    let mut melee = melee_active;
    let mut i: usize = 0;
    while i < signals.len()
        invariant
            i <= signals@.len(),
            signals@.len() < u32::MAX,
            kinds@.len() == character.weapons@.len(),
            character.weapons@ == old(character).weapons@,
            character.weapons@.len() <= u32::MAX,
            start_inventory == old(character).inventory@,
            start_current == old(character).current_weapon,
            start == spec_weapon_change(old(character).weapons@, old(character).current_weapon, kinds@, pending),
            well_formed_items(start_inventory),
            grabbed == signals@.subrange(0, i as int).contains(AnimationSignal::GrabWeapon),
            current == (if grabbed { RequiredWeapon::NoChange } else { pending }),
            grabbed ==> (character.current_weapon, requests@) == start,
            !grabbed ==> character.current_weapon == start_current && requests@.len() == 0,
            thrown == (if signal_count(signals@.subrange(0, i as int), AnimationSignal::TossGrenade)
                <= count_of(start_inventory, ItemKind::Grenade) {
                signal_count(signals@.subrange(0, i as int), AnimationSignal::TossGrenade)
            } else {
                count_of(start_inventory, ItemKind::Grenade)
            }),
            character.inventory@ == spec_extract_items(start_inventory, ItemKind::Grenade, thrown).0,
            enable_grab == signals@.subrange(0, i as int).contains(AnimationSignal::PutBackEnded),
            melee == melee_after(melee_active, signals@.subrange(0, i as int)),
        decreases signals@.len() - i,
    {
        let signal = signals[i];
        let ghost prefix = signals@.subrange(0, i as int);
        let ghost next = signals@.subrange(0, i + 1);
        proof {
            assert(next.drop_last() =~= prefix);
            assert(next.last() == signal);
            assert forall|s: AnimationSignal| next.contains(s) <==> (prefix.contains(s) || s == signal) by {
                if next.contains(s) {
                    let j = choose|j: int| 0 <= j < next.len() && next[j] == s;
                    if j < i {
                        assert(prefix[j] == s);
                    }
                }
                if prefix.contains(s) {
                    let j = choose|j: int| 0 <= j < prefix.len() && prefix[j] == s;
                    assert(next[j] == s);
                }
                if s == signal {
                    assert(next[i as int] == s);
                }
            }
            lemma_signal_count_bound(prefix, AnimationSignal::TossGrenade);
            lemma_extract_one_more(start_inventory, ItemKind::Grenade, thrown);
        }
        match signal {
            AnimationSignal::GrabWeapon => {
                if !grabbed {
                    requests = apply_weapon_change(current, character, kinds);
                    grabbed = true;
                    current = RequiredWeapon::NoChange;
                }
            },
            AnimationSignal::PutBackEnded => {
                enable_grab = true;
            },
            AnimationSignal::TossGrenade => {
                if take_grenade(&mut character.inventory) {
                    thrown = thrown + 1;
                }
            },
            AnimationSignal::HitStarted => {
                melee = true;
            },
            AnimationSignal::HitEnded => {
                melee = false;
            },
            AnimationSignal::Other => {},
        }
        i = i + 1;
    }
    proof {
        assert(signals@.subrange(0, i as int) =~= signals@);
    }
    SignalOutcome { pending: current, requests, grenades_thrown: thrown, enable_grab, melee_active: melee }
}

} // verus!

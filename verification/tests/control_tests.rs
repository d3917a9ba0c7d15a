use station_iapetus::character::{Character, WeaponVisibility};
use station_iapetus::controls::{
    handle_upper_body_signals, quick_heal_item, resolve_button, take_grenade, take_quick_heal,
    AnimationSignal, ControlAction, ControlButton, ControlContext, ControlEffect, ControlScheme,
    PanelState,
};
use station_iapetus::player::starting_inventory;
use station_iapetus::handle::Handle;
use station_iapetus::hud::{Hud, HudMessage};
use station_iapetus::inventory::{Inventory, ItemEntry};
use station_iapetus::item::{ItemKind, WeaponKind};
use station_iapetus::player::{InputController, RequiredWeapon, WeaponControl};

fn context() -> ControlContext {
    ControlContext {
        can_jump: true,
        can_change_weapon: true,
        current_kind: Some(WeaponKind::Glock),
        current_weapon: 0,
        weapon_count: 2,
        has_grenade: false,
        needs_healing: true,
    }
}

#[test]
fn movement_buttons_follow_press_and_release() {
    let mut c = InputController::default();
    assert_eq!(c.apply_control(ControlAction::MoveForward, true, context()), ControlEffect::Nothing);
    assert!(c.walk_forward);
    assert!(c.is_walking());
    assert_eq!(c.apply_control(ControlAction::MoveLeft, true, context()), ControlEffect::Nothing);
    assert_eq!(c.model_angle_degrees(), 45);
    c.apply_control(ControlAction::MoveForward, false, context());
    c.apply_control(ControlAction::MoveLeft, false, context());
    assert!(!c.is_walking());
    c.apply_control(ControlAction::Run, true, context());
    c.apply_control(ControlAction::Shoot, true, context());
    c.apply_control(ControlAction::CursorUp, true, context());
    c.apply_control(ControlAction::CursorDown, true, context());
    c.apply_control(ControlAction::Action, true, context());
    assert!(c.run && c.shoot && c.cursor_up && c.cursor_down && c.action);
    assert!(c.is_running(false, false));
    assert!(!c.is_running(true, false));
    assert!(!c.is_running(false, true));
    c.apply_control(ControlAction::Aim, true, context());
    assert!(!c.is_running(false, false));
}

#[test]
fn jump_needs_the_jump_animation_finished() {
    let mut c = InputController::default();
    let mut ctx = context();
    ctx.can_jump = false;
    c.apply_control(ControlAction::Jump, true, ctx);
    assert!(!c.jump);
    c.apply_control(ControlAction::Jump, true, context());
    assert!(c.jump);
    c.apply_control(ControlAction::Jump, false, context());
    assert!(!c.jump);
}

#[test]
fn aiming_hides_panels_and_blocks_them() {
    let mut c = InputController::default();
    assert_eq!(c.apply_control(ControlAction::Aim, true, context()), ControlEffect::HidePanels);
    assert!(c.aim);
    assert_eq!(c.apply_control(ControlAction::Inventory, true, context()), ControlEffect::Nothing);
    assert_eq!(c.apply_control(ControlAction::Journal, true, context()), ControlEffect::Nothing);
    assert_eq!(c.apply_control(ControlAction::Aim, false, context()), ControlEffect::Nothing);
    assert_eq!(c.apply_control(ControlAction::Inventory, true, context()), ControlEffect::ToggleInventory);
    assert_eq!(c.apply_control(ControlAction::Journal, true, context()), ControlEffect::ToggleJournal);
    assert_eq!(c.apply_control(ControlAction::Journal, false, context()), ControlEffect::Nothing);
}

#[test]
fn flash_light_grenade_and_heal_buttons() {
    let mut c = InputController::default();
    assert_eq!(c.apply_control(ControlAction::FlashLight, true, context()), ControlEffect::ToggleFlashLight);
    assert_eq!(c.apply_control(ControlAction::FlashLight, false, context()), ControlEffect::Nothing);
    c.apply_control(ControlAction::TossGrenade, true, context());
    assert!(!c.toss_grenade);
    let mut ctx = context();
    ctx.has_grenade = true;
    c.apply_control(ControlAction::TossGrenade, true, ctx);
    assert!(c.toss_grenade);
    assert_eq!(c.apply_control(ControlAction::QuickHeal, true, context()), ControlEffect::QuickHeal);
    ctx.needs_healing = false;
    assert_eq!(c.apply_control(ControlAction::QuickHeal, true, ctx), ControlEffect::Nothing);
}

#[test]
fn weapon_buttons_ask_for_changes() {
    let mut c = InputController::default();
    assert_eq!(
        c.apply_control(ControlAction::Weapon(WeaponControl::GrabAk47), true, context()),
        ControlEffect::ChangeWeapon(RequiredWeapon::Specific(WeaponKind::Ak47))
    );
    assert_eq!(
        c.apply_control(ControlAction::Weapon(WeaponControl::GrabPistol), true, context()),
        ControlEffect::Nothing
    );
    assert_eq!(
        c.apply_control(ControlAction::Weapon(WeaponControl::NextWeapon), true, context()),
        ControlEffect::ChangeWeapon(RequiredWeapon::Next)
    );
    assert_eq!(
        c.apply_control(ControlAction::Weapon(WeaponControl::PrevWeapon), true, context()),
        ControlEffect::Nothing
    );
    assert_eq!(c, InputController::default());
}

#[test]
fn panels_are_never_both_shown() {
    let mut p = PanelState::default();
    p.toggle_inventory();
    assert!(p.inventory_visible && !p.journal_visible);
    assert!(p.toggle_journal());
    assert!(!p.inventory_visible && p.journal_visible);
    assert!(!p.toggle_journal());
    assert_eq!(p, PanelState::default());
    p.toggle_inventory();
    p.hide_all();
    assert_eq!(p, PanelState::default());
}

#[test]
fn quick_heal_takes_the_smallest_healing_item() {
    let items = vec![
        ItemEntry { kind: ItemKind::Ammo, amount: 30 },
        ItemEntry { kind: ItemKind::Medkit, amount: 1 },
        ItemEntry { kind: ItemKind::Medpack, amount: 2 },
    ];
    assert_eq!(quick_heal_item(&items), Some(ItemKind::Medpack));
    assert_eq!(quick_heal_item(&items[..2]), Some(ItemKind::Medkit));
    assert_eq!(quick_heal_item(&items[..1]), None);

    let mut inv = Inventory::new();
    inv.add_item(ItemKind::Medkit, 1);
    inv.add_item(ItemKind::Medpack, 1);
    assert_eq!(take_quick_heal(&mut inv), Some(20));
    assert_eq!(inv.item_count(ItemKind::Medpack), 0);
    assert_eq!(take_quick_heal(&mut inv), Some(40));
    assert_eq!(take_quick_heal(&mut inv), None);
    assert!(inv.items().is_empty());
}

#[test]
fn hud_messages() {
    let h = |i: u32| Handle { index: i, generation: 1 };
    let hud = Hud::new(h(1), h(2), h(3), h(4), h(5));
    assert_eq!(hud.set_ammo(40), HudMessage::Text { target: h(4), text: "40".to_string() });
    assert_eq!(hud.set_ammo(0), HudMessage::Text { target: h(4), text: "0".to_string() });
    assert_eq!(hud.set_visible(true), HudMessage::Visibility { target: h(1), visible: true });
    assert_eq!(hud.set_is_died(true), HudMessage::Visibility { target: h(5), visible: true });
    assert_eq!(hud.set_is_died(false), HudMessage::Visibility { target: h(5), visible: false });
}

#[test]
fn grenade_is_thrown_only_when_one_is_taken() {
    let mut inv = Inventory::new();
    assert!(!take_grenade(&mut inv));
    inv.add_item(ItemKind::Grenade, 2);
    assert!(take_grenade(&mut inv));
    assert_eq!(inv.item_count(ItemKind::Grenade), 1);
    assert!(take_grenade(&mut inv));
    assert!(inv.items().is_empty());
    assert!(!take_grenade(&mut inv));
}

#[test]
fn button_names() {
    assert_eq!(ControlButton::Mouse(1).name(), Some("LMB"));
    assert_eq!(ControlButton::Mouse(3).name(), Some("MMB"));
    assert_eq!(ControlButton::Mouse(5).name(), Some("MB5"));
    assert_eq!(ControlButton::Mouse(9).name(), Some("Unknown"));
    assert_eq!(ControlButton::WheelUp.name(), Some("Wheel Up"));
    assert_eq!(ControlButton::WheelDown.name(), Some("Wheel Down"));
    assert_eq!(ControlButton::Key("W".to_string()).name(), None);
}

fn key(k: &str) -> ControlButton {
    ControlButton::Key(k.to_string())
}

#[test]
fn default_scheme() {
    let scheme = ControlScheme::default();
    let listed: Vec<(String, ControlButton)> =
        scheme.buttons().iter().map(|d| (d.description.clone(), d.button.clone())).collect();
    assert_eq!(
        listed,
        vec![
            ("Move Forward".to_string(), key("W")),
            ("Move Backward".to_string(), key("S")),
            ("Move Left".to_string(), key("A")),
            ("Move Right".to_string(), key("D")),
            ("Jump".to_string(), key("Space")),
            ("Shoot".to_string(), ControlButton::Mouse(1)),
            ("Next Weapon".to_string(), ControlButton::WheelUp),
            ("Previous Weapon".to_string(), ControlButton::WheelDown),
            ("Run".to_string(), key("LShift")),
            ("Aim".to_string(), ControlButton::Mouse(3)),
            ("Toss Grenade".to_string(), key("G")),
        ]
    );
    assert!(!scheme.mouse_y_inverse);
    assert!(key("W").same(&key("W")));
    assert!(!key("W").same(&key("S")));
    assert!(!ControlButton::Mouse(1).same(&ControlButton::Mouse(3)));
}

#[test]
fn buttons_resolve_to_actions() {
    let mut scheme = ControlScheme::default();
    assert_eq!(scheme.action_for(&key("W"), true, false, true), Some(ControlAction::MoveForward));
    assert_eq!(scheme.action_for(&ControlButton::Mouse(3), false, true, true), Some(ControlAction::Aim));
    assert_eq!(
        scheme.action_for(&ControlButton::WheelDown, true, false, false),
        Some(ControlAction::Weapon(WeaponControl::PrevWeapon))
    );
    assert_eq!(scheme.action_for(&key("Q"), true, false, true), None);
    // Aim is checked first: binding shoot to the aim button leaves shoot unreachable.
    scheme.shoot.button = ControlButton::Mouse(3);
    assert_eq!(scheme.action_for(&ControlButton::Mouse(3), true, false, true), Some(ControlAction::Aim));
    scheme.reset();
    assert_eq!(scheme.action_for(&ControlButton::Mouse(1), true, false, true), Some(ControlAction::Shoot));
}

#[test]
fn guarded_bindings_fall_through() {
    let one = key("1");
    let i = key("I");
    let bindings = vec![
        (&one, ControlAction::Weapon(WeaponControl::GrabAk47)),
        (&one, ControlAction::Shoot),
        (&i, ControlAction::Inventory),
        (&i, ControlAction::Action),
    ];
    assert_eq!(resolve_button(&bindings, &one, true, false, true), Some(ControlAction::Weapon(WeaponControl::GrabAk47)));
    assert_eq!(resolve_button(&bindings, &one, true, false, false), Some(ControlAction::Shoot));
    assert_eq!(resolve_button(&bindings, &i, true, false, true), Some(ControlAction::Inventory));
    assert_eq!(resolve_button(&bindings, &i, false, false, true), Some(ControlAction::Action));
    assert_eq!(resolve_button(&bindings, &i, true, true, true), Some(ControlAction::Action));
    assert_eq!(resolve_button(&bindings, &key("X"), true, false, true), None);
}

fn weapon(i: u32) -> Handle {
    Handle { index: i, generation: 1 }
}

#[test]
fn animation_signals_carry_out_and_clear_the_weapon_change() {
    let mut c = Character::new();
    c.add_weapon(weapon(1));
    c.add_weapon(weapon(2));
    c.set_current_weapon(0);
    c.inventory.add_item(ItemKind::Grenade, 1);
    let kinds = [WeaponKind::Glock, WeaponKind::Ak47];
    let signals = [
        AnimationSignal::HitStarted,
        AnimationSignal::GrabWeapon,
        AnimationSignal::TossGrenade,
        AnimationSignal::GrabWeapon,
        AnimationSignal::TossGrenade,
        AnimationSignal::PutBackEnded,
        AnimationSignal::Other,
    ];
    let r = handle_upper_body_signals(RequiredWeapon::Next, false, &signals, &mut c, &kinds);
    assert_eq!(r.pending, RequiredWeapon::NoChange);
    assert_eq!(
        r.requests,
        vec![WeaponVisibility { weapon: weapon(1), visible: false }, WeaponVisibility { weapon: weapon(2), visible: true }]
    );
    assert_eq!(c.current_weapon, 1);
    assert_eq!(r.grenades_thrown, 1);
    assert_eq!(c.inventory.item_count(ItemKind::Grenade), 0);
    assert!(r.enable_grab);
    assert!(r.melee_active);

    let r = handle_upper_body_signals(RequiredWeapon::Previous, true, &[AnimationSignal::HitEnded], &mut c, &kinds);
    assert_eq!(r.pending, RequiredWeapon::Previous);
    assert!(r.requests.is_empty());
    assert_eq!(c.current_weapon, 1);
    assert_eq!(r.grenades_thrown, 0);
    assert!(!r.enable_grab);
    assert!(!r.melee_active);
}

#[test]
fn player_starts_with_supplies() {
    let inv = starting_inventory();
    let entries: Vec<(ItemKind, u32)> = inv.items().iter().map(|e| (e.kind(), e.amount())).collect();
    assert_eq!(
        entries,
        vec![(ItemKind::Medkit, 2), (ItemKind::Medpack, 2), (ItemKind::Ammo, 400), (ItemKind::Grenade, 3)]
    );
}

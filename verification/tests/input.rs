use interphace::capabilities::{SeatAction, SeatCapability, SeatDevices};
use interphace::geometry::Size;
use interphace::render::{Color, RenderParams};
use interphace::shell::{
    KeyboardInteractivity, LayerAttrs, LayerCommand, PointerEvent, PointerEventKind, Shell,
    ANCHOR_BOTTOM, BTN_LEFT, BTN_RIGHT, EXIT_KEYSYM,
};

fn shell_params() -> RenderParams {
    RenderParams {
        clear: Color { a: 190, r: 0, g: 0, b: 0 },
        rings: 1,
        ring_spacing: 12,
    }
}

fn layer_attrs() -> LayerAttrs {
    LayerAttrs {
        anchor: ANCHOR_BOTTOM,
        exclusive_zone: 50,
        keyboard_interactivity: KeyboardInteractivity::OnDemand,
        requested_size: Size { width: 1000, height: 100 },
    }
}

#[test]
fn keyboard_capability_is_acquired_once() {
    let mut seat = SeatDevices::new();
    assert_eq!(
        seat.on_new_capability(SeatCapability::Keyboard),
        Some(SeatAction::AcquireKeyboard)
    );
    assert!(seat.keyboard);
    assert_eq!(seat.on_new_capability(SeatCapability::Keyboard), None);
    assert!(seat.keyboard);
    assert!(!seat.pointer);
}

#[test]
fn pointer_capability_is_acquired_once() {
    let mut seat = SeatDevices::new();
    assert_eq!(
        seat.on_new_capability(SeatCapability::Pointer),
        Some(SeatAction::AcquirePointer)
    );
    assert_eq!(seat.on_new_capability(SeatCapability::Pointer), None);
    assert!(seat.pointer);
    assert!(!seat.keyboard);
}

#[test]
fn capabilities_are_released_only_when_held() {
    let mut seat = SeatDevices::new();
    assert_eq!(seat.on_remove_capability(SeatCapability::Keyboard), None);
    seat.on_new_capability(SeatCapability::Keyboard);
    seat.on_new_capability(SeatCapability::Pointer);
    assert_eq!(
        seat.on_remove_capability(SeatCapability::Keyboard),
        Some(SeatAction::ReleaseKeyboard)
    );
    assert!(!seat.keyboard);
    assert!(seat.pointer);
    assert_eq!(
        seat.on_remove_capability(SeatCapability::Pointer),
        Some(SeatAction::ReleasePointer)
    );
    assert_eq!(seat.on_remove_capability(SeatCapability::Pointer), None);
}

#[test]
fn exit_key_sets_the_exit_flag() {
    let mut shell = Shell::new(shell_params());
    assert!(shell.should_continue());
    shell.handle_key_press(EXIT_KEYSYM);
    assert!(shell.exit);
    assert!(!shell.should_continue());
}

#[test]
fn other_keys_do_not_exit() {
    let mut shell = Shell::new(shell_params());
    shell.handle_key_press(0x61);
    assert!(!shell.exit);
    assert!(shell.should_continue());
}

#[test]
fn keyboard_focus_follows_enter_and_leave() {
    let mut shell = Shell::new(shell_params());
    let id = shell.create_layer(layer_attrs(), None);
    shell.handle_keyboard_enter(id);
    assert!(shell.keyboard_focus);
    shell.handle_keyboard_leave(id);
    assert!(!shell.keyboard_focus);
    shell.handle_keyboard_enter(id + 7);
    assert!(!shell.keyboard_focus);
}

fn press(window: usize, button: u32) -> PointerEvent {
    PointerEvent {
        window,
        kind: PointerEventKind::Press { button },
        x: 10,
        y: 20,
    }
}

#[test]
fn left_press_withdraws_layer_from_keyboard_input() {
    let mut shell = Shell::new(shell_params());
    let id = shell.create_layer(layer_attrs(), None);
    let actions = shell.handle_pointer_frame(&vec![press(id, BTN_LEFT)]);
    assert_eq!(
        actions,
        vec![LayerCommand { window: id, interactivity: KeyboardInteractivity::NotInteractive }]
    );
    assert_eq!(shell.shift, Some(0));
}

#[test]
fn right_press_takes_keyboard_exclusively() {
    let mut shell = Shell::new(shell_params());
    let id = shell.create_layer(layer_attrs(), None);
    let actions = shell.handle_pointer_frame(&vec![press(id, BTN_RIGHT)]);
    assert_eq!(
        actions,
        vec![LayerCommand { window: id, interactivity: KeyboardInteractivity::Exclusive }]
    );
}

#[test]
fn last_press_in_a_frame_wins() {
    let mut shell = Shell::new(shell_params());
    let id = shell.create_layer(layer_attrs(), None);
    let actions = shell.handle_pointer_frame(&vec![press(id, BTN_LEFT), press(id, BTN_RIGHT)]);
    assert_eq!(actions.len(), 2);
    assert_eq!(actions[1].interactivity, KeyboardInteractivity::Exclusive);
    match &shell.windows[id].kind {
        interphace::shell::WindowKind::Layer { attrs, .. } => {
            assert_eq!(attrs.keyboard_interactivity, KeyboardInteractivity::Exclusive);
        }
        _ => panic!("expected a layer window"),
    }
    // two presses toggle the shift marker back
    assert_eq!(shell.shift, None);
}

#[test]
fn foreign_surface_events_are_ignored() {
    let mut shell = Shell::new(shell_params());
    let id = shell.create_layer(layer_attrs(), None);
    let actions = shell.handle_pointer_frame(&vec![press(id + 5, BTN_LEFT)]);
    assert!(actions.is_empty());
    assert_eq!(shell.shift, None);
}

#[test]
fn motion_and_release_change_nothing() {
    let mut shell = Shell::new(shell_params());
    let id = shell.create_layer(layer_attrs(), None);
    let events = vec![
        PointerEvent { window: id, kind: PointerEventKind::Enter, x: 0, y: 0 },
        PointerEvent { window: id, kind: PointerEventKind::Motion, x: 5, y: 5 },
        PointerEvent { window: id, kind: PointerEventKind::Release { button: BTN_LEFT }, x: 5, y: 5 },
        PointerEvent { window: id, kind: PointerEventKind::Axis { horizontal: 0, vertical: -3 }, x: 5, y: 5 },
        PointerEvent { window: id, kind: PointerEventKind::Leave, x: 5, y: 5 },
    ];
    let actions = shell.handle_pointer_frame(&events);
    assert!(actions.is_empty());
    assert_eq!(shell.shift, None);
    match &shell.windows[id].kind {
        interphace::shell::WindowKind::Layer { attrs, .. } => {
            assert_eq!(attrs.keyboard_interactivity, KeyboardInteractivity::OnDemand);
        }
        _ => panic!("expected a layer window"),
    }
}

#[test]
fn presses_on_toplevels_toggle_shift_but_send_no_command() {
    let mut shell = Shell::new(shell_params());
    let id = shell.create_toplevel(String::from("a"), String::from("b"));
    let actions = shell.handle_pointer_frame(&vec![press(id, BTN_LEFT)]);
    assert!(actions.is_empty());
    assert_eq!(shell.shift, Some(0));
}

use term_wm_ui_components::action::{
    Action, ConfirmAction, InputEvent, KeyCode, KeyEvent, KeyKind, KeyModifiers, MouseButton, MouseEvent,
    MouseEventKind,
};
use term_wm_ui_components::confirm_overlay::ConfirmOverlayComponent;
use term_wm_ui_components::geometry::{LayoutRect, Rect};

fn key(code: KeyCode) -> InputEvent {
    InputEvent::Key(KeyEvent { code, modifiers: KeyModifiers::none(), kind: KeyKind::Press })
}

/// The default keybindings of the confirmation dialog.
fn bound(code: KeyCode) -> Option<Action> {
    match code {
        KeyCode::Tab => Some(Action::ConfirmToggle),
        KeyCode::Left => Some(Action::ConfirmLeft),
        KeyCode::Right => Some(Action::ConfirmRight),
        KeyCode::Enter => Some(Action::ConfirmAccept),
        KeyCode::Esc => Some(Action::ConfirmCancel),
        _ => None,
    }
}

fn press(column: u16, row: u16) -> InputEvent {
    InputEvent::Mouse(MouseEvent { kind: MouseEventKind::Press(MouseButton::Left), column, row })
}

#[test]
fn handle_event_recognizes_keys() {
    let mut o = ConfirmOverlayComponent::new();
    for code in [KeyCode::Enter, KeyCode::Enter, KeyCode::Esc, KeyCode::Tab] {
        assert!(!o.handle_events(key(code), bound(code)).is_ignored());
    }
    assert!(o.handle_events(key(KeyCode::Char('q')), None).is_ignored());
}

#[test]
fn handle_confirm_event_mouse_and_keys() {
    let mut o = ConfirmOverlayComponent::new();
    // set rects so mouse tests work
    o.confirm_rect = Some(Rect { x: 2, y: 3, width: 4, height: 1 });
    o.cancel_rect = Some(Rect { x: 0, y: 3, width: 2, height: 1 });

    assert_eq!(o.handle_confirm_event(press(3, 3), None), Some(ConfirmAction::Confirm));
    assert_eq!(o.handle_confirm_event(press(0, 3), None), Some(ConfirmAction::Cancel));

    // Tab toggles selection
    o.selected_confirm = true;
    assert_eq!(o.handle_confirm_event(key(KeyCode::Tab), bound(KeyCode::Tab)), None);
    assert!(!o.selected_confirm);

    // Enter uses selected_confirm to decide
    o.selected_confirm = true;
    assert_eq!(
        o.handle_confirm_event(key(KeyCode::Enter), bound(KeyCode::Enter)),
        Some(ConfirmAction::Confirm)
    );
}

// ── Further cases ──

#[test]
fn layout_places_buttons_right_aligned() {
    let mut o = ConfirmOverlayComponent::new();
    assert!(o.layout(LayoutRect { x: 0, y: 0, width: 80, height: 24 }, Rect { x: 0, y: 0, width: 80, height: 24 }).is_none());
    o.open("Quit?", "Really quit?");
    assert!(o.selected_confirm);
    let l = o.layout(LayoutRect { x: 0, y: 0, width: 80, height: 24 }, Rect { x: 0, y: 0, width: 80, height: 24 }).unwrap();
    // Dialog 70 x 9 at (5, 7): content (7, 8, 66, 7).
    assert_eq!(l.body, Rect { x: 7, y: 8, width: 66, height: 4 });
    let (sep, cancel, confirm) = l.controls.unwrap();
    assert_eq!(sep, Rect { x: 7, y: 13, width: 66, height: 1 });
    assert_eq!(cancel, Rect { x: 54, y: 14, width: 10, height: 1 });
    assert_eq!(confirm, Rect { x: 65, y: 14, width: 8, height: 1 });
    assert_eq!(o.confirm_rect, Some(confirm));
    assert_eq!(o.handle_confirm_event(press(66, 14), None), Some(ConfirmAction::Confirm));
    assert_eq!(o.handle_confirm_event(press(64, 14), None), None);
    o.close();
    assert!(!o.visible());
}

#[test]
fn keys_move_the_selection() {
    let mut o = ConfirmOverlayComponent::new();
    o.open("t", "b");
    o.handle_confirm_event(key(KeyCode::Left), bound(KeyCode::Left));
    assert!(!o.selected_confirm);
    assert_eq!(o.handle_confirm_event(key(KeyCode::Enter), bound(KeyCode::Enter)), Some(ConfirmAction::Cancel));
    o.handle_confirm_event(key(KeyCode::Right), bound(KeyCode::Right));
    assert!(o.selected_confirm);
    assert_eq!(o.handle_confirm_event(key(KeyCode::Esc), bound(KeyCode::Esc)), Some(ConfirmAction::Cancel));
    assert_eq!(o.handle_confirm_event(InputEvent::Other, None), None);
}

#[test]
fn confirm_default_is_hidden_with_a_plain_dialog() {
    let c = ConfirmOverlayComponent::default();
    assert!(!c.visible());
    assert!(c.body.is_empty());
    assert!(!c.selected_confirm);
    assert_eq!(c.dialog.title, "Dialog");
}

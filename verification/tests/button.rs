use term_wm_ui_components::action::{
    Action, InputEvent, KeyCode, KeyEvent, KeyKind, KeyModifiers, MouseButton, MouseEvent, MouseEventKind,
};
use term_wm_ui_components::button::ButtonComponent;
use term_wm_ui_components::component::Component;
use term_wm_ui_components::geometry::LayoutRect;

fn screen() -> Option<LayoutRect> {
    Some(LayoutRect { x: 0, y: 0, width: 20, height: 3 })
}

fn area(width: u16, height: u16) -> LayoutRect {
    LayoutRect { x: 0, y: 0, width, height }
}

#[test]
fn button_new_stores_label_and_action() {
    let btn = ButtonComponent::new("OK", Action::Quit);
    assert_eq!(btn.label, "OK");
    assert_eq!(btn.action, Action::Quit);
}

#[test]
fn button_desired_height_is_always_3() {
    let btn = ButtonComponent::new("X", Action::Quit);
    assert_eq!(btn.desired_height(0), 3);
    assert_eq!(btn.desired_height(80), 3);
}

#[test]
fn button_render_writes_border_and_label() {
    let btn = ButtonComponent::new("Submit", Action::Quit);
    let (top, mid, bottom) = btn.render_rows(area(20, 3)).unwrap();
    assert!(mid.contains("Submit"), "label should be rendered");
    assert_eq!(top, format!("╭{}╮", "─".repeat(18)));
    assert_eq!(mid, "│      Submit      │");
    assert_eq!(bottom, format!("╰{}╯", "─".repeat(18)));
}

#[test]
fn button_render_centres_odd_padding_to_the_right() {
    let btn = ButtonComponent::new("ab", Action::Quit);
    let (_, mid, _) = btn.render_rows(area(7, 3)).unwrap();
    assert_eq!(mid, "│ ab  │");
}

#[test]
fn button_render_skips_when_width_zero() {
    let btn = ButtonComponent::new("X", Action::Quit);
    assert!(btn.render_rows(area(0, 3)).is_none());
}

#[test]
fn button_render_skips_when_height_too_small() {
    let btn = ButtonComponent::new("X", Action::Quit);
    assert!(btn.render_rows(area(10, 2)).is_none());
}

#[test]
fn button_handle_events_returns_action_on_left_click() {
    let btn = ButtonComponent::new("OK", Action::Quit);
    let event = InputEvent::Mouse(MouseEvent {
        kind: MouseEventKind::Press(MouseButton::Left),
        column: 5,
        row: 1,
    });
    let result = btn.handle_events(event, screen());
    assert!(!result.is_ignored());
}

#[test]
fn button_handle_events_ignores_key_events() {
    let btn = ButtonComponent::new("OK", Action::Quit);
    let event = InputEvent::Key(KeyEvent {
        code: KeyCode::Char('a'),
        modifiers: KeyModifiers::none(),
        kind: KeyKind::Press,
    });
    assert!(btn.handle_events(event, screen()).is_ignored());
}

#[test]
fn button_handle_events_ignores_right_click() {
    let btn = ButtonComponent::new("OK", Action::Quit);
    let event = InputEvent::Mouse(MouseEvent {
        kind: MouseEventKind::Press(MouseButton::Right),
        column: 5,
        row: 1,
    });
    assert!(btn.handle_events(event, screen()).is_ignored());
}

#[test]
fn button_handle_events_ignores_click_outside() {
    let btn = ButtonComponent::new("OK", Action::Quit);
    let event = InputEvent::Mouse(MouseEvent {
        kind: MouseEventKind::Press(MouseButton::Left),
        column: 25,
        row: 1,
    });
    assert!(btn.handle_events(event, screen()).is_ignored());
}

#[test]
fn button_destroy_is_noop() {
    let mut btn = ButtonComponent::new("OK", Action::Quit);
    btn.destroy();
    assert_eq!(btn.label, "OK");
}

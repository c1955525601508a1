use ratatui::style::Color;
use term_wm_ui_components::action::{
    Action, EventResult, InputEvent, KeyCode, KeyEvent, KeyKind, KeyModifiers, MouseButton, MouseEvent,
    MouseEventKind,
};
use term_wm_ui_components::dialog_overlay::DialogOverlayComponent;
use term_wm_ui_components::geometry::{LayoutRect, Rect};

fn area() -> Rect {
    Rect { x: 0, y: 0, width: 80, height: 24 }
}

fn press(column: u16, row: u16) -> InputEvent {
    InputEvent::Mouse(MouseEvent { kind: MouseEventKind::Press(MouseButton::Left), column, row })
}

fn esc() -> InputEvent {
    InputEvent::Key(KeyEvent { code: KeyCode::Esc, modifiers: KeyModifiers::none(), kind: KeyKind::Press })
}

#[test]
fn rect_for_clamps_sizes() {
    let dlg = DialogOverlayComponent::new();
    // tiny area smaller than min width/height
    let r = dlg.rect_for(Rect { x: 0, y: 0, width: 10, height: 2 });
    assert!(r.width >= 1);
    assert!(r.height >= 1);
    // larger area should enforce minimum preferred
    let r2 = dlg.rect_for(Rect { x: 0, y: 0, width: 80, height: 10 });
    assert!(r2.width >= 24);
    assert!(r2.height >= 5);
}

#[test]
fn clicking_outside_closes_when_enabled() {
    let mut dlg = DialogOverlayComponent::new();
    dlg.set_visible(true);
    dlg.set_auto_close_on_outside_click(true);
    let handled = dlg.handle_click_outside(press(0, 0), area());
    assert!(handled);
    assert!(!dlg.visible());
}

#[test]
fn clicking_inside_does_not_close() {
    let mut dlg = DialogOverlayComponent::new();
    dlg.set_visible(true);
    dlg.set_auto_close_on_outside_click(true);
    let rect = dlg.rect_for(area());
    let handled = dlg.handle_click_outside(press(rect.x + rect.width / 2, rect.y + rect.height / 2), area());
    assert!(!handled);
    assert!(dlg.visible());
}

#[test]
fn handle_click_outside_when_not_visible() {
    let mut dlg = DialogOverlayComponent::new();
    dlg.set_visible(false);
    dlg.set_auto_close_on_outside_click(true);
    assert!(!dlg.handle_click_outside(press(0, 0), area()));
}

#[test]
fn handle_click_outside_auto_close_disabled() {
    let mut dlg = DialogOverlayComponent::new();
    dlg.set_visible(true);
    dlg.set_auto_close_on_outside_click(false);
    assert!(!dlg.handle_click_outside(press(0, 0), area()));
    assert!(dlg.visible());
}

#[test]
fn handle_click_outside_non_press_event() {
    let mut dlg = DialogOverlayComponent::new();
    dlg.set_visible(true);
    dlg.set_auto_close_on_outside_click(true);
    let ev = InputEvent::Mouse(MouseEvent { kind: MouseEventKind::Moved, column: 0, row: 0 });
    assert!(!dlg.handle_click_outside(ev, area()));
}

#[test]
fn handle_click_outside_non_mouse_event() {
    let mut dlg = DialogOverlayComponent::new();
    dlg.set_visible(true);
    dlg.set_auto_close_on_outside_click(true);
    assert!(!dlg.handle_click_outside(esc(), area()));
}

#[test]
fn setters_and_getters() {
    let mut dlg = DialogOverlayComponent::new();
    dlg.set_title("My Title");
    assert_eq!(dlg.title, "My Title");
    dlg.set_body("My Body");
    assert_eq!(dlg.body(), "My Body");
    dlg.set_size(100, 30);
    assert_eq!(dlg.width, 100);
    assert_eq!(dlg.height, 30);
    dlg.set_visible(true);
    assert!(dlg.visible());
    dlg.set_bg(Color::Red);
    assert_eq!(dlg.bg, Some(Color::Red));
    dlg.set_dim_backdrop(true);
    assert!(dlg.dim_backdrop);
}

#[test]
fn render_backdrop_with_exclude() {
    let mut dlg = DialogOverlayComponent::new();
    dlg.set_dim_backdrop(true);
    let area = LayoutRect { x: 0, y: 0, width: 10, height: 5 };
    let exclude = Some(LayoutRect { x: 2, y: 1, width: 3, height: 2 });
    assert!(dlg.backdrop_cell(area, exclude, 0, 0));
    assert!(!dlg.backdrop_cell(area, exclude, 3, 2));
    assert!(dlg.backdrop_cell(area, exclude, 5, 2));
    assert!(!dlg.backdrop_cell(area, exclude, 10, 0));
}

#[test]
fn render_backdrop_without_exclude() {
    let mut dlg = DialogOverlayComponent::new();
    dlg.set_dim_backdrop(true);
    let area = LayoutRect { x: 0, y: 0, width: 10, height: 5 };
    let dimmed = (0..10u16).flat_map(|x| (0..5u16).map(move |y| (x, y))).filter(|&(x, y)| dlg.backdrop_cell(area, None, x, y)).count();
    assert_eq!(dimmed, 50);
}

#[test]
fn render_backdrop_not_dimmed() {
    let dlg = DialogOverlayComponent::new();
    let area = LayoutRect { x: 0, y: 0, width: 10, height: 5 };
    assert!(!dlg.backdrop_cell(area, None, 1, 1));
}

#[test]
fn handle_events_returns_ignored() {
    let mut dlg = DialogOverlayComponent::new();
    let result = dlg.handle_events(esc(), area());
    assert!(matches!(result, EventResult::<Action>::Ignored));
}

// ── Further cases ──

#[test]
fn rect_for_centers_the_preferred_size() {
    let dlg = DialogOverlayComponent::new();
    assert_eq!(dlg.rect_for(area()), Rect { x: 5, y: 7, width: 70, height: 9 });
    // Narrow area: clamped to it, at least 24 wide when possible.
    let mut small = DialogOverlayComponent::new();
    small.set_size(10, 2);
    assert_eq!(small.rect_for(area()), Rect { x: 28, y: 9, width: 24, height: 5 });
    assert_eq!(small.rect_for(Rect { x: 3, y: 4, width: 20, height: 4 }), Rect { x: 8, y: 5, width: 10, height: 2 });
}

#[test]
fn closing_click_is_consumed_as_event() {
    let mut dlg = DialogOverlayComponent::new();
    dlg.set_visible(true);
    dlg.set_auto_close_on_outside_click(true);
    assert!(matches!(dlg.handle_events(press(0, 0), area()), EventResult::Consumed));
    assert!(!dlg.visible());
}

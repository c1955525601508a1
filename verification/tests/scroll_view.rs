use term_wm_ui_components::action::{Action, KeyCode, KeyModifiers, MouseButton, MouseEventKind};
use term_wm_ui_components::action::MouseEvent;
use term_wm_ui_components::geometry::LayoutRect;
use term_wm_ui_components::scroll_view::{
    wheel_action, ScrollBounds, ScrollKeyMode, ScrollViewComponent, ScrollbarAxis, ScrollbarDrag, TrackOutcome,
};

struct EventRecorder;

/// The scroll bindings a key matches with the default key map: the plain
/// navigation keys only (a chord matches none).
fn default_matches(code: KeyCode, modifiers: KeyModifiers) -> Vec<Action> {
    if modifiers.control || modifiers.shift || modifiers.alt {
        return Vec::new();
    }
    match code {
        KeyCode::PageUp => vec![Action::ScrollPageUp],
        KeyCode::PageDown => vec![Action::ScrollPageDown],
        KeyCode::Home => vec![Action::ScrollHome],
        KeyCode::End => vec![Action::ScrollEnd],
        KeyCode::Up => vec![Action::ScrollUp],
        KeyCode::Down => vec![Action::ScrollDown],
        _ => Vec::new(),
    }
}

fn press(sv: &ScrollViewComponent<EventRecorder>, code: KeyCode, direct_mode: bool) -> Option<Action> {
    sv.key_action(true, direct_mode, true, &default_matches(code, KeyModifiers::none()))
}

fn viewport(sv: &mut ScrollViewComponent<EventRecorder>, width: usize, height: usize) {
    let b = sv.bounds();
    sv.set_bounds(ScrollBounds { width, height, ..b });
}

#[test]
fn scroll_view_consumes_scroll_in_normal_mode() {
    assert!(wheel_action(MouseEventKind::ScrollDown, false).is_some(), "scroll must be consumed in normal mode");
}

#[test]
fn scroll_view_passes_scroll_in_direct_mode() {
    assert!(wheel_action(MouseEventKind::ScrollDown, true).is_none(), "scroll must NOT be consumed in direct mode");
}

#[test]
fn non_scroll_mouse_events_unaffected_by_direct_mode() {
    let click = MouseEventKind::Press(MouseButton::Left);
    assert!(wheel_action(click, true).is_none(), "non-scroll click should not be consumed regardless");
    assert!(wheel_action(click, false).is_none(), "non-scroll click should not be consumed in normal mode either");
}

#[test]
fn scroll_view_pagination_mode_intercepts_pageup_pagedown() {
    let mut sv = ScrollViewComponent::new(EventRecorder);
    sv.set_keyboard_mode(ScrollKeyMode::PaginationOnly);
    assert!(matches!(press(&sv, KeyCode::PageUp, false), Some(Action::ScrollView(_))), "PaginationOnly must intercept PageUp");
    assert!(
        matches!(press(&sv, KeyCode::PageDown, false), Some(Action::ScrollView(_))),
        "PaginationOnly must intercept PageDown"
    );
}

#[test]
fn scroll_view_pagination_mode_passes_up_down() {
    let mut sv = ScrollViewComponent::new(EventRecorder);
    sv.set_keyboard_mode(ScrollKeyMode::PaginationOnly);
    assert!(press(&sv, KeyCode::Up, false).is_none(), "PaginationOnly must NOT intercept Up");
}

#[test]
fn scroll_view_full_mode_intercepts_all_scroll_keys() {
    let mut sv = ScrollViewComponent::new(EventRecorder);
    sv.set_keyboard_mode(ScrollKeyMode::Full);
    assert_eq!(press(&sv, KeyCode::Up, false), Some(Action::ScrollView(-1)), "Full mode must intercept Up");
    assert_eq!(press(&sv, KeyCode::Home, false), Some(Action::ScrollToTop), "Full mode must intercept Home");
}

#[test]
fn scroll_view_modifier_chords_pass_through() {
    let mut sv = ScrollViewComponent::new(EventRecorder);
    sv.set_keyboard_mode(ScrollKeyMode::Full);
    let ctrl = KeyModifiers { shift: false, control: true, alt: false };
    assert!(
        sv.key_action(true, false, true, &default_matches(KeyCode::Up, ctrl)).is_none(),
        "Ctrl+Up must fall through — modifier mismatch"
    );
    let shift = KeyModifiers { shift: true, control: false, alt: false };
    assert!(
        sv.key_action(true, false, true, &default_matches(KeyCode::PageUp, shift)).is_none(),
        "Shift+PageUp must fall through — modifier mismatch"
    );
}

#[test]
fn scroll_view_direct_mode_passes_all_keys() {
    let mut sv = ScrollViewComponent::new(EventRecorder);
    sv.set_keyboard_mode(ScrollKeyMode::Full);
    assert!(press(&sv, KeyCode::PageUp, true).is_none(), "direct mode must pass all keys through");
}

#[test]
fn scroll_view_none_mode_passes_all_keys() {
    let mut sv = ScrollViewComponent::new(EventRecorder);
    sv.set_keyboard_mode(ScrollKeyMode::Off);
    assert!(press(&sv, KeyCode::PageUp, false).is_none(), "None mode must pass all keys through");
}

#[test]
fn scroll_view_page_keys_scroll_by_viewport_height() {
    let mut sv = ScrollViewComponent::new(EventRecorder);
    viewport(&mut sv, 80, 10);
    assert_eq!(press(&sv, KeyCode::PageDown, false), Some(Action::ScrollView(10)));
    assert_eq!(press(&sv, KeyCode::PageUp, false), Some(Action::ScrollView(-10)));
}

#[test]
fn sticky_bottom_snaps_when_at_bottom() {
    let mut sv = ScrollViewComponent::new(EventRecorder);
    sv.set_sticky_bottom(true);
    viewport(&mut sv, 80, 10);
    sv.set_content_size(80, 100);
    sv.scroll_vertical_to(usize::MAX);
    assert_eq!(sv.bounds().offset_y, 90, "should be at bottom");
    sv.set_content_size(80, 110);
    assert_eq!(sv.bounds().offset_y, 100, "should snap to new bottom (110 - 10 = 100)");
}

#[test]
fn sticky_bottom_stays_when_scrolled_up() {
    let mut sv = ScrollViewComponent::new(EventRecorder);
    sv.set_sticky_bottom(true);
    viewport(&mut sv, 80, 10);
    sv.set_content_size(80, 100);
    sv.scroll_vertical_to(50);
    assert_eq!(sv.bounds().offset_y, 50, "should be at offset 50");
    sv.set_content_size(80, 110);
    assert_eq!(sv.bounds().offset_y, 50, "should stay at offset 50 when not at bottom");
}

#[test]
fn sticky_bottom_disabled_no_snap() {
    let mut sv = ScrollViewComponent::new(EventRecorder);
    viewport(&mut sv, 80, 10);
    sv.set_content_size(80, 100);
    sv.scroll_vertical_to(usize::MAX);
    assert_eq!(sv.bounds().offset_y, 90, "should be at bottom");
    sv.set_content_size(80, 110);
    assert_eq!(sv.bounds().offset_y, 90, "should stay at old bottom when sticky_bottom is false");
}

#[test]
fn scroll_actions_clamp_to_the_content() {
    let mut sv = ScrollViewComponent::new(EventRecorder);
    viewport(&mut sv, 80, 10);
    sv.set_content_size(80, 30);
    assert!(sv.apply_scroll(Action::ScrollView(15)));
    assert_eq!(sv.bounds().offset_y, 15);
    assert!(sv.apply_scroll(Action::ScrollView(15)));
    assert_eq!(sv.bounds().offset_y, 20);
    assert!(sv.apply_scroll(Action::ScrollView(-100)));
    assert_eq!(sv.bounds().offset_y, 0);
    assert!(sv.apply_scroll(Action::ScrollToBottom));
    assert_eq!(sv.bounds().offset_y, 20);
    assert!(!sv.apply_scroll(Action::Help));
}

/// A scrollbar mouse event: the track decision of the library, with the
/// thumb measured and the offset mapped back in floating point.
fn handle_mouse(
    drag: &mut ScrollbarDrag,
    mouse: &MouseEvent,
    area: LayoutRect,
    total: usize,
    view: usize,
    current_offset: usize,
    axis: ScrollbarAxis,
) -> Option<usize> {
    if drag.reset_if_idle(total, view, area) {
        return None;
    }
    let max_offset = total.saturating_sub(view);
    let (pos, start, track_len) = ScrollbarDrag::track_geometry(mouse.column, mouse.row, area, axis);
    let thumb = (((view as f64 / total as f64) * track_len as f64).round() as i32).clamp(1, track_len);
    let available = track_len - thumb;
    if available <= 0 {
        return None;
    }
    let current = ((current_offset as f64 / max_offset as f64) * available as f64).round() as i32;
    match drag.track_event(mouse.kind, pos - start, track_len, thumb, current) {
        TrackOutcome::NoScroll => None,
        TrackOutcome::KeepOffset => Some(current_offset),
        TrackOutcome::ThumbAt(rel) => {
            Some((((rel as f64 / available as f64) * max_offset as f64).round() as usize).min(max_offset))
        },
    }
}

#[test]
fn drag_handle_mouse_lifecycle() {
    let mut drag = ScrollbarDrag::new();
    let area = LayoutRect { x: 0, y: 0, width: 4, height: 6 };
    let (total, view) = (20usize, 5usize);
    let scrollbar_x = area.x.saturating_add(i32::from(area.width.saturating_sub(1))) as u16;
    let down = MouseEvent { kind: MouseEventKind::Press(MouseButton::Left), column: scrollbar_x, row: (area.y + 1) as u16 };
    let resp = handle_mouse(&mut drag, &down, area, total, view, 0, ScrollbarAxis::Vertical);
    assert!(resp.is_some());
    assert!(drag.dragging);
    let current_off = resp.unwrap();

    let drag_evt = MouseEvent { kind: MouseEventKind::Drag(MouseButton::Left), column: scrollbar_x, row: (area.y + 2) as u16 };
    let resp2 = handle_mouse(&mut drag, &drag_evt, area, total, view, current_off, ScrollbarAxis::Vertical);
    assert!(resp2.is_some());
    assert!(drag.dragging);

    let up = MouseEvent { kind: MouseEventKind::Release(MouseButton::Left), column: scrollbar_x, row: (area.y + 2) as u16 };
    let resp3 = handle_mouse(&mut drag, &up, area, total, view, current_off, ScrollbarAxis::Vertical);
    assert!(resp3.is_none());
    assert!(!drag.dragging);
}

#[test]
fn horizontal_drag_handle_mouse_lifecycle() {
    let mut drag = ScrollbarDrag::new();
    let area = LayoutRect { x: 0, y: 0, width: 8, height: 4 };
    let (total, view) = (40usize, 6usize);
    let scrollbar_y = area.y.saturating_add(i32::from(area.height.saturating_sub(1))) as u16;
    let down = MouseEvent { kind: MouseEventKind::Press(MouseButton::Left), column: (area.x + 2) as u16, row: scrollbar_y };
    let resp = handle_mouse(&mut drag, &down, area, total, view, 0, ScrollbarAxis::Horizontal);
    assert!(resp.is_some());
    assert!(drag.dragging);
    let current_off = resp.unwrap();

    let drag_evt = MouseEvent { kind: MouseEventKind::Drag(MouseButton::Left), column: (area.x + 4) as u16, row: scrollbar_y };
    let resp2 = handle_mouse(&mut drag, &drag_evt, area, total, view, current_off, ScrollbarAxis::Horizontal);
    assert!(resp2.is_some());
    assert!(drag.dragging);

    let up = MouseEvent { kind: MouseEventKind::Release(MouseButton::Left), column: (area.x + 4) as u16, row: scrollbar_y };
    let resp3 = handle_mouse(&mut drag, &up, area, total, view, current_off, ScrollbarAxis::Horizontal);
    assert!(resp3.is_none());
    assert!(!drag.dragging);
}

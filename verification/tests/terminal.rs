use term_wm_ui_components::action::KeyCode;
use term_wm_ui_components::scroll_view::{ScrollBounds, ScrollViewComponent};
use term_wm_ui_components::geometry::Rect;
use term_wm_ui_components::terminal::{logical_position, scrolled_scrollback, shift_page_scroll, ScrollSyncStep, TerminalScrollSync};

/// A pane with a fixed scrollback capacity in use.
struct TestPane {
    current_scrollback: usize,
    max_sb: usize,
    alt_screen: bool,
}

impl TestPane {
    fn new(max_sb: usize) -> Self {
        TestPane { current_scrollback: 0, max_sb, alt_screen: false }
    }
    fn set_scrollback(&mut self, rows: usize) {
        self.current_scrollback = rows.min(self.max_sb);
    }
}

/// A viewport 80×24 showing 80×24 of content at the origin.
fn make_handle() -> ScrollViewComponent<()> {
    let mut sv = ScrollViewComponent::new(());
    let b = sv.bounds();
    sv.set_bounds(ScrollBounds { width: 80, height: 24, content_width: 80, content_height: 24, ..b });
    sv
}

/// One frame of a 24-row terminal whose viewport context is at `view_offset`.
fn frame(sync: &mut TerminalScrollSync, pane: &mut TestPane, viewport: &mut ScrollViewComponent<()>, view_offset: usize) {
    if let Some((total, step)) = sync.sync(pane.alt_screen, true, pane.max_sb, 24, pane.current_scrollback, view_offset) {
        viewport.set_content_size(80, total);
        match step {
            ScrollSyncStep::SetScrollback(rows) => pane.set_scrollback(rows),
            ScrollSyncStep::ViewportTo(offset) => viewport.scroll_vertical_to(offset),
            ScrollSyncStep::Keep => {},
        }
    }
    sync.finish_frame(pane.current_scrollback);
}

fn run_sync(sync: &mut TerminalScrollSync, pane: &mut TestPane, view_offset: usize) -> (ScrollBounds, usize) {
    let mut viewport = make_handle();
    frame(sync, pane, &mut viewport, view_offset);
    (viewport.bounds(), pane.current_scrollback)
}

fn term(last_sb: usize, last_max: usize) -> TerminalScrollSync {
    let mut t = TerminalScrollSync::new();
    t.set_last_scrollback(last_sb);
    t.set_last_max_scrollback(last_max);
    t
}

#[test]
fn scroll_sync_current_sb_zero_view_offset_below_last_max_syncs_scrollback() {
    let mut pane = TestPane::new(200);
    let (shared, sb) = run_sync(&mut term(0, 100), &mut pane, 50);
    assert!(sb > 0, "should have scrolled back from viewport offset");
    assert_eq!(sb, pane.max_sb.saturating_sub(50), "scrollback should equal used - view_offset");
    assert_eq!(shared.offset_y, 0, "viewport offset should be 0 (set by content_size init)");
    assert!(shared.pending_offset_y.is_none(), "scroll_vertical_to should not have been called");
}

#[test]
fn scroll_sync_current_sb_zero_view_offset_at_last_max_follows_tail() {
    let (shared, sb) = run_sync(&mut term(0, 100), &mut TestPane::new(200), 99);
    assert_eq!(sb, 0, "should remain at bottom");
    assert_eq!(shared.pending_offset_y, Some(200), "viewport should be scrolled to max (200)");
}

#[test]
fn scroll_sync_current_sb_zero_view_offset_greater_than_last_max_follows_tail() {
    let (shared, sb) = run_sync(&mut term(0, 100), &mut TestPane::new(200), 150);
    assert_eq!(sb, 0, "should remain at bottom");
    assert_eq!(shared.pending_offset_y, Some(200), "viewport should be scrolled to max");
}

#[test]
fn scroll_sync_current_sb_changed_from_last_pushes_to_viewport() {
    let mut pane = TestPane::new(200);
    pane.set_scrollback(50);
    let (shared, sb) = run_sync(&mut term(0, 200), &mut pane, 0);
    assert_eq!(sb, 50, "scrollback unchanged by sync");
    assert_eq!(shared.pending_offset_y, Some(150), "viewport should show offset = used - scrollback = 200-50");
}

#[test]
fn scroll_sync_current_sb_matches_last_syncs_from_viewport() {
    let mut pane = TestPane::new(200);
    pane.set_scrollback(50);
    let (shared, sb) = run_sync(&mut term(50, 200), &mut pane, 100);
    assert_eq!(sb, 100, "should sync scrollback from viewport offset");
    assert_eq!(shared.pending_offset_y, None, "viewport should NOT be scrolled");
}

#[test]
fn scroll_sync_current_sb_matches_last_viewport_same_does_nothing() {
    let mut pane = TestPane::new(200);
    pane.set_scrollback(100);
    let (shared, sb) = run_sync(&mut term(100, 200), &mut pane, 100);
    assert_eq!(sb, 100, "scrollback unchanged");
    assert!(shared.pending_offset_y.is_none(), "viewport unchanged");
}

#[test]
fn scroll_sync_alternate_screen_skips_sync() {
    let mut pane = TestPane::new(200);
    pane.alt_screen = true;
    pane.set_scrollback(50);
    let (shared, sb) = run_sync(&mut term(50, 200), &mut pane, 100);
    assert_eq!(sb, 50, "scrollback should be unchanged during alt screen");
    assert!(shared.pending_offset_y.is_none(), "viewport should NOT be touched during alt screen");
    assert_eq!(shared.content_height, 24, "content size should NOT have been set during alt screen");
}

#[test]
fn scroll_sync_current_sb_zero_view_offset_zero_content_grows() {
    let (shared, sb) = run_sync(&mut term(0, 0), &mut TestPane::new(0), 0);
    assert_eq!(sb, 0, "should stay at bottom");
    assert_eq!(shared.pending_offset_y, Some(0), "viewport should be at 0 (max of 0)");
}

#[test]
fn scroll_sync_user_scrolls_up_then_content_added() {
    let (shared, sb) = run_sync(&mut term(0, 100), &mut TestPane::new(200), 50);
    assert_eq!(sb, 150, "scrollback = used(200) - view_offset(50)");
    assert!(
        shared.pending_offset_y == Some(0) || shared.pending_offset_y.is_none(),
        "viewport offset should be set by set_content_size, not scroll_vertical_to"
    );
}

#[test]
fn scroll_sync_two_renders_user_scrolls_then_stays_synced() {
    let mut sync = TerminalScrollSync::new();
    let mut pane = TestPane::new(100);
    let mut viewport = make_handle();
    frame(&mut sync, &mut pane, &mut viewport, 0);
    // After the first render, last_max=100, last_sb=0, viewport at max (offset=100).
    let offset = viewport.bounds().offset_y;
    frame(&mut sync, &mut pane, &mut viewport, offset);
    assert_eq!(pane.current_scrollback, 0, "at bottom");
    assert_eq!(viewport.bounds().offset_y, 100, "viewport at max");
}

#[test]
fn scroll_sync_user_manually_drags_scrollbar() {
    let (_, sb) = run_sync(&mut term(0, 100), &mut TestPane::new(100), 30);
    assert_eq!(sb, 70, "scrollback = 100 - 30 = 70");
}

#[test]
fn scroll_sync_user_at_bottom_content_grows_pane_updated() {
    let _ = run_sync(&mut TerminalScrollSync::new(), &mut TestPane::new(100), 100);
    let (shared, sb) = run_sync(&mut term(0, 100), &mut TestPane::new(200), 100);
    assert_eq!(sb, 0, "at bottom");
    assert_eq!(shared.pending_offset_y, Some(200), "viewport should follow to new max");
}

#[test]
fn scroll_sync_prevents_stuck_at_top_on_fill() {
    let (shared, _) = run_sync(&mut TerminalScrollSync::new(), &mut TestPane::new(0), 0);
    assert_eq!(shared.offset_y, 0, "empty pane should leave viewport at 0");
    let (shared2, sb) = run_sync(&mut term(0, 0), &mut TestPane::new(100), 0);
    assert_eq!(sb, 0, "content-filled pane should stay at bottom");
    assert_eq!(shared2.offset_y, 100, "viewport should follow new content to max");
}

#[test]
fn terminal_frame_remembers_scrollback_and_hides_cursor_when_scrolled() {
    let mut sync = TerminalScrollSync::default();
    assert!(sync.finish_frame(0));
    assert!(!sync.finish_frame(7));
    assert_eq!(sync.last_scrollback, 7);
}

#[test]
fn terminal_scrollback_scroll_is_clamped() {
    assert_eq!(scrolled_scrollback(5, 10, 12), 12);
    assert_eq!(scrolled_scrollback(5, -10, 12), 0);
    assert_eq!(scrolled_scrollback(5, 3, 12), 8);
}

#[test]
fn terminal_shift_page_keys_scroll_outside_alternate_screen() {
    assert_eq!(shift_page_scroll(KeyCode::PageUp, true, false), Some(10));
    assert_eq!(shift_page_scroll(KeyCode::PageDown, true, false), Some(-10));
    assert_eq!(shift_page_scroll(KeyCode::PageUp, false, false), None);
    assert_eq!(shift_page_scroll(KeyCode::PageUp, true, true), None);
}

#[test]
fn terminal_logical_position_clamps_and_counts_from_scrollback_top() {
    let area = Rect { x: 2, y: 1, width: 10, height: 5 };
    // 100 rows of scrollback, scrolled back 30: the top row is logical row 70.
    assert_eq!(logical_position(area, 4, 1, 100, 30), Some((70, 2)));
    assert_eq!(logical_position(area, 4, 3, 100, 30), Some((72, 2)));
    // Outside the area the point is clamped to its edge.
    assert_eq!(logical_position(area, 0, 0, 100, 30), Some((70, 0)));
    assert_eq!(logical_position(area, 50, 50, 100, 30), Some((74, 9)));
    assert_eq!(logical_position(Rect { x: 0, y: 0, width: 0, height: 5 }, 1, 1, 100, 0), None);
}

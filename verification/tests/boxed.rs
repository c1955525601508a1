use term_wm_ui_components::action::{MouseButton, MouseEventKind};
use term_wm_ui_components::boxed::{top_row, BoxComponent};
use term_wm_ui_components::component::Component;
use term_wm_ui_components::geometry::LayoutRect;

struct SpyChild {
    height: u16,
    destroyed: bool,
}

impl Component for SpyChild {
    fn desired_height(&self, _width: u16) -> u16 {
        self.height
    }
    fn spec_desired_height(&self, _width: u16) -> u16 {
        self.height
    }
    fn spec_destroys(&self, after: &Self) -> bool {
        after.destroyed
    }
    fn destroy(&mut self) {
        self.destroyed = true;
    }
}

fn spy(height: u16) -> SpyChild {
    SpyChild { height, destroyed: false }
}

fn rect(x: i32, y: i32, w: u16, h: u16) -> LayoutRect {
    LayoutRect { x, y, width: w, height: h }
}

#[test]
fn box_render_draws_border_and_title_and_insets_content() {
    let b = BoxComponent::new(spy(1)).with_title("Section");
    let (border, content) = b.layout(rect(0, 0, 20, 5), Some(rect(0, 0, 20, 5)));
    let border = border.unwrap();
    assert!(border.top.starts_with("╭─ Section"), "top border with title: {:?}", border.top);
    assert!(border.middle.contains('│'), "side border: {:?}", border.middle);
    assert!(border.bottom.contains('╰'), "bottom border: {:?}", border.bottom);
    // Content inset by 1 (border) on every side.
    assert_eq!(content.unwrap().1, rect(1, 1, 18, 3));
}

#[test]
fn box_without_border_renders_no_border_and_pads_only() {
    let b = BoxComponent::new(spy(1)).with_border(false).with_padding(2);
    let (border, content) = b.layout(rect(0, 0, 20, 5), Some(rect(0, 0, 20, 5)));
    assert!(border.is_none(), "no border glyphs");
    assert_eq!(content.unwrap().1, rect(2, 2, 16, 1));
}

#[test]
fn box_desired_height_respects_border_and_padding() {
    let on = BoxComponent::new(spy(3)).with_padding(1);
    assert_eq!(on.desired_height(40), 2 + 2 + 3);
    let off = BoxComponent::new(spy(3)).with_border(false).with_padding(1);
    assert_eq!(off.desired_height(40), 2 + 3);
}

#[test]
fn box_desired_height_stretch_propagates() {
    let b = BoxComponent::new(spy(0));
    assert_eq!(b.desired_height(40), 0);
}

#[test]
fn box_down_inside_forwards_down_on_border_ignored() {
    let b = BoxComponent::new(spy(1));
    let screen = Some(rect(0, 0, 20, 5));
    // Inner rect is (1,1,18,3); Press at (5,2) is inside.
    assert_eq!(b.route_mouse(MouseEventKind::Press(MouseButton::Left), 5, 2, screen), Some(rect(1, 1, 18, 3)));
    // Press on the top border (row 0) -> not forwarded.
    assert_eq!(b.route_mouse(MouseEventKind::Press(MouseButton::Left), 5, 0, screen), None);
}

#[test]
fn box_drag_and_up_forward_unconditionally() {
    let b = BoxComponent::new(spy(1));
    let screen = Some(rect(0, 0, 20, 5));
    assert!(b.route_mouse(MouseEventKind::Drag(MouseButton::Left), 0, 0, screen).is_some());
    assert!(b.route_mouse(MouseEventKind::Release(MouseButton::Left), 19, 4, screen).is_some());
}

#[test]
fn box_wide_and_utf8_title_truncates_without_panicking() {
    for title in ["A very long title that cannot fit in ten columns", "键⌘界"] {
        let b = BoxComponent::new(spy(1)).with_title(title);
        let (border, _) = b.layout(rect(0, 0, 12, 3), Some(rect(0, 0, 12, 3)));
        let top = border.unwrap().top;
        assert!(top.starts_with('╭'), "top row starts with corner: {top:?}");
        assert!(top.ends_with('╮'), "top row ends with corner: {top:?}");
    }
}

#[test]
fn box_tiny_area_renders_nothing_without_panicking() {
    let b = BoxComponent::new(spy(1));
    let (border, content) = b.layout(rect(0, 0, 1, 1), None);
    assert!(border.is_none() && content.is_none());
    // Degenerate inner bounds skip the content.
    let (border, content) = b.layout(rect(0, 0, 2, 2), Some(rect(0, 0, 2, 2)));
    assert!(border.is_some());
    assert!(content.is_none());
}

// ── Further cases ──

#[test]
fn top_row_fits_title_and_rule() {
    assert_eq!(top_row(&None, 4), "╭────╮");
    assert_eq!(top_row(&Some("ab".to_string()), 8), "╭─ ab ───╮");
    // Too long: cut to inner width - 3 columns.
    assert_eq!(top_row(&Some("abcdefgh".to_string()), 6), "╭─ abc ╮");
}

#[test]
fn destroy_reaches_the_content() {
    let mut b = BoxComponent::new(spy(1));
    b.destroy();
    assert!(b.content.destroyed);
}

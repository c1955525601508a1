use term_wm_ui_components::component::Component;
use term_wm_ui_components::geometry::LayoutRect;
use term_wm_ui_components::vertical_stack::VerticalStackComponent;

struct FixedHeight {
    h: u16,
    destroyed: bool,
}

impl FixedHeight {
    fn new(h: u16) -> Self {
        FixedHeight { h, destroyed: false }
    }
}

impl Component for FixedHeight {
    fn desired_height(&self, _width: u16) -> u16 {
        self.h
    }
    fn spec_desired_height(&self, _width: u16) -> u16 {
        self.h
    }
    fn spec_destroys(&self, after: &Self) -> bool {
        after.destroyed
    }
    fn destroy(&mut self) {
        self.destroyed = true;
    }
}

fn rect(x: i32, y: i32, width: u16, height: u16) -> LayoutRect {
    LayoutRect { x, y, width, height }
}

#[test]
fn vertical_stack_vertical_stack_new_default() {
    let stack = VerticalStackComponent::<FixedHeight>::new();
    assert_eq!(stack.children.len(), 0);
    assert_eq!(stack.gap, 0);
}

#[test]
fn vertical_stack_vertical_stack_with_gap() {
    let stack = VerticalStackComponent::<FixedHeight>::new().with_gap(2);
    assert_eq!(stack.gap, 2);
}

#[test]
fn vertical_stack_vertical_stack_add_child() {
    let mut stack = VerticalStackComponent::<FixedHeight>::new();
    stack.add(FixedHeight::new(3));
    stack.add(FixedHeight::new(5));
    assert_eq!(stack.children.len(), 2);
}

#[test]
fn vertical_stack_vertical_stack_desired_height_sums_children() {
    let mut stack = VerticalStackComponent::<FixedHeight>::new().with_gap(1);
    stack.add(FixedHeight::new(3));
    stack.add(FixedHeight::new(5));
    // 3 + 5 + 1 gap = 9
    assert_eq!(stack.desired_height(40), 9);
}

#[test]
fn vertical_stack_vertical_stack_desired_height_empty() {
    let stack = VerticalStackComponent::<FixedHeight>::new();
    assert_eq!(stack.desired_height(40), 0);
}

#[test]
fn vertical_stack_vertical_stack_default_trait() {
    let stack = VerticalStackComponent::<FixedHeight>::default();
    assert_eq!(stack.children.len(), 0);
}

#[test]
fn vertical_stack_vertical_stack_render_skips_zero_area() {
    let mut stack = VerticalStackComponent::<FixedHeight>::new();
    stack.add(FixedHeight::new(3));
    let screen = rect(0, 0, 40, 20);
    assert!(stack.render_layouts(rect(0, 0, 0, 20), screen, 0).is_empty());
    assert!(stack.render_layouts(rect(0, 0, 40, 0), screen, 0).is_empty());
}

#[test]
fn vertical_stack_vertical_stack_render_normal() {
    let mut stack = VerticalStackComponent::<FixedHeight>::new().with_gap(1);
    stack.add(FixedHeight::new(3));
    stack.add(FixedHeight::new(5));
    let area = rect(0, 0, 40, 20);
    let layouts = stack.render_layouts(area, area, 0);
    assert_eq!(layouts, vec![(rect(0, 0, 40, 3), rect(0, 0, 40, 3)), (rect(0, 4, 40, 5), rect(0, 4, 40, 5))]);
}

#[test]
fn vertical_stack_vertical_stack_render_stretch_child() {
    let mut stack = VerticalStackComponent::<FixedHeight>::new();
    stack.add(FixedHeight::new(3));
    stack.add(FixedHeight::new(0)); // height 0 = stretch
    let area = rect(0, 0, 40, 20);
    let layouts = stack.render_layouts(area, area, 0);
    assert_eq!(layouts, vec![(rect(0, 0, 40, 3), rect(0, 0, 40, 3)), (rect(0, 3, 40, 17), rect(0, 3, 40, 17))]);
}

#[test]
fn vertical_stack_vertical_stack_render_stretch_child_no_remaining() {
    let mut stack = VerticalStackComponent::<FixedHeight>::new().with_gap(100);
    stack.add(FixedHeight::new(100)); // exceeds area
    stack.add(FixedHeight::new(0));
    let area = rect(0, 0, 40, 10);
    let layouts = stack.render_layouts(area, area, 0);
    assert_eq!(layouts, vec![(rect(0, 0, 40, 100), rect(0, 0, 40, 100))]);
}

#[test]
fn vertical_stack_vertical_stack_handle_events_mouse_outside_ignored() {
    let mut stack = VerticalStackComponent::<FixedHeight>::new();
    stack.add(FixedHeight::new(5));
    assert!(stack.mouse_targets(rect(0, 0, 40, 20), 0, 100, 100).is_empty());
}

#[test]
fn vertical_stack_vertical_stack_handle_events_stretch_child_outside() {
    let mut stack = VerticalStackComponent::<FixedHeight>::new();
    stack.add(FixedHeight::new(3));
    stack.add(FixedHeight::new(0));
    assert!(stack.mouse_targets(rect(0, 0, 40, 20), 0, 100, 100).is_empty());
}

#[test]
fn vertical_stack_vertical_stack_handle_events_stretch_child_exceeds_area() {
    let mut stack = VerticalStackComponent::<FixedHeight>::new().with_gap(100);
    stack.add(FixedHeight::new(100));
    stack.add(FixedHeight::new(0));
    // The stretching child has no row left and is offered nothing.
    assert_eq!(stack.mouse_targets(rect(0, 0, 40, 10), 0, 5, 5), vec![0]);
}

#[test]
fn vertical_stack_vertical_stack_handle_events_child_breaks_when_exceeds_area() {
    let mut stack = VerticalStackComponent::<FixedHeight>::new().with_gap(100);
    stack.add(FixedHeight::new(100));
    stack.add(FixedHeight::new(5));
    // The first child reaches past the area: the walk stops before the second.
    assert_eq!(stack.mouse_targets(rect(0, 0, 40, 10), 0, 5, 5), vec![0]);
}

#[test]
fn vertical_stack_vertical_stack_destroy_propagates() {
    let mut stack = VerticalStackComponent::<FixedHeight>::new();
    stack.add(FixedHeight::new(3));
    stack.destroy();
    assert!(stack.children[0].destroyed);
}

#[test]
fn vertical_stack_mouse_targets_follow_scroll() {
    let mut stack = VerticalStackComponent::<FixedHeight>::new();
    stack.add(FixedHeight::new(2));
    stack.add(FixedHeight::new(2));
    // Scrolled down by 2 rows, the second child sits at rows 0..2.
    assert_eq!(stack.mouse_targets(rect(0, 0, 10, 10), 2, 1, 1), vec![1]);
}

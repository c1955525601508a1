use term_wm_ui_components::component::Component;
use term_wm_ui_components::geometry::LayoutRect;
use term_wm_ui_components::stack::vstack::VerticalStackComponent;

struct FixedHeight {
    h: u16,
    destroyed: bool,
}

impl FixedHeight {
    fn new(h: u16) -> Self {
        FixedHeight { h, destroyed: false }
    }
}

impl Component for FixedHeight {
    fn desired_height(&self, _width: u16) -> u16 {
        self.h
    }
    fn spec_desired_height(&self, _width: u16) -> u16 {
        self.h
    }
    fn spec_destroys(&self, after: &Self) -> bool {
        after.destroyed
    }
    fn destroy(&mut self) {
        self.destroyed = true;
    }
}

fn rect(x: i32, y: i32, width: u16, height: u16) -> LayoutRect {
    LayoutRect { x, y, width, height }
}

#[test]
fn vstack_vertical_stack_new_default() {
    let stack = VerticalStackComponent::<FixedHeight>::new();
    assert_eq!(stack.children.len(), 0);
    assert_eq!(stack.gap, 0);
}

#[test]
fn vstack_vertical_stack_with_gap() {
    let stack = VerticalStackComponent::<FixedHeight>::new().with_gap(2);
    assert_eq!(stack.gap, 2);
}

#[test]
fn vstack_vertical_stack_add_child() {
    let mut stack = VerticalStackComponent::<FixedHeight>::new();
    stack.add(FixedHeight::new(3));
    stack.add(FixedHeight::new(5));
    assert_eq!(stack.children.len(), 2);
}

#[test]
fn vstack_vertical_stack_desired_height_sums_children() {
    let mut stack = VerticalStackComponent::<FixedHeight>::new().with_gap(1);
    stack.add(FixedHeight::new(3));
    stack.add(FixedHeight::new(5));
    // 3 + 5 + 1 gap = 9
    assert_eq!(stack.desired_height(40), 9);
}

#[test]
fn vstack_vertical_stack_desired_height_empty() {
    let stack = VerticalStackComponent::<FixedHeight>::new();
    assert_eq!(stack.desired_height(40), 0);
}

#[test]
fn vstack_vertical_stack_default_trait() {
    let stack = VerticalStackComponent::<FixedHeight>::default();
    assert_eq!(stack.children.len(), 0);
}

#[test]
fn vstack_vertical_stack_render_normal() {
    let mut stack = VerticalStackComponent::<FixedHeight>::new().with_gap(1);
    stack.add(FixedHeight::new(3));
    stack.add(FixedHeight::new(5));
    let area = rect(0, 0, 40, 20);
    let layouts = stack.child_layouts(area, area, 0);
    assert_eq!(layouts, vec![(rect(0, 0, 40, 3), rect(0, 0, 40, 3)), (rect(0, 4, 40, 5), rect(0, 4, 40, 5))]);
}

#[test]
fn vstack_vertical_stack_render_stretch_child() {
    let mut stack = VerticalStackComponent::<FixedHeight>::new();
    stack.add(FixedHeight::new(3));
    stack.add(FixedHeight::new(0));
    let area = rect(0, 0, 40, 20);
    let layouts = stack.child_layouts(area, area, 0);
    assert_eq!(layouts, vec![(rect(0, 0, 40, 3), rect(0, 0, 40, 3)), (rect(0, 3, 40, 17), rect(0, 3, 40, 17))]);
}

#[test]
fn vstack_vertical_stack_render_stretch_child_no_remaining() {
    let mut stack = VerticalStackComponent::<FixedHeight>::new().with_gap(100);
    stack.add(FixedHeight::new(100));
    stack.add(FixedHeight::new(0));
    let area = rect(0, 0, 40, 10);
    let layouts = stack.child_layouts(area, area, 0);
    // The first child already fills the area: the stretching child is not placed.
    assert_eq!(layouts, vec![(rect(0, 0, 40, 100), rect(0, 0, 40, 100))]);
}

#[test]
fn vstack_vertical_stack_destroy_propagates() {
    let mut stack = VerticalStackComponent::<FixedHeight>::new();
    stack.add(FixedHeight::new(3));
    stack.destroy();
    assert!(stack.children[0].destroyed);
}

#[test]
fn vertical_stack_middle_stretch_still_renders_trailing_children() {
    let mut stack = VerticalStackComponent::<FixedHeight>::new().with_gap(1);
    stack.add(FixedHeight::new(1));
    stack.add(FixedHeight::new(0));
    stack.add(FixedHeight::new(3));
    let area = rect(0, 0, 40, 12);
    let layouts = stack.child_layouts(area, area, 0);
    // fixed total 1+3=4, gaps 2, remaining 12-6=6 -> stretch child takes rows 2..8,
    // trailing child at rows 9..12.
    assert_eq!(layouts.len(), 3);
    assert_eq!(layouts[0].1, rect(0, 0, 40, 1));
    assert_eq!(layouts[1].1, rect(0, 2, 40, 6));
    assert_eq!(layouts[2].1, rect(0, 9, 40, 3));
}

#[test]
fn vertical_stack_desired_height_zero_when_child_stretches() {
    let mut stack = VerticalStackComponent::<FixedHeight>::new();
    stack.add(FixedHeight::new(1));
    stack.add(FixedHeight::new(0));
    assert_eq!(stack.desired_height(40), 0);
}

#[test]
fn vstack_layouts_follow_parent_scroll() {
    let mut stack = VerticalStackComponent::<FixedHeight>::new();
    stack.add(FixedHeight::new(2));
    stack.add(FixedHeight::new(2));
    let layouts = stack.child_layouts(rect(0, 0, 10, 10), rect(5, 20, 10, 10), 3);
    assert_eq!(layouts[1], (rect(0, 2, 10, 2), rect(5, 19, 10, 2)));
}

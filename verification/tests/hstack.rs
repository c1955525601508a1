use term_wm_ui_components::component::Component;
use term_wm_ui_components::hstack::HStackComponent;

struct TestChild {
    h: u16,
    destroyed: bool,
}

impl TestChild {
    fn new(h: u16) -> Self {
        TestChild { h, destroyed: false }
    }
}

impl Component for TestChild {
    fn desired_height(&self, _width: u16) -> u16 {
        self.h
    }
    fn spec_desired_height(&self, _width: u16) -> u16 {
        self.h
    }
    fn spec_destroys(&self, after: &Self) -> bool {
        after.destroyed
    }
    fn destroy(&mut self) {
        self.destroyed = true;
    }
}

#[test]
fn hstack_desired_height_stretch_regression() {
    // A stretching child (0) must force the whole row to stretch; a naive
    // max(5, 0) would clamp the row at 5 and cap the terminal.
    let mut stack = HStackComponent::new();
    stack.add(TestChild::new(5));
    stack.add(TestChild::new(0));
    assert_eq!(stack.desired_height(40), 0);
}

#[test]
fn hstack_desired_height_max_of_fixed_children() {
    let mut stack = HStackComponent::new();
    stack.add(TestChild::new(3));
    stack.add(TestChild::new(5));
    assert_eq!(stack.desired_height(40), 5);
}

#[test]
fn hstack_desired_height_empty_is_zero() {
    let stack: HStackComponent<TestChild> = HStackComponent::new();
    assert_eq!(stack.desired_height(40), 0);
}

#[test]
fn hstack_builders_and_destroy() {
    let mut stack = HStackComponent::<TestChild>::default().with_gap(2);
    stack.add(TestChild::new(1));
    stack.add(TestChild::new(2));
    assert_eq!(stack.gap, 2);
    assert_eq!(stack.children.len(), 2);
    stack.destroy();
    assert!(stack.children.iter().all(|c| c.destroyed));
}

use term_wm_ui_components::center::CenterComponent;
use term_wm_ui_components::component::Component;
use term_wm_ui_components::geometry::{LayoutRect, Rect};

struct DummyComponent;
impl Component for DummyComponent {
    fn desired_height(&self, _width: u16) -> u16 {
        7
    }
    fn spec_desired_height(&self, _width: u16) -> u16 {
        7
    }
    fn spec_destroys(&self, _after: &Self) -> bool {
        true
    }
    fn destroy(&mut self) {}
}

#[test]
fn center_desired_height_stretches_to_fill() {
    let center = CenterComponent::new(DummyComponent, 10, 5);
    assert_eq!(center.desired_height(40), 0);
}

#[test]
fn center_inner_rect_calculates_centered_position() {
    let center = CenterComponent::new(DummyComponent, 10, 5);
    let area = Rect { x: 0, y: 0, width: 80, height: 24 };
    let inner = center.inner_rect(area);
    assert_eq!(inner.width, 10);
    assert_eq!(inner.height, 5);
    assert_eq!(inner.x, 35); // (80 - 10) / 2
    assert_eq!(inner.y, 9); // (24 - 5) / 2
}

#[test]
fn center_inner_rect_clamps_to_area() {
    let center = CenterComponent::new(DummyComponent, 200, 200);
    let area = Rect { x: 0, y: 0, width: 80, height: 24 };
    let inner = center.inner_rect(area);
    assert_eq!(inner.width, 80);
    assert_eq!(inner.height, 24);
}

#[test]
fn center_render_areas_rebind_screen_position() {
    let center = CenterComponent::new(DummyComponent, 10, 5);
    let area = LayoutRect { x: 0, y: 0, width: 80, height: 24 };
    let screen = LayoutRect { x: 100, y: 50, width: 80, height: 24 };
    let (local, child_screen) = center.render_areas(area, screen);
    assert_eq!(local, LayoutRect { x: 35, y: 9, width: 10, height: 5 });
    assert_eq!(child_screen, LayoutRect { x: 135, y: 59, width: 10, height: 5 });
    assert_eq!(center.event_area(area), LayoutRect { x: 35, y: 9, width: 10, height: 5 });
}

#[test]
fn center_destroy_calls_child_destroy() {
    let mut center = CenterComponent::new(DummyComponent, 10, 5);
    center.destroy();
}

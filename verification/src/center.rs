use vstd::prelude::*;
use crate::component::Component;
use crate::geometry::{
    layout_rect_to_clipped_rect, spec_clipped_rect, add_i32_sat, sub_i32_sat, sat_add_i32,
    sat_sub_i32, LayoutRect, Rect,
};

verus! {

/// Centers a fixed-size content component inside whatever area it is given.
pub struct CenterComponent<C> {
    content: C,
    content_size: (u16, u16),
}

/// The centered rect of a `width`×`height` content inside `area`: the size
/// is clamped to the area and the slack is split evenly (the odd cell goes
/// right/below).
pub open spec fn spec_centered(area: Rect, width: u16, height: u16) -> Rect {
    let w = if width < area.width { width } else { area.width };
    let h = if height < area.height { height } else { area.height };
    Rect {
        x: (area.x + (area.width - w) / 2) as u16,
        y: (area.y + (area.height - h) / 2) as u16,
        width: w,
        height: h,
    }
}

/// The centering offsets fit in `u16` coordinates.
pub open spec fn centering_fits(area: Rect, width: u16, height: u16) -> bool {
    let w = if width < area.width { width } else { area.width };
    let h = if height < area.height { height } else { area.height };
    &&& area.x + (area.width - w) / 2 <= u16::MAX
    &&& area.y + (area.height - h) / 2 <= u16::MAX
}

/// A `u16` rect as a signed layout rect.
pub open spec fn spec_to_layout(r: Rect) -> LayoutRect {
    LayoutRect { x: r.x as i32, y: r.y as i32, width: r.width, height: r.height }
}

impl<C> CenterComponent<C> {
    pub closed spec fn content_view(self) -> C {
        self.content
    }

    /// The requested content size (width, height).
    pub closed spec fn size_view(self) -> (u16, u16) {
        self.content_size
    }

    pub fn new(content: C, width: u16, height: u16) -> (r: Self)
        ensures
            r.content_view() == content,
            r.size_view() == (width, height),
    {
        Self { content, content_size: (width, height) }
    }

    /// The rect the content occupies inside `area`.
    pub fn inner_rect(&self, area: Rect) -> (r: Rect)
        requires
            centering_fits(area, self.size_view().0, self.size_view().1),
        ensures
            r == spec_centered(area, self.size_view().0, self.size_view().1),
            area.x <= r.x,
            r.x + r.width <= area.x + area.width,
            area.y <= r.y,
            r.y + r.height <= area.y + area.height,
    {
        let width = if self.content_size.0 < area.width { self.content_size.0 } else { area.width };
        let height = if self.content_size.1 < area.height { self.content_size.1 } else { area.height };
        let x = area.x + (area.width - width) / 2;
        let y = area.y + (area.height - height) / 2;
        Rect { x, y, width, height }
    }

    /// Where the content is drawn when the center renders into local `area`
    /// whose screen position is `screen`: the centered rect in local
    /// coordinates and the same rect in screen coordinates.
    pub fn render_areas(&self, area: LayoutRect, screen: LayoutRect) -> (r: (LayoutRect, LayoutRect))
        requires
            centering_fits(spec_clipped_rect(area), self.size_view().0, self.size_view().1),
        ensures
            ({
                let inner = spec_to_layout(
                    spec_centered(spec_clipped_rect(area), self.size_view().0, self.size_view().1),
                );
                &&& r.0 == inner
                &&& r.1 == LayoutRect {
                    x: sat_add_i32(screen.x as int, sat_sub_i32(inner.x as int, area.x as int)) as i32,
                    y: sat_add_i32(screen.y as int, sat_sub_i32(inner.y as int, area.y as int)) as i32,
                    width: inner.width,
                    height: inner.height,
                }
            }),
    {
        let inner = self.inner_rect(layout_rect_to_clipped_rect(area));
        let inner_lr = LayoutRect {
            x: inner.x as i32,
            y: inner.y as i32,
            width: inner.width,
            height: inner.height,
        };
        let child_screen = LayoutRect {
            x: add_i32_sat(screen.x, sub_i32_sat(inner_lr.x, area.x)),
            y: add_i32_sat(screen.y, sub_i32_sat(inner_lr.y, area.y)),
            width: inner_lr.width,
            height: inner_lr.height,
        };
        (inner_lr, child_screen)
    }

    /// The screen area the content sees events in when the center occupies
    /// `screen`.
    pub fn event_area(&self, screen: LayoutRect) -> (r: LayoutRect)
        requires
            centering_fits(spec_clipped_rect(screen), self.size_view().0, self.size_view().1),
        ensures
            r == spec_to_layout(
                spec_centered(spec_clipped_rect(screen), self.size_view().0, self.size_view().1),
            ),
    {
        let inner = self.inner_rect(layout_rect_to_clipped_rect(screen));
        LayoutRect { x: inner.x as i32, y: inner.y as i32, width: inner.width, height: inner.height }
    }
}

impl<C: Component> Component for CenterComponent<C> {
    /// A center always stretches (`0`), so it fills its region and can
    /// visibly center its content inside it.
    open spec fn spec_desired_height(&self, width: u16) -> u16 {
        0
    }

    fn desired_height(&self, width: u16) -> (h: u16) {
        0
    }

    /// Destroying a center destroys its content.
    /// Destroying a centering wrapper destroys its content and keeps its size.
    open spec fn spec_destroys(&self, after: &Self) -> bool {
        &&& self.content_view().spec_destroys(&after.content_view())
        &&& after.size_view() == self.size_view()
    }

    fn destroy(&mut self) {
        self.content.destroy();
    }
}

} // verus!

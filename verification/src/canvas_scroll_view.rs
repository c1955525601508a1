use vstd::prelude::*;
use crate::component::Component;
use crate::geometry::{sat_sub, LayoutRect};

verus! {

/// Determines how `CanvasScrollView` computes its virtual canvas width.
#[derive(Debug, Clone, Copy, PartialEq, Eq, Structural)]
pub enum CanvasSizingPolicy {
    /// Lock `content_width` to `area.width`.  Prevents horizontal scrollbars
    /// on 1D vertical stacks (lists, forms, panels).
    FitViewportWidth,
    /// Fixed virtual width for 2D scrollable content (wide tables, ASCII art).
    Fixed(u16),
}

/// Offscreen canvas adapter for a scroll view: the content is laid out on a
/// virtual canvas at `(0, 0)` and only the visible slice is copied to the
/// screen.
pub struct CanvasScrollView<C> {
    pub inner: C,
    pub sizing_policy: CanvasSizingPolicy,
    content_width: u16,
    content_height: u16,
}

/// The canvas width for a viewport of `viewport_width` columns.
pub open spec fn spec_effective_width(policy: CanvasSizingPolicy, viewport_width: u16) -> u16 {
    match policy {
        CanvasSizingPolicy::FitViewportWidth => viewport_width,
        CanvasSizingPolicy::Fixed(w) => w,
    }
}

/// The part of the canvas copied to the screen: the source origin (the
/// scroll offsets, as the `u16` the copy uses) and the copied width and
/// height (the area, cut at the canvas edge).
pub open spec fn spec_blit_region(area: LayoutRect, canvas_w: u16, canvas_h: u16, offset_x: usize, offset_y: usize) -> (u16, u16, u16, u16) {
    let sx = offset_x as u16;
    let sy = offset_y as u16;
    let cw = sat_sub(canvas_w as int, sx as int);
    let ch = sat_sub(canvas_h as int, sy as int);
    (sx, sy, (if area.width < cw { area.width as int } else { cw }) as u16, (if area.height < ch {
        area.height as int
    } else {
        ch
    }) as u16)
}

/// The copy region of a canvas blit (see [`spec_blit_region`]).
pub fn blit_region(area: LayoutRect, canvas_w: u16, canvas_h: u16, offset_x: usize, offset_y: usize) -> (r: (u16, u16, u16, u16))
    ensures
        r == spec_blit_region(area, canvas_w, canvas_h, offset_x, offset_y),
        r.0 + r.2 <= canvas_w || r.2 == 0,
        r.1 + r.3 <= canvas_h || r.3 == 0,
{
    let src_start_x = offset_x as u16;
    let src_start_y = offset_y as u16;
    let cw = canvas_w.saturating_sub(src_start_x);
    let ch = canvas_h.saturating_sub(src_start_y);
    let copy_width = if area.width < cw { area.width } else { cw };
    let copy_height = if area.height < ch { area.height } else { ch };
    (src_start_x, src_start_y, copy_width, copy_height)
}

/// The screen cell that copied cell `(x, y)` of the region lands on, or
/// `None` when it falls outside a `dst_w`×`dst_h` screen.
pub fn blit_target(area: LayoutRect, x: u16, y: u16, dst_w: u16, dst_h: u16) -> (r: Option<(u16, u16)>)
    ensures
        ({
            let dx = area.x + x;
            let dy = area.y + y;
            r == if 0 <= dx < dst_w && 0 <= dy < dst_h { Some((dx as u16, dy as u16)) } else { None }
        }),
{
    let dst_x: i64 = area.x as i64 + x as i64;
    let dst_y: i64 = area.y as i64 + y as i64;
    if dst_y < 0 || dst_y >= dst_h as i64 || dst_x < 0 || dst_x >= dst_w as i64 {
        return None;
    }
    Some((dst_x as u16, dst_y as u16))
}

impl<C> CanvasScrollView<C> {
    /// The last measured canvas size (width, height).
    pub closed spec fn inner_view(self) -> C {
        self.inner
    }

    pub closed spec fn policy_view(self) -> CanvasSizingPolicy {
        self.sizing_policy
    }

    pub closed spec fn canvas_size(self) -> (u16, u16) {
        (self.content_width, self.content_height)
    }

    pub fn new(inner: C, policy: CanvasSizingPolicy) -> (r: Self)
        ensures
            r.inner_view() == inner,
            r.policy_view() == policy,
            r.canvas_size() == (0u16, 0u16),
    {
        Self { inner, sizing_policy: policy, content_width: 0, content_height: 0 }
    }

    /// The canvas width for a viewport of `viewport_width` columns.
    pub fn effective_width(&self, viewport_width: u16) -> (r: u16)
        ensures
            r == spec_effective_width(self.policy_view(), viewport_width),
    {
        match self.sizing_policy {
            CanvasSizingPolicy::FitViewportWidth => viewport_width,
            CanvasSizingPolicy::Fixed(w) => w,
        }
    }
}

impl<C: Component> CanvasScrollView<C> {
    /// Measure the canvas for an `area_width`-column viewport: `None` (and
    /// nothing recorded) when either side is empty, else the recorded
    /// canvas size.
    pub fn measure(&mut self, area_width: u16) -> (r: Option<(u16, u16)>)
        ensures
            ({
                let w = spec_effective_width(old(self).policy_view(), area_width);
                let h = old(self).inner_view().spec_desired_height(w);
                &&& r == if w == 0 || h == 0 { None } else { Some((w, h)) }
                &&& r matches Some(s) ==> final(self).canvas_size() == s
                &&& r is None ==> final(self).canvas_size() == old(self).canvas_size()
            }),
            final(self).inner_view() == old(self).inner_view(),
            final(self).policy_view() == old(self).policy_view(),
    {
        let virtual_width = self.effective_width(area_width);
        let virtual_height = self.inner.desired_height(virtual_width);
        if virtual_width == 0 || virtual_height == 0 {
            return None;
        }
        self.content_width = virtual_width;
        self.content_height = virtual_height;
        Some((virtual_width, virtual_height))
    }

    /// The canvas size events are interpreted against: the measured one, or
    /// (before the first render) the size the screen width implies; `None`
    /// when empty, in which case the event is ignored.
    pub fn event_canvas(&self, screen_width: u16) -> (r: Option<(u16, u16)>)
        ensures
            ({
                let cw = if self.canvas_size().0 == 0 {
                    spec_effective_width(self.policy_view(), screen_width)
                } else {
                    self.canvas_size().0
                };
                let ch = if self.canvas_size().1 == 0 {
                    self.inner_view().spec_desired_height(cw)
                } else {
                    self.canvas_size().1
                };
                r == if cw == 0 || ch == 0 { None } else { Some((cw, ch)) }
            }),
    {
        let cw = if self.content_width == 0 { self.effective_width(screen_width) } else { self.content_width };
        let ch = if self.content_height == 0 { self.inner.desired_height(cw) } else { self.content_height };
        if cw == 0 || ch == 0 {
            return None;
        }
        Some((cw, ch))
    }
}

impl<C: Component> Component for CanvasScrollView<C> {
    /// A canvas asks for its content's height at the canvas width.
    open spec fn spec_desired_height(&self, width: u16) -> u16 {
        self.inner_view().spec_desired_height(spec_effective_width(self.policy_view(), width))
    }

    fn desired_height(&self, width: u16) -> (h: u16) {
        let eff_w = self.effective_width(width);
        self.inner.desired_height(eff_w)
    }

    /// Destroying a canvas view destroys its inner component and keeps its canvas.
    open spec fn spec_destroys(&self, after: &Self) -> bool {
        &&& self.inner_view().spec_destroys(&after.inner_view())
        &&& after.policy_view() == self.policy_view()
        &&& after.canvas_size() == self.canvas_size()
    }

    fn destroy(&mut self) {
        self.inner.destroy();
    }
}

} // verus!

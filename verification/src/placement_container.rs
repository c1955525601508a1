//! A container that places its content on the screen: centred at a size,
//! or anchored at a point inside a managed area.
use vstd::prelude::*;
use crate::geometry::{sat_sub, LayoutRect};
use crate::modal_container::{modal_rect, spec_modal_rect};

verus! {

/// Where the content goes.
#[derive(Debug, Clone, Copy, PartialEq, Eq, Structural)]
pub enum Placement {
    /// Centred in the area given to the container, at this size (clamped to
    /// the area).
    Centered { width: u16, height: u16 },
    /// With its top-left corner at `(x, y)`, cut to what is left of
    /// `managed_area` from there.
    Anchored { x: u16, y: u16, managed_area: LayoutRect, content_width: u16, content_height: u16 },
}

/// A placed content component; it remembers the rect of its last render,
/// where mouse events are delivered to the content.
pub struct PlacementContainerComponent<C> {
    pub content: C,
    pub placement: Placement,
    pub content_rect_cache: Option<LayoutRect>,
}

/// `v` clamped at zero and cut to `u16`.
pub open spec fn origin_u16(v: i32) -> int {
    (if v > 0 { v as int } else { 0 }) % 65536
}

/// The most an anchored content can span from `pos` in a managed span
/// starting at `start` and `size` long: what is left of it, at least one.
pub open spec fn anchored_max(pos: u16, start: i32, size: u16) -> u16 {
    let m = sat_sub(size as int, sat_sub(pos as int, origin_u16(start)));
    (if m > 1 { m } else { 1 }) as u16
}

/// The content rect for `placement` in `area`.
pub open spec fn spec_content_rect(placement: Placement, area: LayoutRect) -> LayoutRect {
    match placement {
        Placement::Centered { width, height } => spec_modal_rect(area, width, height),
        Placement::Anchored { x, y, managed_area, content_width, content_height } => {
            let max_w = anchored_max(x, managed_area.x, managed_area.width);
            let max_h = anchored_max(y, managed_area.y, managed_area.height);
            LayoutRect {
                x: x as i32,
                y: y as i32,
                width: if content_width < max_w { content_width } else { max_w },
                height: if content_height < max_h { content_height } else { max_h },
            }
        },
    }
}

fn anchored_limit(pos: u16, start: i32, size: u16) -> (r: u16)
    ensures
        r == anchored_max(pos, start, size),
{
    let s: i32 = if start > 0 { start } else { 0 };
    let s16: u16 = (s % 65536) as u16;
    let m = size.saturating_sub(pos.saturating_sub(s16));
    if m > 1 { m } else { 1 }
}

impl<C> PlacementContainerComponent<C> {
    /// The content.
    pub open spec fn content_view(self) -> C {
        self.content
    }

    /// The rect of the last render, if any.
    pub open spec fn cached_rect(self) -> Option<LayoutRect> {
        self.content_rect_cache
    }

    /// A container placing `content` by `placement`, not yet rendered.
    pub fn new(content: C, placement: Placement) -> (r: Self)
        ensures
            r.content_view() == content,
            r.placement == placement,
            r.cached_rect() is None,
    {
        PlacementContainerComponent { content, placement, content_rect_cache: None }
    }

    /// Change where the content goes (from the next render on).
    pub fn set_placement(&mut self, placement: Placement)
        ensures
            final(self).placement == placement,
            final(self).content_view() == old(self).content_view(),
            final(self).cached_rect() == old(self).cached_rect(),
    {
        self.placement = placement;
    }

    /// The rect of the last render, if any.
    pub fn content_rect(&self) -> (r: Option<LayoutRect>)
        ensures
            r == self.cached_rect(),
    {
        self.content_rect_cache
    }

    /// The content.
    pub fn inner(&self) -> (r: &C)
        ensures
            *r == self.content_view(),
    {
        &self.content
    }

    /// The content, to change it.
    pub fn inner_mut(&mut self) -> (r: &mut C)
        ensures
            *r == old(self).content_view(),
            final(self).content_view() == *final(r),
            final(self).placement == old(self).placement,
            final(self).cached_rect() == old(self).cached_rect(),
    {
        &mut self.content
    }

    /// The content rect for the current placement in `area` (see
    /// [`spec_content_rect`]).
    pub fn compute_content_rect(&self, area: LayoutRect) -> (r: LayoutRect)
        ensures
            r == spec_content_rect(self.placement, area),
    {
        match self.placement {
            Placement::Centered { width, height } => modal_rect(area, width, height),
            Placement::Anchored { x, y, managed_area, content_width, content_height } => {
                let max_w = anchored_limit(x, managed_area.x, managed_area.width);
                let max_h = anchored_limit(y, managed_area.y, managed_area.height);
                LayoutRect {
                    x: x as i32,
                    y: y as i32,
                    width: if content_width < max_w { content_width } else { max_w },
                    height: if content_height < max_h { content_height } else { max_h },
                }
            },
        }
    }

    /// Plan a render into `area`: the content rect, remembered for mouse
    /// events, or nothing (and nothing remembered) when it is empty.
    pub fn render_plan(&mut self, area: LayoutRect) -> (r: Option<LayoutRect>)
        ensures
            ({
                let c = spec_content_rect(old(self).placement, area);
                if c.width == 0 || c.height == 0 {
                    r is None && final(self).cached_rect() == old(self).cached_rect()
                } else {
                    r == Some(c) && final(self).cached_rect() == Some(c)
                }
            }),
            final(self).placement == old(self).placement,
            final(self).content_view() == old(self).content_view(),
    {
        let c = self.compute_content_rect(area);
        if c.width == 0 || c.height == 0 {
            return None;
        }
        self.content_rect_cache = Some(c);
        Some(c)
    }

    /// The screen area the content sees for an event: the rendered rect
    /// for a mouse event once rendered, else the container's own `screen`.
    pub fn event_area(&self, is_mouse: bool, screen: Option<LayoutRect>) -> (r: Option<LayoutRect>)
        ensures
            r == (if is_mouse && self.cached_rect() is Some { self.cached_rect() } else { screen }),
    {
        if is_mouse {
            match self.content_rect_cache {
                Some(c) => return Some(c),
                None => {},
            }
        }
        screen
    }
}

} // verus!

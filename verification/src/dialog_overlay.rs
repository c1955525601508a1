//! A centered modal dialog with a title and a body, optionally dimming what
//! lies behind it and closing on a click outside.
use vstd::prelude::*;
use ratatui::style::Color;
use crate::action::{Action, EventResult, InputEvent, MouseEventKind};
use crate::geometry::{layout_rect_to_clipped_rect, rect_contains, sat_add_u16, sat_sub, spec_clipped_rect, LayoutRect, Rect};
use crate::text::push_str;

verus! {

/// The colour type of the terminal renderer, carried through untouched.
#[verifier::external_type_specification]
#[verifier::external_body]
pub struct ExColor(Color);

/// A centered dialog.
pub struct DialogOverlayComponent {
    pub title: String,
    pub body: String,
    pub visible: bool,
    /// Preferred size.
    pub width: u16,
    pub height: u16,
    /// Background colour; `None` uses the theme's dialog background.
    pub bg: Option<Color>,
    pub dim_backdrop: bool,
    pub auto_close_on_outside_click: bool,
}

/// The dialog's rect in `area`: the preferred size clamped to the area (at
/// least one cell), but at least 24 columns and 5 rows where the area has
/// them, centered.
pub open spec fn spec_rect_for(area: Rect, pref_w: u16, pref_h: u16) -> Rect {
    let w0 = if area.width < pref_w { area.width } else { pref_w };
    let w1 = if w0 > 1 { w0 } else { 1 };
    let width = if area.width >= 24 && w1 < 24 { 24 } else { w1 };
    let h0 = if area.height < pref_h { area.height } else { pref_h };
    let h1 = if h0 > 1 { h0 } else { 1 };
    let height = if area.height >= 5 && h1 < 5 { 5 } else { h1 };
    Rect {
        x: sat_add_u16(area.x as int, sat_sub(area.width as int, width as int) / 2) as u16,
        y: sat_add_u16(area.y as int, sat_sub(area.height as int, height as int) / 2) as u16,
        width,
        height,
    }
}

/// Whether the cell `(x, y)` lies in `r`.
pub open spec fn holds_cell(r: Rect, x: int, y: int) -> bool {
    r.x <= x < r.x + r.width && r.y <= y < r.y + r.height
}


/// The dialog stays inside a non-empty area that does not reach the edge
/// of the coordinate space.
pub proof fn lemma_rect_for_inside(area: Rect, pref_w: u16, pref_h: u16)
    requires
        area.width > 0,
        area.height > 0,
        area.x + area.width <= u16::MAX,
        area.y + area.height <= u16::MAX,
    ensures
        ({
            let r = spec_rect_for(area, pref_w, pref_h);
            &&& r.width >= 1 && r.height >= 1
            &&& area.x <= r.x && r.x + r.width <= area.x + area.width
            &&& area.y <= r.y && r.y + r.height <= area.y + area.height
        }),
{
}

fn text_of(s: &str) -> (r: String)
    ensures
        r@ == s@,
{
    let mut out = String::new();
    push_str(&mut out, s);
    proof {
        assert(out@ =~= s@);
    }
    out
}

impl DialogOverlayComponent {
    /// A hidden 70 x 9 dialog titled "Dialog".
    pub fn new() -> (r: Self)
        ensures
            r.title@ == "Dialog"@,
            r.body@.len() == 0,
            !r.visible,
            r.width == 70,
            r.height == 9,
            r.bg is None,
            !r.dim_backdrop,
            !r.auto_close_on_outside_click,
    {
        DialogOverlayComponent {
            title: text_of("Dialog"),
            body: String::new(),
            visible: false,
            width: 70,
            height: 9,
            bg: None,
            dim_backdrop: false,
            auto_close_on_outside_click: false,
        }
    }

    pub fn set_auto_close_on_outside_click(&mut self, v: bool)
        ensures
            *final(self) == (DialogOverlayComponent { auto_close_on_outside_click: v, ..*old(self) }),
    {
        self.auto_close_on_outside_click = v;
    }

    /// The dialog's rect in `area` (see [`spec_rect_for`]).
    pub fn rect_for(&self, area: Rect) -> (r: Rect)
        ensures
            r == spec_rect_for(area, self.width, self.height),
    {
        let w0 = if area.width < self.width { area.width } else { self.width };
        let w1 = if w0 > 1 { w0 } else { 1 };
        let width = if area.width >= 24 && w1 < 24 { 24 } else { w1 };
        let h0 = if area.height < self.height { area.height } else { self.height };
        let h1 = if h0 > 1 { h0 } else { 1 };
        let height = if area.height >= 5 && h1 < 5 { 5 } else { h1 };
        Rect {
            x: area.x.saturating_add(area.width.saturating_sub(width) / 2),
            y: area.y.saturating_add(area.height.saturating_sub(height) / 2),
            width,
            height,
        }
    }

    /// A press outside the visible dialog closes it (when enabled) and is
    /// consumed (`true`); anything else is left alone (`false`).
    pub fn handle_click_outside(&mut self, event: InputEvent, area: Rect) -> (r: bool)
        ensures
            r == (old(self).visible && old(self).auto_close_on_outside_click && match event {
                InputEvent::Mouse(m) => m.kind is Press && !holds_cell(
                    spec_rect_for(area, old(self).width, old(self).height),
                    m.column as int,
                    m.row as int,
                ),
                _ => false,
            }),
            *final(self) == (DialogOverlayComponent { visible: old(self).visible && !r, ..*old(self) }),
    {
        if !self.visible || !self.auto_close_on_outside_click {
            return false;
        }
        let mouse = match event {
            InputEvent::Mouse(m) => m,
            _ => return false,
        };
        match mouse.kind {
            MouseEventKind::Press(_) => {},
            _ => return false,
        }
        let rect = self.rect_for(area);
        let lr = LayoutRect { x: rect.x as i32, y: rect.y as i32, width: rect.width, height: rect.height };
        let outside = !rect_contains(lr, mouse.column, mouse.row);
        if outside {
            self.visible = false;
            return true;
        }
        false
    }

    /// Answer an event on a screen of `screen` cells: a click that closes
    /// the dialog is consumed, anything else ignored.
    pub fn handle_events(&mut self, event: InputEvent, screen: Rect) -> (r: EventResult<Action>)
        ensures
            r == (if old(self).visible && old(self).auto_close_on_outside_click && match event {
                InputEvent::Mouse(m) => m.kind is Press && !holds_cell(
                    spec_rect_for(screen, old(self).width, old(self).height),
                    m.column as int,
                    m.row as int,
                ),
                _ => false,
            } {
                EventResult::<Action>::Consumed
            } else {
                EventResult::<Action>::Ignored
            }),
            final(self).visible == (old(self).visible && r is Ignored),
            *final(self) == (DialogOverlayComponent { visible: final(self).visible, ..*old(self) }),
    {
        if self.handle_click_outside(event, screen) {
            EventResult::Consumed
        } else {
            EventResult::Ignored
        }
    }

    pub fn set_visible(&mut self, visible: bool)
        ensures
            *final(self) == (DialogOverlayComponent { visible: visible, ..*old(self) }),
    {
        self.visible = visible;
    }

    pub fn set_title(&mut self, title: &str)
        ensures
            final(self).title@ == title@,
            *final(self) == (DialogOverlayComponent { title: final(self).title, ..*old(self) }),
    {
        self.title = text_of(title);
    }

    pub fn set_body(&mut self, body: &str)
        ensures
            final(self).body@ == body@,
            *final(self) == (DialogOverlayComponent { body: final(self).body, ..*old(self) }),
    {
        self.body = text_of(body);
    }

    pub fn body(&self) -> (r: &str)
        ensures
            r@ == self.body@,
    {
        self.body.as_str()
    }

    /// Set the preferred size.
    pub fn set_size(&mut self, width: u16, height: u16)
        ensures
            *final(self) == (DialogOverlayComponent { width: width, height: height, ..*old(self) }),
    {
        self.width = width;
        self.height = height;
    }

    pub fn set_bg(&mut self, bg: Color)
        ensures
            *final(self) == (DialogOverlayComponent { bg: Some(bg), ..*old(self) }),
    {
        self.bg = Some(bg);
    }

    pub fn set_dim_backdrop(&mut self, dim: bool)
        ensures
            *final(self) == (DialogOverlayComponent { dim_backdrop: dim, ..*old(self) }),
    {
        self.dim_backdrop = dim;
    }

    pub fn visible(&self) -> (r: bool)
        ensures
            r == self.visible,
    {
        self.visible
    }

    /// Whether the backdrop dims cell `(x, y)`: when dimming is on, the
    /// cells of the (clipped) area outside the (clipped) excluded rect.
    pub fn backdrop_cell(&self, area: LayoutRect, exclude: Option<LayoutRect>, x: u16, y: u16) -> (r: bool)
        ensures
            r == (self.dim_backdrop && holds_cell(spec_clipped_rect(area), x as int, y as int) && match exclude {
                Some(ex) => !holds_cell(spec_clipped_rect(ex), x as int, y as int),
                None => true,
            }),
    {
        if !self.dim_backdrop {
            return false;
        }
        let a = layout_rect_to_clipped_rect(area);
        if !cell_of(a, x, y) {
            return false;
        }
        match exclude {
            Some(ex) => !cell_of(layout_rect_to_clipped_rect(ex), x, y),
            None => true,
        }
    }
}

fn cell_of(r: Rect, x: u16, y: u16) -> (b: bool)
    ensures
        b == holds_cell(r, x as int, y as int),
{
    (x as u32) >= r.x as u32 && (x as u32) < r.x as u32 + r.width as u32 && (y as u32) >= r.y as u32 && (y as u32)
        < r.y as u32 + r.height as u32
}

} // verus!

//! A clickable button drawn as a rounded box around a centred label.
use vstd::prelude::*;
use crate::action::{Action, EventResult, InputEvent, MouseButton, MouseEventKind};
use crate::boxed::{push_repeat, repeat};
use crate::component::Component;
use crate::geometry::{localize_coordinate, sat_add_i32, LayoutRect};
use crate::text::{char_count, push_str, spaces};

verus! {

/// A button that emits `action` when clicked with the left mouse button.
pub struct ButtonComponent {
    pub label: String,
    pub action: Action,
}

/// The three rows of a button `width` cells wide with `label` centred in
/// the middle one (a label wider than the inside is not cut).
pub open spec fn spec_button_rows(label: Seq<char>, width: u16) -> (Seq<char>, Seq<char>, Seq<char>) {
    let inner = if width >= 2 { width - 2 } else { 0 };
    let pad = if label.len() < inner { inner - label.len() } else { 0 };
    let left = pad / 2;
    (
        seq!['╭'] + repeat('─', inner as nat) + seq!['╮'],
        seq!['│'] + spaces(left as nat) + label + spaces((pad - left) as nat) + seq!['│'],
        seq!['╰'] + repeat('─', inner as nat) + seq!['╯'],
    )
}

/// Whether `event` is a left-button press on a cell of `screen`.
pub open spec fn is_left_click_in(event: InputEvent, screen: Option<LayoutRect>) -> bool {
    match (event, screen) {
        (InputEvent::Mouse(m), Some(a)) => {
            &&& m.kind == MouseEventKind::Press(MouseButton::Left)
            &&& a.x <= m.column < sat_add_i32(a.x as int, a.width as int)
            &&& a.y <= m.row < sat_add_i32(a.y as int, a.height as int)
        },
        _ => false,
    }
}

impl ButtonComponent {
    /// A button showing `label` that emits `action`.
    pub fn new(label: &str, action: Action) -> (r: Self)
        ensures
            r.label@ == label@,
            r.action == action,
    {
        let mut text = String::new();
        push_str(&mut text, label);
        ButtonComponent { label: text, action }
    }

    /// The rows a render into `area` draws, top to bottom; nothing when the
    /// area has no column or fewer than three rows.
    pub fn render_rows(&self, area: LayoutRect) -> (r: Option<(String, String, String)>)
        ensures
            area.width == 0 || area.height < 3 ==> r is None,
            area.width != 0 && area.height >= 3 ==> (match r {
                Some((top, mid, bottom)) => (top@, mid@, bottom@) == spec_button_rows(self.label@, area.width),
                None => false,
            }),
    {
        if area.width == 0 || area.height < 3 {
            return None;
        }
        let inner: u16 = if area.width >= 2 { area.width - 2 } else { 0 };
        let len = char_count(self.label.as_str());
        let pad: u16 = if len < inner as usize { inner - len as u16 } else { 0 };
        let left: u16 = pad / 2;
        let mut top = String::new();
        top.push('╭');
        push_repeat(&mut top, '─', inner);
        top.push('╮');
        let mut mid = String::new();
        mid.push('│');
        push_repeat(&mut mid, ' ', left);
        push_str(&mut mid, self.label.as_str());
        push_repeat(&mut mid, ' ', pad - left);
        mid.push('│');
        let mut bottom = String::new();
        bottom.push('╰');
        push_repeat(&mut bottom, '─', inner);
        bottom.push('╯');
        proof {
            assert(repeat(' ', left as nat) =~= spaces(left as nat));
            assert(repeat(' ', (pad - left) as nat) =~= spaces((pad - left) as nat));
            let rows = spec_button_rows(self.label@, area.width);
            assert(top@ =~= rows.0);
            assert(mid@ =~= rows.1);
            assert(bottom@ =~= rows.2);
        }
        Some((top, mid, bottom))
    }

    /// What an input event on the button (placed at `screen`) gives: its
    /// action for a left click on it, nothing for anything else.
    pub fn handle_events(&self, event: InputEvent, screen: Option<LayoutRect>) -> (r: EventResult<Action>)
        ensures
            is_left_click_in(event, screen) ==> r == EventResult::Action(self.action),
            !is_left_click_in(event, screen) ==> r == EventResult::<Action>::Ignored,
    {
        match (event, screen) {
            (InputEvent::Mouse(m), Some(a)) => {
                let left = match m.kind {
                    MouseEventKind::Press(MouseButton::Left) => true,
                    _ => false,
                };
                if left && localize_coordinate(a, m.column, m.row).is_some() {
                    EventResult::Action(self.action)
                } else {
                    EventResult::Ignored
                }
            },
            _ => EventResult::Ignored,
        }
    }
}

impl Component for ButtonComponent {
    open spec fn spec_desired_height(&self, width: u16) -> u16 {
        3
    }

    /// A button is always three rows tall.
    fn desired_height(&self, width: u16) -> (h: u16) {
        3
    }

    /// A button holds nothing to release: destroying it leaves it as it was.
    open spec fn spec_destroys(&self, after: &Self) -> bool {
        *after == *self
    }

    /// A button holds nothing to release.
    fn destroy(&mut self) {
    }
}

} // verus!

//! A yes/no confirmation dialog: a body text over a separator and the
//! `[ Cancel ]` / `[ Exit ]` buttons, answered by keys or clicks.
use vstd::prelude::*;
use crate::action::{Action, ConfirmAction, EventResult, InputEvent, MouseEventKind};
use crate::dialog_overlay::{holds_cell, spec_rect_for, DialogOverlayComponent};
use crate::geometry::{
    layout_rect_to_clipped_rect, rect_intersection, sat_add_u16, sat_sub, spec_clipped_rect, spec_intersection,
    LayoutRect, Rect,
};
use crate::text::push_str;

verus! {

/// Width of the cancel button's text, `[ Cancel ]`.
pub const CANCEL_WIDTH: u16 = 10;
/// Width of the confirm button's text, `[ Exit ]`.
pub const CONFIRM_WIDTH: u16 = 8;

/// A confirmation dialog.
pub struct ConfirmOverlayComponent {
    pub dialog: DialogOverlayComponent,
    pub visible: bool,
    pub body: String,
    /// Whether the confirm button (rather than cancel) is selected.
    pub selected_confirm: bool,
    pub cancel_rect: Option<Rect>,
    pub confirm_rect: Option<Rect>,
}

/// Where the parts of the dialog go.
#[derive(Debug, Clone, Copy, PartialEq, Eq)]
pub struct ConfirmLayout {
    /// The body text's rect.
    pub body: Rect,
    /// The separator row and the two buttons, when the dialog is on screen.
    pub controls: Option<(Rect, Rect, Rect)>,
}

/// The content rect inside the dialog `rect`: inside its border, with a
/// column of padding on each side.
pub open spec fn content_of(rect: Rect) -> Rect {
    let inner = Rect {
        x: sat_add_u16(rect.x as int, 1) as u16,
        y: sat_add_u16(rect.y as int, 1) as u16,
        width: sat_sub(rect.width as int, 2) as u16,
        height: sat_sub(rect.height as int, 2) as u16,
    };
    Rect {
        x: sat_add_u16(inner.x as int, 1) as u16,
        y: inner.y,
        width: sat_sub(inner.width as int, 2) as u16,
        height: inner.height,
    }
}

/// Whether the dialog `rect` leaves room for a body, the separator and the
/// buttons.
pub open spec fn has_room(rect: Rect) -> bool {
    rect.width >= 3 && rect.height >= 3 && sat_sub(rect.width as int, 2) > 0 && sat_sub(rect.height as int, 2) > 0
        && content_of(rect).height >= 4 && content_of(rect).width > 0
}

/// The separator row and the buttons of content `c`: the buttons,
/// right-aligned on the last row with a space between them, the separator
/// on the row above.
pub open spec fn controls_of(c: Rect) -> (Rect, Rect, Rect) {
    let separator_y = sat_add_u16(c.y as int, sat_sub(c.height as int, 2)) as u16;
    let button_y = sat_add_u16(c.y as int, sat_sub(c.height as int, 1)) as u16;
    let start_x = sat_add_u16(c.x as int, sat_sub(c.width as int, CANCEL_WIDTH + 1 + CONFIRM_WIDTH)) as u16;
    let confirm_x = sat_add_u16(start_x as int, CANCEL_WIDTH + 1) as u16;
    (
        Rect { x: c.x, y: separator_y, width: c.width, height: 1 },
        Rect { x: start_x, y: button_y, width: CANCEL_WIDTH, height: 1 },
        Rect { x: confirm_x, y: button_y, width: CONFIRM_WIDTH, height: 1 },
    )
}

/// What a key bound to `action` does to the selection, and the answer it
/// gives: toggling or moving the selection answers nothing; accepting
/// answers with the selected button; cancelling cancels.
pub open spec fn confirm_key(selected_confirm: bool, action: Option<Action>) -> (bool, Option<ConfirmAction>) {
    match action {
        Some(Action::ConfirmToggle) => (!selected_confirm, None),
        Some(Action::ConfirmLeft) => (false, None),
        Some(Action::ConfirmRight) => (true, None),
        Some(Action::ConfirmAccept) => (
            selected_confirm,
            Some(if selected_confirm { ConfirmAction::Confirm } else { ConfirmAction::Cancel }),
        ),
        Some(Action::ConfirmCancel) => (selected_confirm, Some(ConfirmAction::Cancel)),
        _ => (selected_confirm, None),
    }
}

/// The answer to a press at `(column, row)`: the confirm button first, then
/// the cancel button.
pub open spec fn confirm_click(c: ConfirmOverlayComponent, column: u16, row: u16) -> Option<ConfirmAction> {
    if c.confirm_rect matches Some(r) && holds_cell(r, column as int, row as int) {
        Some(ConfirmAction::Confirm)
    } else if c.cancel_rect matches Some(r) && holds_cell(r, column as int, row as int) {
        Some(ConfirmAction::Cancel)
    } else {
        None
    }
}

fn cell_in(r: Option<Rect>, column: u16, row: u16) -> (b: bool)
    ensures
        b == (r matches Some(rect) && holds_cell(rect, column as int, row as int)),
{
    match r {
        Some(rect) => (column as u32) >= rect.x as u32 && (column as u32) < rect.x as u32 + rect.width as u32
            && (row as u32) >= rect.y as u32 && (row as u32) < rect.y as u32 + rect.height as u32,
        None => false,
    }
}

impl Default for ConfirmOverlayComponent {
    /// A hidden confirmation dialog around a default dialog frame.
    fn default() -> (r: Self)
        ensures
            !r.visible,
            r.body@.len() == 0,
            !r.selected_confirm,
            r.cancel_rect is None && r.confirm_rect is None,
            r.dialog.title@ == "Dialog"@ && r.dialog.body@.len() == 0,
            !r.dialog.visible && r.dialog.width == 70 && r.dialog.height == 9,
            r.dialog.bg is None && !r.dialog.dim_backdrop && !r.dialog.auto_close_on_outside_click,
    {
        ConfirmOverlayComponent {
            dialog: DialogOverlayComponent::new(),
            visible: false,
            body: String::new(),
            selected_confirm: false,
            cancel_rect: None,
            confirm_rect: None,
        }
    }
}

impl ConfirmOverlayComponent {
    /// A hidden confirmation dialog whose frame does not close on outside
    /// clicks: a hidden 70 x 9 dialog titled "Dialog" on the theme's dialog
    /// background, with no body and cancel selected.
    pub fn new() -> (r: Self)
        ensures
            !r.visible,
            r.body@.len() == 0,
            !r.selected_confirm,
            r.cancel_rect is None && r.confirm_rect is None,
            !r.dialog.visible && !r.dialog.auto_close_on_outside_click,
            r.dialog.title@ == "Dialog"@ && r.dialog.body@.len() == 0,
            r.dialog.width == 70 && r.dialog.height == 9,
            r.dialog.bg is None && !r.dialog.dim_backdrop,
    {
        let mut dialog = DialogOverlayComponent::new();
        dialog.set_auto_close_on_outside_click(false);
        ConfirmOverlayComponent {
            dialog,
            visible: false,
            body: String::new(),
            selected_confirm: false,
            cancel_rect: None,
            confirm_rect: None,
        }
    }

    /// Show the dialog with `title` and `body`, the confirm button selected.
    pub fn open(&mut self, title: &str, body: &str)
        ensures
            final(self).visible && final(self).dialog.visible,
            final(self).dialog.title@ == title@,
            final(self).dialog.body@.len() == 0,
            final(self).body@ == body@,
            final(self).selected_confirm,
            final(self).cancel_rect == old(self).cancel_rect && final(self).confirm_rect == old(self).confirm_rect,
    {
        self.dialog.set_title(title);
        self.dialog.set_body("");
        proof {
            reveal_strlit("");
        }
        self.dialog.set_visible(true);
        self.visible = true;
        let mut b = String::new();
        push_str(&mut b, body);
        self.body = b;
        proof {
            assert(self.body@ =~= body@);
        }
        self.selected_confirm = true;
    }

    /// Hide the dialog.
    pub fn close(&mut self)
        ensures
            !final(self).visible && !final(self).dialog.visible,
            *final(self) == (ConfirmOverlayComponent {
                visible: false,
                dialog: DialogOverlayComponent { visible: false, ..old(self).dialog },
                ..*old(self)
            }),
    {
        self.dialog.set_visible(false);
        self.visible = false;
    }

    pub fn visible(&self) -> (r: bool)
        ensures
            r == self.visible,
    {
        self.visible
    }

    pub fn set_dim_backdrop(&mut self, dim: bool)
        ensures
            *final(self) == (ConfirmOverlayComponent {
                dialog: DialogOverlayComponent { dim_backdrop: dim, ..old(self).dialog },
                ..*old(self)
            }),
    {
        self.dialog.set_dim_backdrop(dim);
    }

    /// Lay the dialog out in `area` on a screen of `screen` cells: nothing
    /// when hidden or in an empty area; else the body and, on screen, the
    /// separator and the buttons, whose rects the clicks are tested
    /// against. A dialog too small for them keeps no button rects.
    pub fn layout(&mut self, area: LayoutRect, screen: Rect) -> (r: Option<ConfirmLayout>)
        ensures
            ({
                let a = spec_clipped_rect(area);
                let rect = spec_rect_for(a, old(self).dialog.width, old(self).dialog.height);
                let c = content_of(rect);
                let on_screen = spec_intersection(a, screen).width > 0 && spec_intersection(a, screen).height > 0;
                if !old(self).visible || area.width == 0 || area.height == 0 {
                    r is None && *final(self) == *old(self)
                } else if rect.width < 3 || rect.height < 3 {
                    r is None && *final(self) == *old(self)
                } else if !has_room(rect) {
                    r is None && *final(self) == (ConfirmOverlayComponent { cancel_rect: None, confirm_rect: None, ..*old(self) })
                } else if !on_screen {
                    r == Some(ConfirmLayout { body: Rect { height: (c.height - 3) as u16, ..c }, controls: None })
                        && *final(self) == (ConfirmOverlayComponent { cancel_rect: None, confirm_rect: None, ..*old(self) })
                } else {
                    r == Some(ConfirmLayout { body: Rect { height: (c.height - 3) as u16, ..c }, controls: Some(controls_of(c)) })
                        && *final(self) == (ConfirmOverlayComponent {
                        cancel_rect: Some(controls_of(c).1),
                        confirm_rect: Some(controls_of(c).2),
                        ..*old(self)
                    })
                }
            }),
    {
        if !self.visible || area.width == 0 || area.height == 0 {
            return None;
        }
        let a = layout_rect_to_clipped_rect(area);
        let rect = self.dialog.rect_for(a);
        if rect.width < 3 || rect.height < 3 {
            return None;
        }
        self.cancel_rect = None;
        self.confirm_rect = None;
        let inner = Rect {
            x: rect.x.saturating_add(1),
            y: rect.y.saturating_add(1),
            width: rect.width.saturating_sub(2),
            height: rect.height.saturating_sub(2),
        };
        if inner.height == 0 || inner.width == 0 {
            return None;
        }
        let content = Rect {
            x: inner.x.saturating_add(1),
            y: inner.y,
            width: inner.width.saturating_sub(2),
            height: inner.height,
        };
        if content.height < 4 || content.width == 0 {
            return None;
        }
        let separator_y = content.y.saturating_add(content.height.saturating_sub(2));
        let button_y = content.y.saturating_add(content.height.saturating_sub(1));
        let body = Rect { x: content.x, y: content.y, width: content.width, height: content.height - 3 };
        let bounds = rect_intersection(a, screen);
        if bounds.width == 0 || bounds.height == 0 {
            return Some(ConfirmLayout { body, controls: None });
        }
        let start_x = content.x.saturating_add(content.width.saturating_sub(CANCEL_WIDTH + 1 + CONFIRM_WIDTH));
        let confirm_x = start_x.saturating_add(CANCEL_WIDTH + 1);
        let separator = Rect { x: content.x, y: separator_y, width: content.width, height: 1 };
        let cancel = Rect { x: start_x, y: button_y, width: CANCEL_WIDTH, height: 1 };
        let confirm = Rect { x: confirm_x, y: button_y, width: CONFIRM_WIDTH, height: 1 };
        self.cancel_rect = Some(cancel);
        self.confirm_rect = Some(confirm);
        Some(ConfirmLayout { body, controls: Some((separator, cancel, confirm)) })
    }

    /// Answer an event: a press on a button answers with it; a key bound to
    /// `key_action` (as the host's keybindings resolve it) moves the
    /// selection or answers (see [`confirm_key`]); anything else answers
    /// nothing.
    pub fn handle_confirm_event(&mut self, event: InputEvent, key_action: Option<Action>) -> (r: Option<ConfirmAction>)
        ensures
            match event {
                InputEvent::Mouse(m) => if m.kind is Press {
                    r == confirm_click(*old(self), m.column, m.row) && *final(self) == *old(self)
                } else {
                    r is None && *final(self) == *old(self)
                },
                InputEvent::Key(_) => r == confirm_key(old(self).selected_confirm, key_action).1 && *final(self) == (
                ConfirmOverlayComponent { selected_confirm: confirm_key(old(self).selected_confirm, key_action).0, ..*old(self) }),
                InputEvent::Other => r is None && *final(self) == *old(self),
            },
    {
        match event {
            InputEvent::Mouse(mouse) => {
                match mouse.kind {
                    MouseEventKind::Press(_) => {},
                    _ => return None,
                }
                if cell_in(self.confirm_rect, mouse.column, mouse.row) {
                    return Some(ConfirmAction::Confirm);
                }
                if cell_in(self.cancel_rect, mouse.column, mouse.row) {
                    return Some(ConfirmAction::Cancel);
                }
                None
            },
            InputEvent::Key(_) => match key_action {
                Some(Action::ConfirmToggle) => {
                    self.selected_confirm = !self.selected_confirm;
                    None
                },
                Some(Action::ConfirmLeft) => {
                    self.selected_confirm = false;
                    None
                },
                Some(Action::ConfirmRight) => {
                    self.selected_confirm = true;
                    None
                },
                Some(Action::ConfirmAccept) => {
                    if self.selected_confirm {
                        Some(ConfirmAction::Confirm)
                    } else {
                        Some(ConfirmAction::Cancel)
                    }
                },
                Some(Action::ConfirmCancel) => Some(ConfirmAction::Cancel),
                _ => None,
            },
            InputEvent::Other => None,
        }
    }

    /// Answer an event as a component: an answered confirmation, or a key
    /// that moves the selection, is consumed; anything else is ignored.
    pub fn handle_events(&mut self, event: InputEvent, key_action: Option<Action>) -> (r: EventResult<Action>)
        ensures
            ({
                let answered = match event {
                    InputEvent::Mouse(m) => m.kind is Press && confirm_click(*old(self), m.column, m.row) is Some,
                    InputEvent::Key(_) => confirm_key(old(self).selected_confirm, key_action).1 is Some,
                    InputEvent::Other => false,
                };
                let moves = event is Key && (key_action == Some(Action::ConfirmToggle) || key_action == Some(
                    Action::ConfirmLeft,
                ) || key_action == Some(Action::ConfirmRight));
                r == (if answered || moves { EventResult::<Action>::Consumed } else { EventResult::<Action>::Ignored })
            }),
    {
        if self.handle_confirm_event(event, key_action).is_some() {
            return EventResult::Consumed;
        }
        match event {
            InputEvent::Key(_) => match key_action {
                Some(Action::ConfirmToggle) | Some(Action::ConfirmLeft) | Some(Action::ConfirmRight) => {
                    EventResult::Consumed
                },
                _ => EventResult::Ignored,
            },
            _ => EventResult::Ignored,
        }
    }
}

} // verus!

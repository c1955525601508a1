//! A vertical menu: a list of items with one selected, moved by the
//! navigation keys (wrapping at both ends) and picked by a click.
use vstd::prelude::*;
use crate::action::{Action, EventResult, InputEvent, KeyEvent, KeyKind, MouseEvent, MouseEventKind};
use crate::geometry::{sat_add_u16, sat_sub, Rect};
use crate::text::{push_str, chars_of};

verus! {

/// One entry of a menu.
pub struct MenuItem {
    pub icon: Option<&'static str>,
    pub label: String,
    pub action: Action,
    pub disabled: bool,
}

/// Which menu navigation bindings a key is bound to.
#[derive(Debug, Clone, Copy, PartialEq, Eq, Structural)]
pub struct MenuKeys {
    pub up: bool,
    pub prev: bool,
    pub down: bool,
    pub next: bool,
    pub select: bool,
}

/// How a menu row is painted.
#[derive(Debug, Clone, Copy, PartialEq, Eq, Structural)]
pub enum MenuRowStyle {
    Normal,
    Selected,
    Hovered,
    Disabled,
}

/// A menu.
pub struct MenuComponent {
    pub items: Vec<MenuItem>,
    pub selected: usize,
    /// Whether the first row is a header above the items.
    pub show_header: bool,
}

/// `i` clamped to the last index of a list of `len` items (`0` for none).
pub open spec fn clamp_index(i: int, len: int) -> int {
    let last = if len > 0 { len - 1 } else { 0 };
    if i < last { i } else { last }
}

/// The answer to a key event given the bindings it matches: a press moves
/// up (up or previous), down (down or next) or selects, in that order of
/// precedence; an empty menu and anything else ignore it.
pub open spec fn spec_key_result(event: InputEvent, keys: MenuKeys, len: int) -> EventResult<Action> {
    match event {
        InputEvent::Key(key) => if key.kind != KeyKind::Press || len == 0 {
            EventResult::Ignored
        } else if keys.up || keys.prev {
            EventResult::Action(Action::MenuUp)
        } else if keys.down || keys.next {
            EventResult::Action(Action::MenuDown)
        } else if keys.select {
            EventResult::Action(Action::MenuSelect)
        } else {
            EventResult::Ignored
        },
        _ => EventResult::Ignored,
    }
}

/// The selection after `action`: up and previous step back, down and next
/// step forward, both wrapping round; anything else keeps it.
pub open spec fn spec_selected_after(selected: int, len: int, action: Action) -> int {
    match action {
        Action::MenuUp | Action::MenuPrev => if len > 0 {
            if selected == 0 { len - 1 } else { selected - 1 }
        } else {
            selected
        },
        Action::MenuDown | Action::MenuNext => if len > 0 { (selected + 1) % len } else { selected },
        _ => selected,
    }
}

/// Moving down then up (or up then down) comes back to the same item, at
/// either end of the list too.
pub proof fn lemma_menu_down_up_round_trip(selected: int, len: int)
    requires
        0 <= selected < len,
    ensures
        spec_selected_after(spec_selected_after(selected, len, Action::MenuDown), len, Action::MenuUp) == selected,
        spec_selected_after(spec_selected_after(selected, len, Action::MenuUp), len, Action::MenuDown) == selected,
{
    if selected + 1 < len {
        vstd::arithmetic::div_mod::lemma_small_mod((selected + 1) as nat, len as nat);
    } else {
        vstd::arithmetic::div_mod::lemma_mod_self_0(len);
    }
    if selected == 0 {
        vstd::arithmetic::div_mod::lemma_mod_self_0(len);
    } else {
        vstd::arithmetic::div_mod::lemma_small_mod(selected as nat, len as nat);
    }
}

/// Keyboard navigation of a non-empty menu: a press bound to up or
/// previous moves the selection back one item, and one bound to down or next
/// (and not to up or previous) moves it on one, both wrapping round; so
/// "next" and "down" answer alike, as do "previous" and "up".
pub proof fn lemma_menu_keys_navigate(key: KeyEvent, keys: MenuKeys, selected: int, len: int)
    requires
        key.kind == KeyKind::Press,
        0 <= selected < len,
    ensures
        keys.up || keys.prev ==> match spec_key_result(InputEvent::Key(key), keys, len) {
            EventResult::Action(a) => spec_selected_after(selected, len, a) == (if selected == 0 {
                len - 1
            } else {
                selected - 1
            }),
            _ => false,
        },
        (keys.down || keys.next) && !keys.up && !keys.prev ==> match spec_key_result(
            InputEvent::Key(key),
            keys,
            len,
        ) {
            EventResult::Action(a) => spec_selected_after(selected, len, a) == (if selected + 1 < len {
                selected + 1
            } else {
                0
            }),
            _ => false,
        },
{
    if selected + 1 < len {
        vstd::arithmetic::div_mod::lemma_small_mod((selected + 1) as nat, len as nat);
    } else {
        vstd::arithmetic::div_mod::lemma_mod_self_0(len);
    }
}

/// The rows the header takes.
pub open spec fn header_rows(show_header: bool) -> int {
    if show_header { 1 } else { 0 }
}

/// The item index under the cell `(column, row)` of a menu drawn at
/// `area` (the screen rect, its origin clamped at zero and cut to `u16`),
/// scrolled by `offset_y` rows: `None` off the item rows or past the items.
pub open spec fn spec_item_at(
    area_x: i32,
    area_y: i32,
    width: u16,
    height: u16,
    show_header: bool,
    offset_y: int,
    len: int,
    column: int,
    row: int,
) -> Option<int> {
    let x = (if area_x > 0 { area_x as int } else { 0 }) % 65536;
    let y = (if area_y > 0 { area_y as int } else { 0 }) % 65536;
    let h = header_rows(show_header);
    if x <= column < sat_add_u16(x, width as int) && sat_add_u16(y, h) <= row < sat_add_u16(y, height as int) {
        let idx = sat_sub(sat_sub(row, y), h) + offset_y;
        if idx < len { Some(idx) } else { None }
    } else {
        None
    }
}

/// An index as a `usize`.
pub open spec fn index_of(o: Option<int>) -> Option<usize> {
    match o {
        Some(i) => Some(i as usize),
        None => None,
    }
}

/// The style of item `idx`: a disabled item that is not selected looks
/// disabled; else selected, hovered or normal, in that order.
pub open spec fn spec_row_style(disabled: bool, idx: int, selected: int, hovered: Option<usize>) -> MenuRowStyle {
    if disabled && idx != selected {
        MenuRowStyle::Disabled
    } else if idx == selected {
        MenuRowStyle::Selected
    } else if hovered == Some(idx as usize) {
        MenuRowStyle::Hovered
    } else {
        MenuRowStyle::Normal
    }
}

/// The text of an item row: a marker (`>` selected, `▸` hovered), then the
/// icon and the label, cut to `width` characters.
pub open spec fn spec_item_line(
    icon: Option<Seq<char>>,
    label: Seq<char>,
    is_selected: bool,
    is_hovered: bool,
    width: nat,
) -> Seq<char> {
    let marker = if is_selected { '>' } else if is_hovered { '▸' } else { ' ' };
    let line = match icon {
        Some(i) => seq![marker, ' '] + i + seq![' '] + label,
        None => seq![marker, ' ', ' ', ' '] + label,
    };
    line.take(if width < line.len() { width as int } else { line.len() as int })
}

impl MenuComponent {
    /// The selection names an item, or is `0` in an empty menu.
    pub open spec fn wf(&self) -> bool {
        self.selected < self.items@.len() || (self.items@.len() == 0 && self.selected == 0)
    }

    /// The items, in order.
    pub open spec fn spec_items(&self) -> Seq<MenuItem> {
        self.items@
    }

    /// The index of the selected item.
    pub open spec fn spec_selected(&self) -> int {
        self.selected as int
    }

    /// An empty menu with a header.
    pub fn new() -> (r: Self)
        ensures
            r.wf(),
            r.spec_items().len() == 0,
            r.spec_selected() == 0,
            r.show_header,
    {
        MenuComponent { items: Vec::new(), selected: 0, show_header: true }
    }

    /// Replace the items, keeping the selection where it still names one.
    pub fn set_items(&mut self, items: Vec<MenuItem>)
        ensures
            final(self).wf(),
            final(self).spec_items() == items@,
            final(self).spec_selected() == clamp_index(old(self).selected as int, items@.len() as int),
            final(self).show_header == old(self).show_header,
    {
        self.items = items;
        let last = if self.items.len() > 0 { self.items.len() - 1 } else { 0 };
        if self.selected > last {
            self.selected = last;
        }
    }

    /// The items, in order.
    pub fn items(&self) -> (r: &Vec<MenuItem>)
        ensures
            r@ == self.spec_items(),
    {
        &self.items
    }

    /// The index of the selected item.
    pub fn selected(&self) -> (r: usize)
        ensures
            r == self.spec_selected(),
    {
        self.selected
    }

    /// Select item `index`, clamped to the last item.
    pub fn set_selected(&mut self, index: usize)
        ensures
            final(self).wf(),
            final(self).spec_items() == old(self).spec_items(),
            final(self).spec_selected() == clamp_index(index as int, old(self).items@.len() as int),
            final(self).show_header == old(self).show_header,
    {
        let last = if self.items.len() > 0 { self.items.len() - 1 } else { 0 };
        self.selected = if index < last { index } else { last };
    }

    /// The action of the selected item, if there is one.
    pub fn selected_action(&self) -> (r: Option<&Action>)
        ensures
            r == (if self.selected < self.items@.len() {
                Some(&self.items@[self.selected as int].action)
            } else {
                None
            }),
    {
        if self.selected < self.items.len() {
            Some(&self.items[self.selected].action)
        } else {
            None
        }
    }

    /// Answer a key event, given which navigation bindings the key matches
    /// (see [`spec_key_result`]); the menu itself does not change.
    pub fn handle_key_event(&self, event: InputEvent, keys: MenuKeys) -> (r: EventResult<Action>)
        ensures
            r == spec_key_result(event, keys, self.items@.len() as int),
    {
        match event {
            InputEvent::Key(key) => {
                if key.kind != KeyKind::Press || self.items.len() == 0 {
                    EventResult::Ignored
                } else if keys.up || keys.prev {
                    EventResult::Action(Action::MenuUp)
                } else if keys.down || keys.next {
                    EventResult::Action(Action::MenuDown)
                } else if keys.select {
                    EventResult::Action(Action::MenuSelect)
                } else {
                    EventResult::Ignored
                }
            },
            _ => EventResult::Ignored,
        }
    }

    /// Whether the menu would act on a key event: a press matching any of
    /// its navigation bindings.
    pub fn handles_key_event(&self, event: InputEvent, keys: MenuKeys) -> (r: bool)
        ensures
            r == (match event {
                InputEvent::Key(key) => key.kind == KeyKind::Press && (keys.up || keys.down || keys.select
                    || keys.next || keys.prev),
                _ => false,
            }),
    {
        match event {
            InputEvent::Key(key) => key.kind == KeyKind::Press && (keys.up || keys.down || keys.select || keys.next
                || keys.prev),
            _ => false,
        }
    }

    /// Move the selection for a navigation action (see [`spec_selected_after`]).
    pub fn update(&mut self, action: Action)
        requires
            old(self).wf(),
        ensures
            final(self).wf(),
            final(self).spec_items() == old(self).spec_items(),
            final(self).spec_selected() == spec_selected_after(
                old(self).selected as int,
                old(self).items@.len() as int,
                action,
            ),
            final(self).show_header == old(self).show_header,
    {
        let total = self.items.len();
        match action {
            Action::MenuUp | Action::MenuPrev => {
                if total > 0 {
                    self.selected = if self.selected == 0 { total - 1 } else { self.selected - 1 };
                }
            },
            Action::MenuDown | Action::MenuNext => {
                if total > 0 {
                    self.selected = (self.selected + 1) % total;
                }
            },
            _ => {},
        }
    }

    /// The item under a mouse press at `(column, row)` of a menu at
    /// `screen`, scrolled by `offset_y` rows (see [`spec_item_at`]).
    fn item_at(&self, screen: crate::geometry::LayoutRect, offset_y: usize, column: u16, row: u16) -> (r: Option<usize>)
        ensures
            (match spec_item_at(
                screen.x,
                screen.y,
                screen.width,
                screen.height,
                self.show_header,
                offset_y as int,
                self.items@.len() as int,
                column as int,
                row as int,
            ) {
                Some(i) => 0 <= i < self.items@.len(),
                None => true,
            }),
            r == index_of(spec_item_at(
                screen.x,
                screen.y,
                screen.width,
                screen.height,
                self.show_header,
                offset_y as int,
                self.items@.len() as int,
                column as int,
                row as int,
            )),
    {
        let xi: i32 = if screen.x > 0 { screen.x } else { 0 };
        let yi: i32 = if screen.y > 0 { screen.y } else { 0 };
        let x: u16 = (xi % 65536) as u16;
        let y: u16 = (yi % 65536) as u16;
        let h: u16 = if self.show_header { 1 } else { 0 };
        if column >= x && column < x.saturating_add(screen.width) && row >= y.saturating_add(h) && row < y.saturating_add(
            screen.height,
        ) {
            let visual: usize = (row - y - h) as usize;
            if visual < self.items.len() && offset_y < self.items.len() - visual {
                Some(visual + offset_y)
            } else {
                None
            }
        } else {
            None
        }
    }

    /// Answer a mouse event on the menu at `screen` (if it was placed),
    /// scrolled by `offset_y` rows: a press on an item selects it and asks
    /// to activate it; any other press, and a press elsewhere, is ignored.
    /// Other events go to [`MenuComponent::handle_key_event`].
    pub fn handle_events(
        &mut self,
        event: InputEvent,
        keys: MenuKeys,
        screen: Option<crate::geometry::LayoutRect>,
        offset_y: usize,
    ) -> (r: EventResult<Action>)
        requires
            old(self).wf(),
        ensures
            final(self).wf(),
            final(self).spec_items() == old(self).spec_items(),
            final(self).show_header == old(self).show_header,
            match event {
                InputEvent::Mouse(m) => {
                    let hit = match (m.kind, screen) {
                        (MouseEventKind::Press(_), Some(a)) => spec_item_at(
                            a.x,
                            a.y,
                            a.width,
                            a.height,
                            old(self).show_header,
                            offset_y as int,
                            old(self).items@.len() as int,
                            m.column as int,
                            m.row as int,
                        ),
                        _ => None,
                    };
                    match hit {
                        Some(i) => r == EventResult::Action(Action::MenuSelect) && final(self).spec_selected() == i,
                        None => r == EventResult::<Action>::Ignored && final(self).spec_selected()
                            == old(self).spec_selected(),
                    }
                },
                _ => r == spec_key_result(event, keys, old(self).items@.len() as int) && final(self).spec_selected()
                    == old(self).spec_selected(),
            },
    {
        match event {
            InputEvent::Mouse(m) => {
                let press = match m.kind {
                    MouseEventKind::Press(_) => true,
                    _ => false,
                };
                if press {
                    match screen {
                        Some(a) => {
                            let n = self.items.len();
                            let found = self.item_at(a, offset_y, m.column, m.row);
                            match found {
                                Some(i) => {
                                    self.selected = i;
                                    return EventResult::Action(Action::MenuSelect);
                                },
                                None => {},
                            }
                        },
                        None => {},
                    }
                }
                EventResult::Ignored
            },
            _ => self.handle_key_event(event, keys),
        }
    }

    /// The item under the pointer at `hover` in a menu drawn at `area`,
    /// scrolled by `offset_y` rows: none off the item rows or past the items.
    pub fn hovered_index(&self, area: Rect, hover: Option<(u16, u16)>, offset_y: usize) -> (r: Option<usize>)
        requires
            offset_y + 65535 <= usize::MAX,
        ensures
            r == (match hover {
                Some((mx, my)) => {
                    let h = header_rows(self.show_header);
                    if mx < area.x || mx >= sat_add_u16(area.x as int, area.width as int) || my < sat_add_u16(
                        area.y as int,
                        h,
                    ) || my >= sat_add_u16(area.y as int, area.height as int) {
                        None
                    } else {
                        let idx = sat_sub(sat_sub(my as int, area.y as int), h) + offset_y;
                        if idx < self.items@.len() { Some(idx as usize) } else { None }
                    }
                },
                None => None,
            }),
    {
        let (mx, my) = match hover {
            Some(p) => p,
            None => return None,
        };
        let h: u16 = if self.show_header { 1 } else { 0 };
        if mx < area.x || mx >= area.x.saturating_add(area.width) || my < area.y.saturating_add(h) || my
            >= area.y.saturating_add(area.height) {
            return None;
        }
        let idx: usize = my.saturating_sub(area.y).saturating_sub(h) as usize + offset_y;
        if idx < self.items.len() { Some(idx) } else { None }
    }

    /// How many item rows a render into `area` shows when scrolled by
    /// `offset_y`: the rows below the header, at most the items left.
    pub fn visible_items(&self, area: Rect, offset_y: usize) -> (r: usize)
        ensures
            r == ({
                let rows = sat_sub(area.height as int, header_rows(self.show_header));
                let left = sat_sub(self.items@.len() as int, offset_y as int);
                let left16 = left % 65536;
                if rows < left16 { rows } else { left16 }
            }),
    {
        let h: u16 = if self.show_header { 1 } else { 0 };
        let rows: u16 = area.height.saturating_sub(h);
        let left: usize = self.items.len().saturating_sub(offset_y);
        let left16: u16 = (left % 65536) as u16;
        if rows < left16 { rows as usize } else { left16 as usize }
    }

    /// The style and text of item `idx` in a row `width` characters wide,
    /// with `hovered` the item under the pointer.
    pub fn item_row(&self, idx: usize, hovered: Option<usize>, width: u16) -> (r: (MenuRowStyle, String))
        requires
            idx < self.items@.len(),
        ensures
            r.0 == spec_row_style(self.items@[idx as int].disabled, idx as int, self.selected as int, hovered),
            r.1@ == spec_item_line(
                match self.items@[idx as int].icon {
                    Some(i) => Some(i@),
                    None => None,
                },
                self.items@[idx as int].label@,
                idx == self.selected,
                hovered == Some(idx),
                width as nat,
            ),
    {
        let item = &self.items[idx];
        let is_selected = idx == self.selected;
        let is_hovered = match hovered {
            Some(h) => h == idx,
            None => false,
        };
        let style = if item.disabled && !is_selected {
            MenuRowStyle::Disabled
        } else if is_selected {
            MenuRowStyle::Selected
        } else if is_hovered {
            MenuRowStyle::Hovered
        } else {
            MenuRowStyle::Normal
        };
        let marker = if is_selected { '>' } else if is_hovered { '▸' } else { ' ' };
        let mut line = String::new();
        line.push(marker);
        match item.icon {
            Some(i) => {
                line.push(' ');
                push_str(&mut line, i);
                line.push(' ');
            },
            None => {
                line.push(' ');
                line.push(' ');
                line.push(' ');
            },
        }
        push_str(&mut line, item.label.as_str());
        let chars = chars_of(line.as_str());
        let mut out = String::new();
        let mut k: usize = 0;
        while k < chars.len() && k < width as usize
            invariant
                k <= chars@.len(),
                k <= width,
                out@ == chars@.take(k as int),
            decreases chars@.len() - k,
        {
            out.push(chars[k]);
            k = k + 1;
            proof {
                assert(chars@.take(k as int) =~= chars@.take(k - 1).push(chars@[k - 1]));
            }
        }
        proof {
            let expect = spec_item_line(
                match item.icon {
                    Some(i) => Some(i@),
                    None => None,
                },
                item.label@,
                is_selected,
                is_hovered,
                width as nat,
            );
            let marker_c = if is_selected { '>' } else if is_hovered { '▸' } else { ' ' };
            let whole = match item.icon {
                Some(i) => seq![marker_c, ' '] + i@ + seq![' '] + item.label@,
                None => seq![marker_c, ' ', ' ', ' '] + item.label@,
            };
            assert(line@ =~= whole);
            assert(out@ =~= expect);
        }
        (style, out)
    }
}

impl Default for MenuComponent {
    /// The same as [`MenuComponent::new`].
    fn default() -> (r: Self)
        ensures
            r.wf(),
            r.spec_items().len() == 0,
            r.spec_selected() == 0,
            r.show_header,
    {
        Self::new()
    }
}

} // verus!

//! The window manager's drop-down menu: a menu anchored at a point of the
//! screen, which can be outlined (dimmed to a frame) while the pointer is
//! elsewhere and restored on use.
use vstd::prelude::*;
use crate::action::{Action, InputEvent, KeyKind, MouseEventKind};
use crate::geometry::{sat_add_u16, sat_sub, spec_intersection, rect_intersection, Rect};
use crate::menu::{clamp_index, MenuComponent, MenuItem, MenuKeys};
use crate::text::char_count;

verus! {

/// A drop-down menu overlay.
pub struct WmMenuOverlay {
    pub menu: MenuComponent,
    /// Outlined: drawn as a dim frame only.
    pub outlined: bool,
    /// The drop-down rect of the last render.
    pub menu_bounds_cache: Option<Rect>,
    /// The row of each item drawn on the last render.
    pub item_hits: Vec<(usize, Rect)>,
    /// The point the menu hangs from.
    pub anchor: Option<(u16, u16)>,
    /// The area dimmed behind the menu.
    pub managed_area: Rect,
    /// The action the last event chose.
    pub last_action: Option<Action>,
}

/// The widest of the first `n` labels, in characters cut to `u16`.
pub open spec fn max_label(items: Seq<MenuItem>, n: int) -> int
    decreases n,
{
    if n <= 0 {
        0
    } else {
        let w = (items[n - 1].label@.len() % 65536) as int;
        let m = max_label(items, n - 1);
        if w > m { w } else { m }
    }
}

/// The widest of the first `n` icons, in characters cut to `u16` (`0`
/// without icons).
pub open spec fn max_icon(items: Seq<MenuItem>, n: int) -> int
    decreases n,
{
    if n <= 0 {
        0
    } else {
        let w = match items[n - 1].icon {
            Some(i) => (i@.len() % 65536) as int,
            None => 0,
        };
        let m = max_icon(items, n - 1);
        if w > m { w } else { m }
    }
}

/// The drop-down rect in `bounds`: hung from the anchor, as wide as the
/// widest icon and label with room for marker and frame, as tall as the
/// items and the frame, both cut to what is left of `bounds`. None without
/// items, without an anchor, or with the anchor left or right of `bounds`.
pub open spec fn spec_dropdown_rect(items: Seq<MenuItem>, anchor: Option<(u16, u16)>, bounds: Rect) -> Option<Rect> {
    match anchor {
        None => None,
        Some((ax, ay)) => if items.len() == 0 || ax < bounds.x || ax >= sat_add_u16(bounds.x as int, bounds.width as int) {
            None
        } else {
            let mw = sat_sub(bounds.width as int, sat_sub(ax as int, bounds.x as int));
            let max_w = if mw > 1 { mw } else { 1 };
            let mh = sat_sub(bounds.height as int, sat_sub(ay as int, bounds.y as int));
            let max_h = if mh > 1 { mh } else { 1 };
            let want_w = max_label(items, items.len() as int) + max_icon(items, items.len() as int) + 6;
            let want_h = sat_add_u16((items.len() % 65536) as int, 2);
            Some(
                Rect {
                    x: ax,
                    y: ay,
                    width: (if want_w < max_w { want_w } else { max_w }) as u16,
                    height: (if want_h < max_h { want_h } else { max_h }) as u16,
                },
            )
        },
    }
}

/// The row rects of the items drawn in `drop` (clipped to `clip`): one per
/// item below the top frame row, stopping at the last row inside the frame
/// or at the first row outside `clip`.
pub open spec fn spec_item_hits(count: int, drop: Rect, clip: Rect) -> Seq<(usize, Rect)> {
    let limit = {
        let inside = sat_sub(drop.height as int, 1);
        if count < inside { count } else { inside }
    };
    let shown = choose_shown(limit, drop, clip);
    Seq::new(
        shown as nat,
        |k: int| (k as usize, Rect { x: drop.x, y: sat_add_u16(drop.y as int, k + 1) as u16, width: drop.width, height: 1 }),
    )
}

/// How many item rows of `drop` (at most `limit`) lie inside the rows of
/// `clip`, counting from the top until the first that does not.
pub open spec fn choose_shown(limit: int, drop: Rect, clip: Rect) -> int
    decreases limit,
{
    if limit <= 0 {
        0
    } else {
        let before = choose_shown(limit - 1, drop, clip);
        let y = sat_add_u16(drop.y as int, limit);
        if before == limit - 1 && clip.y <= y < sat_add_u16(clip.y as int, clip.height as int) {
            limit
        } else {
            before
        }
    }
}

/// The first hit row holding `(column, row)`, by index.
pub open spec fn spec_hit_item(hits: Seq<(usize, Rect)>, column: int, row: int) -> Option<usize>
    decreases hits.len(),
{
    if hits.len() == 0 {
        None
    } else {
        let (i, r) = hits[0];
        if r.x <= column < r.x + r.width && r.y <= row < r.y + r.height {
            Some(i)
        } else {
            spec_hit_item(hits.drop_first(), column, row)
        }
    }
}

fn max_widths(items: &Vec<MenuItem>) -> (r: (u32, u32))
    ensures
        r.0 == max_label(items@, items@.len() as int),
        r.1 == max_icon(items@, items@.len() as int),
{
    let mut label: u32 = 0;
    let mut icon: u32 = 0;
    let mut i: usize = 0;
    while i < items.len()
        invariant
            i <= items@.len(),
            label == max_label(items@, i as int),
            icon == max_icon(items@, i as int),
            label < 65536,
            icon < 65536,
        decreases items@.len() - i,
    {
        let lw: u32 = (char_count(items[i].label.as_str()) % 65536) as u32;
        if lw > label {
            label = lw;
        }
        let iw: u32 = match items[i].icon {
            Some(s) => (char_count(s) % 65536) as u32,
            None => 0,
        };
        if iw > icon {
            icon = iw;
        }
        i = i + 1;
    }
    (label, icon)
}

proof fn lemma_shown_bounds(limit: int, drop: Rect, clip: Rect)
    ensures
        0 <= choose_shown(limit, drop, clip),
        limit >= 0 ==> choose_shown(limit, drop, clip) <= limit,
        choose_shown(limit, drop, clip) < limit ==> choose_shown(limit + 1, drop, clip) == choose_shown(
            limit,
            drop,
            clip,
        ),
    decreases limit,
{
    if limit > 0 {
        lemma_shown_bounds(limit - 1, drop, clip);
    }
}

proof fn lemma_shown_stays(limit: int, m: int, drop: Rect, clip: Rect)
    requires
        0 <= limit <= m,
        choose_shown(limit, drop, clip) < limit,
    ensures
        choose_shown(m, drop, clip) == choose_shown(limit, drop, clip),
    decreases m - limit,
{
    if m > limit {
        lemma_shown_stays(limit, m - 1, drop, clip);
        lemma_shown_bounds(m - 1, drop, clip);
    }
}

impl WmMenuOverlay {
    /// A closed-over, empty overlay.
    pub fn new() -> (r: Self)
        ensures
            r.menu.wf(),
            r.menu.items@.len() == 0,
            r.menu.selected == 0,
            r.menu.show_header,
            !r.outlined,
            r.menu_bounds_cache is None,
            r.item_hits@.len() == 0,
            r.anchor is None,
            r.managed_area == (Rect { x: 0, y: 0, width: 0, height: 0 }),
            r.last_action is None,
    {
        WmMenuOverlay {
            menu: MenuComponent::new(),
            outlined: false,
            menu_bounds_cache: None,
            item_hits: Vec::new(),
            anchor: None,
            managed_area: Rect { x: 0, y: 0, width: 0, height: 0 },
            last_action: None,
        }
    }

    /// Dim the menu to its frame.
    pub fn outline(&mut self)
        ensures
            final(self).outlined,
            final(self).menu == old(self).menu,
            final(self).anchor == old(self).anchor,
            final(self).item_hits == old(self).item_hits,
    {
        self.outlined = true;
    }

    /// Show the menu in full again.
    pub fn restore(&mut self)
        ensures
            !final(self).outlined,
            final(self).menu == old(self).menu,
            final(self).anchor == old(self).anchor,
            final(self).item_hits == old(self).item_hits,
    {
        self.outlined = false;
    }

    pub fn set_items(&mut self, items: Vec<MenuItem>)
        ensures
            final(self).menu.wf(),
            final(self).menu.items@ == items@,
            final(self).menu.selected == clamp_index(old(self).menu.selected as int, items@.len() as int),
            final(self).outlined == old(self).outlined,
            final(self).anchor == old(self).anchor,
    {
        self.menu.set_items(items);
    }

    /// The action the last event chose, if any.
    pub fn selected_action(&self) -> (r: Option<&Action>)
        ensures
            r == match self.last_action {
                Some(a) => Some(&a),
                None => None,
            },
    {
        match &self.last_action {
            Some(a) => Some(a),
            None => None,
        }
    }

    pub fn set_anchor(&mut self, pos: Option<(u16, u16)>)
        ensures
            final(self).anchor == pos,
            final(self).menu == old(self).menu,
            final(self).outlined == old(self).outlined,
    {
        self.anchor = pos;
    }

    pub fn set_managed_area(&mut self, area: Rect)
        ensures
            final(self).managed_area == area,
            final(self).menu == old(self).menu,
            final(self).anchor == old(self).anchor,
    {
        self.managed_area = area;
    }

    /// The drop-down rect in `bounds` (see [`spec_dropdown_rect`]).
    pub fn dropdown_rect(&self, bounds: Rect) -> (r: Option<Rect>)
        requires
            max_label(self.menu.items@, self.menu.items@.len() as int) + max_icon(
                self.menu.items@,
                self.menu.items@.len() as int,
            ) + 6 <= u16::MAX,
        ensures
            r == spec_dropdown_rect(self.menu.items@, self.anchor, bounds),
    {
        let count = self.menu.items.len();
        let (ax, ay) = match self.anchor {
            None => return None,
            Some(a) => a,
        };
        if count == 0 || ax < bounds.x || ax >= bounds.x.saturating_add(bounds.width) {
            return None;
        }
        let mw = bounds.width.saturating_sub(ax.saturating_sub(bounds.x));
        let max_w: u16 = if mw > 1 { mw } else { 1 };
        let mh = bounds.height.saturating_sub(ay.saturating_sub(bounds.y));
        let max_h: u16 = if mh > 1 { mh } else { 1 };
        let (label, icon) = max_widths(&self.menu.items);
        let want_w: u16 = (label + icon + 6) as u16;
        let want_h: u16 = ((count % 65536) as u16).saturating_add(2);
        Some(
            Rect {
                x: ax,
                y: ay,
                width: if want_w < max_w { want_w } else { max_w },
                height: if want_h < max_h { want_h } else { max_h },
            },
        )
    }

    /// Lay out the drop-down for a render in `bounds` on a buffer covering
    /// `buffer_area`: the drop-down rect is remembered and returned; when it
    /// shows on the buffer, the item rows drawn are remembered for clicks.
    pub fn render_dropdown(&mut self, bounds: Rect, buffer_area: Rect) -> (r: Option<Rect>)
        requires
            max_label(old(self).menu.items@, old(self).menu.items@.len() as int) + max_icon(
                old(self).menu.items@,
                old(self).menu.items@.len() as int,
            ) + 6 <= u16::MAX,
            old(self).menu.items@.len() < 65536,
        ensures
            r == spec_dropdown_rect(old(self).menu.items@, old(self).anchor, bounds),
            final(self).menu == old(self).menu,
            final(self).anchor == old(self).anchor,
            final(self).outlined == old(self).outlined,
            final(self).last_action == old(self).last_action,
            match r {
                None => final(self).menu_bounds_cache == old(self).menu_bounds_cache && final(self).item_hits
                    == old(self).item_hits,
                Some(d) => {
                    let clip = spec_intersection(d, buffer_area);
                    &&& final(self).menu_bounds_cache == Some(d)
                    &&& if clip.width == 0 || clip.height == 0 {
                        final(self).item_hits == old(self).item_hits
                    } else {
                        final(self).item_hits@ == spec_item_hits(old(self).menu.items@.len() as int, d, clip)
                    }
                },
            },
    {
        let drop = match self.dropdown_rect(bounds) {
            None => return None,
            Some(d) => d,
        };
        self.menu_bounds_cache = Some(drop);
        let clip = rect_intersection(drop, buffer_area);
        if clip.width == 0 || clip.height == 0 {
            return Some(drop);
        }
        let count = self.menu.items.len();
        let inside = drop.height.saturating_sub(1) as usize;
        let limit = if count < inside { count } else { inside };
        let mut hits: Vec<(usize, Rect)> = Vec::new();
        let mut idx: usize = 0;
        let mut stopped = false;
        proof {
            lemma_shown_bounds(limit as int, drop, clip);
        }
        while idx < limit && !stopped
            invariant
                limit <= inside,
                inside < 65536,
                idx <= limit,
                !stopped ==> choose_shown(idx as int, drop, clip) == idx,
                stopped ==> choose_shown(limit as int, drop, clip) == idx,
                hits@ == Seq::new(
                    idx as nat,
                    |k: int| (k as usize, Rect { x: drop.x, y: sat_add_u16(drop.y as int, k + 1) as u16, width: drop.width, height: 1 }),
                ),
            decreases limit - idx, if stopped { 0int } else { 1int },
        {
            let y = drop.y.saturating_add(idx as u16 + 1);
            if y < clip.y || y >= clip.y.saturating_add(clip.height) {
                proof {
                    lemma_shown_bounds(idx as int, drop, clip);
                    assert(choose_shown(idx as int + 1, drop, clip) == idx);
                    if idx + 1 < limit {
                        lemma_shown_stays(idx as int + 1, limit as int, drop, clip);
                    }
                }
                stopped = true;
            } else {
                hits.push((idx, Rect { x: drop.x, y, width: drop.width, height: 1 }));
                idx = idx + 1;
                proof {
                    assert(hits@ =~= Seq::new(
                        idx as nat,
                        |k: int| (k as usize, Rect { x: drop.x, y: sat_add_u16(drop.y as int, k + 1) as u16, width: drop.width, height: 1 }),
                    ));
                }
            }
        }
        self.item_hits = hits;
        Some(drop)
    }

    /// The item whose row of the last render holds `(column, row)`.
    pub fn hit_test_item(&self, column: u16, row: u16) -> (r: Option<usize>)
        ensures
            r == spec_hit_item(self.item_hits@, column as int, row as int),
    {
        let mut k: usize = 0;
        proof {
            assert(self.item_hits@.skip(0) =~= self.item_hits@);
        }
        while k < self.item_hits.len()
            invariant
                k <= self.item_hits@.len(),
                spec_hit_item(self.item_hits@, column as int, row as int) == spec_hit_item(
                    self.item_hits@.skip(k as int),
                    column as int,
                    row as int,
                ),
            decreases self.item_hits@.len() - k,
        {
            proof {
                assert(self.item_hits@.skip(k as int).drop_first() =~= self.item_hits@.skip(k + 1));
            }
            let (i, r) = self.item_hits[k];
            let c = column as u32;
            let w = row as u32;
            if r.x as u32 <= c && c < r.x as u32 + r.width as u32 && r.y as u32 <= w && w < r.y as u32 + r.height as u32 {
                return Some(i);
            }
            k = k + 1;
        }
        proof {
            assert(self.item_hits@.skip(k as int) =~= Seq::<(usize, Rect)>::empty());
        }
        None
    }

    /// Answer an input event, given which navigation bindings a key matches:
    /// a press on a drawn item selects and chooses it (and restores the
    /// menu); the navigation keys move the selection round the items (and
    /// restore it); the select key chooses the selected item. `true` when the
    /// overlay used the event. The chosen action is kept until the next
    /// event.
    pub fn handle_event(&mut self, event: InputEvent, keys: MenuKeys) -> (used: bool)
        requires
            old(self).menu.wf(),
        ensures
            final(self).menu.wf(),
            final(self).menu.items@ == old(self).menu.items@,
            final(self).menu.show_header == old(self).menu.show_header,
            final(self).anchor == old(self).anchor,
            final(self).item_hits == old(self).item_hits,
            final(self).menu_bounds_cache == old(self).menu_bounds_cache,
            ({
                let n = old(self).menu.items@.len() as int;
                let sel = old(self).menu.selected as int;
                match event {
                    InputEvent::Mouse(m) => match m.kind {
                        MouseEventKind::Press(_) => match spec_hit_item(old(self).item_hits@, m.column as int, m.row as int) {
                            Some(i) => {
                                let s = clamp_index(i as int, n);
                                &&& used
                                &&& final(self).menu.selected == s
                                &&& !final(self).outlined
                                &&& final(self).last_action == if s < n { Some(old(self).menu.items@[s].action) } else { None }
                            },
                            None => !used && final(self).menu.selected == sel && final(self).outlined == old(self).outlined
                                && final(self).last_action is None,
                        },
                        _ => !used && final(self).menu.selected == sel && final(self).outlined == old(self).outlined
                            && final(self).last_action is None,
                    },
                    InputEvent::Key(k) => if k.kind != KeyKind::Press || n == 0 {
                        !used && final(self).menu.selected == sel && final(self).outlined == old(self).outlined
                            && final(self).last_action is None
                    } else if keys.up || keys.prev {
                        used && final(self).menu.selected == (if sel == 0 { n - 1 } else { sel - 1 })
                            && !final(self).outlined && final(self).last_action is None
                    } else if keys.down || keys.next {
                        used && final(self).menu.selected == (sel + 1) % n && !final(self).outlined
                            && final(self).last_action is None
                    } else if keys.select {
                        used && final(self).menu.selected == sel && final(self).outlined == old(self).outlined
                            && final(self).last_action == Some(old(self).menu.items@[sel].action)
                    } else {
                        !used && final(self).menu.selected == sel && final(self).outlined == old(self).outlined
                            && final(self).last_action is None
                    },
                    InputEvent::Other => !used && final(self).menu.selected == sel && final(self).outlined
                        == old(self).outlined && final(self).last_action is None,
                }
            }),
    {
        self.last_action = None;
        match event {
            InputEvent::Mouse(m) => {
                let press = match m.kind {
                    MouseEventKind::Press(_) => true,
                    _ => false,
                };
                if !press {
                    return false;
                }
                match self.hit_test_item(m.column, m.row) {
                    Some(i) => {
                        self.menu.set_selected(i);
                        self.outlined = false;
                        self.last_action = match self.menu.selected_action() {
                            Some(a) => Some(*a),
                            None => None,
                        };
                        true
                    },
                    None => false,
                }
            },
            InputEvent::Key(k) => {
                if k.kind != KeyKind::Press {
                    return false;
                }
                let total = self.menu.items.len();
                if total == 0 {
                    return false;
                }
                let current = self.menu.selected;
                if keys.up || keys.prev {
                    self.menu.set_selected(if current == 0 { total - 1 } else { current - 1 });
                    self.outlined = false;
                    true
                } else if keys.down || keys.next {
                    self.menu.set_selected((current + 1) % total);
                    self.outlined = false;
                    true
                } else if keys.select {
                    self.last_action = match self.menu.selected_action() {
                        Some(a) => Some(*a),
                        None => None,
                    };
                    true
                } else {
                    false
                }
            },
            InputEvent::Other => false,
        }
    }
}

} // verus!

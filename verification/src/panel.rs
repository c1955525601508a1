//! The window manager's top panel and bottom bar.
//!
//! The top panel shows the menu icon with the application's name, then
//! either a status line or one chunk per window (the focused one
//! highlighted), and on its right the selection / copy / mouse / clipboard
//! indicators. The bottom bar shows keybinding hints and, on its right, the
//! application, platform and host. A layout pass decides where everything
//! goes, records the hit rects the mouse tests use, and returns what to
//! paint.
use vstd::prelude::*;
use crate::action::{MouseEvent, MouseEventKind};
use crate::geometry::{rect_intersection, sat_add_u16, sat_sub, spec_intersection, Rect};
use crate::text::{char_count, prefix_within, push_str, truncate_to_width};

verus! {

/// A keybinding hint: the action, the text it is described by, and the key
/// combinations bound to it.
pub struct KeyHint<A> {
    pub action: A,
    pub label: String,
    pub combos: Vec<String>,
}

/// How a painted run of text is styled.
#[derive(Debug, Clone, Copy, PartialEq, Eq, Structural)]
pub enum PanelRole {
    Plain,
    Menu,
    MenuOpen,
    WindowFocused,
    WindowInactive,
    IndicatorOn,
    IndicatorOff,
    IndicatorCopied,
    Combo,
    Separator,
}

/// A run of text to paint at a cell.
pub struct PanelPaint {
    pub x: u16,
    pub y: u16,
    pub text: String,
    pub role: PanelRole,
}

/// A paint as plain values.
pub open spec fn paint_view(p: PanelPaint) -> (u16, u16, Seq<char>, PanelRole) {
    (p.x, p.y, p.text@, p.role)
}

/// A run of paints as plain values.
pub open spec fn paints_view(ps: Seq<PanelPaint>) -> Seq<(u16, u16, Seq<char>, PanelRole)> {
    ps.map_values(|p: PanelPaint| paint_view(p))
}

/// The state the top panel's indicators show.
#[derive(Debug, Clone, Copy, PartialEq, Eq, Structural)]
pub struct PanelToggles {
    pub mouse_capture_enabled: bool,
    pub clipboard_enabled: bool,
    pub window_selection_enabled: bool,
    pub selection_copy_available: bool,
    pub selection_copied: bool,
    pub menu_open: bool,
}

/// Top panel and bottom bar.
pub struct PanelComponent<A> {
    pub visible: bool,
    pub height: u16,
    pub area: Rect,
    pub bottom_area: Rect,
    pub menu_rect: Option<Rect>,
    /// The window chunks of the last frame: the window's id and its rect.
    pub window_hits: Vec<(usize, Rect)>,
    pub mouse_capture_rect: Option<Rect>,
    pub clipboard_rect: Option<Rect>,
    pub selection_rect: Option<Rect>,
    pub copy_rect: Option<Rect>,
    pub app_name: String,
    pub app_version: String,
    pub hostname: Option<String>,
    pub keybinding_hints: Vec<KeyHint<A>>,
    pub hint_rects: Vec<(Rect, A)>,
}

/// Whether the cell `(column, row)` lies in `r`.
pub open spec fn cell_in(r: Rect, column: int, row: int) -> bool {
    r.x <= column < r.x + r.width && r.y <= row < r.y + r.height
}

fn cell_in_rect(r: Rect, column: u16, row: u16) -> (b: bool)
    ensures
        b == cell_in(r, column as int, row as int),
{
    let c = column as u32;
    let w = row as u32;
    c >= r.x as u32 && c < r.x as u32 + r.width as u32 && w >= r.y as u32 && w < r.y as u32 + r.height as u32
}

/// Whether a mouse event is a button press inside the optional rect.
pub open spec fn pressed_in(r: Option<Rect>, mouse: MouseEvent) -> bool {
    mouse.kind is Press && match r {
        Some(rect) => cell_in(rect, mouse.column as int, mouse.row as int),
        None => false,
    }
}

/// The split of `area` for a panel of height `height`: the top panel (only
/// when active), the bottom bar (one row, when active or when there are
/// hints) and the managed space between them.
pub open spec fn spec_split(height: u16, has_hints: bool, active: bool, area: Rect) -> (Rect, Rect, Rect) {
    let top_h: int = if active { if height < area.height { height as int } else { area.height as int } } else { 0 };
    let room = area.height - top_h;
    let bottom_h: int = if has_hints || active { if 1 < room { 1 } else { room } } else { 0 };
    (
        Rect { x: area.x, y: area.y, width: area.width, height: top_h as u16 },
        Rect {
            x: area.x,
            y: sat_sub(sat_add_u16(area.y as int, area.height as int), bottom_h) as u16,
            width: area.width,
            height: bottom_h as u16,
        },
        Rect {
            x: area.x,
            y: sat_add_u16(area.y as int, top_h) as u16,
            width: area.width,
            height: (area.height - top_h - bottom_h) as u16,
        },
    )
}

/// The chunk shown for a window at column `x` of a panel ending at `max_x`:
/// its label between spaces, the label cut to fit when it is too long.
pub open spec fn window_chunk(label: Seq<char>, x: int, max_x: int) -> Seq<char> {
    let max_label = sat_sub(sat_sub(max_x, x), 2);
    let l = if label.len() > max_label { prefix_within(label, max_label) } else { label };
    seq![' '] + l + seq![' ']
}

/// The column reached after the first `n` window chunks, and whether a
/// chunk that did not fit stopped the run.
pub open spec fn window_scan(labels: Seq<String>, n: int, x0: u16, max_x: u16) -> (u16, bool)
    decreases n,
{
    if n <= 0 {
        (x0, false)
    } else {
        let (x, stopped) = window_scan(labels, n - 1, x0, max_x);
        if stopped {
            (x, true)
        } else {
            let cw = window_chunk(labels[n - 1]@, x as int, max_x as int).len() as u16;
            if sat_add_u16(x as int, cw as int) > max_x {
                (x, true)
            } else {
                (sat_add_u16(x as int, cw as int) as u16, false)
            }
        }
    }
}

/// The chunks placed for the first `n` windows: the window's id, the rect
/// of its chunk, and what to paint there.
pub open spec fn window_run(
    order: Seq<usize>,
    labels: Seq<String>,
    n: int,
    x0: u16,
    max_x: u16,
    y: u16,
    focus: usize,
) -> Seq<((usize, Rect), (u16, u16, Seq<char>, PanelRole))>
    decreases n,
{
    if n <= 0 {
        seq![]
    } else {
        let prev = window_run(order, labels, n - 1, x0, max_x, y, focus);
        let (x, stopped) = window_scan(labels, n - 1, x0, max_x);
        let chunk = window_chunk(labels[n - 1]@, x as int, max_x as int);
        let cw = chunk.len() as u16;
        if stopped || sat_add_u16(x as int, cw as int) > max_x {
            prev
        } else {
            let role = if order[n - 1] == focus { PanelRole::WindowFocused } else { PanelRole::WindowInactive };
            prev.push(((order[n - 1], Rect { x, y, width: cw, height: 1 }), (x, y, chunk, role)))
        }
    }
}

/// The notification indicators, left to right, with their roles.
pub open spec fn indicator_role(on: bool) -> PanelRole {
    if on { PanelRole::IndicatorOn } else { PanelRole::IndicatorOff }
}

/// The columns `[start, start + width)` clipped to end at `max_x`, as a
/// one-row rect; `None` when nothing of it is left.
pub open spec fn clipped_cell_run(start: u16, width: u16, max_x: u16, y: u16) -> Option<Rect> {
    let w = if (width as int) < max_x - start { width as int } else { max_x - start };
    if start < max_x && w > 0 {
        Some(Rect { x: start, y, width: w as u16, height: 1 })
    } else {
        None
    }
}

/// The key combinations of a hint joined by `/`.
pub open spec fn joined(parts: Seq<String>, n: int) -> Seq<char>
    decreases n,
{
    if n <= 0 {
        seq![]
    } else if n == 1 {
        parts[0]@
    } else {
        joined(parts, n - 1) + seq!['/'] + parts[n - 1]@
    }
}

/// The text of a hint: its combinations, a space and its description.
pub open spec fn hint_entry<A>(h: KeyHint<A>) -> Seq<char> {
    joined(h.combos@, h.combos@.len() as int) + seq![' '] + h.label@
}

/// The cursor after the first `n` hints of a bar starting at `bx` whose
/// hints end before `max_x`, and whether the run stopped.
pub open spec fn hint_scan<A>(hints: Seq<KeyHint<A>>, n: int, bx: u16, max_x: u16) -> (u16, bool)
    decreases n,
{
    if n <= 0 {
        (bx, false)
    } else {
        let (c, stopped) = hint_scan(hints, n - 1, bx, max_x);
        if stopped || c >= max_x {
            (c, true)
        } else {
            let h = hints[n - 1];
            let ew = hint_entry(h).len() as u16;
            let available = sat_sub(max_x as int, c as int);
            if sat_add_u16(c as int, ew as int) > max_x && c > bx {
                (c, true)
            } else if c == bx && ew > available {
                (c, true)
            } else {
                let combo = joined(h.combos@, h.combos@.len() as int);
                let c1 = sat_add_u16(c as int, (combo.len() as u16) as int);
                let c2 = sat_add_u16(c1, ((h.label@.len() + 1) as u16) as int);
                if c2 < max_x {
                    (sat_add_u16(c2, 1) as u16, false)
                } else {
                    (c2 as u16, false)
                }
            }
        }
    }
}

/// The hit rects of the first `n` hints.
pub open spec fn hint_rects_of<A>(hints: Seq<KeyHint<A>>, n: int, bx: u16, max_x: u16, y: u16) -> Seq<(Rect, A)>
    decreases n,
{
    if n <= 0 {
        seq![]
    } else {
        let prev = hint_rects_of(hints, n - 1, bx, max_x, y);
        let (c, stopped) = hint_scan(hints, n - 1, bx, max_x);
        let h = hints[n - 1];
        let ew = hint_entry(h).len() as u16;
        let available = sat_sub(max_x as int, c as int);
        if stopped || c >= max_x || (sat_add_u16(c as int, ew as int) > max_x && c > bx) {
            prev
        } else if c == bx && ew > available {
            prev.push((Rect { x: c, y, width: available as u16, height: 1 }, h.action))
        } else {
            prev.push((Rect { x: c, y, width: ew, height: 1 }, h.action))
        }
    }
}

/// The paints of the first `n` hints.
pub open spec fn hint_paints<A>(hints: Seq<KeyHint<A>>, n: int, bx: u16, max_x: u16, y: u16) -> Seq<(u16, u16, Seq<char>, PanelRole)>
    decreases n,
{
    if n <= 0 {
        seq![]
    } else {
        let prev = hint_paints(hints, n - 1, bx, max_x, y);
        let (c, stopped) = hint_scan(hints, n - 1, bx, max_x);
        let h = hints[n - 1];
        let entry = hint_entry(h);
        let ew = entry.len() as u16;
        let available = sat_sub(max_x as int, c as int);
        if stopped || c >= max_x || (sat_add_u16(c as int, ew as int) > max_x && c > bx) {
            prev
        } else if c == bx && ew > available {
            prev.push((c, y, prefix_within(entry, available), PanelRole::Plain))
        } else {
            let combo = joined(h.combos@, h.combos@.len() as int);
            let c1 = sat_add_u16(c as int, (combo.len() as u16) as int);
            let c2 = sat_add_u16(c1, ((h.label@.len() + 1) as u16) as int);
            let with_text = prev.push((c, y, combo, PanelRole::Combo)).push(
                (c1 as u16, y, seq![' '] + h.label@, PanelRole::Plain),
            );
            if c2 < max_x { with_text.push((c2 as u16, y, seq!['|'], PanelRole::Separator)) } else { with_text }
        }
    }
}

/// The info text of the bottom bar: application and version, platform and
/// host (`unknown-host` when none is known).
pub open spec fn info_text(app: Seq<char>, version: Seq<char>, platform: Seq<char>, host: Option<String>) -> Seq<char> {
    let h = match host {
        Some(h) => h@,
        None => "unknown-host"@,
    };
    app + seq![' '] + version + seq![' ', '·', ' '] + platform + seq![' ', '·', ' '] + h
}

/// The column where the hints of a bottom bar `bounds` must end: before the
/// info text and a two-column gap, or at the bar's end without info.
pub open spec fn hint_limit(bounds: Rect, info_width: u16) -> u16 {
    let end = sat_add_u16(bounds.x as int, bounds.width as int);
    (if info_width > 0 { sat_sub(end, sat_add_u16(info_width as int, 2)) } else { end }) as u16
}

/// Where the info text starts: right-aligned, or at the bar's start when it
/// fills the bar.
pub open spec fn info_start(bounds: Rect, text_width: u16) -> u16 {
    let start = if text_width >= bounds.width {
        bounds.x as int
    } else {
        sat_sub(sat_add_u16(bounds.x as int, bounds.width as int), text_width as int)
    };
    (if start > bounds.x { start } else { bounds.x as int }) as u16
}

fn join_combos(combos: &Vec<String>) -> (r: String)
    ensures
        r@ == joined(combos@, combos@.len() as int),
{
    let mut out = String::new();
    let mut i: usize = 0;
    while i < combos.len()
        invariant
            i <= combos@.len(),
            out@ == joined(combos@, i as int),
        decreases combos@.len() - i,
    {
        if i > 0 {
            out.push('/');
        }
        push_str(&mut out, combos[i].as_str());
        i = i + 1;
        proof {
            if i == 1 {
                assert(out@ =~= combos@[0]@);
            } else {
                assert(out@ =~= joined(combos@, i - 1) + seq!['/'] + combos@[i - 1]@);
            }
        }
    }
    out
}

fn text_of(s: &str) -> (r: String)
    ensures
        r@ == s@,
{
    let mut out = String::new();
    push_str(&mut out, s);
    proof {
        assert(out@ =~= s@);
    }
    out
}

fn paint(x: u16, y: u16, text: String, role: PanelRole) -> (p: PanelPaint)
    ensures
        paint_view(p) == (x, y, text@, role),
{
    PanelPaint { x, y, text, role }
}


/// What a layout pass hands to the painter for one bar: the cells to give
/// the bar's colours, and the runs of text on them.
pub struct PanelLayer {
    pub bounds: Rect,
    pub paints: Vec<PanelPaint>,
}

/// `new` when there is one, else `old`.
pub open spec fn replaced(old: Option<Rect>, new: Option<Rect>) -> Option<Rect> {
    if new is Some { new } else { old }
}

/// The end column of a rect, saturating.
pub open spec fn right_of(r: Rect) -> u16 {
    sat_add_u16(r.x as int, r.width as int) as u16
}

/// The width of a literal's text.
pub open spec fn lit_width(s: &str) -> u16 {
    s@.len() as u16
}

/// The column where the four indicators start: right-aligned before
/// `max_x`, or at the bar's start when they do not fit.
pub open spec fn indicators_start(bounds: Rect, max_x: u16) -> u16 {
    let total = sat_add_u16(
        sat_add_u16(sat_add_u16(lit_width("[ selection ]") as int, lit_width("[ copy ]") as int), lit_width("[ mouse ]") as int),
        lit_width("[ clipboard ]") as int,
    );
    if total >= bounds.width { bounds.x } else { sat_sub(max_x as int, total) as u16 }
}

/// The indicators' columns, left to right.
pub open spec fn indicator_columns(bounds: Rect, max_x: u16) -> (u16, u16, u16, u16) {
    let c0 = indicators_start(bounds, max_x);
    let c1 = sat_add_u16(c0 as int, lit_width("[ selection ]") as int) as u16;
    let c2 = sat_add_u16(c1 as int, lit_width("[ copy ]") as int) as u16;
    let c3 = sat_add_u16(c2 as int, lit_width("[ mouse ]") as int) as u16;
    (c0, c1, c2, c3)
}

/// The role of the copy indicator.
pub open spec fn copy_role(t: PanelToggles) -> PanelRole {
    if t.selection_copy_available && t.clipboard_enabled {
        if t.selection_copied { PanelRole::IndicatorCopied } else { PanelRole::IndicatorOn }
    } else {
        PanelRole::IndicatorOff
    }
}

/// The paint of an indicator `text` at `c` when some of it shows.
pub open spec fn indicator_paint(text: &str, c: u16, max_x: u16, y: u16, role: PanelRole) -> Seq<(u16, u16, Seq<char>, PanelRole)> {
    if clipped_cell_run(c, lit_width(text), max_x, y) is Some { seq![(c, y, text@, role)] } else { seq![] }
}

/// The paints of the four indicators.
pub open spec fn indicator_paints(bounds: Rect, max_x: u16, y: u16, t: PanelToggles) -> Seq<(u16, u16, Seq<char>, PanelRole)> {
    let (c0, c1, c2, c3) = indicator_columns(bounds, max_x);
    indicator_paint("[ selection ]", c0, max_x, y, indicator_role(t.window_selection_enabled))
        + indicator_paint("[ copy ]", c1, max_x, y, copy_role(t))
        + indicator_paint("[ mouse ]", c2, max_x, y, indicator_role(t.mouse_capture_enabled))
        + indicator_paint("[ clipboard ]", c3, max_x, y, indicator_role(t.clipboard_enabled))
}

/// The text of the menu icon.
pub open spec fn menu_text(app: Seq<char>) -> Seq<char> {
    seq!['≡', ' '] + app
}

/// Whether the menu icon fits at the start of the top panel.
pub open spec fn menu_fits(area: Rect, app: Seq<char>) -> bool {
    sat_add_u16(area.x as int, (menu_text(app).len() as u16) as int) <= right_of(area)
}

/// The column after the menu icon and the space that follows it.
pub open spec fn body_start(area: Rect, app: Seq<char>) -> u16 {
    let x1 = if menu_fits(area, app) {
        sat_add_u16(area.x as int, (menu_text(app).len() as u16) as int) as u16
    } else {
        area.x
    };
    if x1 < right_of(area) { (x1 + 1) as u16 } else { x1 }
}

/// The paints of the menu icon and the space after it.
pub open spec fn head_paints(area: Rect, app: Seq<char>, menu_open: bool) -> Seq<(u16, u16, Seq<char>, PanelRole)> {
    let icon = if menu_fits(area, app) {
        seq![(area.x, area.y, menu_text(app), if menu_open { PanelRole::MenuOpen } else { PanelRole::Menu })]
    } else {
        seq![]
    };
    let x1 = if menu_fits(area, app) {
        sat_add_u16(area.x as int, (menu_text(app).len() as u16) as int) as u16
    } else {
        area.x
    };
    if x1 < right_of(area) { icon.push((x1, area.y, seq![' '], PanelRole::Plain)) } else { icon }
}

/// The paints of the status line at `x`: as much of it as fits, at least
/// one column.
pub open spec fn status_paints(status: Seq<char>, x: u16, max_x: u16, y: u16) -> Seq<(u16, u16, Seq<char>, PanelRole)> {
    let available = sat_sub(max_x as int, x as int);
    let room = if available > 1 { available } else { 1 };
    seq![(x, y, prefix_within(status, room), PanelRole::Plain)]
}

impl<A: Copy> PanelComponent<A> {
    /// A visible one-row panel for the named application.
    pub fn new(app_name: &str, app_version: &str, hostname: Option<&str>) -> (r: Self)
        ensures
            r.visible,
            r.height == 1,
            r.area == (Rect { x: 0, y: 0, width: 0, height: 0 }),
            r.bottom_area == (Rect { x: 0, y: 0, width: 0, height: 0 }),
            r.menu_rect is None,
            r.window_hits@.len() == 0,
            r.mouse_capture_rect is None && r.clipboard_rect is None && r.selection_rect is None && r.copy_rect is None,
            r.app_name@ == app_name@,
            r.app_version@ == app_version@,
            match hostname {
                Some(h) => r.hostname matches Some(rh) && rh@ == h@,
                None => r.hostname is None,
            },
            r.keybinding_hints@.len() == 0,
            r.hint_rects@.len() == 0,
    {
        let host = match hostname {
            Some(h) => Some(text_of(h)),
            None => None,
        };
        PanelComponent {
            visible: true,
            height: 1,
            area: Rect { x: 0, y: 0, width: 0, height: 0 },
            bottom_area: Rect { x: 0, y: 0, width: 0, height: 0 },
            menu_rect: None,
            window_hits: Vec::new(),
            mouse_capture_rect: None,
            clipboard_rect: None,
            selection_rect: None,
            copy_rect: None,
            app_name: text_of(app_name),
            app_version: text_of(app_version),
            hostname: host,
            keybinding_hints: Vec::new(),
            hint_rects: Vec::new(),
        }
    }

    /// Set the host name shown in the bottom bar.
    pub fn set_hostname(&mut self, hostname: &str)
        ensures
            final(self).hostname matches Some(h) && h@ == hostname@,
            *final(self) == (PanelComponent { hostname: final(self).hostname, ..*old(self) }),
    {
        self.hostname = Some(text_of(hostname));
    }

    /// Replace the keybinding hints.
    pub fn set_keybinding_hints(&mut self, hints: Vec<KeyHint<A>>)
        ensures
            *final(self) == (PanelComponent { keybinding_hints: hints, ..*old(self) }),
    {
        self.keybinding_hints = hints;
    }

    /// The keybinding hints.
    pub fn keybinding_hints(&self) -> (r: &[KeyHint<A>])
        ensures
            r@ == self.keybinding_hints@,
    {
        self.keybinding_hints.as_slice()
    }

    /// Forget the hit rects of the previous frame.
    pub fn begin_frame(&mut self)
        ensures
            *final(self) == (PanelComponent {
                window_hits: final(self).window_hits,
                hint_rects: final(self).hint_rects,
                menu_rect: None,
                mouse_capture_rect: None,
                clipboard_rect: None,
                selection_rect: None,
                copy_rect: None,
                ..*old(self)
            }),
            final(self).window_hits@.len() == 0,
            final(self).hint_rects@.len() == 0,
    {
        self.window_hits.clear();
        self.menu_rect = None;
        self.mouse_capture_rect = None;
        self.clipboard_rect = None;
        self.selection_rect = None;
        self.copy_rect = None;
        self.hint_rects.clear();
    }

    pub fn visible(&self) -> (r: bool)
        ensures
            r == self.visible,
    {
        self.visible
    }

    pub fn height(&self) -> (r: u16)
        ensures
            r == self.height,
    {
        self.height
    }

    pub fn area(&self) -> (r: Rect)
        ensures
            r == self.area,
    {
        self.area
    }

    pub fn bottom_area(&self) -> (r: Rect)
        ensures
            r == self.bottom_area,
    {
        self.bottom_area
    }

    pub fn set_visible(&mut self, visible: bool)
        ensures
            *final(self) == (PanelComponent { visible: visible, ..*old(self) }),
    {
        self.visible = visible;
    }

    /// Set the panel's height; it is at least one row.
    pub fn set_height(&mut self, height: u16)
        ensures
            *final(self) == (PanelComponent { height: if height > 1 { height } else { 1 }, ..*old(self) }),
    {
        self.height = if height > 1 { height } else { 1 };
    }

    pub fn menu_icon_rect(&self) -> (r: Option<Rect>)
        ensures
            r == self.menu_rect,
    {
        self.menu_rect
    }

    /// Whether `(column, row)` lies on the menu icon.
    pub fn menu_icon_contains_point(&self, column: u16, row: u16) -> (r: bool)
        ensures
            r == (match self.menu_rect {
                Some(rect) => cell_in(rect, column as int, row as int),
                None => false,
            }),
    {
        match self.menu_rect {
            Some(rect) => cell_in_rect(rect, column, row),
            None => false,
        }
    }

    /// Split `area` into the top panel, the bottom bar and the managed
    /// space (see [`spec_split`]), remembering the two bars.
    pub fn split_area(&mut self, active: bool, area: Rect) -> (r: (Rect, Rect, Rect))
        ensures
            r == spec_split(old(self).height, old(self).keybinding_hints@.len() > 0, active, area),
            *final(self) == (PanelComponent { area: r.0, bottom_area: r.1, ..*old(self) }),
    {
        let top_h: u16 = if active {
            if self.height < area.height { self.height } else { area.height }
        } else {
            0
        };
        let has_hints = self.keybinding_hints.len() > 0;
        let room: u16 = area.height - top_h;
        let bottom_h: u16 = if has_hints || active {
            if 1 < room { 1 } else { room }
        } else {
            0
        };
        let panel = Rect { x: area.x, y: area.y, width: area.width, height: top_h };
        let bottom = Rect {
            x: area.x,
            y: area.y.saturating_add(area.height).saturating_sub(bottom_h),
            width: area.width,
            height: bottom_h,
        };
        let managed = Rect {
            x: area.x,
            y: area.y.saturating_add(top_h),
            width: area.width,
            height: area.height - top_h - bottom_h,
        };
        self.area = panel;
        self.bottom_area = bottom;
        (panel, bottom, managed)
    }

    /// The action of the hint pressed by `mouse`, if any.
    pub fn hit_test_hint(&self, mouse: MouseEvent) -> (r: Option<A>)
        ensures
            r == (if mouse.kind is Press { first_hint_at(self.hint_rects@, mouse.column, mouse.row, 0) } else { None }),
    {
        if !(match mouse.kind {
            MouseEventKind::Press(_) => true,
            _ => false,
        }) {
            return None;
        }
        let mut i: usize = 0;
        while i < self.hint_rects.len()
            invariant
                i <= self.hint_rects@.len(),
                mouse.kind is Press,
                first_hint_at(self.hint_rects@, mouse.column, mouse.row, 0) == first_hint_at(
                    self.hint_rects@,
                    mouse.column,
                    mouse.row,
                    i as int,
                ),
            decreases self.hint_rects@.len() - i,
        {
            if cell_in_rect(self.hint_rects[i].0, mouse.column, mouse.row) {
                return Some(self.hint_rects[i].1);
            }
            i = i + 1;
        }
        None
    }

    /// Whether `mouse` presses the menu icon.
    pub fn hit_test_menu(&self, mouse: MouseEvent) -> (r: bool)
        ensures
            r == pressed_in(self.menu_rect, mouse),
    {
        pressed_in_rect(self.menu_rect, mouse)
    }

    /// Whether `mouse` presses the mouse-capture indicator.
    pub fn hit_test_mouse_capture(&self, mouse: MouseEvent) -> (r: bool)
        ensures
            r == pressed_in(self.mouse_capture_rect, mouse),
    {
        pressed_in_rect(self.mouse_capture_rect, mouse)
    }

    /// Whether `mouse` presses the clipboard indicator.
    pub fn hit_test_clipboard(&self, mouse: MouseEvent) -> (r: bool)
        ensures
            r == pressed_in(self.clipboard_rect, mouse),
    {
        pressed_in_rect(self.clipboard_rect, mouse)
    }

    /// Whether `mouse` presses the copy indicator.
    pub fn hit_test_copy(&self, mouse: MouseEvent) -> (r: bool)
        ensures
            r == pressed_in(self.copy_rect, mouse),
    {
        pressed_in_rect(self.copy_rect, mouse)
    }

    /// Whether `mouse` presses the selection indicator.
    pub fn hit_test_selection(&self, mouse: MouseEvent) -> (r: bool)
        ensures
            r == pressed_in(self.selection_rect, mouse),
    {
        pressed_in_rect(self.selection_rect, mouse)
    }

    /// The window whose chunk `mouse` presses, if any.
    pub fn hit_test_window(&self, mouse: MouseEvent) -> (r: Option<usize>)
        ensures
            r == (if mouse.kind is Press { first_window_at(self.window_hits@, mouse.column, mouse.row, 0) } else { None }),
    {
        if !(match mouse.kind {
            MouseEventKind::Press(_) => true,
            _ => false,
        }) {
            return None;
        }
        let mut i: usize = 0;
        while i < self.window_hits.len()
            invariant
                i <= self.window_hits@.len(),
                mouse.kind is Press,
                first_window_at(self.window_hits@, mouse.column, mouse.row, 0) == first_window_at(
                    self.window_hits@,
                    mouse.column,
                    mouse.row,
                    i as int,
                ),
            decreases self.window_hits@.len() - i,
        {
            if cell_in_rect(self.window_hits[i].1, mouse.column, mouse.row) {
                return Some(self.window_hits[i].0);
            }
            i = i + 1;
        }
        None
    }
}

fn pressed_in_rect(r: Option<Rect>, mouse: MouseEvent) -> (b: bool)
    ensures
        b == pressed_in(r, mouse),
{
    match mouse.kind {
        MouseEventKind::Press(_) => match r {
            Some(rect) => cell_in_rect(rect, mouse.column, mouse.row),
            None => false,
        },
        _ => false,
    }
}

/// The action of the first hint rect at or after `i` holding the cell.
pub open spec fn first_hint_at<A>(rects: Seq<(Rect, A)>, column: u16, row: u16, i: int) -> Option<A>
    decreases rects.len() - i,
{
    if i < 0 || i >= rects.len() {
        None
    } else if cell_in(rects[i].0, column as int, row as int) {
        Some(rects[i].1)
    } else {
        first_hint_at(rects, column, row, i + 1)
    }
}

/// The id of the first window chunk at or after `i` holding the cell.
pub open spec fn first_window_at(hits: Seq<(usize, Rect)>, column: u16, row: u16, i: int) -> Option<usize>
    decreases hits.len() - i,
{
    if i < 0 || i >= hits.len() {
        None
    } else if cell_in(hits[i].1, column as int, row as int) {
        Some(hits[i].0)
    } else {
        first_window_at(hits, column, row, i + 1)
    }
}


/// The info text of panel `p` for `platform`.
pub open spec fn panel_info<A>(p: PanelComponent<A>, platform: Seq<char>) -> Seq<char> {
    info_text(p.app_name@, p.app_version@, platform, p.hostname)
}

/// The column where the hints of `p`'s bottom bar in `bounds` end.
pub open spec fn bottom_limit<A>(p: PanelComponent<A>, show_info: bool, platform: Seq<char>, bounds: Rect) -> u16 {
    hint_limit(bounds, if show_info { panel_info(p, platform).len() as u16 } else { 0 })
}

/// The paints of `p`'s bottom bar in `bounds`: the hints from the left,
/// then (with `show_info`) as much of the info text as fits, right-aligned.
pub open spec fn bottom_paints<A>(p: PanelComponent<A>, show_info: bool, platform: Seq<char>, bounds: Rect) -> Seq<(u16, u16, Seq<char>, PanelRole)> {
    let max_x = bottom_limit(p, show_info, platform, bounds);
    let hints = p.keybinding_hints@;
    let hp = if hints.len() > 0 {
        hint_paints(hints, hints.len() as int, bounds.x, max_x, p.bottom_area.y)
    } else {
        seq![]
    };
    if show_info {
        let text = prefix_within(panel_info(p, platform), bounds.width as int);
        hp.push((info_start(bounds, text.len() as u16), p.bottom_area.y, text, PanelRole::Plain))
    } else {
        hp
    }
}

/// The hint rects after laying out `p`'s bottom bar in `bounds`.
pub open spec fn bottom_hint_rects<A>(p: PanelComponent<A>, show_info: bool, platform: Seq<char>, bounds: Rect) -> Seq<(Rect, A)> {
    let hints = p.keybinding_hints@;
    if hints.len() > 0 {
        hint_rects_of(hints, hints.len() as int, bounds.x, bottom_limit(p, show_info, platform, bounds), p.bottom_area.y)
    } else {
        p.hint_rects@
    }
}

/// The cells of `r` that are on `screen`, when there are any.
pub open spec fn on_screen(r: Rect, screen: Rect) -> Option<Rect> {
    let b = spec_intersection(r, screen);
    if r.width == 0 || r.height == 0 || b.width == 0 || b.height == 0 { None } else { Some(b) }
}

impl<A: Copy> PanelComponent<A> {
    fn info_string(&self, platform: &str) -> (r: String)
        ensures
            r@ == panel_info(*self, platform@),
    {
        let mut out = String::new();
        push_str(&mut out, self.app_name.as_str());
        out.push(' ');
        push_str(&mut out, self.app_version.as_str());
        out.push(' ');
        out.push('·');
        out.push(' ');
        push_str(&mut out, platform);
        out.push(' ');
        out.push('·');
        out.push(' ');
        match &self.hostname {
            Some(h) => push_str(&mut out, h.as_str()),
            None => push_str(&mut out, "unknown-host"),
        }
        proof {
            let h = match &self.hostname {
                Some(h) => h@,
                None => "unknown-host"@,
            };
            assert(out@ =~= self.app_name@ + seq![' '] + self.app_version@ + seq![' ', '·', ' '] + platform@ + seq![
                ' ',
                '·',
                ' ',
            ] + h);
        }
        out
    }

    /// Lay out the bottom bar: the keybinding hints from the left (the
    /// first one cut to fit when alone it is too wide, the rest only while
    /// they fit) and, with `show_info`, the application, `platform` and host
    /// on the right. Records the hints' hit rects.
    fn layout_bottom_impl(&mut self, show_info: bool, platform: &str, screen: Rect) -> (r: Option<PanelLayer>)
        ensures
            on_screen(old(self).bottom_area, screen) is None ==> r is None && *final(self) == *old(self),
            on_screen(old(self).bottom_area, screen) matches Some(bounds) ==> {
                &&& r matches Some(l) && l.bounds == bounds && paints_view(l.paints@) == bottom_paints(
                    *old(self),
                    show_info,
                    platform@,
                    bounds,
                )
                &&& final(self).hint_rects@ == bottom_hint_rects(*old(self), show_info, platform@, bounds)
                &&& *final(self) == (PanelComponent { hint_rects: final(self).hint_rects, ..*old(self) })
            },
    {
        let area = self.bottom_area;
        if area.width == 0 || area.height == 0 {
            return None;
        }
        let bounds = rect_intersection(area, screen);
        if bounds.width == 0 || bounds.height == 0 {
            return None;
        }
        let y = area.y;
        let info = self.info_string(platform);
        let info_width: u16 = if show_info { char_count(info.as_str()) as u16 } else { 0 };
        let end = bounds.x.saturating_add(bounds.width);
        let max_x: u16 = if info_width > 0 { end.saturating_sub(info_width.saturating_add(2)) } else { end };
        let mut paints: Vec<PanelPaint> = Vec::new();
        if self.keybinding_hints.len() > 0 {
            let mut rects: Vec<(Rect, A)> = Vec::new();
            let mut cursor: u16 = bounds.x;
            let mut stopped = false;
            let mut i: usize = 0;
            while i < self.keybinding_hints.len()
                invariant
                    i <= self.keybinding_hints@.len(),
                    (cursor, stopped) == hint_scan(self.keybinding_hints@, i as int, bounds.x, max_x),
                    rects@ == hint_rects_of(self.keybinding_hints@, i as int, bounds.x, max_x, y),
                    paints_view(paints@) == hint_paints(self.keybinding_hints@, i as int, bounds.x, max_x, y),
                decreases self.keybinding_hints@.len() - i,
            {
                let ghost before = paints@;
                let ghost c_old = cursor;
                let ghost st_old = stopped;
                if !stopped {
                    if cursor >= max_x {
                        stopped = true;
                    } else {
                        let h = &self.keybinding_hints[i];
                        let combo = join_combos(&h.combos);
                        let mut entry = combo.clone();
                        entry.push(' ');
                        push_str(&mut entry, h.label.as_str());
                        let ew = char_count(entry.as_str()) as u16;
                        let available: u16 = max_x - cursor;
                        if cursor.saturating_add(ew) > max_x && cursor > bounds.x {
                            stopped = true;
                        } else if cursor == bounds.x && ew > available {
                            rects.push((Rect { x: cursor, y, width: available, height: 1 }, h.action));
                            paints.push(paint(cursor, y, truncate_to_width(entry.as_str(), available as usize), PanelRole::Plain));
                            proof {
                                assert(paints_view(paints@) =~= paints_view(before).push(paint_view(paints@.last())));
                                assert(entry@ =~= hint_entry(*h));
                                assert(hint_scan(self.keybinding_hints@, i as int, bounds.x, max_x) == (c_old, st_old));
                                assert(paints_view(paints@) == hint_paints(self.keybinding_hints@, i + 1, bounds.x, max_x, y));
                            }
                            stopped = true;
                        } else {
                            rects.push((Rect { x: cursor, y, width: ew, height: 1 }, h.action));
                            let combo_w = char_count(combo.as_str()) as u16;
                            paints.push(paint(cursor, y, combo, PanelRole::Combo));
                            let c1 = cursor.saturating_add(combo_w);
                            let mut desc = String::new();
                            desc.push(' ');
                            push_str(&mut desc, h.label.as_str());
                            let desc_w = (char_count(h.label.as_str()) + 1) as u16;
                            paints.push(paint(c1, y, desc, PanelRole::Plain));
                            let c2 = c1.saturating_add(desc_w);
                            let ghost mid = paints@;
                            if c2 < max_x {
                                let mut bar = String::new();
                                bar.push('|');
                                paints.push(paint(c2, y, bar, PanelRole::Separator));
                                cursor = c2.saturating_add(1);
                            } else {
                                cursor = c2;
                            }
                            proof {
                                assert(desc@ =~= seq![' '] + h.label@);
                                assert(entry@ =~= hint_entry(*h));
                                assert(combo@ == joined(h.combos@, h.combos@.len() as int));
                                assert(paints_view(mid) =~= paints_view(before).push(paint_view(mid[before.len() as int])).push(
                                    paint_view(mid[before.len() + 1int]),
                                ));
                                if c2 < max_x {
                                    assert(paints_view(paints@) =~= paints_view(mid).push(paint_view(paints@.last())));
                                }
                                assert(!st_old && c_old < max_x);
                                assert(hint_scan(self.keybinding_hints@, i as int, bounds.x, max_x) == (c_old, st_old));
                                assert(paints_view(paints@) == hint_paints(self.keybinding_hints@, i + 1, bounds.x, max_x, y));
                            }
                        }
                    }
                }
                proof {
                    assert(paints_view(paints@) == hint_paints(self.keybinding_hints@, i + 1, bounds.x, max_x, y));
                }
                i = i + 1;
            }
            self.hint_rects = rects;
        }
        if show_info {
            let ghost before = paints@;
            let text = truncate_to_width(info.as_str(), bounds.width as usize);
            let tw = char_count(text.as_str()) as u16;
            let start: u16 = if tw >= bounds.width { bounds.x } else { end.saturating_sub(tw) };
            let at: u16 = if start > bounds.x { start } else { bounds.x };
            paints.push(paint(at, y, text, PanelRole::Plain));
            proof {
                assert(paints_view(paints@) =~= paints_view(before).push(paint_view(paints@.last())));
            }
        }
        proof {
            if self.keybinding_hints@.len() == 0 {
                assert(paints_view(Seq::<PanelPaint>::empty()) =~= seq![]);
            }
        }
        Some(PanelLayer { bounds, paints })
    }

    /// Lay out the bottom bar with its info text (see
    /// [`PanelComponent::layout_bottom_impl`]).
    pub fn layout_bottom(&mut self, platform: &str, screen: Rect) -> (r: Option<PanelLayer>)
        ensures
            on_screen(old(self).bottom_area, screen) is None ==> r is None && *final(self) == *old(self),
            on_screen(old(self).bottom_area, screen) matches Some(bounds) ==> {
                &&& r matches Some(l) && l.bounds == bounds && paints_view(l.paints@) == bottom_paints(
                    *old(self),
                    true,
                    platform@,
                    bounds,
                )
                &&& final(self).hint_rects@ == bottom_hint_rects(*old(self), true, platform@, bounds)
                &&& *final(self) == (PanelComponent { hint_rects: final(self).hint_rects, ..*old(self) })
            },
    {
        self.layout_bottom_impl(true, platform, screen)
    }

    /// Lay out the bottom bar with the hints only.
    pub fn layout_hints(&mut self, screen: Rect) -> (r: Option<PanelLayer>)
        ensures
            on_screen(old(self).bottom_area, screen) is None ==> r is None && *final(self) == *old(self),
            on_screen(old(self).bottom_area, screen) matches Some(bounds) ==> {
                &&& r matches Some(l) && l.bounds == bounds && paints_view(l.paints@) == bottom_paints(
                    *old(self),
                    false,
                    ""@,
                    bounds,
                )
                &&& final(self).hint_rects@ == bottom_hint_rects(*old(self), false, ""@, bounds)
                &&& *final(self) == (PanelComponent { hint_rects: final(self).hint_rects, ..*old(self) })
            },
    {
        self.layout_bottom_impl(false, "", screen)
    }
}


/// What a layout pass of the panels hands to the painter.
pub struct PanelPlan {
    pub top: Option<PanelLayer>,
    pub bottom: Option<PanelLayer>,
}

/// The window hits of a run of chunks.
pub open spec fn run_hits(run: Seq<((usize, Rect), (u16, u16, Seq<char>, PanelRole))>) -> Seq<(usize, Rect)> {
    run.map_values(|e: ((usize, Rect), (u16, u16, Seq<char>, PanelRole))| e.0)
}

/// The paints of a run of chunks.
pub open spec fn run_paints(run: Seq<((usize, Rect), (u16, u16, Seq<char>, PanelRole))>) -> Seq<(u16, u16, Seq<char>, PanelRole)> {
    run.map_values(|e: ((usize, Rect), (u16, u16, Seq<char>, PanelRole))| e.1)
}

/// The paints of the top panel `area` (on screen as `bounds`) of `p`.
pub open spec fn top_paints<A>(
    p: PanelComponent<A>,
    area: Rect,
    bounds: Rect,
    order: Seq<usize>,
    labels: Seq<String>,
    status: Option<Seq<char>>,
    focus: usize,
    t: PanelToggles,
) -> Seq<(u16, u16, Seq<char>, PanelRole)> {
    let max_x = right_of(area);
    let x2 = body_start(area, p.app_name@);
    let body = match status {
        Some(s) => status_paints(s, x2, max_x, area.y),
        None => run_paints(window_run(order, labels, order.len() as int, x2, max_x, area.y, focus)),
    };
    head_paints(area, p.app_name@, t.menu_open) + body + indicator_paints(bounds, max_x, area.y, t)
}

impl<A: Copy> PanelComponent<A> {
    fn place_indicator(text: &str, c: u16, max_x: u16, y: u16, role: PanelRole, paints: &mut Vec<PanelPaint>) -> (r: Option<Rect>)
        ensures
            r == clipped_cell_run(c, lit_width(text), max_x, y),
            paints_view(final(paints)@) == paints_view(old(paints)@) + indicator_paint(text, c, max_x, y, role),
    {
        let w = char_count(text) as u16;
        if w > 0 && c < max_x {
            let room: u16 = max_x - c;
            let width: u16 = if w < room { w } else { room };
            paints.push(paint(c, y, text_of(text), role));
            proof {
                assert(paints_view(paints@) =~= paints_view(old(paints)@) + seq![(c, y, text@, role)]);
            }
            Some(Rect { x: c, y, width, height: 1 })
        } else {
            proof {
                assert(paints_view(paints@) =~= paints_view(old(paints)@) + seq![]);
            }
            None
        }
    }

    fn layout_windows(
        &mut self,
        order: &Vec<usize>,
        labels: &Vec<String>,
        x0: u16,
        max_x: u16,
        y: u16,
        focus: usize,
        paints: &mut Vec<PanelPaint>,
    )
        requires
            labels@.len() == order@.len(),
        ensures
            final(self).window_hits@ == old(self).window_hits@ + run_hits(
                window_run(order@, labels@, order@.len() as int, x0, max_x, y, focus),
            ),
            paints_view(final(paints)@) == paints_view(old(paints)@) + run_paints(
                window_run(order@, labels@, order@.len() as int, x0, max_x, y, focus),
            ),
            *final(self) == (PanelComponent { window_hits: final(self).window_hits, ..*old(self) }),
    {
        let mut x: u16 = x0;
        let mut stopped = false;
        let mut i: usize = 0;
        while i < order.len()
            invariant
                i <= order@.len(),
                labels@.len() == order@.len(),
                (x, stopped) == window_scan(labels@, i as int, x0, max_x),
                self.window_hits@ == old(self).window_hits@ + run_hits(window_run(order@, labels@, i as int, x0, max_x, y, focus)),
                paints_view(paints@) == paints_view(old(paints)@) + run_paints(
                    window_run(order@, labels@, i as int, x0, max_x, y, focus),
                ),
                *self == (PanelComponent { window_hits: self.window_hits, ..*old(self) }),
            decreases order@.len() - i,
        {
            let ghost hits_before = self.window_hits@;
            let ghost paints_before = paints@;
            let ghost run_before = window_run(order@, labels@, i as int, x0, max_x, y, focus);
            if !stopped {
                let label = &labels[i];
                let max_label: u16 = max_x.saturating_sub(x).saturating_sub(2);
                let mut chunk = String::new();
                chunk.push(' ');
                if char_count(label.as_str()) > max_label as usize {
                    let cut = truncate_to_width(label.as_str(), max_label as usize);
                    push_str(&mut chunk, cut.as_str());
                } else {
                    push_str(&mut chunk, label.as_str());
                }
                chunk.push(' ');
                let cw = char_count(chunk.as_str()) as u16;
                proof {
                    assert(chunk@ =~= window_chunk(labels@[i as int]@, x as int, max_x as int));
                }
                if x.saturating_add(cw) > max_x {
                    stopped = true;
                } else {
                    let role = if order[i] == focus { PanelRole::WindowFocused } else { PanelRole::WindowInactive };
                    self.window_hits.push((order[i], Rect { x, y, width: cw, height: 1 }));
                    paints.push(paint(x, y, chunk, role));
                    proof {
                        assert(paints_view(paints@) =~= paints_view(paints_before).push(paint_view(paints@.last())));
                        let run_now = window_run(order@, labels@, i + 1, x0, max_x, y, focus);
                        assert(run_now == run_before.push(((order@[i as int], Rect { x, y, width: cw, height: 1 }), (x, y, window_chunk(labels@[i as int]@, x as int, max_x as int), role))));
                        assert(run_hits(run_now) =~= run_hits(run_before).push((order@[i as int], Rect { x, y, width: cw, height: 1 })));
                        assert(run_paints(run_now) =~= run_paints(run_before).push((x, y, window_chunk(labels@[i as int]@, x as int, max_x as int), role)));
                        assert(self.window_hits@ =~= old(self).window_hits@ + run_hits(run_now));
                        assert(paints_view(paints@) =~= paints_view(old(paints)@) + run_paints(run_now));
                    }
                    x = x.saturating_add(cw);
                }
            }
            i = i + 1;
        }
    }

    /// The menu icon (when it fits, recording its rect) and the space after
    /// it; returns the column where the body starts.
    fn layout_head(&mut self, area: Rect, menu_open: bool, paints: &mut Vec<PanelPaint>) -> (x: u16)
        requires
            old(paints)@.len() == 0,
        ensures
            x == body_start(area, old(self).app_name@),
            paints_view(final(paints)@) == head_paints(area, old(self).app_name@, menu_open),
            final(self).menu_rect == (if menu_fits(area, old(self).app_name@) {
                Some(Rect { x: area.x, y: area.y, width: menu_text(old(self).app_name@).len() as u16, height: 1 })
            } else {
                old(self).menu_rect
            }),
            *final(self) == (PanelComponent { menu_rect: final(self).menu_rect, ..*old(self) }),
    {
        let y = area.y;
        let max_x = area.x.saturating_add(area.width);
        let mut x = area.x;
        let mut icon = String::new();
        icon.push('≡');
        icon.push(' ');
        push_str(&mut icon, self.app_name.as_str());
        let menu_width = char_count(icon.as_str()) as u16;
        proof {
            assert(icon@ =~= menu_text(self.app_name@));
        }
        if x.saturating_add(menu_width) <= max_x {
            let role = if menu_open { PanelRole::MenuOpen } else { PanelRole::Menu };
            paints.push(paint(x, y, icon, role));
            self.menu_rect = Some(Rect { x, y, width: menu_width, height: 1 });
            x = x.saturating_add(menu_width);
        }
        let ghost icon_paints = paints@;
        if x < max_x {
            let mut space = String::new();
            space.push(' ');
            paints.push(paint(x, y, space, PanelRole::Plain));
            proof {
                assert(paints_view(paints@) =~= paints_view(icon_paints).push(paint_view(paints@.last())));
            }
            x = x + 1;
        }
        proof {
            assert(paints_view(paints@) =~= head_paints(area, self.app_name@, menu_open));
        }
        x
    }

    /// The four indicators, right-aligned, recording the rects of those
    /// that show (the copy one only when copying is possible).
    /// The four indicators, right-aligned: their paints, and the rects of
    /// those that show.
    #[verifier::spinoff_prover]
    fn place_indicators(bounds: Rect, max_x: u16, y: u16, toggles: PanelToggles, paints: &mut Vec<PanelPaint>) -> (r: (
        Option<Rect>,
        Option<Rect>,
        Option<Rect>,
        Option<Rect>,
    ))
        ensures
            paints_view(final(paints)@) == paints_view(old(paints)@) + indicator_paints(bounds, max_x, y, toggles),
            r.0 == clipped_cell_run(indicator_columns(bounds, max_x).0, lit_width("[ selection ]"), max_x, y),
            r.1 == clipped_cell_run(indicator_columns(bounds, max_x).1, lit_width("[ copy ]"), max_x, y),
            r.2 == clipped_cell_run(indicator_columns(bounds, max_x).2, lit_width("[ mouse ]"), max_x, y),
            r.3 == clipped_cell_run(indicator_columns(bounds, max_x).3, lit_width("[ clipboard ]"), max_x, y),
    {
        let sw = char_count("[ selection ]") as u16;
        let cw = char_count("[ copy ]") as u16;
        let mw = char_count("[ mouse ]") as u16;
        let kw = char_count("[ clipboard ]") as u16;
        let total = sw.saturating_add(cw).saturating_add(mw).saturating_add(kw);
        let c0: u16 = if total >= bounds.width { bounds.x } else { max_x.saturating_sub(total) };
        let c1 = c0.saturating_add(sw);
        let c2 = c1.saturating_add(cw);
        let c3 = c2.saturating_add(mw);
        proof {
            assert((c0, c1, c2, c3) == indicator_columns(bounds, max_x));
        }
        let ghost p0 = paints_view(paints@);
        let role_sel = if toggles.window_selection_enabled { PanelRole::IndicatorOn } else { PanelRole::IndicatorOff };
        let sel = Self::place_indicator("[ selection ]", c0, max_x, y, role_sel, paints);
        let ghost p1 = paints_view(paints@);
        let role_copy = if toggles.selection_copy_available && toggles.clipboard_enabled {
            if toggles.selection_copied { PanelRole::IndicatorCopied } else { PanelRole::IndicatorOn }
        } else {
            PanelRole::IndicatorOff
        };
        let copy = Self::place_indicator("[ copy ]", c1, max_x, y, role_copy, paints);
        let ghost p2 = paints_view(paints@);
        let role_mouse = if toggles.mouse_capture_enabled { PanelRole::IndicatorOn } else { PanelRole::IndicatorOff };
        let mouse = Self::place_indicator("[ mouse ]", c2, max_x, y, role_mouse, paints);
        let ghost p3 = paints_view(paints@);
        let role_clip = if toggles.clipboard_enabled { PanelRole::IndicatorOn } else { PanelRole::IndicatorOff };
        let clip = Self::place_indicator("[ clipboard ]", c3, max_x, y, role_clip, paints);
        proof {
            let q0 = indicator_paint("[ selection ]", c0, max_x, y, indicator_role(toggles.window_selection_enabled));
            let q1 = indicator_paint("[ copy ]", c1, max_x, y, copy_role(toggles));
            let q2 = indicator_paint("[ mouse ]", c2, max_x, y, indicator_role(toggles.mouse_capture_enabled));
            let q3 = indicator_paint("[ clipboard ]", c3, max_x, y, indicator_role(toggles.clipboard_enabled));
            assert(indicator_paints(bounds, max_x, y, toggles) == q0 + q1 + q2 + q3);
            vstd::seq_lib::lemma_concat_associative(p0, q0, q1);
            vstd::seq_lib::lemma_concat_associative(p0, q0 + q1, q2);
            vstd::seq_lib::lemma_concat_associative(p0, q0 + q1 + q2, q3);
        }
        (sel, copy, mouse, clip)
    }

    /// Record the rects of the indicators that show (the copy one only when
    /// copying is possible).
    fn layout_indicators(&mut self, bounds: Rect, max_x: u16, y: u16, toggles: PanelToggles, paints: &mut Vec<PanelPaint>)
        ensures
            paints_view(final(paints)@) == paints_view(old(paints)@) + indicator_paints(bounds, max_x, y, toggles),
            final(self).selection_rect == replaced(
                old(self).selection_rect,
                clipped_cell_run(indicator_columns(bounds, max_x).0, lit_width("[ selection ]"), max_x, y),
            ),
            final(self).copy_rect == (if toggles.selection_copy_available && toggles.clipboard_enabled {
                replaced(
                    old(self).copy_rect,
                    clipped_cell_run(indicator_columns(bounds, max_x).1, lit_width("[ copy ]"), max_x, y),
                )
            } else {
                old(self).copy_rect
            }),
            final(self).mouse_capture_rect == replaced(
                old(self).mouse_capture_rect,
                clipped_cell_run(indicator_columns(bounds, max_x).2, lit_width("[ mouse ]"), max_x, y),
            ),
            final(self).clipboard_rect == replaced(
                old(self).clipboard_rect,
                clipped_cell_run(indicator_columns(bounds, max_x).3, lit_width("[ clipboard ]"), max_x, y),
            ),
            *final(self) == (PanelComponent {
                selection_rect: final(self).selection_rect,
                copy_rect: final(self).copy_rect,
                mouse_capture_rect: final(self).mouse_capture_rect,
                clipboard_rect: final(self).clipboard_rect,
                ..*old(self)
            }),
    {
        let (sel, copy, mouse, clip) = Self::place_indicators(bounds, max_x, y, toggles, paints);
        if sel.is_some() {
            self.selection_rect = sel;
        }
        if copy.is_some() && toggles.selection_copy_available && toggles.clipboard_enabled {
            self.copy_rect = copy;
        }
        if mouse.is_some() {
            self.mouse_capture_rect = mouse;
        }
        if clip.is_some() {
            self.clipboard_rect = clip;
        }
    }

    /// Lay out the panels for a frame. Active: the top panel shows the menu
    /// icon, then the status line or the window chunks (recording their hit
    /// rects), then the four indicators (recording theirs); then the bottom
    /// bar is laid out with its info. Inactive: only the hints are laid out
    /// in the bottom bar, when there are any. `labels` gives the label of
    /// each window of `display_order`; `platform` names the system in the
    /// bottom bar's info.
    pub fn layout(
        &mut self,
        active: bool,
        focus_current: usize,
        display_order: &Vec<usize>,
        labels: &Vec<String>,
        status_line: Option<&str>,
        toggles: PanelToggles,
        platform: &str,
        screen: Rect,
    ) -> (r: PanelPlan)
        requires
            labels@.len() == display_order@.len(),
        ensures
            !active && old(self).keybinding_hints@.len() == 0 ==> r.top is None && r.bottom is None && *final(self)
                == *old(self),
            !active && old(self).keybinding_hints@.len() > 0 ==> r.top is None && match on_screen(
                old(self).bottom_area,
                screen,
            ) {
                None => r.bottom is None && *final(self) == *old(self),
                Some(bounds) => {
                    &&& r.bottom matches Some(l) && l.bounds == bounds && paints_view(l.paints@) == bottom_paints(
                        *old(self),
                        false,
                        ""@,
                        bounds,
                    )
                    &&& final(self).hint_rects@ == bottom_hint_rects(*old(self), false, ""@, bounds)
                    &&& *final(self) == (PanelComponent { hint_rects: final(self).hint_rects, ..*old(self) })
                },
            },
            active ==> match on_screen(old(self).area, screen) {
                None => r.top is None && r.bottom is None && *final(self) == *old(self),
                Some(bounds) => {
                let area = old(self).area;
                let max_x = right_of(area);
                let (c0, c1, c2, c3) = indicator_columns(bounds, max_x);
                let run = window_run(
                    display_order@,
                    labels@,
                    display_order@.len() as int,
                    body_start(area, old(self).app_name@),
                    max_x,
                    area.y,
                    focus_current,
                );
                &&& r.top matches Some(l) && l.bounds == bounds && paints_view(l.paints@) == top_paints(
                    *old(self),
                    area,
                    bounds,
                    display_order@,
                    labels@,
                    match status_line {
                        Some(s) => Some(s@),
                        None => None,
                    },
                    focus_current,
                    toggles,
                )
                &&& final(self).menu_rect == (if menu_fits(area, old(self).app_name@) {
                    Some(Rect { x: area.x, y: area.y, width: menu_text(old(self).app_name@).len() as u16, height: 1 })
                } else {
                    old(self).menu_rect
                })
                &&& final(self).window_hits@ == old(self).window_hits@ + (if status_line is None {
                    run_hits(run)
                } else {
                    seq![]
                })
                &&& final(self).selection_rect == replaced(
                    old(self).selection_rect,
                    clipped_cell_run(c0, lit_width("[ selection ]"), max_x, area.y),
                )
                &&& final(self).copy_rect == (if toggles.selection_copy_available && toggles.clipboard_enabled {
                    replaced(old(self).copy_rect, clipped_cell_run(c1, lit_width("[ copy ]"), max_x, area.y))
                } else {
                    old(self).copy_rect
                })
                &&& final(self).mouse_capture_rect == replaced(
                    old(self).mouse_capture_rect,
                    clipped_cell_run(c2, lit_width("[ mouse ]"), max_x, area.y),
                )
                &&& final(self).clipboard_rect == replaced(
                    old(self).clipboard_rect,
                    clipped_cell_run(c3, lit_width("[ clipboard ]"), max_x, area.y),
                )
                &&& match on_screen(old(self).bottom_area, screen) {
                    None => r.bottom is None && final(self).hint_rects == old(self).hint_rects,
                    Some(bb) => r.bottom matches Some(l) && l.bounds == bb && paints_view(l.paints@) == bottom_paints(
                        *old(self),
                        true,
                        platform@,
                        bb,
                    ) && final(self).hint_rects@ == bottom_hint_rects(*old(self), true, platform@, bb),
                }
                &&& *final(self) == (PanelComponent {
                    menu_rect: final(self).menu_rect,
                    window_hits: final(self).window_hits,
                    selection_rect: final(self).selection_rect,
                    copy_rect: final(self).copy_rect,
                    mouse_capture_rect: final(self).mouse_capture_rect,
                    clipboard_rect: final(self).clipboard_rect,
                    hint_rects: final(self).hint_rects,
                    ..*old(self)
                })
                },
            },
    {
        if !active {
            if self.keybinding_hints.len() > 0 {
                let bottom = self.layout_hints(screen);
                return PanelPlan { top: None, bottom };
            }
            return PanelPlan { top: None, bottom: None };
        }
        let area = self.area;
        if area.width == 0 || area.height == 0 {
            return PanelPlan { top: None, bottom: None };
        }
        let bounds = rect_intersection(area, screen);
        if bounds.width == 0 || bounds.height == 0 {
            return PanelPlan { top: None, bottom: None };
        }
        let ghost start = *self;
        let y = area.y;
        let max_x = area.x.saturating_add(area.width);
        let mut paints: Vec<PanelPaint> = Vec::new();
        let x = self.layout_head(area, toggles.menu_open, &mut paints);
        let ghost head = paints_view(paints@);
        // The status line, or one chunk per window.
        match status_line {
            Some(status) => {
                let room = max_x.saturating_sub(x);
                let available: u16 = if room > 1 { room } else { 1 };
                paints.push(paint(x, y, truncate_to_width(status, available as usize), PanelRole::Plain));
                proof {
                    assert(paints_view(paints@) =~= head + status_paints(status@, x, max_x, y));
                }
            },
            None => {
                self.layout_windows(display_order, labels, x, max_x, y, focus_current, &mut paints);
            },
        }
        let ghost with_body = paints_view(paints@);
        self.layout_indicators(bounds, max_x, y, toggles, &mut paints);
        proof {
            assert(paints_view(paints@) =~= top_paints(
                start,
                area,
                bounds,
                display_order@,
                labels@,
                match status_line {
                    Some(s) => Some(s@),
                    None => None,
                },
                focus_current,
                toggles,
            ));
        }
        let top = Some(PanelLayer { bounds, paints });
        let bottom = self.layout_bottom(platform, screen);
        PanelPlan { top, bottom }
    }
}

} // verus!

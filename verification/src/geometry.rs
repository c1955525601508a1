use vstd::prelude::*;

verus! {

/// A rectangle in signed screen space: it may start left of or above the
/// visible screen (negative `x`/`y`).
#[derive(Debug, Default, Clone, Copy, PartialEq, Eq, Structural)]
pub struct LayoutRect {
    pub x: i32,
    pub y: i32,
    pub width: u16,
    pub height: u16,
}

/// An on-screen rectangle in unsigned cell coordinates.
#[derive(Debug, Default, Clone, Copy, PartialEq, Eq, Structural)]
pub struct Rect {
    pub x: u16,
    pub y: u16,
    pub width: u16,
    pub height: u16,
}

/// `a + b` on `i32`, saturating at the type's bounds.
pub open spec fn sat_add_i32(a: int, b: int) -> int {
    if a + b > i32::MAX { i32::MAX as int } else if a + b < i32::MIN { i32::MIN as int } else { a + b }
}

/// `a - b` on an unsigned value, saturating at zero.
pub open spec fn sat_sub(a: int, b: int) -> int {
    if a >= b { a - b } else { 0 }
}

/// `a + b` on `u16`, saturating at `u16::MAX`.
pub open spec fn sat_add_u16(a: int, b: int) -> int {
    if a + b > u16::MAX { u16::MAX as int } else { a + b }
}

/// `a - b` on `i32`, saturating at the type's bounds.
pub open spec fn sat_sub_i32(a: int, b: int) -> int {
    sat_add_i32(a, -b)
}

pub fn add_i32_sat(a: i32, b: i32) -> (r: i32)
    ensures
        r == sat_add_i32(a as int, b as int),
{
    let s: i64 = a as i64 + b as i64;
    if s > i32::MAX as i64 {
        i32::MAX
    } else if s < i32::MIN as i64 {
        i32::MIN
    } else {
        s as i32
    }
}

pub fn sub_i32_sat(a: i32, b: i32) -> (r: i32)
    ensures
        r == sat_sub_i32(a as int, b as int),
{
    let s: i64 = a as i64 - b as i64;
    if s > i32::MAX as i64 {
        i32::MAX
    } else if s < i32::MIN as i64 {
        i32::MIN
    } else {
        s as i32
    }
}

/// Whether the cell `(column, row)` lies inside `rect` (an empty rect holds
/// no cell).
pub open spec fn spec_rect_contains(rect: LayoutRect, column: int, row: int) -> bool {
    &&& rect.width > 0
    &&& rect.height > 0
    &&& rect.x <= column < sat_add_i32(rect.x as int, rect.width as int)
    &&& rect.y <= row < sat_add_i32(rect.y as int, rect.height as int)
}

/// Hit-test a screen cell against a signed rect.
pub fn rect_contains(rect: LayoutRect, column: u16, row: u16) -> (r: bool)
    ensures
        r == spec_rect_contains(rect, column as int, row as int),
{
    if rect.width == 0 || rect.height == 0 {
        return false;
    }
    let col = column as i32;
    let row_val = row as i32;
    let max_x = add_i32_sat(rect.x, rect.width as i32);
    let max_y = add_i32_sat(rect.y, rect.height as i32);
    col >= rect.x && col < max_x && row_val >= rect.y && row_val < max_y
}

/// The number of cells a signed coordinate lies before the screen edge, as the
/// `u16` that the clipping arithmetic uses.
pub open spec fn crop_of(v: i32) -> u16 {
    (if v < 0 { -v } else { 0 }) as u16
}

/// The clipped rect of a signed rect: negative origins move to the screen
/// edge and the hidden part is cut from the size.
pub open spec fn spec_clipped_rect(area: LayoutRect) -> Rect {
    Rect {
        x: (if area.x > 0 { area.x as int } else { 0 }) as u16,
        y: (if area.y > 0 { area.y as int } else { 0 }) as u16,
        width: sat_sub(area.width as int, crop_of(area.x) as int) as u16,
        height: sat_sub(area.height as int, crop_of(area.y) as int) as u16,
    }
}

fn crop(v: i32) -> (r: u16)
    ensures
        r == crop_of(v),
{
    let m: i32 = if v < 0 { v } else { 0 };
    let abs: i64 = 0i64 - (m as i64);
    abs as u16
}

/// Safely converts a signed LayoutRect into an unsigned Rect for rendering.
/// If the LayoutRect is partially off-screen (negative x/y), it crops the
/// invisible portion and shrinks width/height to fit the screen.
pub fn layout_rect_to_clipped_rect(area: LayoutRect) -> (r: Rect)
    ensures
        r == spec_clipped_rect(area),
{
    let x = (if area.x > 0 { area.x } else { 0 }) as u16;
    let y = (if area.y > 0 { area.y } else { 0 }) as u16;
    let crop_left = crop(area.x);
    let crop_top = crop(area.y);
    Rect {
        x,
        y,
        width: area.width.saturating_sub(crop_left),
        height: area.height.saturating_sub(crop_top),
    }
}

/// Translates a global screen coordinate into a component-local coordinate.
/// Returns None if the coordinate falls outside the component's bounds.
pub fn localize_coordinate(area: LayoutRect, global_col: u16, global_row: u16) -> (r: Option<(u16, u16)>)
    ensures
        r is None <==> !(area.x <= global_col < sat_add_i32(area.x as int, area.width as int)
            && area.y <= global_row < sat_add_i32(area.y as int, area.height as int)),
        r matches Some((c, w)) ==> c == global_col - area.x && w == global_row - area.y,
{
    let g_col = global_col as i32;
    let g_row = global_row as i32;
    let max_x = add_i32_sat(area.x, area.width as i32);
    let max_y = add_i32_sat(area.y, area.height as i32);
    if g_col < area.x || g_col >= max_x || g_row < area.y || g_row >= max_y {
        return None;
    }
    Some(((g_col - area.x) as u16, (g_row - area.y) as u16))
}

/// Clamp `v` into `[lo, hi]` (`lo <= hi`).
pub open spec fn clamp_int(v: int, lo: int, hi: int) -> int {
    if v < lo { lo } else if v > hi { hi } else { v }
}

/// Translates a global screen coordinate into a component-local coordinate,
/// clamping to the nearest edge if it falls outside bounds; `None` only for
/// an empty area.
pub fn localize_coordinate_clamped(area: LayoutRect, global_col: u16, global_row: u16) -> (r: Option<(u16, u16)>)
    requires
        area.width == 0 || area.height == 0 || (area.x < i32::MAX && area.y < i32::MAX),
    ensures
        r is None <==> (area.width == 0 || area.height == 0),
        r matches Some((c, w)) ==> {
            &&& c == clamp_int(global_col as int, area.x as int, sat_add_i32(area.x as int, area.width as int) - 1) - area.x
            &&& w == clamp_int(global_row as int, area.y as int, sat_add_i32(area.y as int, area.height as int) - 1) - area.y
        },
{
    if area.width == 0 || area.height == 0 {
        return None;
    }
    let g_col = global_col as i32;
    let g_row = global_row as i32;
    let max_x = sub_i32_sat(add_i32_sat(area.x, area.width as i32), 1);
    let max_y = sub_i32_sat(add_i32_sat(area.y, area.height as i32), 1);
    let clamped_col = if g_col < area.x { area.x } else if g_col > max_x { max_x } else { g_col };
    let clamped_row = if g_row < area.y { area.y } else if g_row > max_y { max_y } else { g_row };
    Some(((clamped_col - area.x) as u16, (clamped_row - area.y) as u16))
}


/// The overlap of two on-screen rects: it starts at the later of the two
/// origins and ends at the earlier of the two (saturated) far edges; rects
/// that do not meet give an empty rect.
pub open spec fn spec_intersection(a: Rect, b: Rect) -> Rect {
    let x1 = if a.x > b.x { a.x } else { b.x };
    let y1 = if a.y > b.y { a.y } else { b.y };
    let ra = sat_add_u16(a.x as int, a.width as int);
    let rb = sat_add_u16(b.x as int, b.width as int);
    let ba = sat_add_u16(a.y as int, a.height as int);
    let bb = sat_add_u16(b.y as int, b.height as int);
    let x2 = if ra < rb { ra } else { rb };
    let y2 = if ba < bb { ba } else { bb };
    Rect { x: x1, y: y1, width: sat_sub(x2, x1 as int) as u16, height: sat_sub(y2, y1 as int) as u16 }
}

/// The overlap of two on-screen rects (see [`spec_intersection`]).
pub fn rect_intersection(a: Rect, b: Rect) -> (r: Rect)
    ensures
        r == spec_intersection(a, b),
{
    let x1 = if a.x > b.x { a.x } else { b.x };
    let y1 = if a.y > b.y { a.y } else { b.y };
    let ra = a.x.saturating_add(a.width);
    let rb = b.x.saturating_add(b.width);
    let ba = a.y.saturating_add(a.height);
    let bb = b.y.saturating_add(b.height);
    let x2 = if ra < rb { ra } else { rb };
    let y2 = if ba < bb { ba } else { bb };
    Rect { x: x1, y: y1, width: x2.saturating_sub(x1), height: y2.saturating_sub(y1) }
}

} // verus!

verus! {

/// The cells `(column, char)` that writing `text` from column `x` of row `y`
/// fills inside `bounds`: one character per column, stopping at the right
/// edge; nothing when the row lies outside `bounds`.
pub open spec fn spec_string_cells(bounds: Rect, x: u16, y: u16, text: Seq<char>) -> Seq<(u16, char)> {
    let end = sat_add_u16(bounds.x as int, bounds.width as int);
    if y < bounds.y || y >= sat_add_u16(bounds.y as int, bounds.height as int) {
        Seq::empty()
    } else {
        let room = if x >= end { 0 } else { end - x };
        let n = if text.len() < room { text.len() as int } else { room };
        Seq::new(n as nat, |k: int| ((x + k) as u16, text[k]))
    }
}

/// The cells a clipped write of `text` at `(x, y)` fills (see
/// [`spec_string_cells`]); the renderer sets each of them.
pub fn string_cells(bounds: Rect, x: u16, y: u16, text: &str) -> (r: Vec<(u16, char)>)
    ensures
        r@ == spec_string_cells(bounds, x, y, text@),
{
    let mut out: Vec<(u16, char)> = Vec::new();
    if y < bounds.y || y >= bounds.y.saturating_add(bounds.height) {
        proof {
            assert(out@ =~= spec_string_cells(bounds, x, y, text@));
        }
        return out;
    }
    let end = bounds.x.saturating_add(bounds.width);
    let chars = crate::text::chars_of(text);
    let mut col: u16 = x;
    let mut k: usize = 0;
    let ghost n: int = {
        let room = if x >= end { 0 } else { end - x };
        if text@.len() < room { text@.len() as int } else { room }
    };
    while k < chars.len() && col < end
        invariant
            chars@ == text@,
            k <= chars@.len(),
            col == x + k,
            k <= n,
            n == (if text@.len() < (if x >= end { 0 } else { end - x }) { text@.len() as int } else { if x >= end { 0 } else { end - x } }),
            end == sat_add_u16(bounds.x as int, bounds.width as int),
            out@ == Seq::new(k as nat, |j: int| ((x + j) as u16, text@[j])),
        decreases chars@.len() - k,
    {
        out.push((col, chars[k]));
        k = k + 1;
        col = col + 1;
        proof {
            assert(out@ =~= Seq::new(k as nat, |j: int| ((x + j) as u16, text@[j])));
        }
    }
    proof {
        assert(k == n);
        assert(out@ =~= spec_string_cells(bounds, x, y, text@));
    }
    out
}

} // verus!

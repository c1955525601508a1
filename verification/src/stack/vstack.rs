//! A vertical layout container that slices its area among children.
//!
//! Each child gets a stripe of the full width. A child asking for a height
//! gets it; the children that stretch (ask for `0`) share what the fixed
//! children and the gaps leave, so a stretching child in the middle still
//! leaves room for the siblings after it.
use vstd::prelude::*;
use crate::component::{all_destroyed, asked_heights, desired_heights, destroy_all, Component};
use crate::geometry::{add_i32_sat, sat_add_i32, sat_add_u16, sat_sub_i32, sub_i32_sat, LayoutRect};

verus! {

/// A vertical stack of children with `gap` rows between them.
pub struct VerticalStackComponent<C> {
    pub children: Vec<C>,
    pub gap: u16,
}

/// The saturated `i32` sum of the non-zero heights among the first `n`.
pub open spec fn fixed_total(hs: Seq<u16>, n: int) -> int
    decreases n,
{
    if n <= 0 { 0 } else { sat_add_i32(fixed_total(hs, n - 1), hs[n - 1] as int) }
}

/// The saturated `u16` count of the zero heights among the first `n`.
pub open spec fn stretch_count(hs: Seq<u16>, n: int) -> int
    decreases n,
{
    if n <= 0 { 0 } else { sat_add_u16(stretch_count(hs, n - 1), if hs[n - 1] == 0 { 1 } else { 0 }) }
}

/// `a * b` on `i32`, saturating.
pub open spec fn sat_mul_i32(a: int, b: int) -> int {
    if a * b > i32::MAX { i32::MAX as int } else if a * b < i32::MIN { i32::MIN as int } else { a * b }
}

/// The height each stretching child gets: what the fixed children and the
/// gaps leave of `height`, shared equally (at least one row each).
pub open spec fn stretch_share(hs: Seq<u16>, height: u16, gap: u16) -> u16 {
    let gaps = sat_mul_i32(gap as int, hs.len() - 1);
    let rest = sat_sub_i32(sat_sub_i32(height as int, fixed_total(hs, hs.len() as int)), gaps);
    let remaining = (if rest > 0 { rest } else { 0 }) as u16;
    let count = stretch_count(hs, hs.len() as int);
    if count == 0 {
        0
    } else {
        let s = remaining as int / count;
        (if s > 1 { s } else { 1 }) as u16
    }
}

/// The row where child `n` starts (before any stop), relative to the top.
pub open spec fn cursor_at(hs: Seq<u16>, share: u16, gap: u16, n: int) -> int
    decreases n,
{
    if n <= 0 {
        0
    } else {
        let h = if hs[n - 1] == 0 { share } else { hs[n - 1] };
        sat_add_i32(sat_add_i32(cursor_at(hs, share, gap, n - 1), h as int), gap as int)
    }
}

/// How many children are placed: children are placed until the cursor
/// reaches the bottom (the child that reaches it is placed).
pub open spec fn placed_count(hs: Seq<u16>, share: u16, gap: u16, height: u16, n: int) -> int
    decreases n,
{
    if n <= 0 {
        0
    } else if placed_count(hs, share, gap, height, n - 1) < n - 1 {
        placed_count(hs, share, gap, height, n - 1)
    } else if cursor_at(hs, share, gap, n - 1) >= height && n - 1 > 0 {
        n - 1
    } else {
        n
    }
}

/// The stripes of the placed children: `(local, screen)` rects, the
/// screen ones shifted up by the parent's scroll.
pub open spec fn spec_child_layouts(
    hs: Seq<u16>,
    gap: u16,
    local: LayoutRect,
    screen: LayoutRect,
    scroll_y: i32,
) -> Seq<(LayoutRect, LayoutRect)> {
    let share = stretch_share(hs, local.height, gap);
    Seq::new(
        placed_count(hs, share, gap, local.height, hs.len() as int) as nat,
        |i: int| {
            let h = if hs[i] == 0 { share } else { hs[i] };
            let c = cursor_at(hs, share, gap, i);
            (
                LayoutRect { x: local.x, y: sat_add_i32(local.y as int, c) as i32, width: local.width, height: h },
                LayoutRect {
                    x: screen.x,
                    y: sat_sub_i32(sat_add_i32(screen.y as int, c), scroll_y as int) as i32,
                    width: screen.width,
                    height: h,
                },
            )
        },
    )
}

proof fn lemma_placed_count_bounds(hs: Seq<u16>, share: u16, gap: u16, height: u16, n: int)
    requires
        n >= 0,
    ensures
        0 <= placed_count(hs, share, gap, height, n) <= n,
        placed_count(hs, share, gap, height, n) < n ==> placed_count(hs, share, gap, height, n + 1)
            == placed_count(hs, share, gap, height, n),
    decreases n,
{
    if n > 0 {
        lemma_placed_count_bounds(hs, share, gap, height, n - 1);
    }
}

proof fn lemma_pc_step(hs: Seq<u16>, share: u16, gap: u16, height: u16, i: int)
    requires
        i >= 0,
        placed_count(hs, share, gap, height, i) == i,
        i == 0 || cursor_at(hs, share, gap, i) < height,
    ensures
        placed_count(hs, share, gap, height, i + 1) == i + 1,
{
}

proof fn lemma_pc_mono(hs: Seq<u16>, share: u16, gap: u16, height: u16, k: int, m: int)
    requires
        0 <= k <= m,
    ensures
        placed_count(hs, share, gap, height, k) <= placed_count(hs, share, gap, height, m),
    decreases m - k,
{
    if k < m {
        lemma_pc_mono(hs, share, gap, height, k, m - 1);
        lemma_placed_count_bounds(hs, share, gap, height, m - 1);
    }
}

proof fn lemma_stop_is_final(hs: Seq<u16>, share: u16, gap: u16, height: u16, i: int, n: int)
    requires
        1 <= i <= n,
        placed_count(hs, share, gap, height, i) == i,
        cursor_at(hs, share, gap, i) >= height,
    ensures
        placed_count(hs, share, gap, height, n) == i,
    decreases n - i,
{
    if n > i {
        lemma_stop_is_final(hs, share, gap, height, i, n - 1);
        if n - 1 == i {
        } else {
            lemma_placed_count_bounds(hs, share, gap, height, n - 1);
        }
    }
}

proof fn lemma_cursor_range(hs: Seq<u16>, share: u16, gap: u16, n: int)
    ensures
        i32::MIN <= cursor_at(hs, share, gap, n) <= i32::MAX,
        n >= 0 ==> cursor_at(hs, share, gap, n) >= 0,
    decreases n,
{
    if n > 0 {
        lemma_cursor_range(hs, share, gap, n - 1);
    }
}

proof fn lemma_cursor_mono(hs: Seq<u16>, share: u16, gap: u16, j: int, i: int)
    requires
        0 <= j <= i,
    ensures
        cursor_at(hs, share, gap, j) <= cursor_at(hs, share, gap, i),
    decreases i - j,
{
    if j < i {
        lemma_cursor_mono(hs, share, gap, j, i - 1);
        lemma_cursor_range(hs, share, gap, i - 1);
    }
}

/// Every child whose first row lies inside the area is placed: the walk
/// only stops once the rows used reach the bottom, so a stretching child in
/// the middle never keeps a later sibling that still starts inside the area
/// from being laid out.
pub proof fn lemma_child_placed_while_room(hs: Seq<u16>, share: u16, gap: u16, height: u16, i: int)
    requires
        0 <= i < hs.len(),
        i == 0 || cursor_at(hs, share, gap, i) < height,
    ensures
        i < placed_count(hs, share, gap, height, hs.len() as int),
    decreases i,
{
    lemma_all_placed_up_to(hs, share, gap, height, i);
    lemma_pc_step(hs, share, gap, height, i);
    lemma_pc_mono(hs, share, gap, height, i + 1, hs.len() as int);
}

proof fn lemma_all_placed_up_to(hs: Seq<u16>, share: u16, gap: u16, height: u16, i: int)
    requires
        0 <= i,
        i == 0 || cursor_at(hs, share, gap, i) < height,
    ensures
        placed_count(hs, share, gap, height, i) == i,
    decreases i,
{
    if i > 0 {
        lemma_cursor_mono(hs, share, gap, i - 1, i);
        lemma_all_placed_up_to(hs, share, gap, height, i - 1);
        lemma_pc_step(hs, share, gap, height, i - 1);
    }
}

fn fixed_and_stretch(hs: &Vec<u16>) -> (r: (i32, u16))
    ensures
        r.0 == fixed_total(hs@, hs@.len() as int),
        r.1 == stretch_count(hs@, hs@.len() as int),
{
    let mut fixed: i32 = 0;
    let mut count: u16 = 0;
    let mut i: usize = 0;
    while i < hs.len()
        invariant
            i <= hs@.len(),
            fixed == fixed_total(hs@, i as int),
            count == stretch_count(hs@, i as int),
        decreases hs@.len() - i,
    {
        if hs[i] == 0 {
            count = count.saturating_add(1);
        } else {
            fixed = add_i32_sat(fixed, hs[i] as i32);
        }
        i = i + 1;
    }
    (fixed, count)
}

impl<C: Component> Default for VerticalStackComponent<C> {
    /// The same as [`VerticalStackComponent::new`].
    fn default() -> (r: Self)
        ensures
            r.children@.len() == 0,
            r.gap == 0,
    {
        Self::new()
    }
}

impl<C: Component> VerticalStackComponent<C> {
    /// An empty stack without gaps.
    pub fn new() -> (r: Self)
        ensures
            r.children@.len() == 0,
            r.gap == 0,
    {
        VerticalStackComponent { children: Vec::new(), gap: 0 }
    }

    /// The stack with `gap` rows between children.
    pub fn with_gap(self, gap: u16) -> (r: Self)
        ensures
            r.children == self.children,
            r.gap == gap,
    {
        VerticalStackComponent { gap, ..self }
    }

    /// Append a child.
    pub fn add(&mut self, child: C)
        ensures
            final(self).children@ == old(self).children@.push(child),
            final(self).gap == old(self).gap,
    {
        self.children.push(child);
    }

    /// The `(local, screen)` stripes of the children placed in `local` (at
    /// `screen` on the screen, scrolled by `scroll_y`), in order (see
    /// [`spec_child_layouts`]).
    pub fn child_layouts(&self, local: LayoutRect, screen: LayoutRect, scroll_y: i32) -> (r: Vec<(LayoutRect, LayoutRect)>)
        requires
            self.children@.len() <= i32::MAX,
        ensures
            r@ == spec_child_layouts(asked_heights(self.children@, local.width), self.gap, local, screen, scroll_y),
    {
        let hs = desired_heights(&self.children, local.width);
        let n = hs.len();
        let mut out: Vec<(LayoutRect, LayoutRect)> = Vec::new();
        if n == 0 {
            proof {
                assert(out@ =~= spec_child_layouts(hs@, self.gap, local, screen, scroll_y));
            }
            return out;
        }
        let (fixed, count) = fixed_and_stretch(&hs);
        proof {
            assert(0 <= (self.gap as int) * (n as int - 1) <= 65535 * 2147483647) by (nonlinear_arith)
                requires
                    self.gap <= 65535,
                    1 <= n <= 2147483647,
            ;
        }
        let gaps: i64 = self.gap as i64 * (n as i64 - 1);
        let gaps_total: i32 = if gaps > i32::MAX as i64 { i32::MAX } else { gaps as i32 };
        let rest = sub_i32_sat(sub_i32_sat(local.height as i32, fixed), gaps_total);
        let remaining: u16 = (if rest > 0 { rest } else { 0 }) as u16;
        let share: u16 = if count == 0 {
            0
        } else {
            let s = remaining / count;
            if s > 1 { s } else { 1 }
        };
        proof {
            assert(share == stretch_share(hs@, local.height, self.gap));
        }
        let mut cursor: i32 = 0;
        let mut i: usize = 0;
        let mut stopped = false;
        proof {
            lemma_placed_count_bounds(hs@, share, self.gap, local.height, n as int);
        }
        while i < n && !stopped
            invariant
                n == hs@.len(),
                n > 0,
                i <= n,
                share == stretch_share(hs@, local.height, self.gap),
                cursor == cursor_at(hs@, share, self.gap, i as int),
                !stopped ==> placed_count(hs@, share, self.gap, local.height, i as int) == i,
                !stopped && i > 0 ==> cursor < local.height,
                stopped ==> placed_count(hs@, share, self.gap, local.height, n as int) == i,
                out@ == spec_child_layouts(hs@, self.gap, local, screen, scroll_y).take(out@.len() as int),
                out@.len() == i,
                placed_count(hs@, share, self.gap, local.height, n as int) >= i,
            decreases n - i, if stopped { 0int } else { 1int },
        {
            proof {
                lemma_cursor_range(hs@, share, self.gap, i as int);
                lemma_placed_count_bounds(hs@, share, self.gap, local.height, n as int);
                lemma_pc_step(hs@, share, self.gap, local.height, i as int);
                lemma_pc_mono(hs@, share, self.gap, local.height, i + 1, n as int);
            }
            let h = if hs[i] == 0 { share } else { hs[i] };
            let y_local = add_i32_sat(local.y, cursor);
            let y_screen = sub_i32_sat(add_i32_sat(screen.y, cursor), scroll_y);
            out.push((
                LayoutRect { x: local.x, y: y_local, width: local.width, height: h },
                LayoutRect { x: screen.x, y: y_screen, width: screen.width, height: h },
            ));
            cursor = add_i32_sat(add_i32_sat(cursor, h as i32), self.gap as i32);
            i = i + 1;
            proof {
                assert(out@ =~= spec_child_layouts(hs@, self.gap, local, screen, scroll_y).take(out@.len() as int));
            }
            if cursor >= local.height as i32 {
                stopped = true;
                proof {
                    lemma_stop_is_final(hs@, share, self.gap, local.height, i as int, n as int);
                }
            }
        }
        proof {
            lemma_placed_count_bounds(hs@, share, self.gap, local.height, n as int);
            assert(out@ =~= spec_child_layouts(hs@, self.gap, local, screen, scroll_y));
        }
        out
    }
}


/// The saturated `u16` sum of the first `n` heights.
pub open spec fn sum_heights(hs: Seq<u16>, n: int) -> int
    decreases n,
{
    if n <= 0 { 0 } else { sat_add_u16(sum_heights(hs, n - 1), hs[n - 1] as int) }
}

/// The height a stack asks for: it stretches (`0`) when any child
/// stretches; else the children's heights and the gaps between them.
pub open spec fn stack_height(hs: Seq<u16>, gap: u16) -> u16 {
    if exists|i: int| 0 <= i < hs.len() && hs[i] == 0 {
        0
    } else if hs.len() == 0 {
        0
    } else {
        let gaps = crate::boxed::sat_mul_u16(gap as int, ((hs.len() as u16) as int + 65535) % 65536);
        sat_add_u16(sum_heights(hs, hs.len() as int), gaps) as u16
    }
}

impl<C: Component> Component for VerticalStackComponent<C> {
    open spec fn spec_desired_height(&self, width: u16) -> u16 {
        stack_height(asked_heights(self.children@, width), self.gap)
    }

    fn desired_height(&self, width: u16) -> (h: u16) {
        let hs = desired_heights(&self.children, width);
        let mut total: u16 = 0;
        let mut i: usize = 0;
        while i < hs.len()
            invariant
                i <= hs@.len(),
                hs@ == asked_heights(self.children@, width),
                total == sum_heights(hs@, i as int),
                forall|j: int| 0 <= j < i ==> hs@[j] != 0,
            decreases hs@.len() - i,
        {
            if hs[i] == 0 {
                // A stretching child makes the whole stack stretch.
                return 0;
            }
            total = total.saturating_add(hs[i]);
            i = i + 1;
        }
        if hs.len() == 0 {
            return 0;
        }
        let n16: u16 = hs.len() as u16;
        let k: u16 = if n16 == 0 { 65535 } else { n16 - 1 };
        proof {
            assert(k == ((hs@.len() as u16) as int + 65535) % 65536);
            assert((self.gap as int) * (k as int) <= 65535 * 65535) by (nonlinear_arith)
                requires
                    self.gap <= 65535,
                    k <= 65535,
            ;
        }
        let gaps: u32 = self.gap as u32 * k as u32;
        let gaps16: u16 = if gaps > u16::MAX as u32 { u16::MAX } else { gaps as u16 };
        proof {
            assert((self.gap as int) * (k as int) <= 65535 * 65535) by (nonlinear_arith)
                requires
                    self.gap <= 65535,
                    k <= 65535,
            ;
        }
        total.saturating_add(gaps16)
    }

    /// Destroying a stack destroys every child and keeps its gap.
    open spec fn spec_destroys(&self, after: &Self) -> bool {
        &&& all_destroyed(self.children@, after.children@)
        &&& after.gap == self.gap
    }

    /// Destroying a stack destroys every child.
    fn destroy(&mut self) {
        destroy_all(&mut self.children);
    }
}

} // verus!

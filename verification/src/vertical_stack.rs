//! A vertical layout container that slices its area among children, top to
//! bottom, in the order they were added.
//!
//! Each child gets a stripe of the full width, as tall as it asks. A child
//! that asks for `0` stretches over the rest of the area and ends the walk,
//! so only the first stretching child is placed.
use vstd::prelude::*;
use crate::component::{all_destroyed, asked_heights, desired_heights, destroy_all, Component};
use crate::geometry::{sat_add_u16, LayoutRect};
use crate::stack::vstack::sum_heights;

verus! {

/// A vertical stack of children with `gap` rows between them.
pub struct VerticalStackComponent<C> {
    pub children: Vec<C>,
    pub gap: u16,
}

/// The stripes `(top, height)` of the children asking `hs`, walking down from
/// row `cursor` of an area `height` rows tall. The walk stops after a
/// stretching child, after a child whose stripe (with its gap) reaches the
/// bottom, and before a stretching child that would find no row left.
pub open spec fn stripes(hs: Seq<u16>, gap: u16, height: u16, cursor: int) -> Seq<(int, u16)>
    decreases hs.len(),
{
    if hs.len() == 0 {
        Seq::empty()
    } else if hs[0] == 0 {
        if height - cursor <= 0 {
            Seq::empty()
        } else {
            seq![(cursor, (height - cursor) as u16)]
        }
    } else {
        let next = cursor + hs[0] + gap;
        if next >= height {
            seq![(cursor, hs[0])]
        } else {
            seq![(cursor, hs[0])] + stripes(hs.drop_first(), gap, height, next)
        }
    }
}

/// The `(local, screen)` rects of the stripes, in `local` and at `screen`
/// scrolled up by `scroll_y`.
pub open spec fn stripe_rects(
    st: Seq<(int, u16)>,
    local: LayoutRect,
    screen: LayoutRect,
    scroll_y: i32,
) -> Seq<(LayoutRect, LayoutRect)> {
    Seq::new(
        st.len(),
        |k: int|
            (
                LayoutRect { x: local.x, y: (local.y + st[k].0) as i32, width: local.width, height: st[k].1 },
                LayoutRect {
                    x: screen.x,
                    y: (screen.y + st[k].0 - scroll_y) as i32,
                    width: screen.width,
                    height: st[k].1,
                },
            ),
    )
}

/// Every stripe's rows can be written in `i32`, in `local` and on the screen.
pub open spec fn stripes_fit(st: Seq<(int, u16)>, local: LayoutRect, screen: LayoutRect, scroll_y: i32) -> bool {
    forall|k: int|
        0 <= k < st.len() ==> {
            &&& local.y + st[k].0 <= i32::MAX
            &&& screen.y + st[k].0 <= i32::MAX
            &&& i32::MIN <= screen.y + st[k].0 - scroll_y <= i32::MAX
        }
}

/// The layouts of the children of a stack asking `hs` (see [`stripes`]).
pub open spec fn spec_stack_layouts(
    hs: Seq<u16>,
    gap: u16,
    local: LayoutRect,
    screen: LayoutRect,
    scroll_y: i32,
) -> Seq<(LayoutRect, LayoutRect)> {
    stripe_rects(stripes(hs, gap, local.height, 0), local, screen, scroll_y)
}

/// The indices `k < n` of the layouts whose screen rect holds `(column, row)`,
/// in order.
pub open spec fn hit_indices(layouts: Seq<(LayoutRect, LayoutRect)>, column: int, row: int, n: int) -> Seq<usize>
    decreases n,
{
    if n <= 0 {
        Seq::empty()
    } else {
        let r = layouts[n - 1].1;
        let before = hit_indices(layouts, column, row, n - 1);
        if r.x <= column < r.x + r.width && r.y <= row < r.y + r.height {
            before.push((n - 1) as usize)
        } else {
            before
        }
    }
}

/// The height the stack asks for: the children's heights (asked at width
/// `0`) and the gaps between them.
pub open spec fn stack_total(hs: Seq<u16>, gap: u16) -> u16 {
    if hs.len() == 0 {
        0
    } else {
        let gaps = crate::boxed::sat_mul_u16(gap as int, ((hs.len() as u16) as int + 65535) % 65536);
        sat_add_u16(sum_heights(hs, hs.len() as int), gaps) as u16
    }
}

/// The stripes follow each other down the area: the first starts at the
/// walk's first row, and each next one a gap below the end of the previous;
/// only the last may belong to a stretching child.
pub proof fn lemma_stripes_tile(hs: Seq<u16>, gap: u16, height: u16, cursor: int)
    ensures
        stripes(hs, gap, height, cursor).len() > 0 ==> stripes(hs, gap, height, cursor)[0].0 == cursor,
        forall|k: int|
            1 <= k < stripes(hs, gap, height, cursor).len() ==> #[trigger] stripes(hs, gap, height, cursor)[k].0
                == stripes(hs, gap, height, cursor)[k - 1].0 + stripes(hs, gap, height, cursor)[k - 1].1 + gap,
        forall|k: int| 0 <= k < stripes(hs, gap, height, cursor).len() - 1 ==> hs[k] != 0,
    decreases hs.len(),
{
    if hs.len() > 0 && hs[0] != 0 {
        let next = cursor + hs[0] + gap;
        let rest = stripes(hs.drop_first(), gap, height, next);
        lemma_stripes_tile(hs.drop_first(), gap, height, next);
        let st = stripes(hs, gap, height, cursor);
        if next < height {
            assert(st == seq![(cursor, hs[0])] + rest);
            lemma_stripes_len(hs.drop_first(), gap, height, next);
            assert forall|k: int| 1 <= k < st.len() implies #[trigger] st[k].0 == st[k - 1].0 + st[k - 1].1 + gap by {
                assert(st[k] == rest[k - 1]);
                if k > 1 {
                    assert(st[k - 1] == rest[k - 2]);
                    assert(rest[k - 1].0 == rest[k - 2].0 + rest[k - 2].1 + gap);
                }
            }
            assert forall|k: int| 0 <= k < st.len() - 1 implies hs[k] != 0 by {
                if k > 0 {
                    assert(hs[k] == hs.drop_first()[k - 1]);
                }
            }
        }
    }
}

proof fn lemma_stripes_len(hs: Seq<u16>, gap: u16, height: u16, cursor: int)
    ensures
        stripes(hs, gap, height, cursor).len() <= hs.len(),
    decreases hs.len(),
{
    if hs.len() > 0 && hs[0] != 0 {
        lemma_stripes_len(hs.drop_first(), gap, height, cursor + hs[0] + gap);
    }
}

impl<C: Component> Default for VerticalStackComponent<C> {
    /// The same as [`VerticalStackComponent::new`].
    fn default() -> (r: Self)
        ensures
            r.children@.len() == 0,
            r.gap == 0,
    {
        Self::new()
    }
}

impl<C: Component> VerticalStackComponent<C> {
    /// An empty stack without gaps.
    pub fn new() -> (r: Self)
        ensures
            r.children@.len() == 0,
            r.gap == 0,
    {
        VerticalStackComponent { children: Vec::new(), gap: 0 }
    }

    /// The stack with `gap` rows between children.
    pub fn with_gap(self, gap: u16) -> (r: Self)
        ensures
            r.children == self.children,
            r.gap == gap,
    {
        VerticalStackComponent { gap, ..self }
    }

    /// Append a child.
    pub fn add(&mut self, child: C)
        ensures
            final(self).children@ == old(self).children@.push(child),
            final(self).gap == old(self).gap,
    {
        self.children.push(child);
    }

    /// The `(local, screen)` rects of the children placed in `local` (at
    /// `screen` on the screen, scrolled by `scroll_y`), in order; each child
    /// is asked its height at `local.width` (see [`stripes`]).
    pub fn child_layouts(&self, local: LayoutRect, screen: LayoutRect, scroll_y: i32) -> (r: Vec<(LayoutRect, LayoutRect)>)
        requires
            stripes_fit(stripes(asked_heights(self.children@, local.width), self.gap, local.height, 0), local, screen, scroll_y),
        ensures
            r@ == spec_stack_layouts(asked_heights(self.children@, local.width), self.gap, local, screen, scroll_y),
    {
        let hs = desired_heights(&self.children, local.width);
        let ghost all = stripes(hs@, self.gap, local.height, 0);
        let ghost mut done: Seq<(int, u16)> = Seq::empty();
        let mut out: Vec<(LayoutRect, LayoutRect)> = Vec::new();
        let mut cursor: i32 = 0;
        let mut i: usize = 0;
        let mut stopped = false;
        proof {
            assert(hs@.skip(0) =~= hs@);
            assert(all =~= done + stripes(hs@.skip(0), self.gap, local.height, 0));
        }
        while i < hs.len() && !stopped
            invariant
                i <= hs@.len(),
                all == stripes(hs@, self.gap, local.height, 0),
                stripes_fit(all, local, screen, scroll_y),
                !stopped ==> all == done + stripes(hs@.skip(i as int), self.gap, local.height, cursor as int),
                stopped ==> all == done,
                0 <= cursor,
                i > 0 && !stopped ==> cursor < local.height,
                i == 0 ==> cursor == 0,
                out@ == stripe_rects(done, local, screen, scroll_y),
            decreases hs@.len() - i, if stopped { 0int } else { 1int },
        {
            let ghost rest = hs@.skip(i as int);
            proof {
                assert(rest.drop_first() =~= hs@.skip(i + 1));
                assert(rest[0] == hs@[i as int]);
            }
            let h = hs[i];
            if h == 0 {
                let room: i32 = local.height as i32 - cursor;
                if room > 0 {
                    proof {
                        assert(all[done.len() as int] == (cursor as int, room as u16));
                    }
                    let y_local = local.y + cursor;
                    let y_screen = screen.y + cursor - scroll_y;
                    out.push((
                        LayoutRect { x: local.x, y: y_local, width: local.width, height: room as u16 },
                        LayoutRect { x: screen.x, y: y_screen, width: screen.width, height: room as u16 },
                    ));
                    proof {
                        done = done.push((cursor as int, room as u16));
                    }
                }
                stopped = true;
            } else {
                proof {
                    assert(all[done.len() as int] == (cursor as int, h));
                }
                let y_local = local.y + cursor;
                let y_screen = screen.y + cursor - scroll_y;
                out.push((
                    LayoutRect { x: local.x, y: y_local, width: local.width, height: h },
                    LayoutRect { x: screen.x, y: y_screen, width: screen.width, height: h },
                ));
                proof {
                    done = done.push((cursor as int, h));
                }
                cursor = cursor + h as i32 + self.gap as i32;
                if cursor >= local.height as i32 {
                    stopped = true;
                }
            }
            i = i + 1;
            proof {
                assert(out@ =~= stripe_rects(done, local, screen, scroll_y));
                if !stopped {
                    assert(all =~= done + stripes(hs@.skip(i as int), self.gap, local.height, cursor as int));
                } else {
                    assert(all =~= done);
                }
            }
        }
        proof {
            if !stopped {
                assert(hs@.skip(i as int).len() == 0);
                assert(all =~= done);
            }
        }
        out
    }

    /// The layouts a render into `area` uses: none when `area` is empty,
    /// else [`VerticalStackComponent::child_layouts`] of `area` at `screen`.
    pub fn render_layouts(&self, area: LayoutRect, screen: LayoutRect, scroll_y: i32) -> (r: Vec<(LayoutRect, LayoutRect)>)
        requires
            stripes_fit(stripes(asked_heights(self.children@, area.width), self.gap, area.height, 0), area, screen, scroll_y),
        ensures
            area.width == 0 || area.height == 0 ==> r@.len() == 0,
            area.width != 0 && area.height != 0 ==> r@ == spec_stack_layouts(
                asked_heights(self.children@, area.width),
                self.gap,
                area,
                screen,
                scroll_y,
            ),
    {
        if area.width == 0 || area.height == 0 {
            return Vec::new();
        }
        self.child_layouts(area, screen, scroll_y)
    }

    /// The indices of the children placed in `area` (scrolled by `scroll_y`)
    /// whose screen stripe holds the cell `(column, row)`, in order: the
    /// children a mouse event there is offered to.
    pub fn mouse_targets(&self, area: LayoutRect, scroll_y: i32, column: u16, row: u16) -> (r: Vec<usize>)
        requires
            stripes_fit(stripes(asked_heights(self.children@, area.width), self.gap, area.height, 0), area, area, scroll_y),
        ensures
            r@ == hit_indices(
                spec_stack_layouts(asked_heights(self.children@, area.width), self.gap, area, area, scroll_y),
                column as int,
                row as int,
                spec_stack_layouts(asked_heights(self.children@, area.width), self.gap, area, area, scroll_y).len() as int,
            ),
    {
        let layouts = self.child_layouts(area, area, scroll_y);
        let mut out: Vec<usize> = Vec::new();
        let mut k: usize = 0;
        while k < layouts.len()
            invariant
                k <= layouts@.len(),
                out@ == hit_indices(layouts@, column as int, row as int, k as int),
            decreases layouts@.len() - k,
        {
            let r = layouts[k].1;
            let c = column as i64;
            let w = row as i64;
            if r.x as i64 <= c && c < r.x as i64 + r.width as i64 && r.y as i64 <= w && w < r.y as i64 + r.height as i64 {
                out.push(k);
            }
            k = k + 1;
        }
        out
    }
}

impl<C: Component> Component for VerticalStackComponent<C> {
    open spec fn spec_desired_height(&self, width: u16) -> u16 {
        stack_total(asked_heights(self.children@, 0), self.gap)
    }

    /// The children's heights at width `0` and the gaps between them; the
    /// width asked for plays no part.
    fn desired_height(&self, width: u16) -> (h: u16) {
        let hs = desired_heights(&self.children, 0);
        let mut total: u16 = 0;
        let mut i: usize = 0;
        while i < hs.len()
            invariant
                i <= hs@.len(),
                hs@ == asked_heights(self.children@, 0),
                total == sum_heights(hs@, i as int),
            decreases hs@.len() - i,
        {
            total = total.saturating_add(hs[i]);
            i = i + 1;
        }
        if hs.len() == 0 {
            return 0;
        }
        let n16: u16 = hs.len() as u16;
        let k: u16 = if n16 == 0 { 65535 } else { n16 - 1 };
        proof {
            assert(k == ((hs@.len() as u16) as int + 65535) % 65536);
            assert((self.gap as int) * (k as int) <= 65535 * 65535) by (nonlinear_arith)
                requires
                    self.gap <= 65535,
                    k <= 65535,
            ;
        }
        let gaps: u32 = self.gap as u32 * k as u32;
        let gaps16: u16 = if gaps > u16::MAX as u32 { u16::MAX } else { gaps as u16 };
        total.saturating_add(gaps16)
    }

    /// Destroying a stack destroys every child and keeps its gap.
    open spec fn spec_destroys(&self, after: &Self) -> bool {
        &&& all_destroyed(self.children@, after.children@)
        &&& after.gap == self.gap
    }

    /// Destroying a stack destroys every child.
    fn destroy(&mut self) {
        destroy_all(&mut self.children);
    }
}

} // verus!

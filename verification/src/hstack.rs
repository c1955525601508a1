//! A horizontal layout container: children side by side, sharing the full
//! height.
use vstd::prelude::*;
use crate::component::{all_destroyed, asked_heights, desired_heights, destroy_all, Component};

verus! {

/// A horizontal stack of children with `gap` columns between them.
pub struct HStackComponent<C> {
    pub children: Vec<C>,
    pub gap: u16,
}

/// The largest of the first `n` heights (`0` for none).
pub open spec fn max_height(hs: Seq<u16>, n: int) -> u16
    decreases n,
{
    if n <= 0 {
        0
    } else {
        let m = max_height(hs, n - 1);
        if hs[n - 1] > m { hs[n - 1] } else { m }
    }
}

/// The height a row asks for: it stretches (`0`) when any child stretches,
/// so that a fixed sibling cannot cap the stretching one; else the tallest
/// child's height.
pub open spec fn row_height(hs: Seq<u16>) -> u16 {
    if exists|i: int| 0 <= i < hs.len() && hs[i] == 0 {
        0
    } else {
        max_height(hs, hs.len() as int)
    }
}

proof fn lemma_max_height_bounds(hs: Seq<u16>, n: int)
    requires
        0 <= n <= hs.len(),
    ensures
        forall|i: int| 0 <= i < n ==> #[trigger] hs[i] <= max_height(hs, n),
        n > 0 ==> exists|i: int| 0 <= i < n && #[trigger] hs[i] == max_height(hs, n),
        n == 0 ==> max_height(hs, n) == 0,
    decreases n,
{
    if n > 0 {
        lemma_max_height_bounds(hs, n - 1);
        if n > 1 && hs[n - 1] <= max_height(hs, n - 1) {
            let w = choose|i: int| 0 <= i < n - 1 && #[trigger] hs[i] == max_height(hs, n - 1);
            assert(0 <= w < n && hs[w] == max_height(hs, n));
        } else {
            assert(hs[n - 1] == max_height(hs, n));
        }
    }
}

/// A row asks for its tallest child's height: when some child stretches the
/// row stretches (`0`); otherwise its height is at least every child's and is
/// the height of one of them (`0` for a row without children).
pub proof fn lemma_hstack_height_is_tallest_child<C: Component>(s: HStackComponent<C>, width: u16)
    ensures
        (exists|i: int| 0 <= i < s.children@.len() && #[trigger] s.children@[i].spec_desired_height(width) == 0)
            ==> s.spec_desired_height(width) == 0,
        (forall|i: int| 0 <= i < s.children@.len() ==> #[trigger] s.children@[i].spec_desired_height(width) != 0)
            ==> {
            &&& forall|i: int|
                0 <= i < s.children@.len() ==> #[trigger] s.children@[i].spec_desired_height(width)
                    <= s.spec_desired_height(width)
            &&& s.children@.len() > 0 ==> exists|i: int|
                0 <= i < s.children@.len() && #[trigger] s.children@[i].spec_desired_height(width)
                    == s.spec_desired_height(width)
            &&& s.children@.len() == 0 ==> s.spec_desired_height(width) == 0
        },
{
    let hs = asked_heights(s.children@, width);
    lemma_max_height_bounds(hs, hs.len() as int);
    if exists|i: int| 0 <= i < s.children@.len() && #[trigger] s.children@[i].spec_desired_height(width) == 0 {
        let i = choose|i: int| 0 <= i < s.children@.len() && #[trigger] s.children@[i].spec_desired_height(width) == 0;
        assert(hs[i] == 0);
    }
    if forall|i: int| 0 <= i < s.children@.len() ==> #[trigger] s.children@[i].spec_desired_height(width) != 0 {
        assert(!(exists|i: int| 0 <= i < hs.len() && hs[i] == 0)) by {
            assert forall|i: int| 0 <= i < hs.len() implies hs[i] != 0 by {
                assert(hs[i] == s.children@[i].spec_desired_height(width));
            }
        }
        assert forall|i: int| 0 <= i < s.children@.len() implies #[trigger] s.children@[i].spec_desired_height(width)
            <= s.spec_desired_height(width) by {
            assert(hs[i] == s.children@[i].spec_desired_height(width));
        }
        if s.children@.len() > 0 {
            let w = choose|i: int| 0 <= i < hs.len() && #[trigger] hs[i] == max_height(hs, hs.len() as int);
            assert(s.children@[w].spec_desired_height(width) == hs[w]);
        }
    }
}

impl<C: Component> Default for HStackComponent<C> {
    /// The same as [`HStackComponent::new`].
    fn default() -> (r: Self)
        ensures
            r.children@.len() == 0,
            r.gap == 0,
    {
        Self::new()
    }
}

impl<C: Component> HStackComponent<C> {
    /// An empty row without gaps.
    pub fn new() -> (r: Self)
        ensures
            r.children@.len() == 0,
            r.gap == 0,
    {
        HStackComponent { children: Vec::new(), gap: 0 }
    }

    /// The row with `gap` columns between children.
    pub fn with_gap(self, gap: u16) -> (r: Self)
        ensures
            r.children == self.children,
            r.gap == gap,
    {
        HStackComponent { gap, ..self }
    }

    /// Append a child.
    pub fn add(&mut self, child: C)
        ensures
            final(self).children@ == old(self).children@.push(child),
            final(self).gap == old(self).gap,
    {
        self.children.push(child);
    }
}

impl<C: Component> Component for HStackComponent<C> {
    open spec fn spec_desired_height(&self, width: u16) -> u16 {
        row_height(asked_heights(self.children@, width))
    }

    fn desired_height(&self, width: u16) -> (h: u16) {
        let hs = desired_heights(&self.children, width);
        let mut max_h: u16 = 0;
        let mut i: usize = 0;
        while i < hs.len()
            invariant
                i <= hs@.len(),
                hs@ == asked_heights(self.children@, width),
                max_h == max_height(hs@, i as int),
                forall|j: int| 0 <= j < i ==> hs@[j] != 0,
            decreases hs@.len() - i,
        {
            if hs[i] == 0 {
                // A stretching child makes the whole row stretch.
                return 0;
            }
            if hs[i] > max_h {
                max_h = hs[i];
            }
            i = i + 1;
        }
        max_h
    }

    /// Destroying a row destroys every child and keeps its gap.
    open spec fn spec_destroys(&self, after: &Self) -> bool {
        &&& all_destroyed(self.children@, after.children@)
        &&& after.gap == self.gap
    }

    /// Destroying a row destroys every child.
    fn destroy(&mut self) {
        destroy_all(&mut self.children);
    }
}

} // verus!

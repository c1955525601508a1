use vstd::prelude::*;
use crate::component::{all_destroyed, destroy_all, Component};
use crate::geometry::{spec_rect_contains, LayoutRect};

verus! {

/// A grid constraint: a fixed cell size or a share of the remaining space.
#[derive(Debug, Clone, Copy, PartialEq, Eq, Structural)]
pub enum GridConstraint {
    Fixed(u16),
    Fraction(u16),
}

/// Sum of the `Fixed` sizes of a constraint list.
pub open spec fn fixed_sum(cs: Seq<GridConstraint>) -> nat
    decreases cs.len(),
{
    if cs.len() == 0 {
        0
    } else {
        fixed_sum(cs.drop_last()) + match cs.last() {
            GridConstraint::Fixed(n) => n as nat,
            GridConstraint::Fraction(_) => 0,
        }
    }
}

/// Sum of the `Fraction` weights of a constraint list.
pub open spec fn fraction_sum(cs: Seq<GridConstraint>) -> nat
    decreases cs.len(),
{
    if cs.len() == 0 {
        0
    } else {
        fraction_sum(cs.drop_last()) + match cs.last() {
            GridConstraint::Fixed(_) => 0,
            GridConstraint::Fraction(n) => n as nat,
        }
    }
}

/// A running total kept in a `u32` that saturates at `u32::MAX`.
pub open spec fn sat_u32(total: nat) -> nat {
    if total > u32::MAX { u32::MAX as nat } else { total }
}

/// The space left to the `Fraction` cells once the `Fixed` cells are served.
pub open spec fn remaining_space(dim: u16, cs: Seq<GridConstraint>) -> nat {
    if fixed_sum(cs) >= dim { 0 } else { (dim - fixed_sum(cs)) as nat }
}

/// The weight total that `Fraction` shares are divided by.
pub open spec fn fraction_total(cs: Seq<GridConstraint>) -> nat {
    sat_u32(fraction_sum(cs))
}

/// The proportional share of a `Fraction(n)` cell that is not the last cell.
pub open spec fn fraction_share(remaining: nat, n: u16, total: nat) -> nat {
    if total == 0 { 0 } else { (remaining * (n as nat)) / total }
}

/// Sum of the proportional shares of the `Fraction` cells among the first
/// `i` constraints.
pub open spec fn shares_before(cs: Seq<GridConstraint>, i: int, remaining: nat, total: nat) -> nat
    decreases i,
{
    if i <= 0 {
        0
    } else {
        shares_before(cs, i - 1, remaining, total) + match cs[i - 1] {
            GridConstraint::Fixed(_) => 0,
            GridConstraint::Fraction(n) => fraction_share(remaining, n, total),
        }
    }
}

/// The index of the last `Fraction` of `cs` (`-1` when there is none).
pub open spec fn last_fraction(cs: Seq<GridConstraint>) -> int
    decreases cs.len(),
{
    if cs.len() == 0 {
        -1
    } else if cs.last() is Fraction {
        cs.len() - 1
    } else {
        last_fraction(cs.drop_last())
    }
}

proof fn lemma_last_fraction(cs: Seq<GridConstraint>)
    ensures
        -1 <= last_fraction(cs) < cs.len(),
        last_fraction(cs) >= 0 ==> cs[last_fraction(cs)] is Fraction,
        forall|j: int| last_fraction(cs) < j < cs.len() ==> #[trigger] cs[j] is Fixed,
        last_fraction(cs) == -1 ==> fraction_sum(cs) == 0,
    decreases cs.len(),
{
    if cs.len() > 0 && !(cs.last() is Fraction) {
        let d = cs.drop_last();
        lemma_last_fraction(d);
        assert forall|j: int| last_fraction(cs) < j < cs.len() implies #[trigger] cs[j] is Fixed by {
            if j < cs.len() - 1 {
                assert(cs[j] == d[j]);
            }
        }
    }
}

/// The size that constraint `i` of `cs` resolves to within `dim`: the last
/// `Fraction` takes what the rounded-down shares before it leave over.
pub open spec fn resolved_size(dim: u16, cs: Seq<GridConstraint>, i: int) -> nat {
    let remaining = remaining_space(dim, cs);
    let total = fraction_total(cs);
    match cs[i] {
        GridConstraint::Fixed(n) => n as nat,
        GridConstraint::Fraction(n) => if total == 0 {
            remaining
        } else if i == last_fraction(cs) {
            let before = sat_u32(shares_before(cs, i, remaining, total));
            if before >= remaining { 0 } else { (remaining - before) as nat }
        } else {
            fraction_share(remaining, n, total)
        },
    }
}

/// Sum of the first `k` entries of a size list.
pub open spec fn sum_sizes(s: Seq<u16>, k: int) -> nat
    decreases k,
{
    if k <= 0 { 0 } else { sum_sizes(s, k - 1) + s[k - 1] as nat }
}

proof fn lemma_share_le(remaining: nat, n: u16, total: nat)
    requires
        n <= total,
    ensures
        fraction_share(remaining, n, total) <= remaining,
{
    if total > 0 {
        assert((remaining * (n as nat)) / total <= remaining) by (nonlinear_arith)
            requires
                n <= total,
                total > 0,
        ;
    }
}

proof fn lemma_fraction_le_sum(cs: Seq<GridConstraint>, i: int)
    requires
        0 <= i < cs.len(),
        cs[i] is Fraction,
    ensures
        cs[i]->Fraction_0 <= fraction_sum(cs),
    decreases cs.len(),
{
    if i < cs.len() - 1 {
        lemma_fraction_le_sum(cs.drop_last(), i);
    }
}

/// Sum of the resolved sizes of the first `k` constraints.
pub open spec fn resolved_total(dim: u16, cs: Seq<GridConstraint>, k: int) -> nat
    decreases k,
{
    if k <= 0 { 0 } else { resolved_total(dim, cs, k - 1) + resolved_size(dim, cs, k - 1) }
}

proof fn lemma_sums_step(cs: Seq<GridConstraint>, k: int)
    requires
        0 < k <= cs.len(),
    ensures
        fraction_sum(cs.take(k)) == fraction_sum(cs.take(k - 1)) + match cs[k - 1] {
            GridConstraint::Fixed(_) => 0nat,
            GridConstraint::Fraction(n) => n as nat,
        },
        fixed_sum(cs.take(k)) == fixed_sum(cs.take(k - 1)) + match cs[k - 1] {
            GridConstraint::Fixed(n) => n as nat,
            GridConstraint::Fraction(_) => 0nat,
        },
{
    assert(cs.take(k).drop_last() =~= cs.take(k - 1));
}

proof fn lemma_shares_scaled(cs: Seq<GridConstraint>, k: int, r: nat, f: nat)
    requires
        0 <= k <= cs.len(),
        f > 0,
    ensures
        shares_before(cs, k, r, f) * f <= r * fraction_sum(cs.take(k)),
    decreases k,
{
    if k == 0 {
        assert(cs.take(0) =~= Seq::<GridConstraint>::empty());
        assert(fraction_sum(cs.take(0)) == 0);
        assert(shares_before(cs, 0, r, f) == 0);
        assert(0 * f == 0) by (nonlinear_arith);
    } else {
        lemma_shares_scaled(cs, k - 1, r, f);
        lemma_sums_step(cs, k);
        let a = shares_before(cs, k - 1, r, f);
        let w = fraction_sum(cs.take(k - 1));
        match cs[k - 1] {
            GridConstraint::Fixed(_) => {
                assert(shares_before(cs, k, r, f) == a);
                assert(fraction_sum(cs.take(k)) == w);
            },
            GridConstraint::Fraction(n) => {
                let sh = fraction_share(r, n, f);
                assert(sh == (r * (n as nat)) / f);
                assert(sh * f <= r * (n as nat)) by (nonlinear_arith)
                    requires
                        sh == (r * (n as nat)) / f,
                        f > 0,
                ;
                assert((a + sh) * f == a * f + sh * f) by (nonlinear_arith);
                assert(r * (w + n as nat) == r * w + r * (n as nat)) by (nonlinear_arith);
                assert(shares_before(cs, k, r, f) == a + sh);
                assert(fraction_sum(cs.take(k)) == w + n as nat);
                assert((a + sh) * f <= r * (w + n as nat)) by (nonlinear_arith)
                    requires
                        a * f <= r * w,
                        sh * f <= r * (n as nat),
                ;
            },
        }
    }
}

proof fn lemma_total_before_last(dim: u16, cs: Seq<GridConstraint>, k: int)
    requires
        0 <= k <= last_fraction(cs),
        fraction_total(cs) > 0,
    ensures
        resolved_total(dim, cs, k) == fixed_sum(cs.take(k)) + shares_before(
            cs,
            k,
            remaining_space(dim, cs),
            fraction_total(cs),
        ),
    decreases k,
{
    if k == 0 {
        assert(cs.take(0) =~= Seq::<GridConstraint>::empty());
    } else {
        lemma_last_fraction(cs);
        lemma_total_before_last(dim, cs, k - 1);
        lemma_sums_step(cs, k);
    }
}

proof fn lemma_fraction_prefix_le(cs: Seq<GridConstraint>, k: int)
    requires
        0 <= k <= cs.len(),
    ensures
        fraction_sum(cs.take(k)) <= fraction_sum(cs),
    decreases cs.len() - k,
{
    if k < cs.len() {
        lemma_fraction_prefix_le(cs, k + 1);
        lemma_sums_step(cs, k + 1);
    } else {
        assert(cs.take(k) =~= cs);
    }
}

proof fn lemma_total_after_last(dim: u16, cs: Seq<GridConstraint>, k: int)
    requires
        0 <= last_fraction(cs) < k <= cs.len(),
        fraction_total(cs) > 0,
        resolved_total(dim, cs, last_fraction(cs) + 1) == fixed_sum(cs.take(last_fraction(cs) + 1))
            + remaining_space(dim, cs),
    ensures
        resolved_total(dim, cs, k) == fixed_sum(cs.take(k)) + remaining_space(dim, cs),
    decreases k,
{
    if k > last_fraction(cs) + 1 {
        lemma_total_after_last(dim, cs, k - 1);
        lemma_last_fraction(cs);
        lemma_sums_step(cs, k);
        assert(cs[k - 1] is Fixed);
    }
}

/// When some weight is positive (and the weights do not saturate the `u32`
/// running total), the resolved sizes fill `dim` exactly as long as the
/// `Fixed` sizes fit: the last `Fraction`, wherever it stands, absorbs
/// whatever the rounded-down proportional shares left over.
pub proof fn lemma_resolved_sizes_fill_dim(dim: u16, cs: Seq<GridConstraint>)
    requires
        0 < fraction_sum(cs) <= u32::MAX,
        fixed_sum(cs) <= dim,
    ensures
        resolved_total(dim, cs, cs.len() as int) == dim,
{
    lemma_last_fraction(cs);
    let lf = last_fraction(cs);
    let r = remaining_space(dim, cs);
    let f = fraction_total(cs);
    lemma_total_before_last(dim, cs, lf);
    lemma_shares_scaled(cs, lf, r, f);
    lemma_sums_step(cs, lf + 1);
    lemma_fraction_prefix_le(cs, lf);
    let a = shares_before(cs, lf, r, f);
    let w = fraction_sum(cs.take(lf));
    assert(w <= f);
    assert(a * f <= r * f) by (nonlinear_arith)
        requires
            a * f <= r * w,
            w <= f,
    ;
    assert(a <= r) by (nonlinear_arith)
        requires
            a * f <= r * f,
            f > 0,
    ;
    assert(resolved_size(dim, cs, lf) == r - a);
    assert(resolved_total(dim, cs, lf + 1) == fixed_sum(cs.take(lf + 1)) + r);
    lemma_total_after_last(dim, cs, cs.len() as int);
    assert(cs.take(cs.len() as int) =~= cs);
}

/// Resolve a constraint list against a total dimension into concrete sizes.
/// `Fixed` cells consume their size; `Fraction` cells share the leftover space
/// in proportion to their weight (the last `Fraction` absorbs the remainder).
pub fn resolve_sizes(dim: u16, constraints: &[GridConstraint]) -> (sizes: Vec<u16>)
    ensures
        sizes.len() == constraints.len(),
        forall|i: int| 0 <= i < sizes.len() ==> sizes[i] == resolved_size(dim, constraints@, i),
{
    let cs = Ghost(constraints@);
    let total: u32 = dim as u32;
    let mut fixed_total: u32 = 0;
    let mut frac_total: u32 = 0;
    // One past the index of the last `Fraction` seen so far (0: none yet).
    let mut last_frac_end: usize = 0;
    let mut k: usize = 0;
    while k < constraints.len()
        invariant
            k <= constraints.len(),
            cs@ == constraints@,
            fixed_total == sat_u32(fixed_sum(cs@.take(k as int))),
            frac_total == sat_u32(fraction_sum(cs@.take(k as int))),
            last_frac_end == last_fraction(cs@.take(k as int)) + 1,
        decreases constraints.len() - k,
    {
        assert(cs@.take(k + 1).drop_last() == cs@.take(k as int));
        assert(cs@.take(k + 1).last() == cs@[k as int]);
        match constraints[k] {
            GridConstraint::Fixed(n) => fixed_total = fixed_total.saturating_add(n as u32),
            GridConstraint::Fraction(n) => {
                frac_total = frac_total.saturating_add(n as u32);
                last_frac_end = k + 1;
            },
        }
        k = k + 1;
    }
    assert(k == cs@.len());
    assert(cs@.take(k as int) =~= cs@);
    proof {
        lemma_last_fraction(cs@);
    }
    let remaining = total.saturating_sub(fixed_total);
    assert(remaining == remaining_space(dim, cs@));
    let mut allocated: u32 = 0;
    let mut sizes: Vec<u16> = Vec::with_capacity(constraints.len());
    let mut i: usize = 0;
    while i < constraints.len()
        invariant
            i <= constraints.len(),
            cs@ == constraints@,
            remaining == remaining_space(dim, cs@),
            remaining <= u16::MAX,
            frac_total == fraction_total(cs@),
            allocated == sat_u32(
                shares_before(
                    cs@,
                    if i <= last_fraction(cs@) { i as int } else { last_fraction(cs@) },
                    remaining as nat,
                    frac_total as nat,
                ),
            ),
            sizes.len() == i,
            forall|j: int| 0 <= j < i ==> sizes[j] == resolved_size(dim, cs@, j),
            last_frac_end == last_fraction(cs@) + 1,
            -1 <= last_fraction(cs@) < cs@.len(),
            last_fraction(cs@) >= 0 ==> cs@[last_fraction(cs@)] is Fraction,
            forall|j: int| last_fraction(cs@) < j < cs@.len() ==> #[trigger] cs@[j] is Fixed,
        decreases constraints.len() - i,
    {
        let is_last = i + 1 == last_frac_end;
        let s: u32 = match constraints[i] {
            GridConstraint::Fixed(n) => n as u32,
            GridConstraint::Fraction(n) => {
                if frac_total == 0 {
                    remaining
                } else if is_last {
                    remaining.saturating_sub(allocated)
                } else {
                    proof {
                        lemma_fraction_le_sum(cs@, i as int);
                        lemma_share_le(remaining as nat, n, frac_total as nat);
                        assert(remaining * n <= u16::MAX * u16::MAX) by (nonlinear_arith)
                            requires remaining <= u16::MAX, n <= u16::MAX;
                    }
                    let s = (remaining * (n as u32)) / frac_total;
                    allocated = allocated.saturating_add(s);
                    s
                }
            },
        };
        proof {
            match cs@[i as int] {
                GridConstraint::Fraction(n) => {
                    lemma_fraction_le_sum(cs@, i as int);
                    lemma_share_le(remaining as nat, n, frac_total as nat);
                },
                _ => {},
            }
        }
        assert(s <= u16::MAX);
        sizes.push(s as u16);
        i = i + 1;
    }
    sizes
}

} // verus!

verus! {

/// The minimum width a `Fraction` column is allotted before a multi-column
/// grid reflows to a single stacked column. Prevents columns from collapsing
/// into unreadable slivers on narrow containers.
pub const FRACTION_COL_MIN_WIDTH: u16 = 10;

/// The width a column needs at least: its fixed size, or the fraction minimum.
pub open spec fn column_min_width(c: GridConstraint) -> nat {
    match c {
        GridConstraint::Fixed(n) => n as nat,
        GridConstraint::Fraction(_) => FRACTION_COL_MIN_WIDTH as nat,
    }
}

/// `u16`-saturating sum of the column minimums of the first `k` columns.
pub open spec fn min_width_prefix(cols: Seq<GridConstraint>, k: int) -> nat
    decreases k,
{
    if k <= 0 {
        0
    } else {
        let s = min_width_prefix(cols, k - 1) + column_min_width(cols[k - 1]);
        if s > u16::MAX { u16::MAX as nat } else { s }
    }
}

/// Minimum total width a constraint list needs to keep multiple columns.
pub open spec fn spec_min_total_width(cols: Seq<GridConstraint>) -> nat {
    min_width_prefix(cols, cols.len() as int)
}

pub fn min_total_width(cols: &[GridConstraint]) -> (r: u16)
    ensures
        r == spec_min_total_width(cols@),
{
    let mut acc: u16 = 0;
    let mut i: usize = 0;
    while i < cols.len()
        invariant
            i <= cols.len(),
            acc == min_width_prefix(cols@, i as int),
        decreases cols.len() - i,
    {
        let w = match cols[i] {
            GridConstraint::Fixed(n) => n,
            GridConstraint::Fraction(_) => FRACTION_COL_MIN_WIDTH,
        };
        acc = acc.saturating_add(w);
        i = i + 1;
    }
    acc
}

/// Whether `cols` must reflow to one stacked column at `width`.
pub open spec fn spec_grid_reflows(cols: Seq<GridConstraint>, width: u16) -> bool {
    cols.len() > 1 && width < spec_min_total_width(cols)
}

/// Whether a multi-column grid must reflow to a single stacked column because
/// the available width cannot accommodate the configured columns' minimums.
pub fn grid_reflows(cols: &[GridConstraint], width: u16) -> (r: bool)
    ensures
        r == spec_grid_reflows(cols@, width),
{
    cols.len() > 1 && width < min_total_width(cols)
}

/// A grid that fits at some width still fits at every larger width, and a
/// single column never reflows.
pub proof fn lemma_reflow_monotone(cols: Seq<GridConstraint>, narrow: u16, wide: u16)
    requires
        narrow <= wide,
    ensures
        !spec_grid_reflows(cols, narrow) ==> !spec_grid_reflows(cols, wide),
        cols.len() <= 1 ==> !spec_grid_reflows(cols, wide),
{
}

} // verus!

verus! {

/// A row-major grid container.
///
/// Column widths and row heights come from [`GridConstraint`] lists; children
/// are placed left-to-right, top-to-bottom. If `rows` is empty, one
/// `Fraction` row per child is synthesized (a vertical stack of full-width
/// cells); if `cols` is empty, a single `Fraction` column is used.
pub struct GridComponent<C> {
    children: Vec<C>,
    cols: Vec<GridConstraint>,
    rows: Vec<GridConstraint>,
}

/// The columns a grid lays out with.
pub open spec fn spec_effective_cols(cols: Seq<GridConstraint>) -> Seq<GridConstraint> {
    if cols.len() == 0 { seq![GridConstraint::Fraction(1)] } else { cols }
}

/// The rows a grid lays out with: its own, or one `Fraction` row per child
/// when it has none.
pub open spec fn spec_effective_rows(
    rows: Seq<GridConstraint>,
    cols: Seq<GridConstraint>,
    n_children: nat,
) -> Seq<GridConstraint> {
    if rows.len() > 0 {
        rows
    } else {
        Seq::new(n_children, |i: int| GridConstraint::Fraction(1))
    }
}

/// `u16`-saturating sum of the first `k` heights.
pub open spec fn sat_sum_u16(hs: Seq<u16>, k: int) -> nat
    decreases k,
{
    if k <= 0 {
        0
    } else {
        let s = sat_sum_u16(hs, k - 1) + hs[k - 1] as nat;
        if s > u16::MAX { u16::MAX as nat } else { s }
    }
}

/// `u16`-saturating sum of the non-zero (non-stretch) heights among the first `k`.
pub open spec fn sat_sum_fixed(hs: Seq<u16>, k: int) -> nat
    decreases k,
{
    if k <= 0 {
        0
    } else {
        let s = sat_sum_fixed(hs, k - 1) + hs[k - 1] as nat;
        if s > u16::MAX { u16::MAX as nat } else { s }
    }
}

/// Number of stretch (`0`) heights among the first `k`.
pub open spec fn stretch_count(hs: Seq<u16>, k: int) -> nat
    decreases k,
{
    if k <= 0 { 0 } else { stretch_count(hs, k - 1) + if hs[k - 1] == 0 { 1nat } else { 0nat } }
}

/// `u16`-saturating sum of the `Fixed` sizes among the first `k` constraints.
pub open spec fn sat_fixed_rows(rows: Seq<GridConstraint>, k: int) -> nat
    decreases k,
{
    if k <= 0 {
        0
    } else {
        let s = sat_fixed_rows(rows, k - 1) + match rows[k - 1] {
            GridConstraint::Fixed(h) => h as nat,
            GridConstraint::Fraction(_) => 0,
        };
        if s > u16::MAX { u16::MAX as nat } else { s }
    }
}

/// The height a grid asks for, given its layout rows and whether it reflows
/// at the width in question, and the children's own requested heights.
///
/// A reflowed grid stacks its children: any stretching child makes it
/// stretch, else it asks for the sum of their heights. Otherwise it stretches
/// whenever a row is a `Fraction`, else asks for the sum of the fixed rows.
pub open spec fn spec_grid_height(reflows: bool, rows: Seq<GridConstraint>, child_heights: Seq<u16>) -> nat {
    if reflows {
        if exists|i: int| 0 <= i < child_heights.len() && child_heights[i] == 0 {
            0
        } else {
            sat_sum_u16(child_heights, child_heights.len() as int)
        }
    } else if exists|i: int| 0 <= i < rows.len() && rows[i] is Fraction {
        0
    } else {
        sat_fixed_rows(rows, rows.len() as int)
    }
}

/// The row heights of a reflowed (single stacked column) grid of `height`
/// cells: non-stretch children keep their own heights and the stretch
/// children share what is left, each row at least one cell high.
pub open spec fn spec_reflowed_rows(height: u16, child_heights: Seq<u16>) -> Seq<u16> {
    let fixed = sat_sum_fixed(child_heights, child_heights.len() as int);
    let remaining = if fixed >= height { 0 } else { (height - fixed) as nat };
    let n_stretch = (stretch_count(child_heights, child_heights.len() as int) as int % 65536) as nat;
    let stretch_h = if n_stretch == 0 { 0 } else { remaining / n_stretch };
    Seq::new(
        child_heights.len(),
        |i: int|
            if child_heights[i] == 0 {
                (if stretch_h < 1 { 1 } else { stretch_h }) as u16
            } else {
                child_heights[i]
            },
    )
}

fn sum_sat_u16(hs: &Vec<u16>) -> (r: u16)
    ensures
        r == sat_sum_u16(hs@, hs@.len() as int),
{
    let mut acc: u16 = 0;
    let mut i: usize = 0;
    while i < hs.len()
        invariant
            i <= hs.len(),
            acc == sat_sum_u16(hs@, i as int),
        decreases hs.len() - i,
    {
        acc = acc.saturating_add(hs[i]);
        i = i + 1;
    }
    acc
}

/// The row heights of a grid that reflowed to one stacked column.
pub fn reflowed_row_heights(height: u16, child_heights: &Vec<u16>) -> (r: Vec<u16>)
    ensures
        r@ == spec_reflowed_rows(height, child_heights@),
{
    let mut fixed_total: u16 = 0;
    let mut n_stretch: usize = 0;
    let mut i: usize = 0;
    while i < child_heights.len()
        invariant
            i <= child_heights.len(),
            fixed_total == sat_sum_fixed(child_heights@, i as int),
            n_stretch == stretch_count(child_heights@, i as int),
            n_stretch <= i,
        decreases child_heights.len() - i,
    {
        let h = child_heights[i];
        if h == 0 {
            n_stretch = n_stretch + 1;
        } else {
            fixed_total = fixed_total.saturating_add(h);
        }
        i = i + 1;
    }
    let remaining: u16 = if fixed_total >= height { 0 } else { height - fixed_total };
    let n: u16 = (n_stretch % 65536) as u16;
    let stretch_h: u16 = if n == 0 { 0 } else { remaining / n };
    let mut out: Vec<u16> = Vec::with_capacity(child_heights.len());
    let mut j: usize = 0;
    while j < child_heights.len()
        invariant
            j <= child_heights.len(),
            out@.len() == j,
            stretch_h == {
                let fixed = sat_sum_fixed(child_heights@, child_heights@.len() as int);
                let rem = if fixed >= height { 0 } else { (height - fixed) as nat };
                let n_s = (stretch_count(child_heights@, child_heights@.len() as int) as int % 65536) as nat;
                if n_s == 0 { 0 } else { rem / n_s }
            },
            forall|k: int| 0 <= k < j ==> out@[k] == spec_reflowed_rows(height, child_heights@)[k],
        decreases child_heights.len() - j,
    {
        let h = child_heights[j];
        out.push(if h == 0 { if stretch_h < 1 { 1 } else { stretch_h } } else { h });
        j = j + 1;
    }
    proof {
        assert(out@ =~= spec_reflowed_rows(height, child_heights@));
    }
    out
}

/// `i32`-saturating running position of cell `k` along an axis starting at
/// `start` with the given extents.
pub open spec fn cell_offset(start: int, sizes: Seq<u16>, k: int) -> int
    decreases k,
{
    if k <= 0 {
        start
    } else {
        crate::geometry::sat_add_i32(cell_offset(start, sizes, k - 1), sizes[k - 1] as int)
    }
}

/// The cell rects of a grid over `area`, row-major: cell `k` sits in row
/// `k / cols` and column `k % cols`.
pub open spec fn spec_cells(area: LayoutRect, col_widths: Seq<u16>, row_heights: Seq<u16>) -> Seq<LayoutRect> {
    Seq::new(
        (col_widths.len() * row_heights.len()) as nat,
        |k: int|
            LayoutRect {
                x: cell_offset(area.x as int, col_widths, k % (col_widths.len() as int)) as i32,
                y: cell_offset(area.y as int, row_heights, k / (col_widths.len() as int)) as i32,
                width: col_widths[k % (col_widths.len() as int)],
                height: row_heights[k / (col_widths.len() as int)],
            },
    )
}

} // verus!

verus! {

/// The cell rects of a grid over `area` in row-major order: the cell of
/// child `idx` is the `idx`-th of the result.
pub fn cell_rects(area: LayoutRect, col_widths: &Vec<u16>, row_heights: &Vec<u16>) -> (r: Vec<LayoutRect>)
    requires
        col_widths.len() * row_heights.len() <= usize::MAX,
    ensures
        r@ == spec_cells(area, col_widths@, row_heights@),
{
    let ncols = col_widths.len();
    let mut out: Vec<LayoutRect> = Vec::new();
    let mut cell_y = area.y;
    let mut ri: usize = 0;
    while ri < row_heights.len()
        invariant
            ncols == col_widths.len(),
            col_widths.len() * row_heights.len() <= usize::MAX,
            ri <= row_heights.len(),
            out@.len() == ri * ncols,
            cell_y == cell_offset(area.y as int, row_heights@, ri as int),
            forall|k: int| 0 <= k < out@.len() ==> out@[k] == spec_cells(area, col_widths@, row_heights@)[k],
        decreases row_heights.len() - ri,
    {
        let rh = row_heights[ri];
        let mut cell_x = area.x;
        let mut ci: usize = 0;
        proof {
            assert(ri * ncols + ncols <= ncols * row_heights.len()) by (nonlinear_arith)
                requires ri < row_heights.len();
        }
        while ci < ncols
            invariant
                ncols == col_widths.len(),
                col_widths.len() * row_heights.len() <= usize::MAX,
                ri < row_heights.len(),
                ri * ncols + ncols <= ncols * row_heights.len(),
                ci <= ncols,
                rh == row_heights@[ri as int],
                out@.len() == ri * ncols + ci,
                cell_y == cell_offset(area.y as int, row_heights@, ri as int),
                cell_x == cell_offset(area.x as int, col_widths@, ci as int),
                forall|k: int| 0 <= k < out@.len() ==> out@[k] == spec_cells(area, col_widths@, row_heights@)[k],
            decreases ncols - ci,
        {
            let cw = col_widths[ci];
            proof {
                let k = (ri * ncols + ci) as int;
                vstd::arithmetic::div_mod::lemma_fundamental_div_mod_converse_mod(k, ncols as int, ri as int, ci as int);
                vstd::arithmetic::div_mod::lemma_fundamental_div_mod_converse_div(k, ncols as int, ri as int, ci as int);
                assert(k < col_widths.len() * row_heights.len()) by (nonlinear_arith)
                    requires k == ri * ncols + ci, ci < ncols, ri * ncols + ncols <= ncols * row_heights.len(), ncols == col_widths.len();
            }
            out.push(LayoutRect { x: cell_x, y: cell_y, width: cw, height: rh });
            cell_x = crate::geometry::add_i32_sat(cell_x, cw as i32);
            ci = ci + 1;
        }
        cell_y = crate::geometry::add_i32_sat(cell_y, rh as i32);
        ri = ri + 1;
        proof {
            assert(out@.len() == ri * ncols) by (nonlinear_arith)
                requires out@.len() == (ri - 1) * ncols + ncols;
        }
    }
    proof {
        assert(out@.len() == col_widths.len() * row_heights.len()) by (nonlinear_arith)
            requires out@.len() == ri * ncols, ri == row_heights.len(), ncols == col_widths.len();
        assert(out@ =~= spec_cells(area, col_widths@, row_heights@));
    }
    out
}

} // verus!

verus! {

/// The heights `children` ask for at `width`.
pub open spec fn heights_of<C: Component>(children: Seq<C>, width: u16) -> Seq<u16> {
    Seq::new(children.len(), |i: int| children[i].spec_desired_height(width))
}

impl<C> GridComponent<C> {
    pub closed spec fn children_view(self) -> Seq<C> {
        self.children@
    }

    pub closed spec fn cols_view(self) -> Seq<GridConstraint> {
        self.cols@
    }

    pub closed spec fn rows_view(self) -> Seq<GridConstraint> {
        self.rows@
    }

    /// A grid of `children` with no explicit columns or rows.
    pub fn new(children: Vec<C>) -> (r: Self)
        ensures
            r.children_view() == children@,
            r.cols_view().len() == 0,
            r.rows_view().len() == 0,
    {
        Self { children, cols: Vec::new(), rows: Vec::new() }
    }

    pub fn with_cols(self, cols: Vec<GridConstraint>) -> (r: Self)
        ensures
            r.children_view() == self.children_view(),
            r.cols_view() == cols@,
            r.rows_view() == self.rows_view(),
    {
        Self { children: self.children, cols, rows: self.rows }
    }

    pub fn with_rows(self, rows: Vec<GridConstraint>) -> (r: Self)
        ensures
            r.children_view() == self.children_view(),
            r.cols_view() == self.cols_view(),
            r.rows_view() == rows@,
    {
        Self { children: self.children, cols: self.cols, rows }
    }

    /// The columns laid out: the configured ones, or one `Fraction` column.
    pub fn effective_cols(&self) -> (r: Vec<GridConstraint>)
        ensures
            r@ == spec_effective_cols(self.cols_view()),
    {
        if self.cols.len() == 0 {
            vec![GridConstraint::Fraction(1)]
        } else {
            let mut out: Vec<GridConstraint> = Vec::new();
            let mut i: usize = 0;
            while i < self.cols.len()
                invariant
                    i <= self.cols@.len(),
                    out@ == self.cols@.take(i as int),
                decreases self.cols@.len() - i,
            {
                out.push(self.cols[i]);
                i = i + 1;
                proof {
                    assert(out@ =~= self.cols@.take(i as int));
                }
            }
            proof {
                assert(self.cols@.take(i as int) =~= self.cols@);
            }
            out
        }
    }

    /// The rows laid out: the configured ones, or one `Fraction` row per
    /// child when none are configured.
    pub fn effective_rows(&self) -> (r: Vec<GridConstraint>)
        ensures
            r@ == spec_effective_rows(self.rows_view(), self.cols_view(), self.children_view().len()),
    {
        if self.rows.len() > 0 {
            let mut out: Vec<GridConstraint> = Vec::new();
            let mut i: usize = 0;
            while i < self.rows.len()
                invariant
                    i <= self.rows@.len(),
                    out@ == self.rows@.take(i as int),
                decreases self.rows@.len() - i,
            {
                out.push(self.rows[i]);
                i = i + 1;
                proof {
                    assert(out@ =~= self.rows@.take(i as int));
                }
            }
            proof {
                assert(self.rows@.take(i as int) =~= self.rows@);
            }
            return out;
        }
        let nrows = self.children.len();
        let mut out: Vec<GridConstraint> = Vec::new();
        let mut i: usize = 0;
        while i < nrows
            invariant
                i <= nrows,
                out@ == Seq::new(i as nat, |k: int| GridConstraint::Fraction(1)),
            decreases nrows - i,
        {
            out.push(GridConstraint::Fraction(1));
            i = i + 1;
            proof {
                assert(out@ =~= Seq::new(i as nat, |k: int| GridConstraint::Fraction(1)));
            }
        }
        out
    }

    /// Whether the grid stacks its children in one column at `width`.
    pub fn reflows(&self, width: u16) -> (r: bool)
        ensures
            r == spec_grid_reflows(spec_effective_cols(self.cols_view()), width),
    {
        let cols = self.effective_cols();
        grid_reflows(cols.as_slice(), width)
    }

    /// Column widths at `width`: the whole width when reflowed, else the
    /// resolved column constraints.
    pub fn col_widths(&self, width: u16) -> (r: Vec<u16>)
        ensures
            spec_grid_reflows(spec_effective_cols(self.cols_view()), width) ==> r@ == seq![width],
            !spec_grid_reflows(spec_effective_cols(self.cols_view()), width) ==> {
                &&& r@.len() == spec_effective_cols(self.cols_view()).len()
                &&& forall|i: int|
                    0 <= i < r@.len() ==> r@[i] == resolved_size(width, spec_effective_cols(self.cols_view()), i)
            },
    {
        if self.reflows(width) {
            vec![width]
        } else {
            let cols = self.effective_cols();
            resolve_sizes(width, cols.as_slice())
        }
    }
}

impl<C: Component> GridComponent<C> {
    /// The heights the children ask for at `width`.
    pub fn child_heights(&self, width: u16) -> (r: Vec<u16>)
        ensures
            r@ == heights_of(self.children_view(), width),
    {
        let mut out: Vec<u16> = Vec::new();
        let mut i: usize = 0;
        while i < self.children.len()
            invariant
                i <= self.children@.len(),
                out@ == heights_of(self.children@.take(i as int), width),
            decreases self.children@.len() - i,
        {
            let h = self.children[i].desired_height(width);
            out.push(h);
            i = i + 1;
            proof {
                assert(out@ =~= heights_of(self.children@.take(i as int), width));
            }
        }
        proof {
            assert(self.children@.take(i as int) =~= self.children@);
        }
        out
    }

    /// Row heights for a `width`×`height` area: reflowed rows (one per child)
    /// when the grid stacks, else the resolved row constraints.
    pub fn row_heights(&self, width: u16, height: u16) -> (r: Vec<u16>)
        ensures
            spec_grid_reflows(spec_effective_cols(self.cols_view()), width) ==> r@ == spec_reflowed_rows(
                height,
                heights_of(self.children_view(), width),
            ),
            !spec_grid_reflows(spec_effective_cols(self.cols_view()), width) ==> {
                let rows = spec_effective_rows(self.rows_view(), self.cols_view(), self.children_view().len());
                &&& r@.len() == rows.len()
                &&& forall|i: int| 0 <= i < r@.len() ==> r@[i] == resolved_size(height, rows, i)
            },
    {
        if self.reflows(width) {
            let hs = self.child_heights(width);
            reflowed_row_heights(height, &hs)
        } else {
            let rows = self.effective_rows();
            resolve_sizes(height, rows.as_slice())
        }
    }

    /// The column widths of the grid at `width`.
    pub open spec fn spec_col_widths(self, width: u16) -> Seq<u16> {
        let cols = spec_effective_cols(self.cols_view());
        if spec_grid_reflows(cols, width) {
            seq![width]
        } else {
            Seq::new(cols.len(), |i: int| resolved_size(width, cols, i) as u16)
        }
    }

    /// The row heights of the grid in a `width`×`height` area.
    pub open spec fn spec_row_heights(self, width: u16, height: u16) -> Seq<u16> {
        if spec_grid_reflows(spec_effective_cols(self.cols_view()), width) {
            spec_reflowed_rows(height, heights_of(self.children_view(), width))
        } else {
            let rows = spec_effective_rows(self.rows_view(), self.cols_view(), self.children_view().len());
            Seq::new(rows.len(), |i: int| resolved_size(height, rows, i) as u16)
        }
    }

    /// The cells of the grid when it occupies `screen`, in row-major order.
    pub open spec fn spec_grid_cells(self, screen: LayoutRect) -> Seq<LayoutRect> {
        spec_cells(
            screen,
            self.spec_col_widths(screen.width),
            self.spec_row_heights(screen.width, screen.height),
        )
    }

    /// The number of children that have a cell when the grid occupies `screen`.
    pub open spec fn spec_placed(self, screen: LayoutRect) -> int {
        let n = self.spec_grid_cells(screen).len() as int;
        let m = self.children_view().len() as int;
        if n < m { n } else { m }
    }

    /// The index of the child whose cell holds screen cell `(column, row)`
    /// when the grid occupies `screen`, if any: the first placed child whose
    /// cell contains it.
    pub fn child_at(&self, screen: LayoutRect, column: u16, row: u16) -> (r: Option<usize>)
        requires
            spec_effective_cols(self.cols_view()).len() * (self.children_view().len()
                + self.rows_view().len() + 1) <= usize::MAX,
        ensures
            ({
                let cells = self.spec_grid_cells(screen);
                match r {
                    Some(i) => {
                        &&& i < self.spec_placed(screen)
                        &&& spec_rect_contains(cells[i as int], column as int, row as int)
                        &&& forall|k: int| 0 <= k < i ==> !spec_rect_contains(#[trigger] cells[k], column as int, row as int)
                    },
                    None => forall|k: int| 0 <= k < self.spec_placed(screen)
                        ==> !spec_rect_contains(#[trigger] cells[k], column as int, row as int),
                }
            }),
    {
        let cols = self.col_widths(screen.width);
        let rows = self.row_heights(screen.width, screen.height);
        proof {
            let nc = spec_effective_cols(self.cols_view()).len();
            let bound = self.children_view().len() + self.rows_view().len() + 1;
            assert(cols@.len() <= nc);
            assert(rows@.len() <= bound);
            assert(cols@.len() * rows@.len() <= nc * bound) by (nonlinear_arith)
                requires cols@.len() <= nc, rows@.len() <= bound;
            assert(cols@ =~= self.spec_col_widths(screen.width));
            assert(rows@ =~= self.spec_row_heights(screen.width, screen.height));
        }
        let cells = cell_rects(screen, &cols, &rows);
        let ghost want = self.spec_grid_cells(screen);
        let mut i: usize = 0;
        while i < cells.len() && i < self.children.len()
            invariant
                i <= cells@.len(),
                cells@ == want,
                want == self.spec_grid_cells(screen),
                self.children@ == self.children_view(),
                i <= self.children_view().len(),
                forall|k: int| 0 <= k < i ==> !spec_rect_contains(#[trigger] want[k], column as int, row as int),
            decreases cells@.len() - i,
        {
            if crate::geometry::rect_contains(cells[i], column, row) {
                return Some(i);
            }
            i = i + 1;
        }
        None
    }
}

impl<C: Component> Component for GridComponent<C> {
    open spec fn spec_desired_height(&self, width: u16) -> u16 {
        spec_grid_height(
            spec_grid_reflows(spec_effective_cols(self.cols_view()), width),
            spec_effective_rows(self.rows_view(), self.cols_view(), self.children_view().len()),
            heights_of(self.children_view(), width),
        ) as u16
    }

    /// A reflowed grid stacks its children: any stretching child makes it
    /// stretch, else it asks for the sum of their heights. Otherwise it
    /// stretches whenever a row is a `Fraction`, else asks for the sum of the
    /// fixed rows.
    fn desired_height(&self, width: u16) -> (h: u16) {
        if self.reflows(width) {
            let hs = self.child_heights(width);
            let mut i: usize = 0;
            while i < hs.len()
                invariant
                    i <= hs@.len(),
                    hs@ == heights_of(self.children_view(), width),
                    spec_grid_reflows(spec_effective_cols(self.cols_view()), width),
                    forall|k: int| 0 <= k < i ==> hs@[k] != 0,
                decreases hs@.len() - i,
            {
                if hs[i] == 0 {
                    proof {
                        assert(heights_of(self.children_view(), width)[i as int] == 0);
                    }
                    return 0;
                }
                i = i + 1;
            }
            return sum_sat_u16(&hs);
        }
        let rows = self.effective_rows();
        let mut fixed_sum: u16 = 0;
        let mut i: usize = 0;
        while i < rows.len()
            invariant
                i <= rows@.len(),
                rows@ == spec_effective_rows(self.rows_view(), self.cols_view(), self.children_view().len()),
                !spec_grid_reflows(spec_effective_cols(self.cols_view()), width),
                fixed_sum == sat_fixed_rows(rows@, i as int),
                forall|k: int| 0 <= k < i ==> rows@[k] is Fixed,
            decreases rows@.len() - i,
        {
            match rows[i] {
                GridConstraint::Fraction(_) => {
                    proof {
                        assert(rows@[i as int] is Fraction);
                    }
                    return 0;
                },
                GridConstraint::Fixed(h) => fixed_sum = fixed_sum.saturating_add(h),
            }
            i = i + 1;
        }
        fixed_sum
    }

    /// Destroying a grid destroys every child and keeps its tracks.
    open spec fn spec_destroys(&self, after: &Self) -> bool {
        &&& all_destroyed(self.children_view(), after.children_view())
        &&& after.cols_view() == self.cols_view()
        &&& after.rows_view() == self.rows_view()
    }

    /// Destroying a grid destroys every child.
    fn destroy(&mut self) {
        destroy_all(&mut self.children);
    }
}

} // verus!

verus! {

/// The words of `s` (maximal runs of non-white-space characters) completed
/// so far, and the word being read, after reading all of `s`.
pub open spec fn split_state(s: Seq<char>) -> (Seq<Seq<char>>, Seq<char>)
    decreases s.len(),
{
    if s.len() == 0 {
        (Seq::empty(), Seq::empty())
    } else {
        let (words, cur) = split_state(s.drop_last());
        let c = s.last();
        if crate::markdown_viewer::white_space(c) {
            if cur.len() > 0 { (words.push(cur), Seq::empty()) } else { (words, cur) }
        } else {
            (words, cur.push(c))
        }
    }
}

/// The words of `s`, as `str::split_whitespace` gives them.
pub open spec fn words(s: Seq<char>) -> Seq<Seq<char>> {
    let (w, cur) = split_state(s);
    if cur.len() > 0 { w.push(cur) } else { w }
}

/// The value of a run of decimal digits.
pub open spec fn digits_value(d: Seq<char>) -> int
    decreases d.len(),
{
    if d.len() == 0 { 0 } else { digits_value(d.drop_last()) * 10 + (d.last() as int - '0' as int) }
}

/// Whether every character of `d` is a decimal digit.
pub open spec fn all_digits(d: Seq<char>) -> bool {
    forall|i: int| 0 <= i < d.len() ==> '0' <= #[trigger] d[i] <= '9'
}

/// `t` without a leading `+`.
pub open spec fn unsigned_part(t: Seq<char>) -> Seq<char> {
    if t.len() > 0 && t[0] == '+' { t.drop_first() } else { t }
}

/// One or more decimal digits whose value fits in a `u16`, as that value.
pub open spec fn digits_u16(d: Seq<char>) -> Option<u16> {
    if d.len() > 0 && all_digits(d) && digits_value(d) <= u16::MAX {
        Some(digits_value(d) as u16)
    } else {
        None
    }
}

/// `t` as a `u16` the way `u16::from_str` reads it: an optional `+`, then
/// one or more decimal digits whose value fits.
pub open spec fn spec_parse_u16(t: Seq<char>) -> Option<u16> {
    digits_u16(unsigned_part(t))
}

/// A grid constraint written as a word: `Npx` or `N` is fixed, `Nfr` a
/// fraction; anything else is refused with a message naming the word.
pub open spec fn spec_constraint_word(t: Seq<char>) -> Result<GridConstraint, Seq<char>> {
    if t.len() >= 2 && t.subrange(t.len() - 2, t.len() as int) == "px"@ {
        match spec_parse_u16(t.subrange(0, t.len() - 2)) {
            Some(n) => Ok(GridConstraint::Fixed(n)),
            None => Err("invalid fixed size '"@ + t + "' (expected like '200px')"@),
        }
    } else if t.len() >= 2 && t.subrange(t.len() - 2, t.len() as int) == "fr"@ {
        match spec_parse_u16(t.subrange(0, t.len() - 2)) {
            Some(n) => Ok(GridConstraint::Fraction(n)),
            None => Err("invalid fraction '"@ + t + "' (expected like '1fr')"@),
        }
    } else {
        match spec_parse_u16(t) {
            Some(n) => Ok(GridConstraint::Fixed(n)),
            None => Err("invalid grid constraint '"@ + t + "' (expected 'Npx', 'N' or 'Nfr')"@),
        }
    }
}

/// The constraints of the first `n` words, or the message of the first word
/// refused.
pub open spec fn spec_parse_words(ws: Seq<Seq<char>>, n: int) -> Result<Seq<GridConstraint>, Seq<char>>
    decreases n,
{
    if n <= 0 {
        Ok(Seq::empty())
    } else {
        match spec_parse_words(ws, n - 1) {
            Err(e) => Err(e),
            Ok(cs) => match spec_constraint_word(ws[n - 1]) {
                Ok(c) => Ok(cs.push(c)),
                Err(e) => Err(e),
            },
        }
    }
}

/// The constraints a grid template such as `"200px 1fr"` writes, word by
/// word, or the message of the first word refused.
pub open spec fn spec_parse_grid_constraints(s: Seq<char>) -> Result<Seq<GridConstraint>, Seq<char>> {
    spec_parse_words(words(s), words(s).len() as int)
}

fn split_words(s: &str) -> (r: Vec<Vec<char>>)
    ensures
        r@.len() == words(s@).len(),
        forall|i: int| 0 <= i < r@.len() ==> #[trigger] r@[i]@ == words(s@)[i],
{
    let chars = crate::text::chars_of(s);
    let mut out: Vec<Vec<char>> = Vec::new();
    let mut cur: Vec<char> = Vec::new();
    let mut i: usize = 0;
    while i < chars.len()
        invariant
            chars@ == s@,
            i <= chars@.len(),
            out@.len() == split_state(chars@.take(i as int)).0.len(),
            forall|k: int| 0 <= k < out@.len() ==> #[trigger] out@[k]@ == split_state(chars@.take(i as int)).0[k],
            cur@ == split_state(chars@.take(i as int)).1,
        decreases chars@.len() - i,
    {
        proof {
            assert(chars@.take(i + 1).drop_last() =~= chars@.take(i as int));
        }
        let c = chars[i];
        if crate::markdown_viewer::is_whitespace_char(c) {
            if cur.len() > 0 {
                out.push(cur);
                cur = Vec::new();
            }
        } else {
            cur.push(c);
        }
        i = i + 1;
    }
    proof {
        assert(chars@.take(i as int) =~= s@);
    }
    if cur.len() > 0 {
        out.push(cur);
    }
    out
}

fn parse_u16(t: &[char]) -> (r: Option<u16>)
    ensures
        r == spec_parse_u16(t@),
{
    let start: usize = if t.len() > 0 && t[0] == '+' { 1 } else { 0 };
    let ghost d = unsigned_part(t@);
    if start >= t.len() {
        return None;
    }
    let mut value: u32 = 0;
    let mut i: usize = start;
    while i < t.len()
        invariant
            start <= i <= t@.len(),
            d == unsigned_part(t@),
            d == t@.subrange(start as int, t@.len() as int),
            forall|k: int| start <= k < i ==> '0' <= #[trigger] t@[k] <= '9',
            value == digits_value(t@.subrange(start as int, i as int)),
            value <= u16::MAX,
        decreases t@.len() - i,
    {
        let c = t[i];
        if c < '0' || c > '9' {
            proof {
                assert(d[i - start] == c);
                assert(!('0' <= d[i - start] <= '9'));
                assert(!all_digits(d));
            }
            return None;
        }
        proof {
            assert(t@.subrange(start as int, i + 1).drop_last() =~= t@.subrange(start as int, i as int));
        }
        let digit: u32 = (c as u32) - ('0' as u32);
        let next: u32 = value * 10 + digit;
        if next > 65535 {
            proof {
                assert(d.take(i + 1 - start) =~= t@.subrange(start as int, i + 1));
                assert(t@.subrange(start as int, i + 1).last() == c);
                assert(digits_value(t@.subrange(start as int, i + 1)) == next);
                if all_digits(d) {
                    lemma_digits_grow(d, i + 1 - start);
                }
            }
            return None;
        }
        value = next;
        i = i + 1;
    }
    proof {
        assert(t@.subrange(start as int, i as int) =~= d);
    }
    Some(value as u16)
}

fn push_chars(out: &mut String, t: &Vec<char>)
    ensures
        final(out)@ == old(out)@ + t@,
{
    let mut k: usize = 0;
    while k < t.len()
        invariant
            k <= t@.len(),
            out@ == old(out)@ + t@.take(k as int),
        decreases t@.len() - k,
    {
        out.push(t[k]);
        k = k + 1;
        proof {
            assert(t@.take(k as int) =~= t@.take(k - 1).push(t@[k - 1]));
        }
    }
    proof {
        assert(t@.take(k as int) =~= t@);
    }
}

fn refusal(head: &str, t: &Vec<char>, tail: &str) -> (r: String)
    ensures
        r@ == head@ + t@ + tail@,
{
    let mut m = String::new();
    crate::text::push_str(&mut m, head);
    push_chars(&mut m, t);
    crate::text::push_str(&mut m, tail);
    m
}

fn constraint_word(t: &Vec<char>) -> (r: Result<GridConstraint, String>)
    ensures
        match r {
            Ok(c) => spec_constraint_word(t@) == Ok::<GridConstraint, Seq<char>>(c),
            Err(e) => spec_constraint_word(t@) == Err::<GridConstraint, Seq<char>>(e@),
        },
{
    proof {
        reveal_strlit("px");
        reveal_strlit("fr");
    }
    let n = t.len();
    let px = n >= 2 && t[n - 2] == 'p' && t[n - 1] == 'x';
    let fr = n >= 2 && t[n - 2] == 'f' && t[n - 1] == 'r';
    proof {
        assert("px"@ =~= seq!['p', 'x']);
        assert("fr"@ =~= seq!['f', 'r']);
        if n >= 2 {
            let sub = t@.subrange(n - 2, n as int);
            assert(sub.len() == 2 && sub[0] == t@[n - 2] && sub[1] == t@[n - 1]);
            if px {
                assert(sub =~= seq!['p', 'x']);
            }
            if fr {
                assert(sub =~= seq!['f', 'r']);
            }
            if sub == seq!['p', 'x'] {
                assert(sub[0] == 'p' && sub[1] == 'x');
            }
            if sub == seq!['f', 'r'] {
                assert(sub[0] == 'f' && sub[1] == 'r');
            }
        }
    }
    if px || fr {
        let body = slice_prefix(t, n - 2);
        match parse_u16(body.as_slice()) {
            Some(v) => if px { Ok(GridConstraint::Fixed(v)) } else { Ok(GridConstraint::Fraction(v)) },
            None => if px {
                Err(refusal("invalid fixed size '", t, "' (expected like '200px')"))
            } else {
                Err(refusal("invalid fraction '", t, "' (expected like '1fr')"))
            },
        }
    } else {
        match parse_u16(t.as_slice()) {
            Some(v) => Ok(GridConstraint::Fixed(v)),
            None => Err(refusal("invalid grid constraint '", t, "' (expected 'Npx', 'N' or 'Nfr')")),
        }
    }
}

fn slice_prefix(t: &Vec<char>, n: usize) -> (r: Vec<char>)
    requires
        n <= t@.len(),
    ensures
        r@ == t@.subrange(0, n as int),
{
    let mut out: Vec<char> = Vec::new();
    let mut k: usize = 0;
    while k < n
        invariant
            k <= n <= t@.len(),
            out@ == t@.subrange(0, k as int),
        decreases n - k,
    {
        out.push(t[k]);
        k = k + 1;
        proof {
            assert(out@ =~= t@.subrange(0, k as int));
        }
    }
    out
}

/// The constraints a grid template such as `"200px 1fr"` writes (see
/// [`spec_parse_grid_constraints`]): `Npx` and `N` fixed, `Nfr` a fraction,
/// or the message of the first word refused.
pub fn parse_grid_constraints(s: &str) -> (r: Result<Vec<GridConstraint>, String>)
    ensures
        match r {
            Ok(v) => spec_parse_grid_constraints(s@) == Ok::<Seq<GridConstraint>, Seq<char>>(v@),
            Err(e) => spec_parse_grid_constraints(s@) == Err::<Seq<GridConstraint>, Seq<char>>(e@),
        },
{
    let ws = split_words(s);
    let ghost w = words(s@);
    let mut out: Vec<GridConstraint> = Vec::new();
    let mut i: usize = 0;
    while i < ws.len()
        invariant
            ws@.len() == w.len(),
            w == words(s@),
            forall|k: int| 0 <= k < ws@.len() ==> #[trigger] ws@[k]@ == w[k],
            i <= ws@.len(),
            spec_parse_words(w, i as int) == Ok::<Seq<GridConstraint>, Seq<char>>(out@),
        decreases ws@.len() - i,
    {
        match constraint_word(&ws[i]) {
            Ok(c) => {
                out.push(c);
            },
            Err(e) => {
                proof {
                    assert(ws@[i as int]@ == w[i as int]);
                    lemma_parse_error_stays(w, i as int + 1, w.len() as int);
                }
                return Err(e);
            },
        }
        proof {
            assert(ws@[i as int]@ == w[i as int]);
        }
        i = i + 1;
    }
    Ok(out)
}

proof fn lemma_parse_error_stays(ws: Seq<Seq<char>>, k: int, m: int)
    requires
        1 <= k <= m,
        spec_parse_words(ws, k) is Err,
    ensures
        spec_parse_words(ws, m) == spec_parse_words(ws, k),
    decreases m - k,
{
    if m > k {
        lemma_parse_error_stays(ws, k, m - 1);
    }
}

proof fn lemma_digits_grow(d: Seq<char>, k: int)
    requires
        0 <= k <= d.len(),
        forall|i: int| 0 <= i < d.len() ==> '0' <= #[trigger] d[i] <= '9',
    ensures
        digits_value(d.take(k)) <= digits_value(d),
    decreases d.len() - k,
{
    if k < d.len() {
        lemma_digits_grow(d, k + 1);
        assert(d.take(k + 1).drop_last() =~= d.take(k));
        lemma_digits_nonneg(d.take(k));
        assert(digits_value(d.take(k + 1)) >= digits_value(d.take(k))) by (nonlinear_arith)
            requires
                digits_value(d.take(k + 1)) == digits_value(d.take(k)) * 10 + (d[k] as int - '0' as int),
                d[k] as int - '0' as int >= 0,
                digits_value(d.take(k)) >= 0,
        ;
    } else {
        assert(d.take(k) =~= d);
    }
}

proof fn lemma_digits_nonneg(d: Seq<char>)
    requires
        forall|i: int| 0 <= i < d.len() ==> '0' <= #[trigger] d[i] <= '9',
    ensures
        digits_value(d) >= 0,
    decreases d.len(),
{
    if d.len() > 0 {
        lemma_digits_nonneg(d.drop_last());
    }
}

} // verus!

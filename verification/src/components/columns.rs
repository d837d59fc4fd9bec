//! Responsive column selection for keyed tables.
//!
//! A column may hide below a table width, and optional columns are dropped
//! from the end while the declared minimum widths of the columns still shown
//! (plus the gaps between them) do not fit.

use vstd::prelude::*;

use crate::geometry::sat_add_u16;

verus! {

/// How a column is sized, as far as its minimum width goes.
#[derive(Clone, Copy, Debug, PartialEq, Eq, Structural)]
pub enum ColumnWidth {
    /// Exactly this many cells.
    Fixed(u16),
    /// This percentage of the width being fitted.
    Percent(u16),
    /// Sized from its content; at least its header, this many cells wide.
    Auto(u16),
    /// A share of the leftover width by this weight; no minimum.
    Flex(u16),
}

/// What responsive fitting knows of one column.
#[derive(Clone, Copy, Debug, PartialEq, Eq, Structural)]
pub struct ColumnFit {
    /// How the column is sized.
    pub width: ColumnWidth,
    /// Hide the column while the table is narrower than this.
    pub hide_below: Option<u16>,
    /// Whether the column may be dropped when the minimums do not fit.
    pub optional: bool,
}

/// `a * b`, held at `u16::MAX`.
pub open spec fn mul16(a: u16, b: u16) -> u16 {
    if a * b > u16::MAX { u16::MAX } else { (a * b) as u16 }
}

/// The smallest width a column accepts when fitting into `fit` cells.
pub open spec fn column_minimum(c: ColumnFit, fit: u16) -> u16 {
    match c.width {
        ColumnWidth::Fixed(w) => w,
        ColumnWidth::Percent(p) => (mul16(fit, p) / 100) as u16,
        ColumnWidth::Auto(header) => header,
        ColumnWidth::Flex(_) => 0,
    }
}

/// The saturating sum of the minimums of the columns at `shown`.
pub open spec fn minimums_sum(cols: Seq<ColumnFit>, shown: Seq<usize>, fit: u16) -> u16
    decreases shown.len(),
{
    if shown.len() == 0 {
        0
    } else {
        sat_add_u16(
            minimums_sum(cols, shown.drop_last(), fit),
            column_minimum(cols[shown.last() as int], fit),
        )
    }
}

/// The width the columns at `shown` need: their minimums plus one gap
/// between each neighbouring pair, all held at `u16::MAX`.
pub open spec fn required_width(cols: Seq<ColumnFit>, shown: Seq<usize>, gap: u16, fit: u16) -> u16 {
    let gaps = if shown.len() == 0 { 0 } else { (shown.len() - 1) as usize };
    sat_add_u16(minimums_sum(cols, shown, fit), mul16(gap, gaps as u16))
}

/// The position in `shown` of the last optional column, if any.
pub open spec fn last_optional(cols: Seq<ColumnFit>, shown: Seq<usize>) -> Option<int>
    decreases shown.len(),
{
    if shown.len() == 0 {
        None
    } else if cols[shown.last() as int].optional {
        Some(shown.len() - 1)
    } else {
        last_optional(cols, shown.drop_last())
    }
}

/// The columns left after dropping optional columns from the end while the
/// minimums do not fit.
pub open spec fn drop_to_fit(cols: Seq<ColumnFit>, shown: Seq<usize>, gap: u16, fit: u16) -> Seq<
    usize,
>
    decreases shown.len(),
{
    if required_width(cols, shown, gap, fit) <= fit {
        shown
    } else {
        match last_optional(cols, shown) {
            Some(p) => if 0 <= p < shown.len() {
                drop_to_fit(cols, shown.remove(p), gap, fit)
            } else {
                shown
            },
            None => shown,
        }
    }
}

/// Whether column `c` shows at `table_width`.
pub open spec fn shows_at(c: ColumnFit, table_width: u16) -> bool {
    match c.hide_below {
        Some(min) => table_width >= min,
        None => true,
    }
}

/// The indices, in order, of the first `n` columns that show at `table_width`.
pub open spec fn showing(cols: Seq<ColumnFit>, table_width: u16, n: nat) -> Seq<usize>
    decreases n,
{
    if n == 0 {
        Seq::empty()
    } else {
        let before = showing(cols, table_width, (n - 1) as nat);
        if shows_at(cols[n - 1], table_width) {
            before.push((n - 1) as usize)
        } else {
            before
        }
    }
}

/// The columns a table `table_width` wide shows when fitting `fit_width`
/// cells of content.
pub open spec fn eligible_spec(cols: Seq<ColumnFit>, gap: u16, table_width: u16, fit_width: u16) -> Seq<
    usize,
> {
    drop_to_fit(cols, showing(cols, table_width, cols.len()), gap, fit_width)
}

/// `a * b`, held at `u16::MAX`.
fn saturating_mul16(a: u16, b: u16) -> (r: u16)
    ensures
        r == mul16(a, b),
{
    proof {
        assert((a as u32) * (b as u32) <= 65535 * 65535) by (nonlinear_arith)
            requires
                a <= 65535,
                b <= 65535,
        ;
    }
    let wide = (a as u32) * (b as u32);
    if wide > 65535 {
        65535
    } else {
        wide as u16
    }
}

fn minimum_of(c: ColumnFit, fit: u16) -> (r: u16)
    ensures
        r == column_minimum(c, fit),
{
    match c.width {
        ColumnWidth::Fixed(w) => w,
        ColumnWidth::Percent(p) => saturating_mul16(fit, p) / 100,
        ColumnWidth::Auto(header) => header,
        ColumnWidth::Flex(_) => 0,
    }
}

fn needed_width(columns: &[ColumnFit], shown: &Vec<usize>, gap: u16, fit: u16) -> (r: u16)
    requires
        forall|i: int| 0 <= i < shown@.len() ==> shown@[i] < columns@.len(),
    ensures
        r == required_width(columns@, shown@, gap, fit),
{
    let mut sum: u16 = 0;
    let mut i: usize = 0;
    while i < shown.len()
        invariant
            i <= shown@.len(),
            forall|j: int| 0 <= j < shown@.len() ==> shown@[j] < columns@.len(),
            sum == minimums_sum(columns@, shown@.take(i as int), fit),
        decreases shown@.len() - i,
    {
        proof {
            assert(shown@.take(i as int + 1).drop_last() == shown@.take(i as int));
        }
        sum = sum.saturating_add(minimum_of(columns[shown[i]], fit));
        i = i + 1;
    }
    proof {
        assert(shown@.take(shown@.len() as int) == shown@);
    }
    let gaps = if shown.len() == 0 { 0 } else { shown.len() - 1 };
    sum.saturating_add(saturating_mul16(gap, gaps as u16))
}

fn last_optional_position(columns: &[ColumnFit], shown: &Vec<usize>) -> (r: Option<usize>)
    requires
        forall|i: int| 0 <= i < shown@.len() ==> shown@[i] < columns@.len(),
    ensures
        match last_optional(columns@, shown@) {
            Some(p) => r is Some && r.unwrap() as int == p && 0 <= p < shown@.len(),
            None => r is None,
        },
{
    let mut i: usize = shown.len();
    proof {
        assert(shown@.take(shown@.len() as int) == shown@);
    }
    while i > 0
        invariant
            i <= shown@.len(),
            forall|j: int| 0 <= j < shown@.len() ==> shown@[j] < columns@.len(),
            last_optional(columns@, shown@) == last_optional(columns@, shown@.take(i as int)),
        decreases i,
    {
        let column = columns[shown[i - 1]];
        proof {
            assert(shown@.take(i as int).drop_last() == shown@.take(i as int - 1));
            assert(shown@.take(i as int).last() == shown@[i - 1]);
        }
        if column.optional {
            return Some(i - 1);
        }
        i = i - 1;
    }
    None
}

/// The indices of the columns a table `table_width` wide shows when its
/// content must fit `fit_width` cells: columns hidden below the width are
/// left out, then optional columns are dropped from the end while the
/// declared minimums (plus `gap` between neighbours) do not fit.
pub fn eligible_columns(columns: &[ColumnFit], gap: u16, table_width: u16, fit_width: u16) -> (r:
    Vec<usize>)
    ensures
        r@ == eligible_spec(columns@, gap, table_width, fit_width),
{
    let mut indices: Vec<usize> = Vec::new();
    let mut i: usize = 0;
    while i < columns.len()
        invariant
            i <= columns@.len(),
            indices@ == showing(columns@, table_width, i as nat),
            forall|j: int| 0 <= j < indices@.len() ==> indices@[j] < i,
        decreases columns@.len() - i,
    {
        let column = columns[i];
        let shows = match column.hide_below {
            Some(min) => table_width >= min,
            None => true,
        };
        if shows {
            indices.push(i);
        }
        i = i + 1;
    }
    let ghost all = indices@;
    loop
        invariant
            forall|j: int| 0 <= j < indices@.len() ==> indices@[j] < columns@.len(),
            drop_to_fit(columns@, indices@, gap, fit_width) == drop_to_fit(
                columns@,
                all,
                gap,
                fit_width,
            ),
        ensures
            indices@ == drop_to_fit(columns@, all, gap, fit_width),
        decreases indices@.len(),
    {
        let minimum = needed_width(columns, &indices, gap, fit_width);
        if minimum <= fit_width {
            break;
        }
        match last_optional_position(columns, &indices) {
            Some(position) => {
                let ghost before = indices@;
                proof {
                    assert(required_width(columns@, before, gap, fit_width) > fit_width);
                    assert(last_optional(columns@, before) == Some(position as int));
                }
                indices.remove(position);
                proof {
                    assert(drop_to_fit(columns@, before, gap, fit_width) == drop_to_fit(
                        columns@,
                        before.remove(position as int),
                        gap,
                        fit_width,
                    ));
                    assert forall|j: int| 0 <= j < indices@.len() implies indices@[j]
                        < columns@.len() by {
                        if j < position {
                            assert(indices@[j] == before[j]);
                        } else {
                            assert(indices@[j] == before[j + 1]);
                        }
                    }
                }
            },
            None => {
                break;
            },
        }
    }
    indices
}

/// The position `last_optional` reports holds an optional column, and no
/// later position does.
proof fn last_optional_is_optional(cols: Seq<ColumnFit>, shown: Seq<usize>)
    ensures
        match last_optional(cols, shown) {
            Some(p) => 0 <= p < shown.len() && cols[shown[p] as int].optional && forall|q: int|
                p < q < shown.len() ==> !cols[shown[q] as int].optional,
            None => forall|q: int| 0 <= q < shown.len() ==> !cols[shown[q] as int].optional,
        },
    decreases shown.len(),
{
    if shown.len() > 0 && !cols[shown.last() as int].optional {
        let init = shown.drop_last();
        last_optional_is_optional(cols, init);
        assert forall|q: int| 0 <= q < init.len() implies init[q] == shown[q] by {}
        assert(shown[shown.len() - 1] == shown.last());
    }
}

/// Fitting drops only optional columns, keeps the order of the rest, and
/// stops once the kept columns fit or no optional column is left: a required
/// column that shows is never dropped.
pub proof fn fitting_drops_only_optional_columns(
    cols: Seq<ColumnFit>,
    shown: Seq<usize>,
    gap: u16,
    fit: u16,
)
    ensures
        ({
            let kept = drop_to_fit(cols, shown, gap, fit);
            &&& forall|i: int|
                0 <= i < shown.len() && !cols[shown[i] as int].optional ==> kept.contains(
                    shown[i],
                )
            &&& forall|k: int| 0 <= k < kept.len() ==> shown.contains(kept[k])
            &&& required_width(cols, kept, gap, fit) <= fit || last_optional(cols, kept) is None
        }),
    decreases shown.len(),
{
    last_optional_is_optional(cols, shown);
    if required_width(cols, shown, gap, fit) > fit {
        if let Some(p) = last_optional(cols, shown) {
            let rest = shown.remove(p);
            fitting_drops_only_optional_columns(cols, rest, gap, fit);
            let kept = drop_to_fit(cols, rest, gap, fit);
            assert forall|i: int|
                0 <= i < shown.len() && !cols[shown[i] as int].optional implies kept.contains(
                shown[i],
            ) by {
                if i < p {
                    assert(rest[i] == shown[i]);
                } else {
                    assert(i != p);
                    assert(rest[i - 1] == shown[i]);
                }
            }
            assert forall|k: int| 0 <= k < kept.len() implies shown.contains(kept[k]) by {
                assert(rest.contains(kept[k]));
                let j = choose|j: int| 0 <= j < rest.len() && rest[j] == kept[k];
                if j < p {
                    assert(shown[j] == kept[k]);
                } else {
                    assert(shown[j + 1] == kept[k]);
                }
            }
        }
    }
}

/// The cells a column cannot do with less than whatever the table's width:
/// a fixed column's width, an auto column's header width, and nothing for
/// percentage and flexible columns.
pub open spec fn declared_floor(c: ColumnFit) -> int {
    match c.width {
        ColumnWidth::Fixed(w) => w as int,
        ColumnWidth::Auto(header) => header as int,
        _ => 0,
    }
}

/// The declared floors of the columns at `shown`, added up without limit.
pub open spec fn floors_total(cols: Seq<ColumnFit>, shown: Seq<usize>) -> int
    decreases shown.len(),
{
    if shown.len() == 0 {
        0
    } else {
        floors_total(cols, shown.drop_last()) + declared_floor(cols[shown.last() as int])
    }
}

proof fn minimums_cover_the_floors(cols: Seq<ColumnFit>, shown: Seq<usize>, fit: u16)
    ensures
        minimums_sum(cols, shown, fit) >= (if floors_total(cols, shown) <= u16::MAX {
            floors_total(cols, shown)
        } else {
            u16::MAX as int
        }),
        floors_total(cols, shown) >= 0,
    decreases shown.len(),
{
    if shown.len() > 0 {
        minimums_cover_the_floors(cols, shown.drop_last(), fit);
    }
}

/// While a table keeps an optional column, the declared floors of the
/// columns it keeps (fixed widths and auto header widths) fit the width:
/// an optional column is dropped whenever fixed widths and headers alone
/// would overflow it.
pub proof fn kept_optional_columns_leave_room_for_every_header(
    cols: Seq<ColumnFit>,
    gap: u16,
    table_width: u16,
    fit: u16,
)
    ensures
        ({
            let kept = eligible_spec(cols, gap, table_width, fit);
            (exists|k: int| 0 <= k < kept.len() && #[trigger] cols[kept[k] as int].optional)
                ==> floors_total(cols, kept) <= fit || fit == u16::MAX
        }),
{
    let shown = showing(cols, table_width, cols.len());
    let kept = drop_to_fit(cols, shown, gap, fit);
    fitting_drops_only_optional_columns(cols, shown, gap, fit);
    last_optional_is_optional(cols, kept);
    minimums_cover_the_floors(cols, kept, fit);
}

} // verus!

//! The visible slice of a long collection.

use vstd::prelude::*;

use std::ops::Range;

verus! {

/// The first start that still shows `len` rows of `total`.
pub open spec fn max_start(total: usize, len: usize) -> usize {
    if len >= total { 0 } else { (total - len) as usize }
}

/// `a - b`, held at zero.
pub open spec fn sat_sub(a: usize, b: usize) -> usize {
    if b >= a { 0 } else { (a - b) as usize }
}

/// The smaller of two sizes.
pub open spec fn min_usize(a: usize, b: usize) -> usize {
    if a <= b { a } else { b }
}

/// A window of `len` consecutive rows starting at `start` in a collection of
/// `total` rows. The window always lies inside the collection.
#[derive(Clone, Copy, Debug, PartialEq, Eq, Structural)]
pub struct VirtualWindow {
    total: usize,
    start: usize,
    len: usize,
}

/// The mathematical window: total rows, first visible row, visible row count.
pub struct WindowView {
    pub total: usize,
    pub start: usize,
    pub len: usize,
}

impl View for VirtualWindow {
    type V = WindowView;

    closed spec fn view(&self) -> WindowView {
        WindowView { total: self.total, start: self.start, len: self.len }
    }
}

impl VirtualWindow {
    /// The window lies inside the collection.
    #[verifier::type_invariant]
    spec fn inside(self) -> bool {
        self.len <= self.total && self.start + self.len <= self.total
    }

    /// The window lies inside the collection.
    pub open spec fn fits(self) -> bool {
        self@.start + self@.len <= self@.total
    }

    /// The first start that still shows `len` rows of `total`.
    pub fn max_start_for(total: usize, len: usize) -> (r: usize)
        ensures
            r == max_start(total, len),
    {
        if len >= total {
            0
        } else {
            total - len
        }
    }

    /// A window of up to `len` rows of `total`, starting at `start` but never
    /// past the last full window.
    pub fn new(total: usize, len: usize, start: usize) -> (w: VirtualWindow)
        ensures
            w.fits(),
            w@.total == total,
            w@.len == min_usize(len, total),
            w@.start == min_usize(start, max_start(total, min_usize(len, total))),
    {
        let len = if len <= total { len } else { total };
        let last = Self::max_start_for(total, len);
        let start = if start <= last { start } else { last };
        VirtualWindow { total, start, len }
    }

    /// A window of up to `visible` rows of `total` centered on `selected`
    /// (on the first row when nothing is selected), clamped to the ends.
    pub fn around(total: usize, visible: usize, selected: Option<usize>) -> (w: VirtualWindow)
        ensures
            w.fits(),
            w@.total == total,
            w@.len == min_usize(visible, total),
            w@.start == centered_start(
                total,
                min_usize(visible, total),
                match selected {
                    Some(s) => s,
                    None => 0,
                },
            ),
    {
        let len = if visible <= total { visible } else { total };
        let anchor = match selected {
            Some(s) => s,
            None => 0,
        };
        Self::new(total, len, anchor.saturating_sub(len / 2))
    }

    /// The collection length.
    pub fn total(&self) -> (r: usize)
        ensures
            r == self@.total,
    {
        self.total
    }

    /// The first visible row.
    pub fn start(&self) -> (r: usize)
        ensures
            r == self@.start,
    {
        self.start
    }

    /// The number of visible rows.
    pub fn len(&self) -> (r: usize)
        ensures
            r == self@.len,
    {
        self.len
    }

    /// Whether the window shows no row.
    pub fn is_empty(&self) -> (r: bool)
        ensures
            r == (self@.len == 0),
    {
        self.len == 0
    }

    /// One past the last visible row.
    pub fn end(&self) -> (r: usize)
        ensures
            r == self@.start + self@.len,
    {
        proof {
            use_type_invariant(self);
        }
        self.start + self.len
    }

    /// The visible rows as a half-open range.
    pub fn range(&self) -> (r: Range<usize>)
        ensures
            r.start == self@.start,
            r.end == self@.start + self@.len,
    {
        proof {
            use_type_invariant(self);
        }
        self.start..self.start + self.len
    }

    /// The last start that still shows a full window.
    pub fn max_start(&self) -> (r: usize)
        ensures
            r == max_start(self@.total, self@.len),
    {
        Self::max_start_for(self.total, self.len)
    }

    /// Whether row `index` is visible.
    pub fn contains(&self, index: usize) -> (r: bool)
        ensures
            r == (self@.start <= index < self@.start + self@.len),
    {
        proof {
            use_type_invariant(self);
        }
        self.start <= index && index < self.start + self.len
    }

    /// Whether the collection is longer than the window.
    pub fn overflows(&self) -> (r: bool)
        ensures
            r == (self@.len < self@.total),
    {
        self.len < self.total
    }
}

/// The start `around` picks for `selected` in a window of `len` rows.
pub open spec fn centered_start(total: usize, len: usize, selected: usize) -> usize {
    min_usize(sat_sub(selected, len / 2), max_start(total, len))
}

/// A window centered on a row of the collection shows that row whenever it
/// has room for one.
pub proof fn centered_window_shows_its_row(total: usize, visible: usize, selected: usize)
    requires
        selected < total,
        visible > 0,
    ensures
        ({
            let len = min_usize(visible, total);
            let start = centered_start(total, len, selected);
            start <= selected < start + len && start + len <= total
        }),
{
}

} // verus!

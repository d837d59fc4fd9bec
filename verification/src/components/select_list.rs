//! Where a selectable list paints: the window of rows shown, the width the
//! rows take, the screen row of the highlight, and the scrollbar thumb.

use vstd::prelude::*;

use crate::components::window::{centered_start, max_start, min_usize, sat_sub, VirtualWindow};
use crate::geometry::{sat_add_u16, Rect};

verus! {

/// The scrollbar drawn along the right edge of an overflowing list.
#[derive(Clone, Copy, Debug, PartialEq, Eq, Structural)]
pub struct ScrollThumb {
    /// The column of the track.
    pub x: u16,
    /// The first row of the track.
    pub top: u16,
    /// The rows of the track.
    pub track: u16,
    /// The first row of the thumb.
    pub thumb_top: u16,
    /// The rows of the thumb.
    pub thumb: u16,
}

/// Where a list paints within its area.
#[derive(Clone, Copy, Debug, PartialEq, Eq, Structural)]
pub struct ListLayout {
    /// The first item shown.
    pub start: usize,
    /// The number of items in the window.
    pub rows: usize,
    /// The items actually painted: the window, cut at the area's bottom.
    pub drawn: usize,
    /// The columns an item row takes (one less when a scrollbar is drawn).
    pub row_width: u16,
    /// The screen row of the highlighted item, when it is painted.
    pub selected_row: Option<u16>,
    /// The scrollbar, when the list overflows its window and shows one.
    pub scrollbar: Option<ScrollThumb>,
}

/// The rows a window of a list of `len` items holds: the whole list, or a
/// viewport (at least one row) shorter than it.
pub open spec fn window_rows(len: usize, viewport: Option<u16>) -> usize {
    match viewport {
        Some(v) => if len > v {
            if v == 0 { 1 } else { v as usize }
        } else {
            len
        },
        None => len,
    }
}

/// `a - b`, held at zero.
pub open spec fn sub16(a: u16, b: u16) -> u16 {
    if b >= a { 0 } else { (a - b) as u16 }
}

/// The scrollbar of a list of `len` items showing `rows` from `start` in
/// `area`: a track of `rows` cells on the last column, and a thumb sized by
/// the visible share (at least one cell) placed by the scroll position.
pub open spec fn thumb_spec(len: usize, start: usize, rows: usize, area: Rect) -> ScrollThumb {
    let track = rows as u16;
    let span = if len - rows >= 1 { len - rows } else { 1 };
    let share = (rows as int) * (rows as int) / (len as int);
    let thumb = min_usize(if share >= 1 { share as usize } else { 1 }, track as usize) as u16;
    let travel = sub16(track, thumb);
    ScrollThumb {
        x: (area.right_edge() - 1) as u16,
        top: area.y,
        track,
        thumb_top: sat_add_u16(area.y, ((start as int) * (travel as int) / (span as int)) as u16),
        thumb,
    }
}

/// Where a list of `len` items with `selected` highlighted paints in `area`,
/// windowed to `viewport` rows when that is shorter than the list.
pub open spec fn list_layout(
    len: usize,
    selected: Option<usize>,
    viewport: Option<u16>,
    scrollbar: bool,
    area: Rect,
) -> ListLayout {
    let rows = window_rows(len, viewport);
    let start = centered_start(
        len,
        rows,
        match selected {
            Some(s) => s,
            None => 0,
        },
    );
    let overflow = len > rows;
    let row_width = if overflow && scrollbar { sub16(area.width, 1) } else { area.width };
    let drawn = min_usize(rows, (area.bottom_edge() - area.y) as usize);
    ListLayout {
        start,
        rows,
        drawn,
        row_width,
        selected_row: match selected {
            Some(s) => if start <= s < start + drawn {
                Some((area.y + (s - start)) as u16)
            } else {
                None
            },
            None => None,
        },
        scrollbar: if overflow && scrollbar && row_width < area.width {
            Some(thumb_spec(len, start, rows, area))
        } else {
            None
        },
    }
}

fn thumb(len: usize, start: usize, rows: usize, area: Rect) -> (t: ScrollThumb)
    requires
        0 < rows < len,
        rows <= u16::MAX,
        area.width > 0,
    ensures
        t == thumb_spec(len, start, rows, area),
{
    let track = rows as u16;
    let span = if len - rows >= 1 { len - rows } else { 1 };
    proof {
        assert(rows * rows <= 65535 * 65535) by (nonlinear_arith)
            requires
                rows <= 65535,
        ;
        assert((rows as int) * (rows as int) / (len as int) <= rows) by (nonlinear_arith)
            requires
                0 < rows < len,
        ;
    }
    let share = (rows as u64) * (rows as u64) / (len as u64);
    let share = share as usize;
    let sized = if share >= 1 { share } else { 1 };
    let thumb = if sized <= track as usize { sized as u16 } else { track };
    let travel = if thumb >= track { 0 } else { track - thumb };
    proof {
        assert((start as int) * (travel as int) <= (start as int) * 65535) by (nonlinear_arith)
            requires
                start >= 0,
                0 <= travel <= 65535,
        ;
        assert((start as int) * (travel as int) / (span as int) <= (start as int) * (travel as int))
            by (nonlinear_arith)
            requires
                span >= 1,
                start >= 0,
                travel >= 0,
        ;
    }
    let offset = (start as u128) * (travel as u128) / (span as u128);
    ScrollThumb {
        x: area.right() - 1,
        top: area.y,
        track,
        thumb_top: area.y.saturating_add(offset as u16),
        thumb,
    }
}

/// Where a list of `len` items with `selected` highlighted paints in `area`:
/// the window of rows (centered on the highlight when a shorter `viewport`
/// is set), the items painted before the area's bottom, the row width left
/// beside a scrollbar, the screen row of the highlight, and the scrollbar
/// thumb sized by the visible share and placed by the scroll position.
pub fn select_rows(
    len: usize,
    selected: Option<usize>,
    viewport: Option<u16>,
    scrollbar: bool,
    area: Rect,
) -> (r: ListLayout)
    ensures
        r == list_layout(len, selected, viewport, scrollbar, area),
        r.start + r.rows <= len,
        r.drawn <= r.rows,
{
    let rows = match viewport {
        Some(v) => if len > v as usize {
            if v == 0 {
                1
            } else {
                v as usize
            }
        } else {
            len
        },
        None => len,
    };
    let window = VirtualWindow::around(len, rows, selected);
    let start = window.start();
    let overflow = len > rows;
    let row_width = if overflow && scrollbar {
        if area.width >= 1 {
            area.width - 1
        } else {
            0
        }
    } else {
        area.width
    };
    let room = (area.bottom() - area.y) as usize;
    let drawn = if rows <= room { rows } else { room };
    let selected_row = match selected {
        Some(s) => if start <= s && s < start + drawn {
            Some(area.y + (s - start) as u16)
        } else {
            None
        },
        None => None,
    };
    let scrollbar = if overflow && scrollbar && row_width < area.width {
        Some(thumb(len, start, rows, area))
    } else {
        None
    };
    ListLayout { start, rows, drawn, row_width, selected_row, scrollbar }
}

/// The highlighted item, when it is in the list, is always in the window, so
/// a long list keeps its selection on screen.
pub proof fn the_window_keeps_the_selection(
    len: usize,
    selected: usize,
    viewport: Option<u16>,
    scrollbar: bool,
    area: Rect,
)
    requires
        selected < len,
    ensures
        ({
            let l = list_layout(len, Some(selected), viewport, scrollbar, area);
            l.start <= selected < l.start + l.rows
        }),
{
    crate::components::window::centered_window_shows_its_row(
        len,
        window_rows(len, viewport),
        selected,
    );
}

} // verus!

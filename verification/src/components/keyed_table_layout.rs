//! Where a keyed table paints: the window of rows it shows, the gutter for
//! the cursor and check marks, the area its columns share, the rows painted
//! before the bottom edge, and the scrollbar track.

use vstd::prelude::*;

use crate::components::flex::less16;
use crate::components::keyed_table::{keyed_window, window_at_spec, KeyedSelectState, KeyedView};
use crate::components::window::{min_usize, VirtualWindow, WindowView};
use crate::geometry::{sat_add_u16, Rect};

verus! {

/// How a keyed table is configured to paint.
#[derive(Clone, Copy, Debug, PartialEq, Eq, Structural)]
pub struct TableOpts {
    /// Whether a header row is shown above the data rows.
    pub show_header: bool,
    /// Whether rows carry check marks (a multi-selection table).
    pub multi: bool,
    /// Whether an overflowing table shows a scrollbar.
    pub scrollbar: bool,
    /// A cap on the data rows shown below the assigned height.
    pub viewport: Option<u16>,
    /// The selected key's position in the rows, when the host supplies it.
    pub selected_index: Option<Option<usize>>,
}

/// The painted frame of a keyed table.
#[derive(Clone, Copy, Debug, PartialEq, Eq)]
pub struct TableFrame {
    /// The window of data rows.
    pub window: VirtualWindow,
    /// Whether the scrollbar column is drawn.
    pub scrollbar: bool,
    /// The columns of the cursor (and check mark) gutter.
    pub gutter: u16,
    /// The area the data columns share.
    pub columns_area: Rect,
    /// The first row of data.
    pub body_y: u16,
    /// The data rows painted before the area's bottom edge.
    pub drawn: usize,
    /// The columns a highlighted row's background covers.
    pub row_width: u16,
    /// The scrollbar track, when drawn.
    pub track: Option<Rect>,
}

/// The plain values of a painted frame.
pub struct TableFrameView {
    pub window: WindowView,
    pub scrollbar: bool,
    pub gutter: u16,
    pub columns_area: Rect,
    pub body_y: u16,
    pub drawn: usize,
    pub row_width: u16,
    pub track: Option<Rect>,
}

impl View for TableFrame {
    type V = TableFrameView;

    open spec fn view(&self) -> TableFrameView {
        TableFrameView {
            window: self.window@,
            scrollbar: self.scrollbar,
            gutter: self.gutter,
            columns_area: self.columns_area,
            body_y: self.body_y,
            drawn: self.drawn,
            row_width: self.row_width,
            track: self.track,
        }
    }
}

/// The rectangle `Rect::new` builds: its extent held inside the screen.
pub open spec fn clamped_rect(x: u16, y: u16, width: u16, height: u16) -> Rect {
    Rect {
        x,
        y,
        width: (sat_add_u16(x, width) - x) as u16,
        height: (sat_add_u16(y, height) - y) as u16,
    }
}

/// The frame a table over the rows with keys `keys`, selected by `state`,
/// paints in `area` with `opts`; `None` when the area covers nothing or the
/// table has no columns.
///
/// The data rows get the height below the header, capped by the viewport;
/// the window over them follows the selection (placed from the supplied
/// index when there is one). An overflowing window takes a scrollbar column
/// on the right when scrollbars are on; the columns share what the gutter
/// (two cells, four with check marks) and the scrollbar leave; rows are
/// painted down to the bottom edge.
pub open spec fn table_frame_spec(
    v: KeyedView,
    keys: Seq<u64>,
    has_columns: bool,
    opts: TableOpts,
    area: Rect,
) -> Option<TableFrameView> {
    if area.width == 0 || area.height == 0 || !has_columns {
        None
    } else {
        let header: u16 = if opts.show_header { 1 } else { 0 };
        let body_rows = less16(area.height, header);
        let visible = match opts.viewport {
            Some(rows) => if rows <= body_rows { rows } else { body_rows },
            None => body_rows,
        };
        let window = match opts.selected_index {
            Some(index) => window_at_spec(v, keys.len() as usize, visible as usize, index),
            None => keyed_window(v, keys, visible as usize),
        };
        let scrollbar = opts.scrollbar && window.len < window.total;
        let bar: u16 = if scrollbar { 1 } else { 0 };
        let gutter: u16 = if opts.multi { 4 } else { 2 };
        let body_y = sat_add_u16(area.y, header);
        Some(TableFrameView {
            window,
            scrollbar,
            gutter,
            columns_area: clamped_rect(
                sat_add_u16(area.x, gutter),
                area.y,
                less16(less16(area.width, gutter), bar),
                area.height,
            ),
            body_y,
            drawn: min_usize(window.len, less16(area.bottom_edge(), body_y) as usize),
            row_width: less16(area.width, bar),
            track: if scrollbar {
                Some(
                    clamped_rect(
                        (area.right_edge() - 1) as u16,
                        body_y,
                        1,
                        if window.len <= body_rows { window.len as u16 } else { body_rows },
                    ),
                )
            } else {
                None
            },
        })
    }
}

/// The frame a keyed table paints in `area`: the window of rows shown, the
/// scrollbar decision, the gutter and the columns' area, the first data row,
/// the rows painted, the highlighted row's width and the scrollbar track.
/// `keys` are the rows' keys in display order and `has_columns` whether the
/// table has any column.
pub fn table_frame(
    state: &KeyedSelectState,
    keys: &[u64],
    has_columns: bool,
    opts: TableOpts,
    area: Rect,
) -> (r: Option<TableFrame>)
    ensures
        match r {
            Some(f) => table_frame_spec(state@, keys@, has_columns, opts, area) == Some(f@),
            None => table_frame_spec(state@, keys@, has_columns, opts, area) is None,
        },
{
    if area.is_empty() || !has_columns {
        return None;
    }
    let header: u16 = if opts.show_header {
        1
    } else {
        0
    };
    let body_rows = area.height.saturating_sub(header);
    let visible = match opts.viewport {
        Some(rows) => if rows <= body_rows {
            rows
        } else {
            body_rows
        },
        None => body_rows,
    };
    let window = match opts.selected_index {
        Some(index) => state.window_at(keys.len(), visible as usize, index),
        None => state.window(keys, visible as usize),
    };
    let scrollbar = opts.scrollbar && window.overflows();
    let bar: u16 = if scrollbar {
        1
    } else {
        0
    };
    let gutter: u16 = if opts.multi {
        4
    } else {
        2
    };
    let body_y = area.y.saturating_add(header);
    let room = area.bottom().saturating_sub(body_y) as usize;
    let shown = window.len();
    let drawn = if shown <= room {
        shown
    } else {
        room
    };
    let track = if scrollbar {
        let rows = if shown <= body_rows as usize {
            shown as u16
        } else {
            body_rows
        };
        Some(Rect::new(area.right() - 1, body_y, 1, rows))
    } else {
        None
    };
    Some(
        TableFrame {
            window,
            scrollbar,
            gutter,
            columns_area: Rect::new(
                area.x.saturating_add(gutter),
                area.y,
                area.width.saturating_sub(gutter).saturating_sub(bar),
                area.height,
            ),
            body_y,
            drawn,
            row_width: area.width.saturating_sub(bar),
            track,
        },
    )
}

/// In an area that lies on the screen, every painted data row lies inside
/// the area, the scrollbar track runs down its last column beside the data
/// rows, and the columns (when they get any room) end before the track.
pub proof fn the_frame_stays_inside_its_area(
    v: KeyedView,
    keys: Seq<u64>,
    opts: TableOpts,
    area: Rect,
)
    requires
        area.x + area.width <= u16::MAX,
        area.y + area.height <= u16::MAX,
        table_frame_spec(v, keys, true, opts, area) is Some,
    ensures
        ({
            let f = table_frame_spec(v, keys, true, opts, area)->0;
            &&& f.body_y + f.drawn <= area.bottom_edge()
            &&& f.drawn <= f.window.len
            &&& f.columns_area.width > 0 ==> f.columns_area.x + f.columns_area.width
                <= area.right_edge() - (if f.scrollbar { 1int } else { 0 })
            &&& (f.track matches Some(t) ==> t.x == area.right_edge() - 1 && t.y == f.body_y)
        }),
{
}

} // verus!

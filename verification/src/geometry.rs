//! Cell geometry: sizes and rectangles measured in terminal cells.

use vstd::prelude::*;

verus! {

/// A width and height in terminal cells.
#[derive(Clone, Copy, Debug, PartialEq, Eq, Structural)]
pub struct Size {
    /// Columns.
    pub width: u16,
    /// Rows.
    pub height: u16,
}

impl Size {
    /// A size of `width` by `height` cells.
    pub fn new(width: u16, height: u16) -> (s: Size)
        ensures
            s == (Size { width, height }),
    {
        Size { width, height }
    }
}

/// `a + b`, held at `u16::MAX`.
pub open spec fn sat_add_u16(a: u16, b: u16) -> u16 {
    if a + b > u16::MAX { u16::MAX } else { (a + b) as u16 }
}

/// A rectangle of cells. Its right and bottom edges are held at `u16::MAX`.
#[derive(Clone, Copy, Debug, PartialEq, Eq, Structural)]
pub struct Rect {
    /// Left column.
    pub x: u16,
    /// Top row.
    pub y: u16,
    /// Width in columns.
    pub width: u16,
    /// Height in rows.
    pub height: u16,
}

impl Rect {
    /// A rectangle at `(x, y)`; width and height are shrunk so that the right
    /// and bottom edges stay within `u16::MAX`.
    pub fn new(x: u16, y: u16, width: u16, height: u16) -> (r: Rect)
        ensures
            r == (Rect {
                x,
                y,
                width: (sat_add_u16(x, width) - x) as u16,
                height: (sat_add_u16(y, height) - y) as u16,
            }),
    {
        Rect {
            x,
            y,
            width: x.saturating_add(width) - x,
            height: y.saturating_add(height) - y,
        }
    }

    /// The first column right of the rectangle.
    pub open spec fn right_edge(self) -> u16 {
        sat_add_u16(self.x, self.width)
    }

    /// The first row below the rectangle.
    pub open spec fn bottom_edge(self) -> u16 {
        sat_add_u16(self.y, self.height)
    }

    /// Whether the cell `(column, row)` lies inside the rectangle.
    pub open spec fn holds(self, column: u16, row: u16) -> bool {
        self.x <= column < self.right_edge() && self.y <= row < self.bottom_edge()
    }

    /// The first column right of the rectangle, held at `u16::MAX`.
    pub fn right(&self) -> (r: u16)
        ensures
            r == self.right_edge(),
    {
        self.x.saturating_add(self.width)
    }

    /// The first row below the rectangle, held at `u16::MAX`.
    pub fn bottom(&self) -> (r: u16)
        ensures
            r == self.bottom_edge(),
    {
        self.y.saturating_add(self.height)
    }

    /// Whether the rectangle covers no cell.
    pub fn is_empty(&self) -> (r: bool)
        ensures
            r == (self.width == 0 || self.height == 0),
    {
        self.width == 0 || self.height == 0
    }
}

/// Blank cells kept inside a container's edges.
#[derive(Clone, Copy, Debug, PartialEq, Eq, Structural)]
pub struct Padding {
    /// Rows above the content.
    pub top: u16,
    /// Columns right of the content.
    pub right: u16,
    /// Rows below the content.
    pub bottom: u16,
    /// Columns left of the content.
    pub left: u16,
}

impl Default for Padding {
    /// No padding.
    fn default() -> (p: Self)
        ensures
            p == (Padding { top: 0, right: 0, bottom: 0, left: 0 }),
    {
        Padding::all(0)
    }
}

impl Padding {
    /// The same padding on every side.
    pub fn all(cells: u16) -> (p: Padding)
        ensures
            p == (Padding { top: cells, right: cells, bottom: cells, left: cells }),
    {
        Padding { top: cells, right: cells, bottom: cells, left: cells }
    }

    /// Columns taken on the left and right together, held at `u16::MAX`.
    pub fn horizontal(&self) -> (r: u16)
        ensures
            r == sat_add_u16(self.left, self.right),
    {
        self.left.saturating_add(self.right)
    }

    /// Rows taken above and below together, held at `u16::MAX`.
    pub fn vertical(&self) -> (r: u16)
        ensures
            r == sat_add_u16(self.top, self.bottom),
    {
        self.top.saturating_add(self.bottom)
    }
}

} // verus!

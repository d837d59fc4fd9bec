//! Measurement requests: what a layout pass asks a view to size itself to.

use vstd::prelude::*;

use crate::geometry::Size;

verus! {

/// The space available to a view on one axis during intrinsic measurement.
#[derive(Clone, Copy, Debug, PartialEq, Eq, Structural)]
#[non_exhaustive]
pub enum AvailableSpace {
    /// A concrete number of terminal cells.
    Definite(u16),
    /// The smallest extent the content can occupy without avoidable overflow.
    MinContent,
    /// The preferred extent when the axis is unconstrained.
    MaxContent,
}

/// The concrete cell count standing in for `space`.
pub open spec fn fallback_cells(space: AvailableSpace) -> u16 {
    match space {
        AvailableSpace::Definite(cells) => cells,
        AvailableSpace::MinContent => 0,
        AvailableSpace::MaxContent => u16::MAX,
    }
}

impl AvailableSpace {
    /// The concrete cell count standing in for this space: the cells of a
    /// definite space, none for min-content, all for max-content.
    pub fn fallback(self) -> (r: u16)
        ensures
            r == fallback_cells(self),
    {
        match self {
            AvailableSpace::Definite(cells) => cells,
            AvailableSpace::MinContent => 0,
            AvailableSpace::MaxContent => u16::MAX,
        }
    }
}

/// A layout engine's complete measurement request for a view.
///
/// `known_*` means the layout algorithm has already resolved that axis.
#[derive(Clone, Copy, Debug, PartialEq, Eq, Structural)]
#[non_exhaustive]
pub struct MeasureRequest {
    /// Width already fixed by the parent layout pass.
    pub known_width: Option<u16>,
    /// Height already fixed by the parent layout pass.
    pub known_height: Option<u16>,
    /// Width constraint when the width is not already known.
    pub available_width: AvailableSpace,
    /// Height constraint when the height is not already known.
    pub available_height: AvailableSpace,
}

/// One axis of a measured size: a known extent wins; otherwise the measured
/// extent, capped by a definite limit.
pub open spec fn resolved_axis(known: Option<u16>, available: AvailableSpace, measured: u16) -> u16 {
    match known {
        Some(k) => k,
        None => match available {
            AvailableSpace::Definite(limit) => if measured <= limit {
                measured
            } else {
                limit
            },
            _ => measured,
        },
    }
}

/// One axis of a measured size: a known extent wins; otherwise the measured
/// extent, capped by a definite limit.
pub fn resolve_axis(known: Option<u16>, available: AvailableSpace, measured: u16) -> (r: u16)
    ensures
        r == resolved_axis(known, available, measured),
{
    match known {
        Some(k) => k,
        None => match available {
            AvailableSpace::Definite(limit) => if measured <= limit {
                measured
            } else {
                limit
            },
            _ => measured,
        },
    }
}

impl MeasureRequest {
    /// Measure within a concrete cell rectangle, with neither axis pre-resolved.
    pub fn new(available: Size) -> (r: Self)
        ensures
            r == (MeasureRequest {
                known_width: None,
                known_height: None,
                available_width: AvailableSpace::Definite(available.width),
                available_height: AvailableSpace::Definite(available.height),
            }),
    {
        MeasureRequest {
            known_width: None,
            known_height: None,
            available_width: AvailableSpace::Definite(available.width),
            available_height: AvailableSpace::Definite(available.height),
        }
    }

    /// Supply a width the parent has already resolved.
    pub fn with_known_width(self, width: u16) -> (r: Self)
        ensures
            r == (MeasureRequest { known_width: Some(width), ..self }),
    {
        MeasureRequest { known_width: Some(width), ..self }
    }

    /// Supply a height the parent has already resolved.
    pub fn with_known_height(self, height: u16) -> (r: Self)
        ensures
            r == (MeasureRequest { known_height: Some(height), ..self }),
    {
        MeasureRequest { known_height: Some(height), ..self }
    }

    /// Change the width sizing mode used when width is not known.
    pub fn with_available_width(self, available: AvailableSpace) -> (r: Self)
        ensures
            r == (MeasureRequest { available_width: available, ..self }),
    {
        MeasureRequest { available_width: available, ..self }
    }

    /// Change the height sizing mode used when height is not known.
    pub fn with_available_height(self, available: AvailableSpace) -> (r: Self)
        ensures
            r == (MeasureRequest { available_height: available, ..self }),
    {
        MeasureRequest { available_height: available, ..self }
    }

    /// The concrete size handed to a view that measures against one
    /// rectangle: known extents, else the fallback of each available space.
    pub fn fallback_available(self) -> (r: Size)
        ensures
            r.width == match self.known_width {
                Some(w) => w,
                None => fallback_cells(self.available_width),
            },
            r.height == match self.known_height {
                Some(h) => h,
                None => fallback_cells(self.available_height),
            },
    {
        Size::new(
            match self.known_width {
                Some(width) => width,
                None => self.available_width.fallback(),
            },
            match self.known_height {
                Some(height) => height,
                None => self.available_height.fallback(),
            },
        )
    }

    /// The size a view reports for this request from what it measured.
    pub fn resolve(self, measured: Size) -> (r: Size)
        ensures
            r.width == resolved_axis(self.known_width, self.available_width, measured.width),
            r.height == resolved_axis(self.known_height, self.available_height, measured.height),
    {
        Size::new(
            resolve_axis(self.known_width, self.available_width, measured.width),
            resolve_axis(self.known_height, self.available_height, measured.height),
        )
    }
}

/// A view for custom cell drawing: the host's drawing callback plus the size
/// it reports when measured.
pub struct DrawView<F> {
    intrinsic: Size,
    draw: F,
}

impl<F> DrawView<F> {
    /// Create a draw view that measures to all available space.
    pub fn new(draw: F) -> (r: Self)
        ensures
            r.intrinsic_spec() == (Size { width: u16::MAX, height: u16::MAX }),
            r.draw_spec() == draw,
    {
        DrawView { intrinsic: Size::new(u16::MAX, u16::MAX), draw }
    }

    /// The size reported when measured with unlimited room.
    pub closed spec fn intrinsic_spec(&self) -> Size {
        self.intrinsic
    }

    /// Set the intrinsic size reported when measured.
    pub fn intrinsic_size(self, size: Size) -> (r: Self)
        ensures
            r.intrinsic_spec() == size,
            r.draw_spec() == self.draw_spec(),
    {
        DrawView { intrinsic: size, draw: self.draw }
    }

    /// The size this view measures to within `available`: its intrinsic size,
    /// capped on each axis.
    pub fn measure(&self, available: Size) -> (r: Size)
        ensures
            r.width == (if self.intrinsic_spec().width <= available.width {
                self.intrinsic_spec().width
            } else {
                available.width
            }),
            r.height == (if self.intrinsic_spec().height <= available.height {
                self.intrinsic_spec().height
            } else {
                available.height
            }),
    {
        Size::new(
            if self.intrinsic.width <= available.width {
                self.intrinsic.width
            } else {
                available.width
            },
            if self.intrinsic.height <= available.height {
                self.intrinsic.height
            } else {
                available.height
            },
        )
    }

    /// The drawing callback held by this view.
    pub closed spec fn draw_spec(&self) -> F {
        self.draw
    }

    /// The drawing callback, for the host to invoke with the frame's area.
    pub fn draw(&self) -> (r: &F)
        ensures
            *r == self.draw_spec(),
    {
        &self.draw
    }
}

} // verus!

//! Where a form paints: labels beside their controls, or above them on a
//! narrow area, each control with its help and error rows below it, and the
//! actions row after the last field.
//!
//! A control's height comes from measuring it, and the room it is measured
//! in depends on where the field starts; so a field is placed in two steps
//! around that measure: [`field_start`] says where its label and control go,
//! and [`field_rows`] takes the measured height and says what the control,
//! the help and the error rows get.

use vstd::prelude::*;

use crate::components::flex::less16;
use crate::geometry::{sat_add_u16, Rect, Size};

verus! {

/// The columns a form lays its fields out in.
#[derive(Clone, Copy, Debug, PartialEq, Eq, Structural)]
pub struct FormColumns {
    /// Whether labels sit above their controls (the area is narrower than
    /// the stacking width).
    pub stacked: bool,
    /// The columns the label column takes.
    pub label_width: u16,
    /// The first column of the controls.
    pub control_x: u16,
    /// The columns a control gets.
    pub control_width: u16,
}

/// Where one field's label and control start.
#[derive(Clone, Copy, Debug, PartialEq, Eq, Structural)]
pub struct FieldStart {
    /// The row of the label.
    pub label_y: u16,
    /// The row the control starts on: the label's own row, or the next when
    /// labels are stacked.
    pub control_y: u16,
}

/// What one field paints below its label.
#[derive(Clone, Copy, Debug, PartialEq, Eq, Structural)]
pub struct FieldRows {
    /// The control's area.
    pub control: Rect,
    /// The help row, when the field has help and there is room for it.
    pub help_row: Option<u16>,
    /// The error row, when the field has an error and there is room for it.
    pub error_row: Option<u16>,
    /// The row after the field.
    pub next_y: u16,
}

/// The widest of the labels' column counts (0 for none).
pub open spec fn widest(cols: Seq<usize>) -> usize
    decreases cols.len(),
{
    if cols.len() == 0 {
        0
    } else {
        let rest = widest(cols.drop_last());
        if cols.last() > rest { cols.last() } else { rest }
    }
}

/// The form's columns in `area`: labels stack above controls below
/// `stack_below` columns; otherwise the label column is as wide as the
/// widest label but no more than half the area, and controls start two
/// columns after it and run to the area's right edge.
pub open spec fn columns_spec(label_cols: Seq<usize>, stack_below: u16, area: Rect) -> FormColumns {
    let stacked = area.width < stack_below;
    let half = area.width / 2;
    let label_width = (if widest(label_cols) <= half { widest(label_cols) } else { half as usize }) as u16;
    let control_x = if stacked { area.x } else { sat_add_u16(sat_add_u16(area.x, label_width), 2) };
    FormColumns {
        stacked,
        label_width,
        control_x,
        control_width: less16(area.right_edge(), control_x),
    }
}

/// Where field `index` starts when the previous field ended at row `y`
/// (or the form starts there): after `gap` blank rows but for the first
/// field, with the control on the row below the label when stacked. `None`
/// when the field has no room left in `area`, or the area covers nothing.
pub open spec fn field_start_spec(area: Rect, stacked: bool, gap: u16, index: usize, y: u16) -> Option<
    FieldStart,
> {
    let label_y = if index > 0 { sat_add_u16(y, gap) } else { y };
    if area.width == 0 || area.height == 0 || label_y >= area.bottom_edge() {
        None
    } else if stacked {
        if sat_add_u16(label_y, 1) >= area.bottom_edge() {
            None
        } else {
            Some(FieldStart { label_y, control_y: sat_add_u16(label_y, 1) })
        }
    } else {
        Some(FieldStart { label_y, control_y: label_y })
    }
}

/// What a field whose control starts on `control_y` paints, its control
/// having measured `measured` rows: the control gets at least one row and
/// no more than the rows left, and the help row, then the error row, follow
/// while there is room.
pub open spec fn field_rows_spec(
    area: Rect,
    columns: FormColumns,
    control_y: u16,
    measured: u16,
    has_help: bool,
    has_error: bool,
) -> FieldRows {
    let room = less16(area.bottom_edge(), control_y);
    let wanted = if measured >= 1 { measured } else { 1 };
    let height = if wanted <= room { wanted } else { room };
    let after = sat_add_u16(control_y, height);
    let help_row = if has_help && after < area.bottom_edge() { Some(after) } else { None };
    let after_help = if help_row is Some { (after + 1) as u16 } else { after };
    let error_row = if has_error && after_help < area.bottom_edge() {
        Some(after_help)
    } else {
        None
    };
    FieldRows {
        control: Rect {
            x: columns.control_x,
            y: control_y,
            width: columns.control_width,
            height,
        },
        help_row,
        error_row,
        next_y: if error_row is Some { (after_help + 1) as u16 } else { after_help },
    }
}

/// The height a form asks for: per field its control's measured height (at
/// least one row), its message rows and, when stacked, the label's row, with
/// `gap` rows between fields, then the actions row's measured height (at
/// least one) when there are actions; all held at `u16::MAX`.
pub open spec fn fields_height(gap: u16, stacked: bool, fields: Seq<(u16, u16)>) -> u16
    decreases fields.len(),
{
    if fields.len() == 0 {
        0
    } else {
        let before = fields_height(gap, stacked, fields.drop_last());
        let (control, messages) = fields.last();
        let spaced = if fields.len() > 1 { sat_add_u16(before, gap) } else { before };
        sat_add_u16(
            sat_add_u16(sat_add_u16(spaced, if control >= 1 { control } else { 1 }), messages),
            if stacked { 1 } else { 0 },
        )
    }
}

/// The size a form asks for in `available`: the whole width, and the height
/// of its fields and actions held to the room.
pub open spec fn form_measure_spec(
    stack_below: u16,
    gap: u16,
    fields: Seq<(u16, u16)>,
    actions: Option<u16>,
    available: Size,
) -> Size {
    let stacked = available.width < stack_below;
    let body = fields_height(gap, stacked, fields);
    let height = match actions {
        Some(a) => sat_add_u16(body, if a >= 1 { a } else { 1 }),
        None => body,
    };
    Size {
        width: available.width,
        height: if height <= available.height { height } else { available.height },
    }
}

/// The form's columns in `area`, given the display width of each label.
pub fn form_columns(label_cols: &[usize], stack_below: u16, area: Rect) -> (r: FormColumns)
    ensures
        r == columns_spec(label_cols@, stack_below, area),
{
    let mut widest_so_far: usize = 0;
    let mut i: usize = 0;
    while i < label_cols.len()
        invariant
            i <= label_cols.len(),
            widest_so_far == widest(label_cols@.take(i as int)),
        decreases label_cols.len() - i,
    {
        if label_cols[i] > widest_so_far {
            widest_so_far = label_cols[i];
        }
        proof {
            assert(label_cols@.take(i + 1).drop_last() == label_cols@.take(i as int));
        }
        i = i + 1;
    }
    proof {
        assert(label_cols@.take(label_cols@.len() as int) == label_cols@);
    }
    let stacked = area.width < stack_below;
    let half = area.width / 2;
    let label_width = if widest_so_far <= half as usize {
        widest_so_far as u16
    } else {
        half
    };
    let control_x = if stacked {
        area.x
    } else {
        area.x.saturating_add(label_width).saturating_add(2)
    };
    FormColumns {
        stacked,
        label_width,
        control_x,
        control_width: area.right().saturating_sub(control_x),
    }
}

/// Where field `index` starts after row `y`; `None` when it has no room.
pub fn field_start(area: Rect, stacked: bool, gap: u16, index: usize, y: u16) -> (r: Option<
    FieldStart,
>)
    ensures
        r == field_start_spec(area, stacked, gap, index, y),
{
    let label_y = if index > 0 {
        y.saturating_add(gap)
    } else {
        y
    };
    let bottom = area.bottom();
    if area.is_empty() || label_y >= bottom {
        None
    } else if stacked {
        let control_y = label_y.saturating_add(1);
        if control_y >= bottom {
            None
        } else {
            Some(FieldStart { label_y, control_y })
        }
    } else {
        Some(FieldStart { label_y, control_y: label_y })
    }
}

/// What a field paints below its start, its control having measured
/// `measured` rows in the room [`FormColumns::control_width`] by the rows
/// left from `control_y`.
pub fn field_rows(
    area: Rect,
    columns: FormColumns,
    control_y: u16,
    measured: u16,
    has_help: bool,
    has_error: bool,
) -> (r: FieldRows)
    ensures
        r == field_rows_spec(area, columns, control_y, measured, has_help, has_error),
{
    let bottom = area.bottom();
    let room = bottom.saturating_sub(control_y);
    let wanted = if measured >= 1 {
        measured
    } else {
        1
    };
    let height = if wanted <= room {
        wanted
    } else {
        room
    };
    let mut y = control_y.saturating_add(height);
    let help_row = if has_help && y < bottom {
        Some(y)
    } else {
        None
    };
    if help_row.is_some() {
        y = y + 1;
    }
    let error_row = if has_error && y < bottom {
        Some(y)
    } else {
        None
    };
    if error_row.is_some() {
        y = y + 1;
    }
    FieldRows {
        control: Rect { x: columns.control_x, y: control_y, width: columns.control_width, height },
        help_row,
        error_row,
        next_y: y,
    }
}

/// The actions row's area when the fields ended at row `y`: the rest of the
/// area, when any is left.
pub fn actions_area(area: Rect, y: u16) -> (r: Option<Rect>)
    ensures
        r == (if area.width == 0 || area.height == 0 || y >= area.bottom_edge() {
            None
        } else {
            Some(
                Rect {
                    x: area.x,
                    y,
                    width: area.width,
                    height: (area.bottom_edge() - y) as u16,
                },
            )
        }),
{
    let bottom = area.bottom();
    if area.is_empty() || y >= bottom {
        None
    } else {
        Some(Rect { x: area.x, y, width: area.width, height: bottom - y })
    }
}

/// The size a form asks for in `available`; `fields` holds each control's
/// measured height (measured at [`form_columns`]' control width for an area
/// of `available`) with the field's count of help and error rows, and
/// `actions` the actions row's measured height.
pub fn form_measure(
    stack_below: u16,
    gap: u16,
    fields: &[(u16, u16)],
    actions: Option<u16>,
    available: Size,
) -> (r: Size)
    ensures
        r == form_measure_spec(stack_below, gap, fields@, actions, available),
{
    let stacked = available.width < stack_below;
    let mut height: u16 = 0;
    let mut i: usize = 0;
    while i < fields.len()
        invariant
            i <= fields.len(),
            stacked == (available.width < stack_below),
            height == fields_height(gap, stacked, fields@.take(i as int)),
        decreases fields.len() - i,
    {
        if i > 0 {
            height = height.saturating_add(gap);
        }
        let (control, messages) = fields[i];
        let rows = if control >= 1 {
            control
        } else {
            1
        };
        height = height.saturating_add(rows).saturating_add(messages).saturating_add(
            if stacked {
                1
            } else {
                0
            },
        );
        proof {
            assert(fields@.take(i + 1).drop_last() == fields@.take(i as int));
        }
        i = i + 1;
    }
    proof {
        assert(fields@.take(fields@.len() as int) == fields@);
    }
    let total = match actions {
        Some(a) => height.saturating_add(if a >= 1 {
            a
        } else {
            1
        }),
        None => height,
    };
    Size {
        width: available.width,
        height: if total <= available.height {
            total
        } else {
            available.height
        },
    }
}

/// A field that gets a start always gets its control at least one row inside
/// the area, below or beside its label.
pub proof fn a_started_field_has_a_row_for_its_control(
    area: Rect,
    columns: FormColumns,
    gap: u16,
    index: usize,
    y: u16,
    measured: u16,
    has_help: bool,
    has_error: bool,
)
    requires
        field_start_spec(area, columns.stacked, gap, index, y) is Some,
    ensures
        ({
            let start = field_start_spec(area, columns.stacked, gap, index, y)->0;
            let rows = field_rows_spec(area, columns, start.control_y, measured, has_help, has_error);
            &&& rows.control.height >= 1
            &&& rows.control.y + rows.control.height <= area.bottom_edge()
            &&& start.control_y == start.label_y + (if columns.stacked { 1int } else { 0 })
            &&& rows.next_y <= area.bottom_edge()
        }),
{
}

/// Actions add their measured rows (at least one) to what the fields alone
/// measure with all the room they want, the sum then held to the room
/// offered; the width is always the whole width offered.
pub proof fn actions_add_their_measured_rows(
    stack_below: u16,
    gap: u16,
    fields: Seq<(u16, u16)>,
    actions: u16,
    available: Size,
)
    ensures
        ({
            let with = form_measure_spec(stack_below, gap, fields, Some(actions), available);
            let alone = form_measure_spec(
                stack_below,
                gap,
                fields,
                None,
                Size { width: available.width, height: u16::MAX },
            ).height;
            let rows = if actions >= 1 { actions as int } else { 1 };
            let wanted = if alone + rows <= u16::MAX { alone + rows } else { u16::MAX as int };
            &&& with.width == available.width
            &&& with.height == (if wanted <= available.height { wanted } else { available.height as int })
        }),
{
}

/// Each further field adds to the form's height (before it is held to the
/// room): a gap unless it is the first, its control's measured rows (at
/// least one), its message rows, and a label row when labels are stacked;
/// all held at `u16::MAX`.
pub proof fn each_field_adds_its_rows(
    stack_below: u16,
    gap: u16,
    fields: Seq<(u16, u16)>,
    control: u16,
    messages: u16,
    width: u16,
)
    ensures
        ({
            let room = Size { width, height: u16::MAX };
            let before = form_measure_spec(stack_below, gap, fields, None, room).height as int;
            let after = form_measure_spec(
                stack_below,
                gap,
                fields.push((control, messages)),
                None,
                room,
            ).height as int;
            let added = (if fields.len() > 0 { gap as int } else { 0 }) + (if control >= 1 {
                control as int
            } else {
                1
            }) + messages + (if width < stack_below { 1int } else { 0 });
            &&& after >= before
            &&& after == (if before + added <= u16::MAX { before + added } else { u16::MAX as int })
        }),
{
    let extended = fields.push((control, messages));
    assert(extended.drop_last() == fields);
}

} // verus!

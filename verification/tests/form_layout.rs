use tuika::components::form_layout::{
    actions_area, field_rows, field_start, form_columns, form_measure, FieldStart, FormColumns,
};
use tuika::geometry::{Rect, Size};

#[test]
fn a_wide_form_puts_labels_beside_controls() {
    let area = Rect::new(0, 0, 50, 5);
    let columns = form_columns(&[4], 40, area);
    assert_eq!(
        columns,
        FormColumns { stacked: false, label_width: 4, control_x: 6, control_width: 44 }
    );
    let start = field_start(area, columns.stacked, 1, 0, 0).unwrap();
    assert_eq!(start, FieldStart { label_y: 0, control_y: 0 });
    // A boxed control three rows tall, with help and an error below it.
    let rows = field_rows(area, columns, start.control_y, 3, true, true);
    assert_eq!(rows.control, Rect::new(6, 0, 44, 3));
    assert_eq!((rows.help_row, rows.error_row, rows.next_y), (Some(3), Some(4), 5));
    assert_eq!(actions_area(area, rows.next_y), None);
}

#[test]
fn a_narrow_form_stacks_labels_above_controls() {
    let area = Rect::new(0, 0, 12, 6);
    let columns = form_columns(&[4], 40, area);
    assert!(columns.stacked);
    assert_eq!((columns.control_x, columns.control_width), (0, 12));
    let start = field_start(area, true, 1, 0, 0).unwrap();
    assert_eq!(start, FieldStart { label_y: 0, control_y: 1 });
    let rows = field_rows(area, columns, start.control_y, 3, true, true);
    assert_eq!(rows.control, Rect::new(0, 1, 12, 3));
    // The error row still fits on the last row.
    assert_eq!((rows.help_row, rows.error_row, rows.next_y), (Some(4), Some(5), 6));
}

#[test]
fn later_fields_are_spaced_and_cut_at_the_bottom() {
    let area = Rect::new(2, 1, 30, 6);
    let columns = form_columns(&[3, 40, 7], 10, area);
    // The label column is held to half the area.
    assert_eq!(columns.label_width, 15);
    assert_eq!((columns.control_x, columns.control_width), (19, 13));
    assert_eq!(
        field_start(area, false, 2, 1, 4),
        Some(FieldStart { label_y: 6, control_y: 6 })
    );
    assert_eq!(field_start(area, false, 2, 1, 5), None);
    // A control taller than what is left is cut, and its messages dropped.
    let rows = field_rows(area, columns, 6, 4, true, true);
    assert_eq!(rows.control.height, 1);
    assert_eq!((rows.help_row, rows.error_row, rows.next_y), (None, None, 7));
    assert_eq!(actions_area(area, 5), Some(Rect::new(2, 5, 30, 2)));
}

#[test]
fn an_empty_area_gets_nothing() {
    let area = Rect::new(0, 0, 0, 0);
    assert_eq!(field_start(area, false, 1, 0, 0), None);
    assert_eq!(actions_area(area, 0), None);
    assert_eq!(form_measure(40, 1, &[], None, Size::new(0, 0)), Size::new(0, 0));
}

#[test]
fn a_form_measures_its_fields_gaps_and_actions() {
    // Two fields: a three-row control with two messages, a one-row control.
    let fields = [(3, 2), (0, 0)];
    assert_eq!(form_measure(40, 1, &fields, Some(1), Size::new(50, 20)), Size::new(50, 8));
    // Stacked, each label adds a row.
    assert_eq!(form_measure(40, 1, &fields, None, Size::new(20, 20)), Size::new(20, 9));
    // Held to the room.
    assert_eq!(form_measure(40, 1, &fields, None, Size::new(20, 4)), Size::new(20, 4));
}

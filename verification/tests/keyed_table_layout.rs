use tuika::components::keyed_table_layout::{table_frame, TableOpts};
use tuika::components::KeyedSelectState;
use tuika::geometry::Rect;

fn opts(show_header: bool, multi: bool) -> TableOpts {
    TableOpts { show_header, multi, scrollbar: true, viewport: None, selected_index: None }
}

#[test]
fn an_overflowing_table_follows_its_cursor_and_shows_a_scrollbar() {
    let keys: Vec<u64> = (1..=20).collect();
    let state = KeyedSelectState::with_selected(12);
    let frame = table_frame(&state, &keys, true, opts(true, false), Rect::new(0, 0, 16, 5)).unwrap();
    assert_eq!((frame.window.start(), frame.window.len()), (8, 4));
    assert!(frame.scrollbar);
    assert_eq!(frame.gutter, 2);
    assert_eq!(frame.columns_area, Rect::new(2, 0, 13, 5));
    assert_eq!((frame.body_y, frame.drawn, frame.row_width), (1, 4, 15));
    assert_eq!(frame.track, Some(Rect::new(15, 1, 1, 4)));
}

#[test]
fn a_short_multi_table_has_a_wide_gutter_and_no_scrollbar() {
    let state = KeyedSelectState::new();
    let mut o = opts(false, true);
    o.viewport = Some(10);
    let frame = table_frame(&state, &[5, 6, 7], true, o, Rect::new(3, 2, 20, 4)).unwrap();
    assert_eq!((frame.window.start(), frame.window.len()), (0, 3));
    assert!(!frame.scrollbar);
    assert_eq!(frame.columns_area, Rect::new(7, 2, 16, 4));
    assert_eq!((frame.body_y, frame.drawn, frame.row_width), (2, 3, 20));
    assert_eq!(frame.track, None);
}

#[test]
fn a_supplied_index_places_the_window() {
    let keys: Vec<u64> = (1..=20).collect();
    let state = KeyedSelectState::with_selected(99);
    let mut o = opts(true, false);
    o.selected_index = Some(Some(15));
    let frame = table_frame(&state, &keys, true, o, Rect::new(0, 0, 16, 5)).unwrap();
    assert_eq!(frame.window.start(), 12);
    // Without the hint the missing key leaves the window at the top.
    let plain = table_frame(&state, &keys, true, opts(true, false), Rect::new(0, 0, 16, 5)).unwrap();
    assert_eq!(plain.window.start(), 0);
}

#[test]
fn an_empty_area_or_a_table_without_columns_paints_nothing() {
    let state = KeyedSelectState::new();
    assert!(table_frame(&state, &[1, 2], true, opts(true, false), Rect::new(0, 0, 0, 4)).is_none());
    assert!(table_frame(&state, &[1, 2], false, opts(true, false), Rect::new(0, 0, 8, 4)).is_none());
}

use tuika::anim::{is_complete, local_time, Repeat};
use tuika::components::VirtualWindow;
use tuika::geometry::{Rect, Size};
use tuika::pointer::{encode, PointerShape};
use tuika::scene::Backdrop;
use tuika::style::{BorderStyle, StyleRole};
use tuika::view::{resolve_axis, AvailableSpace, DrawView, MeasureRequest};
use tuika::event::{InputOutcome, EventFlow, Key, KeyCode};

#[test]
fn osc_pointer_shape_encoding() {
    assert_eq!(encode(PointerShape::Default), "\x1b]22;default\x1b\\");
    assert_eq!(encode(PointerShape::Pointer), "\x1b]22;pointer\x1b\\");
}

#[test]
fn virtual_window_clamps_and_centers_without_overflowing() {
    let top = VirtualWindow::new(100, 10, usize::MAX);
    assert_eq!(top.range(), 90..100);
    assert_eq!(top.max_start(), 90);
    assert_eq!(VirtualWindow::max_start_for(100, 10), 90);
    assert!(top.overflows());

    let centered = VirtualWindow::around(100, 9, Some(50));
    assert_eq!(centered.range(), 46..55);
    assert!(centered.contains(50));

    let short = VirtualWindow::around(3, 10, Some(usize::MAX));
    assert_eq!(short.range(), 0..3);
    assert!(!short.overflows());
}

#[test]
fn windows_over_huge_and_empty_collections() {
    let huge = VirtualWindow::new(usize::MAX, 10, usize::MAX);
    assert_eq!(huge.end(), usize::MAX);
    assert_eq!(huge.len(), 10);
    assert_eq!(huge.total(), usize::MAX);
    let empty = VirtualWindow::around(0, 5, None);
    assert!(empty.is_empty());
    assert_eq!(empty.range(), 0..0);
    assert!(!empty.contains(0));
}

#[test]
fn measurement_requests_fall_back_per_axis() {
    let request = MeasureRequest::new(Size::new(30, 8));
    assert_eq!(request.fallback_available(), Size::new(30, 8));
    let request = request
        .with_known_width(12)
        .with_available_height(AvailableSpace::MaxContent);
    assert_eq!(request.fallback_available(), Size::new(12, u16::MAX));
    let request = request.with_available_width(AvailableSpace::MinContent).with_known_height(3);
    assert_eq!(request.fallback_available(), Size::new(12, 3));
    assert_eq!(AvailableSpace::MinContent.fallback(), 0);
    let measured = MeasureRequest::new(Size::new(5, 5)).resolve(Size::new(9, 2));
    assert_eq!(measured, Size::new(5, 2));
    assert_eq!(resolve_axis(Some(4), AvailableSpace::Definite(1), 9), 4);
    assert_eq!(resolve_axis(None, AvailableSpace::MaxContent, 9), 9);
}

#[test]
fn draw_views_measure_to_their_intrinsic_size() {
    let view = DrawView::new(|| ());
    assert_eq!(view.measure(Size::new(7, 3)), Size::new(7, 3));
    let view = view.intrinsic_size(Size::new(2, 9));
    assert_eq!(view.measure(Size::new(7, 3)), Size::new(2, 3));
    (view.draw())();
}

#[test]
fn border_glyphs_match_their_style() {
    let rounded = BorderStyle::default().glyphs();
    assert_eq!(rounded.top_left, '╭');
    assert_eq!(rounded.bottom_right, '╯');
    let thick = BorderStyle::Thick.glyphs();
    assert_eq!((thick.horizontal, thick.vertical), ('━', '┃'));
    assert_eq!(BorderStyle::Plain.glyphs().top_right, '┐');
    assert_eq!(BorderStyle::Hidden.glyphs().vertical, ' ');
}

#[test]
fn style_roles_keep_their_names() {
    let role = StyleRole::new("app.sidebar");
    assert_eq!(role.name(), "app.sidebar");
    assert_eq!(role, StyleRole::new("app.sidebar"));
    assert_eq!(Backdrop::default(), Backdrop::Unchanged);
}

#[test]
fn repeat_modes_map_frames_to_local_time() {
    assert_eq!(Repeat::default(), Repeat::Once);
    assert_eq!(local_time(Repeat::Once, 10, 25), 10);
    assert_eq!(local_time(Repeat::Loop, 20, 30), 10);
    assert_eq!(local_time(Repeat::PingPong, 10, 13), 7);
    assert_eq!(local_time(Repeat::PingPong, 10, 23), 3);
    assert_eq!(local_time(Repeat::Loop, 0, 23), 0);
    assert!(is_complete(Repeat::Once, 10, 10));
    assert!(!is_complete(Repeat::Loop, 10, 100));
}

#[test]
fn outcomes_map_uniformly_to_event_propagation() {
    let root_path: tuika::InputOutcome = InputOutcome::Changed;
    assert_eq!(root_path, InputOutcome::Changed);
    assert_eq!(InputOutcome::Ignored.flow(), EventFlow::Ignored);
    assert!(!InputOutcome::Ignored.consumed());
    for outcome in [
        InputOutcome::Consumed,
        InputOutcome::Changed,
        InputOutcome::Submitted,
        InputOutcome::Cancelled,
    ] {
        assert_eq!(outcome.flow(), EventFlow::Consumed);
        assert!(outcome.consumed());
    }
}

#[test]
fn plain_keys_carry_no_control_or_alt() {
    assert!(Key::new(KeyCode::Tab).plain());
    let shifted = Key { code: KeyCode::Char('A'), ctrl: false, alt: false, shift: true };
    assert!(shifted.plain());
    let ctrl = Key { code: KeyCode::Char('a'), ctrl: true, alt: false, shift: false };
    assert!(!ctrl.plain());
}

#[test]
fn rectangles_stay_within_the_cell_range() {
    let r = Rect::new(u16::MAX - 2, 1, 10, 4);
    assert_eq!(r.width, 2);
    assert_eq!(r.right(), u16::MAX);
    assert_eq!(r.bottom(), 5);
    assert!(!r.is_empty());
    assert!(Rect::new(0, 0, 0, 3).is_empty());
}

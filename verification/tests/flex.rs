use tuika::components::flex::{child_available, flex_measure, Dimension, Direction, FlexStyle};
use tuika::geometry::{Padding, Size};

fn row() -> FlexStyle {
    FlexStyle { direction: Direction::Row, gap: 0, padding: Padding::all(0) }
}

#[test]
fn a_percent_child_claims_its_share_of_the_room() {
    let room = child_available(row(), 1, Size::new(10, 2), Dimension::Percent(50));
    assert_eq!(room, Size::new(5, 2));
    // A one-cell label measured in that room still claims the declared half.
    let size = flex_measure(row(), &[(Dimension::Percent(50), Size::new(1, 1))], Size::new(10, 2));
    assert_eq!(size, Size::new(5, 1));
}

#[test]
fn a_fixed_child_is_measured_at_its_declared_size() {
    let room = child_available(row(), 1, Size::new(10, 4), Dimension::Fixed(5));
    assert_eq!(room, Size::new(5, 4));
    // A child that wraps to two rows when narrower than ten cells.
    let measured = Size::new(room.width, if room.width < 10 { 2 } else { 1 });
    assert_eq!(
        flex_measure(row(), &[(Dimension::Fixed(5), measured)], Size::new(10, 4)),
        Size::new(5, 2)
    );
}

#[test]
fn a_column_adds_gaps_and_padding_and_is_held_to_the_room() {
    let style = FlexStyle { direction: Direction::Column, gap: 1, padding: Padding::all(1) };
    let kids = [(Dimension::Fixed(2), Size::new(3, 1)), (Dimension::Auto, Size::new(4, 3))];
    assert_eq!(child_available(style, 2, Size::new(10, 10), Dimension::Auto), Size::new(8, 8));
    assert_eq!(child_available(style, 2, Size::new(10, 10), Dimension::Fixed(2)), Size::new(8, 2));
    assert_eq!(flex_measure(style, &kids, Size::new(10, 10)), Size::new(6, 8));
    assert_eq!(flex_measure(style, &kids, Size::new(3, 3)), Size::new(3, 3));
    assert_eq!(flex_measure(style, &[], Size::new(10, 10)), Size::new(2, 2));
}

#[test]
fn percentages_above_one_hundred_are_held_to_the_whole_room() {
    let room = child_available(row(), 1, Size::new(10, 1), Dimension::Percent(250));
    assert_eq!(room, Size::new(10, 1));
}

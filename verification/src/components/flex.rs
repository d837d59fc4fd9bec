//! How a flex container sizes itself when it is an auto-sized child: the
//! room each child is measured in, and the size that its children's measured
//! sizes add up to.

use vstd::prelude::*;

use crate::geometry::{sat_add_u16, Padding, Size};

verus! {

/// The axis children are laid along.
#[derive(Clone, Copy, Debug, PartialEq, Eq, Structural)]
pub enum Direction {
    /// Left to right.
    Row,
    /// Top to bottom.
    Column,
}

/// How a child is sized on the main axis.
#[derive(Clone, Copy, Debug, PartialEq, Eq, Structural)]
pub enum Dimension {
    /// Its measured content.
    Auto,
    /// Exactly this many cells, held to the room there is.
    Fixed(u16),
    /// This percentage (at most 100) of the room left after gaps.
    Percent(u16),
    /// A share of the leftover room, by weight.
    Flex(u16),
}

/// The parts of a flex container's layout style that decide its size.
#[derive(Clone, Copy, Debug, PartialEq, Eq, Structural)]
pub struct FlexStyle {
    /// The main axis.
    pub direction: Direction,
    /// Cells between neighbouring children.
    pub gap: u16,
    /// Cells kept inside the container's edges.
    pub padding: Padding,
}

/// The extent of `s` along the main axis.
pub open spec fn main_of(direction: Direction, s: Size) -> u16 {
    match direction {
        Direction::Row => s.width,
        Direction::Column => s.height,
    }
}

/// The extent of `s` across the main axis.
pub open spec fn cross_of(direction: Direction, s: Size) -> u16 {
    match direction {
        Direction::Row => s.height,
        Direction::Column => s.width,
    }
}

/// The size with `main` along the axis and `cross` across it.
pub open spec fn size_along(direction: Direction, main: u16, cross: u16) -> Size {
    match direction {
        Direction::Row => Size { width: main, height: cross },
        Direction::Column => Size { width: cross, height: main },
    }
}

/// `a - b`, held at zero.
pub open spec fn less16(a: u16, b: u16) -> u16 {
    if b >= a { 0 } else { (a - b) as u16 }
}

/// The room left inside `padding` in `s`.
pub open spec fn inner_size(padding: Padding, s: Size) -> Size {
    Size {
        width: less16(s.width, sat_add_u16(padding.left, padding.right)),
        height: less16(s.height, sat_add_u16(padding.top, padding.bottom)),
    }
}

/// The main-axis room `count` children share once the gaps between them are
/// taken (the gaps' total held at `u16::MAX`).
pub open spec fn children_space(style: FlexStyle, count: usize, inner: Size) -> u16 {
    let between = (if count >= 1 { count - 1 } else { 0 }) as u16;
    let gaps = if style.gap * between > u16::MAX { u16::MAX } else { (style.gap * between) as u16 };
    less16(main_of(style.direction, inner), gaps)
}

/// `percent` (held at 100) of `space`, rounded down.
pub open spec fn percent_of(space: u16, percent: u16) -> u16 {
    ((space as int) * (if percent <= 100 { percent as int } else { 100 }) / 100) as u16
}

/// The room a child sized by `dimension` is measured in, inside a container
/// of `count` children offered `available`.
pub open spec fn available_for(
    style: FlexStyle,
    count: usize,
    available: Size,
    dimension: Dimension,
) -> Size {
    let inner = inner_size(style.padding, available);
    let space = children_space(style, count, inner);
    let main = match dimension {
        Dimension::Fixed(cells) => if cells <= space { cells } else { space },
        Dimension::Percent(p) => percent_of(space, p),
        Dimension::Auto | Dimension::Flex(_) => main_of(style.direction, inner),
    };
    size_along(style.direction, main, cross_of(style.direction, inner))
}

/// The main-axis cells a child claims in the container's own measure: its
/// content for auto and flexible children, its declared size otherwise,
/// held to the room there is.
pub open spec fn claimed_main(
    direction: Direction,
    space: u16,
    dimension: Dimension,
    measured: Size,
) -> u16 {
    let wanted = match dimension {
        Dimension::Auto | Dimension::Flex(_) => main_of(direction, measured),
        Dimension::Fixed(cells) => cells,
        Dimension::Percent(p) => percent_of(space, p),
    };
    if wanted <= space { wanted } else { space }
}

/// The children's total along the main axis (gaps included, held at
/// `u16::MAX`) and their largest extent across it.
pub open spec fn content_extent(style: FlexStyle, space: u16, kids: Seq<(Dimension, Size)>) -> (
    u16,
    u16,
)
    decreases kids.len(),
{
    if kids.len() == 0 {
        (0, 0)
    } else {
        let (main, cross) = content_extent(style, space, kids.drop_last());
        let (dimension, measured) = kids.last();
        let with_child = sat_add_u16(main, claimed_main(style.direction, space, dimension, measured));
        let total = if kids.len() > 1 { sat_add_u16(with_child, style.gap) } else { with_child };
        let across = cross_of(style.direction, measured);
        (total, if across > cross { across } else { cross })
    }
}

/// The size a container with `style` wants from `available`, given each
/// child's dimension and the size it measured in the room `available_for`
/// gave it: the children's extent plus the padding, held to `available`.
pub open spec fn flex_measure_spec(
    style: FlexStyle,
    kids: Seq<(Dimension, Size)>,
    available: Size,
) -> Size {
    let inner = inner_size(style.padding, available);
    let space = children_space(style, kids.len() as usize, inner);
    let (main, cross) = content_extent(style, space, kids);
    let content = size_along(style.direction, main, cross);
    let width = sat_add_u16(content.width, sat_add_u16(style.padding.left, style.padding.right));
    let height = sat_add_u16(content.height, sat_add_u16(style.padding.top, style.padding.bottom));
    Size {
        width: if width <= available.width { width } else { available.width },
        height: if height <= available.height { height } else { available.height },
    }
}

fn main_part(direction: Direction, s: Size) -> (r: u16)
    ensures
        r == main_of(direction, s),
{
    match direction {
        Direction::Row => s.width,
        Direction::Column => s.height,
    }
}

fn cross_part(direction: Direction, s: Size) -> (r: u16)
    ensures
        r == cross_of(direction, s),
{
    match direction {
        Direction::Row => s.height,
        Direction::Column => s.width,
    }
}

fn along(direction: Direction, main: u16, cross: u16) -> (r: Size)
    ensures
        r == size_along(direction, main, cross),
{
    match direction {
        Direction::Row => Size { width: main, height: cross },
        Direction::Column => Size { width: cross, height: main },
    }
}

fn inside(padding: Padding, s: Size) -> (r: Size)
    ensures
        r == inner_size(padding, s),
{
    Size {
        width: s.width.saturating_sub(padding.horizontal()),
        height: s.height.saturating_sub(padding.vertical()),
    }
}

fn space_for(style: FlexStyle, count: usize, inner: Size) -> (r: u16)
    ensures
        r == children_space(style, count, inner),
{
    let between = count.saturating_sub(1) as u16;
    proof {
        let (g, b) = (style.gap as int, between as int);
        assert(g * b <= 65535 * 65535) by (nonlinear_arith)
            requires
                0 <= g <= 65535,
                0 <= b <= 65535,
        ;
    }
    let product = (style.gap as u32) * (between as u32);
    let gaps = if product > 65535 { u16::MAX } else { product as u16 };
    main_part(style.direction, inner).saturating_sub(gaps)
}

fn percent(space: u16, p: u16) -> (r: u16)
    ensures
        r == percent_of(space, p),
{
    let held = if p <= 100 { p } else { 100 };
    proof {
        let (a, b) = (space as int, held as int);
        assert(a * b <= 65535 * 100) by (nonlinear_arith)
            requires
                0 <= a <= 65535,
                0 <= b <= 100,
        ;
        assert(a * b / 100 <= 65535) by (nonlinear_arith)
            requires
                0 <= a * b <= 65535 * 100,
        ;
    }
    ((space as u32) * (held as u32) / 100) as u16
}

/// The room to measure a child sized by `dimension` in, inside a container
/// with `style` and `count` children that is offered `available`: its
/// declared share of the room left after padding and gaps on the main axis,
/// the whole inner extent across it.
pub fn child_available(style: FlexStyle, count: usize, available: Size, dimension: Dimension) -> (r:
    Size)
    ensures
        r == available_for(style, count, available, dimension),
{
    let inner = inside(style.padding, available);
    let space = space_for(style, count, inner);
    let main = match dimension {
        Dimension::Fixed(cells) => if cells <= space {
            cells
        } else {
            space
        },
        Dimension::Percent(p) => percent(space, p),
        Dimension::Auto | Dimension::Flex(_) => main_part(style.direction, inner),
    };
    along(style.direction, main, cross_part(style.direction, inner))
}

/// The size a flex container with `style` asks for when it is measured in
/// `available`; `children` holds each child's dimension with the size the
/// child measured in the room [`child_available`] gives it. The children's
/// claims add up along the main axis with the gaps, their largest extent
/// sets the cross axis, the padding goes around, and the whole is held to
/// `available`.
pub fn flex_measure(style: FlexStyle, children: &[(Dimension, Size)], available: Size) -> (r: Size)
    ensures
        r == flex_measure_spec(style, children@, available),
{
    let inner = inside(style.padding, available);
    let space = space_for(style, children.len(), inner);
    let mut main: u16 = 0;
    let mut cross: u16 = 0;
    let mut i: usize = 0;
    while i < children.len()
        invariant
            i <= children.len(),
            (main, cross) == content_extent(style, space, children@.take(i as int)),
        decreases children.len() - i,
    {
        let (dimension, measured) = children[i];
        let wanted = match dimension {
            Dimension::Auto | Dimension::Flex(_) => main_part(style.direction, measured),
            Dimension::Fixed(cells) => cells,
            Dimension::Percent(p) => percent(space, p),
        };
        let claimed = if wanted <= space {
            wanted
        } else {
            space
        };
        main = main.saturating_add(claimed);
        if i > 0 {
            main = main.saturating_add(style.gap);
        }
        let across = cross_part(style.direction, measured);
        if across > cross {
            cross = across;
        }
        proof {
            assert(children@.take(i + 1).drop_last() == children@.take(i as int));
        }
        i = i + 1;
    }
    proof {
        assert(children@.take(children@.len() as int) == children@);
    }
    let content = along(style.direction, main, cross);
    let width = content.width.saturating_add(style.padding.horizontal());
    let height = content.height.saturating_add(style.padding.vertical());
    Size {
        width: if width <= available.width {
            width
        } else {
            available.width
        },
        height: if height <= available.height {
            height
        } else {
            available.height
        },
    }
}

/// Every child's extent across the main axis is covered by the content
/// extent: the content is as tall (in a row) or as wide (in a column) as its
/// largest child.
proof fn content_covers_every_child(style: FlexStyle, space: u16, kids: Seq<(Dimension, Size)>)
    ensures
        forall|i: int|
            0 <= i < kids.len() ==> content_extent(style, space, kids).1 >= cross_of(
                style.direction,
                #[trigger] kids[i].1,
            ),
    decreases kids.len(),
{
    if kids.len() > 0 {
        let init = kids.drop_last();
        content_covers_every_child(style, space, init);
        assert forall|i: int| 0 <= i < kids.len() implies content_extent(style, space, kids).1
            >= cross_of(style.direction, #[trigger] kids[i].1) by {
            if i < kids.len() - 1 {
                assert(kids[i] == init[i]);
            }
        }
    }
}

/// A flex container measures across its main axis at least as large as
/// each of its children measured (held to the room offered): a taller child
/// in a row, or a wider one in a column, is never clipped by the measure,
/// wherever it stands among the children. The measure never exceeds the
/// room offered.
pub proof fn the_measure_covers_every_child(
    style: FlexStyle,
    kids: Seq<(Dimension, Size)>,
    available: Size,
)
    ensures
        ({
            let r = flex_measure_spec(style, kids, available);
            &&& r.width <= available.width
            &&& r.height <= available.height
            &&& forall|i: int|
                0 <= i < kids.len() ==> {
                    let child = cross_of(style.direction, #[trigger] kids[i].1);
                    let room = cross_of(style.direction, available);
                    cross_of(style.direction, r) >= if child <= room { child } else { room }
                }
        }),
{
    let inner = inner_size(style.padding, available);
    let space = children_space(style, kids.len() as usize, inner);
    content_covers_every_child(style, space, kids);
}

/// The content's main-axis extent covers what any one child claims: an
/// auto or flexible child's measured extent, a fixed child's cells, each
/// held to the room the children share.
proof fn content_covers_every_claim(style: FlexStyle, space: u16, kids: Seq<(Dimension, Size)>)
    ensures
        forall|i: int|
            0 <= i < kids.len() ==> {
                let (dimension, measured) = #[trigger] kids[i];
                let wanted = match dimension {
                    Dimension::Fixed(cells) => cells,
                    Dimension::Auto | Dimension::Flex(_) => main_of(style.direction, measured),
                    Dimension::Percent(_) => 0,
                };
                content_extent(style, space, kids).0 >= if wanted <= space { wanted } else { space }
            },
    decreases kids.len(),
{
    if kids.len() > 0 {
        let init = kids.drop_last();
        content_covers_every_claim(style, space, init);
        assert forall|i: int| 0 <= i < kids.len() - 1 implies kids[i] == init[i] by {}
    }
}

/// A flex container measures along its main axis at least as long as any
/// one child claims (a fixed child's cells, an auto or flexible child's
/// measured extent), held to the room left for children after padding and
/// gaps and to the room offered.
pub proof fn the_measure_covers_every_claim(
    style: FlexStyle,
    kids: Seq<(Dimension, Size)>,
    available: Size,
)
    ensures
        ({
            let r = flex_measure_spec(style, kids, available);
            let space = children_space(style, kids.len() as usize, inner_size(style.padding, available));
            let room = main_of(style.direction, available);
            forall|i: int|
                0 <= i < kids.len() ==> {
                    let (dimension, measured) = #[trigger] kids[i];
                    let wanted = match dimension {
                        Dimension::Fixed(cells) => cells,
                        Dimension::Auto | Dimension::Flex(_) => main_of(style.direction, measured),
                        Dimension::Percent(_) => 0,
                    };
                    let claim = if wanted <= space { wanted } else { space };
                    main_of(style.direction, r) >= if claim <= room { claim } else { room }
                }
        }),
{
    let space = children_space(style, kids.len() as usize, inner_size(style.padding, available));
    content_covers_every_claim(style, space, kids);
}

} // verus!

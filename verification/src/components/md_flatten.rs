//! Flattening a parsed markdown document into painted lines: where each
//! block's rows land, which lines are bare spacers, where hyperlink runs end
//! up once rows are indented and numbered in the finished document, and
//! which rows a block image reserves.
//!
//! What a block looks like inside (the wrapped text of a paragraph, the
//! cells of a table, the highlighted lines of a code block) is made by the
//! block's own renderer; this pass only stacks the results.

use vstd::prelude::*;

use crate::geometry::sat_add_u16;

verus! {

/// A hyperlink run: row `line`, columns `start_col..end_col`, pointing at
/// the document's link target number `target`.
#[derive(Clone, Copy, Debug, PartialEq, Eq, Structural)]
pub struct RowLink {
    /// The row of the run.
    pub line: u16,
    /// The first column of the run.
    pub start_col: u16,
    /// The column after the run.
    pub end_col: u16,
    /// The target's number.
    pub target: usize,
}

/// One row a block's renderer produced.
#[derive(Clone, Debug, PartialEq, Eq)]
pub struct BlockRow {
    /// Whether the row holds no span at all.
    pub empty: bool,
    /// The hyperlink runs on the row; their `line` is not yet known.
    pub links: Vec<RowLink>,
}

/// One item of a parsed document, as its renderer left it.
#[derive(Clone, Debug, PartialEq, Eq)]
pub enum MdBlock {
    /// A separator between blocks.
    Blank,
    /// Rows laid out to the width (prose and tables), indented by `indent`.
    Wrapped {
        /// Columns of indentation.
        indent: u16,
        /// The rows, each with its links.
        rows: Vec<BlockRow>,
    },
    /// Lines a renderer produced as they are (code and HTML blocks), with
    /// links numbered from the block's own first row and left column.
    Rendered {
        /// Columns of indentation.
        indent: u16,
        /// For each line, whether it holds no span at all.
        lines: Vec<bool>,
        /// The hyperlink runs, relative to the block.
        links: Vec<RowLink>,
    },
    /// A block image of `cols` by `rows` cells.
    Image {
        /// Columns of indentation.
        indent: u16,
        /// Cells across.
        cols: u16,
        /// Rows reserved.
        rows: u16,
    },
}

/// Where a painted line comes from.
#[derive(Clone, Copy, Debug, PartialEq, Eq, Structural)]
pub enum LineSource {
    /// A spacer for a blank item.
    Blank,
    /// Row `row` of item `item`.
    Row { item: usize, row: usize },
    /// A row reserved under item `item`'s image.
    Reserved { item: usize },
}

/// A painted line: its source, its indentation and whether it is a bare
/// spacer (a line without any span).
#[derive(Clone, Copy, Debug, PartialEq, Eq, Structural)]
pub struct PlacedLine {
    /// Where it comes from.
    pub source: LineSource,
    /// Blank columns before its content.
    pub indent: u16,
    /// Whether the line holds no span.
    pub spacer: bool,
}

/// Where a block image is painted.
#[derive(Clone, Copy, Debug, PartialEq, Eq, Structural)]
pub struct ImagePlace {
    /// The item it belongs to.
    pub item: usize,
    /// Its first row (held at `u16::MAX`).
    pub row: u16,
    /// Its indentation.
    pub indent: u16,
    /// Cells across.
    pub cols: u16,
    /// Rows reserved.
    pub rows: u16,
}

/// The flattened document.
pub struct Flattened {
    /// The painted lines, top to bottom.
    pub lines: Vec<PlacedLine>,
    /// Every hyperlink run, in the finished document's rows and columns.
    pub links: Vec<RowLink>,
    /// The block images.
    pub images: Vec<ImagePlace>,
}

/// The plain values of a flattened document.
#[verifier::ext_equal]
pub struct FlatView {
    pub lines: Seq<PlacedLine>,
    pub links: Seq<RowLink>,
    pub images: Seq<ImagePlace>,
}

impl View for Flattened {
    type V = FlatView;

    open spec fn view(&self) -> FlatView {
        FlatView { lines: self.lines@, links: self.links@, images: self.images@ }
    }
}

/// The width a block indented by `indent` is laid out to in a document
/// `width` columns wide: what the indent leaves, at least one column.
pub open spec fn block_width_spec(width: u16, indent: u16) -> u16 {
    if indent >= width { 1 } else if width - indent >= 1 { (width - indent) as u16 } else { 1 }
}

/// The width a block indented by `indent` is laid out to.
pub fn block_width(width: u16, indent: u16) -> (r: u16)
    ensures
        r == block_width_spec(width, indent),
        r >= 1,
{
    let left = width.saturating_sub(indent);
    if left >= 1 {
        left
    } else {
        1
    }
}

/// Links moved onto row `line` and `indent` columns right.
pub open spec fn onto_row(links: Seq<RowLink>, line: u16, indent: u16) -> Seq<RowLink> {
    links.map_values(
        |l: RowLink|
            RowLink {
                line,
                start_col: sat_add_u16(l.start_col, indent),
                end_col: sat_add_u16(l.end_col, indent),
                target: l.target,
            },
    )
}

/// Links moved `base` rows down and `indent` columns right.
pub open spec fn shifted(links: Seq<RowLink>, base: u16, indent: u16) -> Seq<RowLink> {
    links.map_values(
        |l: RowLink|
            RowLink {
                line: sat_add_u16(l.line, base),
                start_col: sat_add_u16(l.start_col, indent),
                end_col: sat_add_u16(l.end_col, indent),
                target: l.target,
            },
    )
}

/// The links of wrapped rows placed from document row `first` on (row
/// numbers cut to 16 bits, as painting numbers them).
pub open spec fn wrapped_links(rows: Seq<BlockRow>, first: int, indent: u16) -> Seq<RowLink>
    decreases rows.len(),
{
    if rows.len() == 0 {
        Seq::empty()
    } else {
        wrapped_links(rows.drop_last(), first, indent) + onto_row(
            rows.last().links@,
            (first + rows.len() - 1) as u16,
            indent,
        )
    }
}

/// The document after item `item` is added to `acc`.
///
/// A blank only separates: it adds a spacer after a line that is not one,
/// and nothing at the top of the document or after a spacer; wrapped and
/// rendered blocks
/// add their rows, indented, with their links moved onto the rows they
/// land on; an image records where it goes and reserves its rows.
pub open spec fn flatten_item(acc: FlatView, item: usize, block: MdBlock) -> FlatView {
    let n = acc.lines.len();
    match block {
        MdBlock::Blank => if n == 0 || acc.lines.last().spacer {
            acc
        } else {
            FlatView {
                lines: acc.lines.push(PlacedLine { source: LineSource::Blank, indent: 0, spacer: true }),
                ..acc
            }
        },
        MdBlock::Wrapped { indent, rows } => FlatView {
            lines: acc.lines + Seq::new(
                rows@.len(),
                |r: int|
                    PlacedLine {
                        source: LineSource::Row { item, row: r as usize },
                        indent,
                        spacer: indent == 0 && rows@[r].empty,
                    },
            ),
            links: acc.links + wrapped_links(rows@, n as int, indent),
            images: acc.images,
        },
        MdBlock::Rendered { indent, lines, links } => FlatView {
            lines: acc.lines + Seq::new(
                lines@.len(),
                |r: int|
                    PlacedLine {
                        source: LineSource::Row { item, row: r as usize },
                        indent,
                        spacer: indent == 0 && lines@[r],
                    },
            ),
            links: acc.links + shifted(
                links@,
                (if n <= u16::MAX { n } else { u16::MAX as nat }) as u16,
                indent,
            ),
            images: acc.images,
        },
        MdBlock::Image { indent, cols, rows } => FlatView {
            lines: acc.lines + Seq::new(
                rows as nat,
                |r: int| PlacedLine { source: LineSource::Reserved { item }, indent: 0, spacer: true },
            ),
            links: acc.links,
            images: acc.images.push(
                ImagePlace {
                    item,
                    row: (if n <= u16::MAX { n } else { u16::MAX as nat }) as u16,
                    indent,
                    cols,
                    rows,
                },
            ),
        },
    }
}

/// The document the items `items` flatten to.
pub open spec fn flattened(items: Seq<MdBlock>) -> FlatView
    decreases items.len(),
{
    if items.len() == 0 {
        FlatView { lines: Seq::empty(), links: Seq::empty(), images: Seq::empty() }
    } else {
        flatten_item(flattened(items.drop_last()), (items.len() - 1) as usize, items.last())
    }
}

fn push_row_links(out: &mut Vec<RowLink>, links: &Vec<RowLink>, line: u16, indent: u16)
    ensures
        final(out)@ == old(out)@ + onto_row(links@, line, indent),
{
    let ghost start = out@;
    let mut j: usize = 0;
    while j < links.len()
        invariant
            j <= links@.len(),
            out@ == start + onto_row(links@.take(j as int), line, indent),
        decreases links@.len() - j,
    {
        let l = links[j];
        out.push(
            RowLink {
                line,
                start_col: l.start_col.saturating_add(indent),
                end_col: l.end_col.saturating_add(indent),
                target: l.target,
            },
        );
        proof {
            assert(onto_row(links@.take(j + 1), line, indent) == onto_row(
                links@.take(j as int),
                line,
                indent,
            ).push(onto_row(links@, line, indent)[j as int]));
        }
        j = j + 1;
    }
    proof {
        assert(links@.take(links@.len() as int) == links@);
    }
}

fn push_shifted_links(out: &mut Vec<RowLink>, links: &Vec<RowLink>, base: u16, indent: u16)
    ensures
        final(out)@ == old(out)@ + shifted(links@, base, indent),
{
    let ghost start = out@;
    let mut j: usize = 0;
    while j < links.len()
        invariant
            j <= links@.len(),
            out@ == start + shifted(links@.take(j as int), base, indent),
        decreases links@.len() - j,
    {
        let l = links[j];
        out.push(
            RowLink {
                line: l.line.saturating_add(base),
                start_col: l.start_col.saturating_add(indent),
                end_col: l.end_col.saturating_add(indent),
                target: l.target,
            },
        );
        proof {
            assert(shifted(links@.take(j + 1), base, indent) == shifted(
                links@.take(j as int),
                base,
                indent,
            ).push(shifted(links@, base, indent)[j as int]));
        }
        j = j + 1;
    }
    proof {
        assert(links@.take(links@.len() as int) == links@);
    }
}

/// Add item `item`, a `block`, to the document being built.
fn flatten_one(doc: &mut Flattened, item: usize, block: &MdBlock)
    ensures
        final(doc)@ == flatten_item(old(doc)@, item, *block),
{
    let ghost acc = doc@;
    let n = doc.lines.len();
    match block {
        MdBlock::Blank => {
            let separates = n > 0 && !doc.lines[n - 1].spacer;
            if separates {
                doc.lines.push(PlacedLine { source: LineSource::Blank, indent: 0, spacer: true });
            }
        },
        MdBlock::Wrapped { indent, rows } => {
            let indent = *indent;
            let mut r: usize = 0;
            while r < rows.len()
                invariant
                    r <= rows@.len(),
                    n == acc.lines.len(),
                    doc@.images == acc.images,
                    doc@.lines == acc.lines + Seq::new(
                        r as nat,
                        |k: int|
                            PlacedLine {
                                source: LineSource::Row { item, row: k as usize },
                                indent,
                                spacer: indent == 0 && rows@[k].empty,
                            },
                    ),
                    doc@.links == acc.links + wrapped_links(rows@.take(r as int), n as int, indent),
                decreases rows@.len() - r,
            {
                let line = doc.lines.len() as u16;
                push_row_links(&mut doc.links, &rows[r].links, line, indent);
                doc.lines.push(
                    PlacedLine {
                        source: LineSource::Row { item, row: r },
                        indent,
                        spacer: indent == 0 && rows[r].empty,
                    },
                );
                proof {
                    assert(rows@.take(r + 1).drop_last() == rows@.take(r as int));
                    assert(doc@.links == acc.links + wrapped_links(
                        rows@.take(r + 1),
                        n as int,
                        indent,
                    ));
                    assert(doc@.lines == acc.lines + Seq::new(
                        (r + 1) as nat,
                        |k: int|
                            PlacedLine {
                                source: LineSource::Row { item, row: k as usize },
                                indent,
                                spacer: indent == 0 && rows@[k].empty,
                            },
                    ));
                }
                r = r + 1;
            }
            proof {
                assert(rows@.take(rows@.len() as int) == rows@);
                assert(doc@ =~= flatten_item(acc, item, *block));
            }
        },
        MdBlock::Rendered { indent, lines, links } => {
            let indent = *indent;
            let base: u16 = if n <= 65535 {
                n as u16
            } else {
                u16::MAX
            };
            push_shifted_links(&mut doc.links, links, base, indent);
            let mut r: usize = 0;
            while r < lines.len()
                invariant
                    r <= lines@.len(),
                    doc@.images == acc.images,
                    doc@.links == acc.links + shifted(
                        links@,
                        (if n <= u16::MAX { n as nat } else { u16::MAX as nat }) as u16,
                        indent,
                    ),
                    n == acc.lines.len(),
                    doc@.lines == acc.lines + Seq::new(
                        r as nat,
                        |k: int|
                            PlacedLine {
                                source: LineSource::Row { item, row: k as usize },
                                indent,
                                spacer: indent == 0 && lines@[k],
                            },
                    ),
                decreases lines@.len() - r,
            {
                doc.lines.push(
                    PlacedLine {
                        source: LineSource::Row { item, row: r },
                        indent,
                        spacer: indent == 0 && lines[r],
                    },
                );
                proof {
                    assert(doc@.lines == acc.lines + Seq::new(
                        (r + 1) as nat,
                        |k: int|
                            PlacedLine {
                                source: LineSource::Row { item, row: k as usize },
                                indent,
                                spacer: indent == 0 && lines@[k],
                            },
                    ));
                }
                r = r + 1;
            }
            proof {
                assert(doc@ =~= flatten_item(acc, item, *block));
            }
        },
        MdBlock::Image { indent, cols, rows } => {
            let row: u16 = if n <= 65535 {
                n as u16
            } else {
                u16::MAX
            };
            doc.images.push(ImagePlace { item, row, indent: *indent, cols: *cols, rows: *rows });
            let mut r: u16 = 0;
            while r < *rows
                invariant
                    r <= *rows,
                    n == acc.lines.len(),
                    doc@.links == acc.links,
                    doc@.images == acc.images.push(
                        ImagePlace { item, row, indent: *indent, cols: *cols, rows: *rows },
                    ),
                    doc@.lines == acc.lines + Seq::new(
                        r as nat,
                        |k: int| PlacedLine { source: LineSource::Reserved { item }, indent: 0, spacer: true },
                    ),
                decreases *rows - r,
            {
                doc.lines.push(PlacedLine { source: LineSource::Reserved { item }, indent: 0, spacer: true });
                proof {
                    assert(doc@.lines == acc.lines + Seq::new(
                        (r + 1) as nat,
                        |k: int| PlacedLine { source: LineSource::Reserved { item }, indent: 0, spacer: true },
                    ));
                }
                r = r + 1;
            }
            proof {
                assert(doc@ =~= flatten_item(acc, item, *block));
            }
        },
    }
}

/// Flatten a document's items into painted lines, hyperlink runs and image
/// places: blank items become single spacers between content (never two in
/// a row, and none at the top, even after a block that painted nothing),
/// each block's rows follow in
/// order under its indentation with its links moved onto the rows they land
/// on, and each image reserves its rows.
pub fn flatten_items(items: &[MdBlock]) -> (r: Flattened)
    ensures
        r@ == flattened(items@),
{
    let mut doc = Flattened { lines: Vec::new(), links: Vec::new(), images: Vec::new() };
    let mut i: usize = 0;
    while i < items.len()
        invariant
            i <= items@.len(),
            doc@ == flattened(items@.take(i as int)),
        decreases items@.len() - i,
    {
        flatten_one(&mut doc, i, &items[i]);
        proof {
            assert(items@.take(i + 1).drop_last() == items@.take(i as int));
        }
        i = i + 1;
    }
    proof {
        assert(items@.take(items@.len() as int) == items@);
    }
    doc
}

/// A blank item only separates: the spacer it adds never follows another
/// spacer, so blanks around a block that painted nothing leave one gap, not
/// two.
pub proof fn a_blank_never_doubles_a_gap(items: Seq<MdBlock>)
    ensures
        ({
            let lines = flattened(items).lines;
            forall|i: int|
                0 < i < lines.len() && #[trigger] lines[i].source == LineSource::Blank ==> !lines[i
                    - 1].spacer
        }),
    decreases items.len(),
{
    if items.len() > 0 {
        let before = flattened(items.drop_last());
        a_blank_never_doubles_a_gap(items.drop_last());
        let after = flattened(items);
        assert(after == flatten_item(before, (items.len() - 1) as usize, items.last()));
        assert forall|i: int|
            0 < i < after.lines.len() && #[trigger] after.lines[i].source
                == LineSource::Blank implies !after.lines[i - 1].spacer by {
            if i < before.lines.len() {
                assert(after.lines[i] == before.lines[i]);
                assert(after.lines[i - 1] == before.lines[i - 1]);
            }
        }
    }
}

/// A blank item never opens the document: whatever comes first (a block
/// that painted nothing, any number of blanks), the first line, if there is
/// one, is no spacer made by a blank.
pub proof fn a_blank_never_opens_the_document(items: Seq<MdBlock>)
    ensures
        flattened(items).lines.len() > 0 ==> flattened(items).lines[0].source != LineSource::Blank,
    decreases items.len(),
{
    if items.len() > 0 {
        let before = flattened(items.drop_last());
        a_blank_never_opens_the_document(items.drop_last());
        let after = flattened(items);
        assert(after == flatten_item(before, (items.len() - 1) as usize, items.last()));
        if before.lines.len() > 0 {
            assert(after.lines[0] == before.lines[0]);
        }
    }
}

/// A rendered block's hyperlink runs land where the block is painted: each
/// moves down to the row the block starts on (held at `u16::MAX`) and right
/// by the block's indent (held at `u16::MAX`), keeps its target, and follows
/// the runs already placed, which stay as they were.
pub proof fn rendered_links_land_under_the_indent(items: Seq<MdBlock>)
    requires
        items.len() > 0,
        items.last() is Rendered,
    ensures
        ({
            let before = flattened(items.drop_last());
            let after = flattened(items);
            let n = before.lines.len();
            let base = if n <= u16::MAX { n as int } else { u16::MAX as int };
            match items.last() {
                MdBlock::Rendered { indent, lines, links } => {
                    &&& after.links.len() == before.links.len() + links@.len()
                    &&& after.links.take(before.links.len() as int) == before.links
                    &&& forall|j: int|
                        0 <= j < links@.len() ==> {
                            let l = #[trigger] links@[j];
                            let placed = after.links[before.links.len() + j];
                            &&& placed.line as int == if l.line + base <= u16::MAX {
                                l.line + base
                            } else {
                                u16::MAX as int
                            }
                            &&& placed.start_col as int == if l.start_col + indent <= u16::MAX {
                                l.start_col + indent
                            } else {
                                u16::MAX as int
                            }
                            &&& placed.end_col as int == if l.end_col + indent <= u16::MAX {
                                l.end_col + indent
                            } else {
                                u16::MAX as int
                            }
                            &&& placed.target == l.target
                        }
                },
                _ => true,
            }
        }),
{
    let before = flattened(items.drop_last());
    let after = flattened(items);
    assert(after == flatten_item(before, (items.len() - 1) as usize, items.last()));
    match items.last() {
        MdBlock::Rendered { indent, lines, links } => {
            assert(after.links.take(before.links.len() as int) =~= before.links);
        },
        _ => {},
    }
}

/// The links of wrapped rows, row by row: row `r`'s runs follow those of
/// the rows before it.
proof fn wrapped_links_by_row(rows: Seq<BlockRow>, first: int, indent: u16, r: int)
    requires
        0 <= r < rows.len(),
    ensures
        wrapped_links(rows, first, indent).len() >= wrapped_links(rows.take(r), first, indent).len()
            + rows[r].links@.len(),
        forall|j: int|
            0 <= j < rows[r].links@.len() ==> wrapped_links(rows, first, indent)[wrapped_links(
                rows.take(r),
                first,
                indent,
            ).len() + j] == #[trigger] onto_row(rows[r].links@, (first + r) as u16, indent)[j],
    decreases rows.len(),
{
    if r == rows.len() - 1 {
        assert(rows.drop_last() == rows.take(r));
    } else {
        let init = rows.drop_last();
        assert(init.take(r) == rows.take(r));
        assert(init[r] == rows[r]);
        wrapped_links_by_row(init, first, indent, r);
    }
}

/// A wrapped block's hyperlink runs land on the row they were wrapped
/// onto, counted from where the block starts (cut to 16 bits), moved right
/// by the block's indent (held at `u16::MAX`), keeping their targets; the
/// runs already placed stay as they were.
pub proof fn wrapped_links_land_on_their_rows(items: Seq<MdBlock>, r: int, j: int)
    requires
        items.len() > 0,
        items.last() is Wrapped,
    ensures
        ({
            let before = flattened(items.drop_last());
            let after = flattened(items);
            match items.last() {
                MdBlock::Wrapped { indent, rows } => {
                    &&& after.links.take(before.links.len() as int) == before.links
                    &&& (0 <= r < rows@.len() && 0 <= j < rows@[r].links@.len()) ==> exists|k: int|
                        before.links.len() <= k < after.links.len() && {
                            let l = rows@[r].links@[j];
                            let placed = #[trigger] after.links[k];
                            &&& placed.line == (before.lines.len() + r) as u16
                            &&& placed.start_col as int == if l.start_col + indent <= u16::MAX {
                                l.start_col + indent
                            } else {
                                u16::MAX as int
                            }
                            &&& placed.end_col as int == if l.end_col + indent <= u16::MAX {
                                l.end_col + indent
                            } else {
                                u16::MAX as int
                            }
                            &&& placed.target == l.target
                        }
                },
                _ => true,
            }
        }),
{
    let before = flattened(items.drop_last());
    let after = flattened(items);
    assert(after == flatten_item(before, (items.len() - 1) as usize, items.last()));
    match items.last() {
        MdBlock::Wrapped { indent, rows } => {
            assert(after.links.take(before.links.len() as int) =~= before.links);
            if 0 <= r < rows@.len() && 0 <= j < rows@[r].links@.len() {
                let first = before.lines.len() as int;
                wrapped_links_by_row(rows@, first, indent, r);
                let k = before.links.len() + wrapped_links(rows@.take(r), first, indent).len() + j;
                let row_links = rows@[r].links@;
                let moved = onto_row(row_links, (first + r) as u16, indent);
                assert(moved[j] == onto_row(row_links, (first + r) as u16, indent)[j]);
                assert(k < after.links.len());
                assert(after.links[k] == wrapped_links(rows@, first, indent)[k
                    - before.links.len()]);
                assert(after.links[k] == moved[j]);
                assert(moved[j].line == (before.lines.len() + r) as u16);
                assert(moved[j].start_col == sat_add_u16(row_links[j].start_col, indent));
                assert(moved[j].end_col == sat_add_u16(row_links[j].end_col, indent));
                assert(moved[j].target == row_links[j].target);
            }
        },
        _ => {},
    }
}

} // verus!

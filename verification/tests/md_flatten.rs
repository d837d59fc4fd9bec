use tuika::components::md_flatten::{
    block_width, flatten_items, BlockRow, ImagePlace, LineSource, MdBlock, PlacedLine, RowLink,
};

fn link(line: u16, start_col: u16, end_col: u16, target: usize) -> RowLink {
    RowLink { line, start_col, end_col, target }
}

#[test]
fn blocks_stack_with_single_spacers_between_them_and_rebased_links() {
    let items = vec![
        MdBlock::Blank,
        MdBlock::Wrapped {
            indent: 2,
            rows: vec![
                BlockRow { empty: false, links: vec![link(0, 3, 5, 7)] },
                BlockRow { empty: true, links: vec![] },
            ],
        },
        MdBlock::Blank,
        MdBlock::Blank,
        MdBlock::Rendered { indent: 0, lines: vec![false, true], links: vec![link(1, 0, 4, 9)] },
        MdBlock::Image { indent: 1, cols: 4, rows: 2 },
        MdBlock::Blank,
    ];
    let doc = flatten_items(&items);
    let sources: Vec<LineSource> = doc.lines.iter().map(|l| l.source).collect();
    assert_eq!(
        sources,
        vec![
            LineSource::Row { item: 1, row: 0 },
            LineSource::Row { item: 1, row: 1 },
            LineSource::Blank,
            LineSource::Row { item: 4, row: 0 },
            LineSource::Row { item: 4, row: 1 },
            LineSource::Reserved { item: 5 },
            LineSource::Reserved { item: 5 },
        ]
    );
    // An empty row keeps its indentation, so it is no spacer; an unindented
    // empty line is.
    assert_eq!(doc.lines[1], PlacedLine { source: LineSource::Row { item: 1, row: 1 }, indent: 2, spacer: false });
    assert!(doc.lines[4].spacer);
    assert_eq!(doc.links, vec![link(0, 5, 7, 7), link(4, 0, 4, 9)]);
    assert_eq!(doc.images, vec![ImagePlace { item: 5, row: 5, indent: 1, cols: 4, rows: 2 }]);
}

#[test]
fn blocks_are_laid_out_to_what_their_indent_leaves() {
    assert_eq!(block_width(10, 3), 7);
    assert_eq!(block_width(3, 3), 1);
    assert_eq!(block_width(2, 5), 1);
}

#[test]
fn an_empty_document_has_no_lines() {
    let doc = flatten_items(&[]);
    assert!(doc.lines.is_empty() && doc.links.is_empty() && doc.images.is_empty());
}

#[test]
fn a_blank_after_a_block_that_painted_nothing_leaves_no_gap_at_the_top() {
    // A dropped HTML block renders no line at all.
    let items = vec![
        MdBlock::Rendered { indent: 0, lines: vec![], links: vec![] },
        MdBlock::Blank,
        MdBlock::Wrapped { indent: 0, rows: vec![BlockRow { empty: false, links: vec![] }] },
    ];
    let doc = flatten_items(&items);
    assert_eq!(doc.lines.len(), 1);
    assert_eq!(doc.lines[0].source, LineSource::Row { item: 2, row: 0 });
    // Blanks alone paint nothing.
    assert!(flatten_items(&[MdBlock::Blank, MdBlock::Blank]).lines.is_empty());
    // Between two paragraphs, a dropped block and its blanks leave one gap.
    let para = MdBlock::Wrapped { indent: 0, rows: vec![BlockRow { empty: false, links: vec![] }] };
    let items = vec![
        para.clone(),
        MdBlock::Blank,
        MdBlock::Rendered { indent: 0, lines: vec![], links: vec![] },
        MdBlock::Blank,
        para,
    ];
    let sources: Vec<LineSource> = flatten_items(&items).lines.iter().map(|l| l.source).collect();
    assert_eq!(
        sources,
        vec![LineSource::Row { item: 0, row: 0 }, LineSource::Blank, LineSource::Row { item: 4, row: 0 }]
    );
}

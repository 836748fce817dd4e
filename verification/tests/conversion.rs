use docx2md::ast::BlockNode;
use docx2md::context::ConversionContext;
use docx2md::converter::DocxToMarkdown;
use docx2md::doc::{
    BodyContent, CellContent, Document, HyperlinkNode, InlineContent, ListLevelDef, NumberingRef,
    ParagraphItem, ParagraphNode, RunNode, SdtNode, StyleDef, TableCellNode, TableNode,
    TableRowNode,
};
use docx2md::error::ConvertError;
use docx2md::extractor::DocxExtractor;
use docx2md::image::ImageExtractor;
use docx2md::localization::{KoreanLocalization, LocalizationStrategy};
use docx2md::numbering::NumberingResolver;
use docx2md::options::{ConvertOptions, ImageHandling};
use docx2md::rels::{build_relationship_map, resolve_hyperlink, RelationshipMap};
use docx2md::styles::StyleResolver;

fn text_run(s: &str) -> RunNode {
    RunNode {
        bold: false,
        italic: false,
        underline: false,
        strike: false,
        content: vec![InlineContent::Text(String::from(s))],
    }
}

fn para_of(items: Vec<ParagraphItem>) -> ParagraphNode {
    ParagraphNode { style_id: None, numbering: None, content: items }
}

fn text_para(s: &str) -> ParagraphNode {
    para_of(vec![ParagraphItem::Run(text_run(s))])
}

fn doc_of(body: Vec<BodyContent>) -> Document {
    Document {
        body,
        rels: vec![],
        styles: vec![],
        list_defs: vec![],
        footnote_defs: vec![],
        endnote_defs: vec![],
        comment_defs: vec![],
        images: vec![],
    }
}

fn empty_ctx() -> ConversionContext<KoreanLocalization> {
    ConversionContext {
        rels: RelationshipMap { pairs: vec![] },
        numbering: NumberingResolver::new(vec![]),
        image_extractor: ImageExtractor::new_skip(),
        options: ConvertOptions { image_handling: ImageHandling::Skip },
        footnotes: vec![],
        endnotes: vec![],
        comments: vec![],
        doc_footnotes: vec![],
        doc_endnotes: vec![],
        doc_comments: vec![],
        style_resolver: StyleResolver::new(vec![]),
        localization: KoreanLocalization,
    }
}

fn simple_table(cells: Vec<Vec<&str>>) -> TableNode {
    TableNode {
        rows: cells
            .into_iter()
            .map(|row| TableRowNode {
                cells: row
                    .into_iter()
                    .map(|c| TableCellNode {
                        header: false,
                        content: vec![CellContent::Paragraph(text_para(c))],
                    })
                    .collect(),
            })
            .collect(),
    }
}

#[test]
fn hello_paragraph() {
    let conv = DocxToMarkdown::with_defaults();
    let out = conv.convert(doc_of(vec![BodyContent::Paragraph(text_para("Hello"))])).unwrap();
    assert_eq!(out, "Hello\n\n");
}

#[test]
fn empty_paragraph_suppressed() {
    let conv = DocxToMarkdown::with_defaults();
    let out = conv.convert(doc_of(vec![BodyContent::Paragraph(text_para(""))])).unwrap();
    assert_eq!(out, "");
}

#[test]
fn empty_table_still_emitted() {
    let conv = DocxToMarkdown::with_defaults();
    let out = conv.convert(doc_of(vec![BodyContent::Table(TableNode { rows: vec![] })])).unwrap();
    assert_eq!(out, "<table></table>\n\n");
}

#[test]
fn block_order_is_source_order() {
    let body = vec![
        BodyContent::Paragraph(text_para("first")),
        BodyContent::Table(simple_table(vec![vec!["x"]])),
        BodyContent::Paragraph(text_para("second")),
    ];
    let mut ctx = empty_ctx();
    let ast = DocxExtractor.extract(&body, &mut ctx).unwrap();
    assert_eq!(ast.blocks.len(), 3);
    match &ast.blocks[0] {
        BlockNode::Paragraph(s) => assert_eq!(s, "first"),
        _ => panic!("expected a paragraph block first"),
    }
    match &ast.blocks[1] {
        BlockNode::TableHtml(s) => assert_eq!(s, "<table><tr><td>x</td></tr></table>"),
        _ => panic!("expected a table block second"),
    }
    match &ast.blocks[2] {
        BlockNode::Paragraph(s) => assert_eq!(s, "second"),
        _ => panic!("expected a paragraph block third"),
    }
}

#[test]
fn sdt_wrapper_is_transparent() {
    let conv = DocxToMarkdown::with_defaults();
    let wrapped = doc_of(vec![BodyContent::Sdt(SdtNode {
        content: Some(vec![
            BodyContent::Paragraph(text_para("a")),
            BodyContent::Paragraph(text_para("b")),
        ]),
    })]);
    let flat = doc_of(vec![
        BodyContent::Paragraph(text_para("a")),
        BodyContent::Paragraph(text_para("b")),
    ]);
    assert_eq!(conv.convert(wrapped).unwrap(), conv.convert(flat).unwrap());
}

#[test]
fn sdt_without_content_is_nothing() {
    let conv = DocxToMarkdown::with_defaults();
    let out = conv.convert(doc_of(vec![BodyContent::Sdt(SdtNode { content: None })])).unwrap();
    assert_eq!(out, "");
}

#[test]
fn bookmark_anchor_is_escaped() {
    let body = vec![BodyContent::BookmarkStart(Some(String::from("a<b>&\"c")))];
    let mut ctx = empty_ctx();
    let ast = DocxExtractor.extract(&body, &mut ctx).unwrap();
    assert_eq!(ast.blocks.len(), 1);
    match &ast.blocks[0] {
        BlockNode::RawHtml(s) => {
            assert_eq!(s, "<a id=\"a&lt;b&gt;&amp;&quot;c\"></a>");
        },
        _ => panic!("expected a raw HTML anchor block"),
    }
}

#[test]
fn nameless_bookmark_emits_nothing() {
    let body = vec![BodyContent::BookmarkStart(None), BodyContent::BookmarkEnd];
    let mut ctx = empty_ctx();
    let ast = DocxExtractor.extract(&body, &mut ctx).unwrap();
    assert_eq!(ast.blocks.len(), 0);
}

#[test]
fn footnote_marker_reused_for_duplicate_reference() {
    let conv = DocxToMarkdown::with_defaults();
    let mut d = doc_of(vec![BodyContent::Paragraph(para_of(vec![ParagraphItem::Run(RunNode {
        bold: false,
        italic: false,
        underline: false,
        strike: false,
        content: vec![
            InlineContent::Text(String::from("A")),
            InlineContent::FootnoteRef(String::from("1")),
            InlineContent::FootnoteRef(String::from("1")),
        ],
    })]))]);
    d.footnote_defs = vec![(String::from("1"), String::from("Note one"))];
    let out = conv.convert(d).unwrap();
    assert_eq!(out, "A[^1][^1]\n\n\n\n---\n\n[^1]: Note one\n");
}

#[test]
fn footnote_markers_in_first_reference_order() {
    let conv = DocxToMarkdown::with_defaults();
    let mut d = doc_of(vec![BodyContent::Paragraph(para_of(vec![ParagraphItem::Run(RunNode {
        bold: false,
        italic: false,
        underline: false,
        strike: false,
        content: vec![
            InlineContent::FootnoteRef(String::from("7")),
            InlineContent::FootnoteRef(String::from("2")),
        ],
    })]))]);
    d.footnote_defs = vec![
        (String::from("2"), String::from("second")),
        (String::from("7"), String::from("seventh")),
    ];
    let out = conv.convert(d).unwrap();
    assert_eq!(out, "[^1][^2]\n\n\n\n---\n\n[^1]: seventh\n[^2]: second\n");
}

#[test]
fn endnote_and_comment_markers() {
    let conv = DocxToMarkdown::with_defaults();
    let mut d = doc_of(vec![BodyContent::Paragraph(para_of(vec![ParagraphItem::Run(RunNode {
        bold: false,
        italic: false,
        underline: false,
        strike: false,
        content: vec![
            InlineContent::EndnoteRef(String::from("5")),
            InlineContent::CommentRef(String::from("9")),
            InlineContent::CommentRef(String::from("9")),
        ],
    })]))]);
    d.endnote_defs = vec![(String::from("5"), String::from("an endnote"))];
    d.comment_defs = vec![(String::from("9"), String::from("a comment"))];
    let out = conv.convert(d).unwrap();
    assert_eq!(out, "[^en1][^c9][^c9]\n\n\n\n---\n\n[^en1]: an endnote\n[^c9]: a comment\n");
}

#[test]
fn unknown_note_reference_renders_nothing() {
    let conv = DocxToMarkdown::with_defaults();
    let d = doc_of(vec![BodyContent::Paragraph(para_of(vec![ParagraphItem::Run(RunNode {
        bold: false,
        italic: false,
        underline: false,
        strike: false,
        content: vec![InlineContent::FootnoteRef(String::from("99"))],
    })]))]);
    let out = conv.convert(d).unwrap();
    assert_eq!(out, "");
}

#[test]
fn hyperlink_resolves_to_markdown_link() {
    let conv = DocxToMarkdown::with_defaults();
    let mut d = doc_of(vec![BodyContent::Paragraph(para_of(vec![ParagraphItem::Hyperlink(
        HyperlinkNode {
            rel_id: Some(String::from("rId1")),
            runs: vec![text_run("link text")],
        },
    )]))]);
    d.rels = vec![(String::from("rId1"), String::from("https://example.com/"))];
    let out = conv.convert(d).unwrap();
    assert_eq!(out, "[link text](https://example.com/)\n\n");
}

#[test]
fn unresolved_hyperlink_is_an_error() {
    let conv = DocxToMarkdown::with_defaults();
    let d = doc_of(vec![BodyContent::Paragraph(para_of(vec![ParagraphItem::Hyperlink(
        HyperlinkNode { rel_id: Some(String::from("rId9")), runs: vec![text_run("x")] },
    )]))]);
    match conv.convert(d) {
        Err(ConvertError::UnresolvedRelationship(id)) => assert_eq!(id, "rId9"),
        _ => panic!("expected an unresolved-relationship error"),
    }
}

#[test]
fn anchor_only_hyperlink_keeps_text() {
    let conv = DocxToMarkdown::with_defaults();
    let d = doc_of(vec![BodyContent::Paragraph(para_of(vec![ParagraphItem::Hyperlink(
        HyperlinkNode { rel_id: None, runs: vec![text_run("plain")] },
    )]))]);
    assert_eq!(conv.convert(d).unwrap(), "plain\n\n");
}

#[test]
fn emphasis_nesting_order() {
    let conv = DocxToMarkdown::with_defaults();
    let d = doc_of(vec![BodyContent::Paragraph(para_of(vec![ParagraphItem::Run(RunNode {
        bold: true,
        italic: true,
        underline: true,
        strike: true,
        content: vec![InlineContent::Text(String::from("x"))],
    })]))]);
    assert_eq!(conv.convert(d).unwrap(), "***<u>~~x~~</u>***\n\n");
}

#[test]
fn bold_strike_wraps_outside_in() {
    let conv = DocxToMarkdown::with_defaults();
    let d = doc_of(vec![BodyContent::Paragraph(para_of(vec![ParagraphItem::Run(RunNode {
        bold: true,
        italic: false,
        underline: false,
        strike: true,
        content: vec![InlineContent::Text(String::from("x"))],
    })]))]);
    assert_eq!(conv.convert(d).unwrap(), "**~~x~~**\n\n");
}

#[test]
fn empty_styled_run_emits_no_markers() {
    let conv = DocxToMarkdown::with_defaults();
    let d = doc_of(vec![BodyContent::Paragraph(para_of(vec![ParagraphItem::Run(RunNode {
        bold: true,
        italic: true,
        underline: false,
        strike: false,
        content: vec![InlineContent::Text(String::from(""))],
    })]))]);
    assert_eq!(conv.convert(d).unwrap(), "");
}

#[test]
fn heading_style_renders_hashes() {
    let conv = DocxToMarkdown::with_defaults();
    let mut d = doc_of(vec![BodyContent::Paragraph(ParagraphNode {
        style_id: Some(String::from("H2")),
        numbering: None,
        content: vec![ParagraphItem::Run(text_run("Title"))],
    })]);
    d.styles = vec![StyleDef {
        id: String::from("H2"),
        based_on: None,
        heading_level: Some(2),
    }];
    assert_eq!(conv.convert(d).unwrap(), "## Title\n\n");
}

#[test]
fn heading_level_inherited_through_based_on() {
    let conv = DocxToMarkdown::with_defaults();
    let mut d = doc_of(vec![BodyContent::Paragraph(ParagraphNode {
        style_id: Some(String::from("D")),
        numbering: None,
        content: vec![ParagraphItem::Run(text_run("t"))],
    })]);
    d.styles = vec![
        StyleDef { id: String::from("B"), based_on: None, heading_level: Some(3) },
        StyleDef { id: String::from("D"), based_on: Some(String::from("B")), heading_level: None },
    ];
    assert_eq!(conv.convert(d).unwrap(), "### t\n\n");
}

fn listed(s: &str, num_id: u64, level: u64) -> BodyContent {
    BodyContent::Paragraph(ParagraphNode {
        style_id: None,
        numbering: Some(NumberingRef { num_id, level }),
        content: vec![ParagraphItem::Run(text_run(s))],
    })
}

#[test]
fn ordered_list_counts_and_resets_deeper_levels() {
    let conv = DocxToMarkdown::with_defaults();
    let mut d = doc_of(vec![
        listed("a", 5, 0),
        listed("b", 5, 0),
        listed("c", 5, 1),
        listed("d", 5, 0),
        listed("e", 5, 1),
    ]);
    d.list_defs = vec![
        ListLevelDef { num_id: 5, level: 0, ordered: true },
        ListLevelDef { num_id: 5, level: 1, ordered: true },
    ];
    let out = conv.convert(d).unwrap();
    assert_eq!(out, "1. a\n\n2. b\n\n  1. c\n\n3. d\n\n  1. e\n\n");
}

#[test]
fn undefined_list_level_renders_bullet() {
    let conv = DocxToMarkdown::with_defaults();
    let d = doc_of(vec![listed("x", 3, 0)]);
    assert_eq!(conv.convert(d).unwrap(), "- x\n\n");
}

#[test]
fn image_skipped_under_default_policy() {
    let conv = DocxToMarkdown::with_defaults();
    let mut d = doc_of(vec![BodyContent::Paragraph(para_of(vec![ParagraphItem::Run(RunNode {
        bold: false,
        italic: false,
        underline: false,
        strike: false,
        content: vec![InlineContent::Image(String::from("rId2"))],
    })]))]);
    d.images = vec![(String::from("rId2"), String::from("img/pic.png"))];
    assert_eq!(conv.convert(d).unwrap(), "");
}

#[test]
fn image_saved_to_dir_renders_reference() {
    let conv = DocxToMarkdown::new(ConvertOptions {
        image_handling: ImageHandling::SaveToDir(String::from("img")),
    });
    let mut d = doc_of(vec![BodyContent::Paragraph(para_of(vec![ParagraphItem::Run(RunNode {
        bold: false,
        italic: false,
        underline: false,
        strike: false,
        content: vec![InlineContent::Image(String::from("rId2"))],
    })]))]);
    d.images = vec![(String::from("rId2"), String::from("img/pic.png"))];
    assert_eq!(conv.convert(d).unwrap(), "![image](img/pic.png)\n\n");
}

#[test]
fn table_cell_text_is_html_escaped() {
    let conv = DocxToMarkdown::with_defaults();
    let d = doc_of(vec![BodyContent::Table(simple_table(vec![vec!["a<b"]]))]);
    assert_eq!(conv.convert(d).unwrap(), "<table><tr><td>a&lt;b</td></tr></table>\n\n");
}

#[test]
fn header_cell_renders_th() {
    let conv = DocxToMarkdown::with_defaults();
    let t = TableNode {
        rows: vec![TableRowNode {
            cells: vec![TableCellNode {
                header: true,
                content: vec![CellContent::Paragraph(text_para("h"))],
            }],
        }],
    };
    let d = doc_of(vec![BodyContent::Table(t)]);
    assert_eq!(conv.convert(d).unwrap(), "<table><tr><th>h</th></tr></table>\n\n");
}

#[test]
fn nested_table_recurses() {
    let conv = DocxToMarkdown::with_defaults();
    let inner = simple_table(vec![vec!["i"]]);
    let t = TableNode {
        rows: vec![TableRowNode {
            cells: vec![TableCellNode { header: false, content: vec![CellContent::Table(inner)] }],
        }],
    };
    let d = doc_of(vec![BodyContent::Table(t)]);
    assert_eq!(
        conv.convert(d).unwrap(),
        "<table><tr><td><table><tr><td>i</td></tr></table></td></tr></table>\n\n"
    );
}

#[test]
fn bare_run_becomes_paragraph_block() {
    let body = vec![BodyContent::Run(text_run("loose"))];
    let mut ctx = empty_ctx();
    let ast = DocxExtractor.extract(&body, &mut ctx).unwrap();
    assert_eq!(ast.blocks.len(), 1);
    match &ast.blocks[0] {
        BlockNode::Paragraph(s) => assert_eq!(s, "loose"),
        _ => panic!("expected a paragraph block"),
    }
}

#[test]
fn table_cell_at_body_level_extracts_contents() {
    let body = vec![BodyContent::TableCell(TableCellNode {
        header: false,
        content: vec![
            CellContent::Paragraph(text_para("p")),
            CellContent::Table(simple_table(vec![vec!["q"]])),
        ],
    })];
    let mut ctx = empty_ctx();
    let ast = DocxExtractor.extract(&body, &mut ctx).unwrap();
    assert_eq!(ast.blocks.len(), 2);
    assert!(matches!(&ast.blocks[0], BlockNode::Paragraph(s) if s == "p"));
    assert!(matches!(&ast.blocks[1], BlockNode::TableHtml(_)));
}

#[test]
fn end_to_end_document() {
    let conv = DocxToMarkdown::with_defaults();
    let mut d = doc_of(vec![
        BodyContent::Paragraph(text_para("Hello")),
        BodyContent::Table(simple_table(vec![vec!["a", "b"], vec!["c", "d"]])),
        BodyContent::Paragraph(para_of(vec![ParagraphItem::Run(RunNode {
            bold: false,
            italic: false,
            underline: false,
            strike: false,
            content: vec![
                InlineContent::Text(String::from("World")),
                InlineContent::FootnoteRef(String::from("1")),
            ],
        })])),
    ]);
    d.footnote_defs = vec![(String::from("1"), String::from("the footnote text"))];
    let out = conv.convert(d).unwrap();
    assert!(out.contains("Hello"));
    assert_eq!(out.matches("<tr>").count(), 2);
    assert!(out.contains("World[^1]"));
    assert!(out.contains("---"));
    assert!(out.contains("[^1]: the footnote text"));
}

#[test]
fn footnote_inside_table_cell_is_collected() {
    let conv = DocxToMarkdown::with_defaults();
    let cell_para = para_of(vec![ParagraphItem::Run(RunNode {
        bold: false,
        italic: false,
        underline: false,
        strike: false,
        content: vec![
            InlineContent::Text(String::from("cell")),
            InlineContent::FootnoteRef(String::from("4")),
        ],
    })]);
    let t = TableNode {
        rows: vec![TableRowNode {
            cells: vec![TableCellNode {
                header: false,
                content: vec![CellContent::Paragraph(cell_para)],
            }],
        }],
    };
    let mut d = doc_of(vec![BodyContent::Table(t)]);
    d.footnote_defs = vec![(String::from("4"), String::from("from a cell"))];
    let out = conv.convert(d).unwrap();
    assert_eq!(
        out,
        "<table><tr><td>cell[^1]</td></tr></table>\n\n\n\n---\n\n[^1]: from a cell\n"
    );
}

#[test]
fn localization_labels() {
    let loc = KoreanLocalization;
    assert_eq!(loc.ordered_label(3), "3. ");
    assert_eq!(loc.bullet(), "- ");
    assert_eq!(loc.note_marker(12), "[^12]");
}

#[test]
fn escape_html_replaces_specials() {
    assert_eq!(docx2md::strutil::escape_html("a<b>&\"c"), "a&lt;b&gt;&amp;&quot;c");
    assert_eq!(docx2md::strutil::escape_html("plain"), "plain");
    assert_eq!(docx2md::strutil::escape_html(""), "");
}

#[test]
fn decimal_rendering() {
    assert_eq!(docx2md::strutil::dec_string(0), "0");
    assert_eq!(docx2md::strutil::dec_string(10), "10");
    assert_eq!(docx2md::strutil::dec_string(90210), "90210");
}

#[test]
fn relationship_lookup() {
    let m = build_relationship_map(vec![
        (String::from("rId1"), String::from("https://a/")),
        (String::from("rId2"), String::from("https://b/")),
    ]);
    assert_eq!(m.get(&String::from("rId2")), Some(String::from("https://b/")));
    assert_eq!(resolve_hyperlink(&m, &String::from("rId1")), Some(String::from("https://a/")));
    assert_eq!(m.get(&String::from("rId3")), None);
}

#[test]
fn numbering_resolver_advances_and_resets() {
    let mut n = NumberingResolver::new(vec![ListLevelDef { num_id: 1, level: 0, ordered: true }]);
    assert!(n.is_ordered(1, 0));
    assert!(!n.is_ordered(1, 1));
    assert_eq!(n.advance(1, 0), 1);
    assert_eq!(n.advance(1, 0), 2);
    assert_eq!(n.advance(1, 1), 1);
    assert_eq!(n.advance(1, 1), 2);
    assert_eq!(n.advance(1, 0), 3);
    assert_eq!(n.advance(1, 1), 1);
}

#[test]
fn image_extractor_policies() {
    let table = vec![(String::from("rId7"), String::from("media/x.png"))];
    let save = ImageExtractor::new_with_dir(table.clone());
    assert_eq!(save.extract(&String::from("rId7")), Some(String::from("![image](media/x.png)")));
    assert_eq!(save.extract(&String::from("rId8")), None);
    let skip = ImageExtractor::new_skip();
    assert_eq!(skip.extract(&String::from("rId7")), None);
}

#[test]
fn error_messages() {
    let p = ConvertError::Parse(String::from("bad zip"));
    assert_eq!(p.message(), "could not parse the document package");
    let u = ConvertError::UnresolvedRelationship(String::from("rId1"));
    assert_eq!(u.message(), "a hyperlink references an unknown relationship");
}

#[test]
fn default_options_skip_images() {
    let conv = DocxToMarkdown::with_defaults();
    assert!(matches!(conv.options.image_handling, ImageHandling::Skip));
}

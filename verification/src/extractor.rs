//! The AST extractor: recursive descent over body content that dispatches
//! each node kind to the appropriate converter and assembles the document
//! AST in source order. Empty paragraphs and empty bare runs produce no
//! block; a table always produces its `TableHtml` block; a structured-content
//! wrapper is flattened transparently; a named bookmark start becomes a raw
//! HTML anchor with the name escaped; bookmark ends and unrecognized node
//! kinds are silently ignored. The first conversion error aborts the whole
//! extraction.

use vstd::prelude::*;
use crate::ast::{BlockNode, BlockView, DocumentAst};
use crate::context::{ConvEnv, ConvState, ConversionContext};
use crate::doc::{BodyContent, CellContent};
use crate::error::ConvertError;
use crate::localization::LocalizationStrategy;
use crate::paragraph::{conv_paragraph, ParagraphConverter};
use crate::run::{conv_run, RunConverter};
use crate::strutil::{escape_html, escape_seq};
use crate::table::{conv_table, TableConverter};

verus! {

/// The anchor fragment a named bookmark start renders as.
pub open spec fn anchor_html(name: Seq<char>) -> Seq<char> {
    "<a id=\""@ + escape_seq(name) + "\"></a>"@
}

/// The blocks one cell content item contributes at block level: a paragraph
/// block unless the paragraph renders empty, a table block always.
pub open spec fn extract_cell_item<L: LocalizationStrategy>(
    item: CellContent,
    env: ConvEnv<L>,
    st: ConvState,
) -> Option<(Seq<BlockView>, ConvState)> {
    match item {
        CellContent::Paragraph(p) => match conv_paragraph(p, env, st) {
            None => None,
            Some((m, st1)) => Some(
                (
                    if m.len() == 0 {
                        Seq::<BlockView>::empty()
                    } else {
                        seq![BlockView::Paragraph(m)]
                    },
                    st1,
                ),
            ),
        },
        CellContent::Table(t) => match conv_table(t, env, st) {
            None => None,
            Some((m, st1)) => Some((seq![BlockView::TableHtml(m)], st1)),
        },
    }
}

/// The blocks of a table cell's content items, in order.
pub open spec fn extract_cell_items<L: LocalizationStrategy>(
    items: Seq<CellContent>,
    env: ConvEnv<L>,
    st: ConvState,
) -> Option<(Seq<BlockView>, ConvState)>
    decreases items.len(),
{
    if items.len() == 0 {
        Some((Seq::<BlockView>::empty(), st))
    } else {
        match extract_cell_item(items[0], env, st) {
            None => None,
            Some((bs, st1)) => match extract_cell_items(items.drop_first(), env, st1) {
                None => None,
                Some((rest, st2)) => Some((bs + rest, st2)),
            },
        }
    }
}

/// The blocks one body content node contributes.
pub open spec fn extract_content<L: LocalizationStrategy>(
    c: BodyContent,
    env: ConvEnv<L>,
    st: ConvState,
) -> Option<(Seq<BlockView>, ConvState)>
    decreases c,
{
    match c {
        BodyContent::Paragraph(p) => match conv_paragraph(p, env, st) {
            None => None,
            Some((m, st1)) => Some(
                (
                    if m.len() == 0 {
                        Seq::<BlockView>::empty()
                    } else {
                        seq![BlockView::Paragraph(m)]
                    },
                    st1,
                ),
            ),
        },
        BodyContent::Table(t) => match conv_table(t, env, st) {
            None => None,
            Some((m, st1)) => Some((seq![BlockView::TableHtml(m)], st1)),
        },
        BodyContent::Run(r) => {
            let (m, st1) = conv_run(r, env, st, None);
            Some(
                (
                    if m.len() == 0 {
                        Seq::<BlockView>::empty()
                    } else {
                        seq![BlockView::Paragraph(m)]
                    },
                    st1,
                ),
            )
        },
        BodyContent::TableCell(cell) => extract_cell_items(cell.content@, env, st),
        BodyContent::Sdt(s) => match s.content {
            None => Some((Seq::<BlockView>::empty(), st)),
            Some(children) => extract_contents(children@, env, st),
        },
        BodyContent::BookmarkStart(name) => Some(
            (
                match name {
                    Some(n) => seq![BlockView::RawHtml(anchor_html(n@))],
                    None => Seq::<BlockView>::empty(),
                },
                st,
            ),
        ),
        BodyContent::BookmarkEnd => Some((Seq::<BlockView>::empty(), st)),
        BodyContent::Unsupported => Some((Seq::<BlockView>::empty(), st)),
    }
}

/// The blocks of a whole body content sequence, in source order.
pub open spec fn extract_contents<L: LocalizationStrategy>(
    cs: Seq<BodyContent>,
    env: ConvEnv<L>,
    st: ConvState,
) -> Option<(Seq<BlockView>, ConvState)>
    decreases cs,
{
    if cs.len() == 0 {
        Some((Seq::<BlockView>::empty(), st))
    } else {
        match extract_content(cs[0], env, st) {
            None => None,
            Some((bs, st1)) => match extract_contents(cs.drop_first(), env, st1) {
                None => None,
                Some((rest, st2)) => Some((bs + rest, st2)),
            },
        }
    }
}

/// Whether `res` says: the blocks grew from `before` to `after` by exactly
/// the extracted blocks, and the state ended as `st2`.
pub open spec fn grows_to(
    res: Option<(Seq<BlockView>, ConvState)>,
    before: Seq<BlockView>,
    after: Seq<BlockView>,
    st2: ConvState,
) -> bool {
    match res {
        Some((bs, st)) => after == before + bs && st2 == st,
        None => false,
    }
}

/// Extracts the document AST from body content by recursive descent.
#[derive(Debug, Default, Clone, Copy)]
pub struct DocxExtractor;

impl DocxExtractor {
    /// Walks a whole body content sequence into a document AST; `Err`
    /// exactly when some hyperlink carries an unknown relationship id.
    pub fn extract<L: LocalizationStrategy>(
        &self,
        body: &Vec<BodyContent>,
        ctx: &mut ConversionContext<L>,
    ) -> (r: Result<DocumentAst, ConvertError>)
        ensures
            final(ctx).spec_env() == old(ctx).spec_env(),
            match r {
                Ok(ast) => grows_to(
                    extract_contents(body@, old(ctx).spec_env(), old(ctx).spec_state()),
                    Seq::<BlockView>::empty(),
                    ast.view_blocks(),
                    final(ctx).spec_state(),
                ),
                Err(e) => extract_contents(body@, old(ctx).spec_env(), old(ctx).spec_state())
                    is None && e is UnresolvedRelationship,
            },
    {
        let mut ast = DocumentAst::empty();
        proof {
            assert(body@.skip(0) =~= body@);
        }
        match self.extract_contents_from(body, 0, ctx, &mut ast) {
            Ok(_) => Ok(ast),
            Err(e) => Err(e),
        }
    }

    fn extract_table_cell<L: LocalizationStrategy>(
        &self,
        items: &Vec<CellContent>,
        i: usize,
        ctx: &mut ConversionContext<L>,
        output: &mut DocumentAst,
    ) -> (r: Result<(), ConvertError>)
        requires
            i <= items@.len(),
        ensures
            final(ctx).spec_env() == old(ctx).spec_env(),
            match r {
                Ok(_) => grows_to(
                    extract_cell_items(
                        items@.skip(i as int),
                        old(ctx).spec_env(),
                        old(ctx).spec_state(),
                    ),
                    old(output).view_blocks(),
                    final(output).view_blocks(),
                    final(ctx).spec_state(),
                ),
                Err(e) => extract_cell_items(
                    items@.skip(i as int),
                    old(ctx).spec_env(),
                    old(ctx).spec_state(),
                ) is None && e is UnresolvedRelationship,
            },
        decreases items@.len() - i,
    {
        if i == items.len() {
            proof {
                assert(items@.skip(i as int) =~= Seq::<CellContent>::empty());
                assert(old(output).view_blocks() + Seq::<BlockView>::empty() =~= old(
                    output,
                ).view_blocks());
            }
            return Ok(());
        }
        proof {
            assert(items@.skip(i as int)[0] == items@[i as int]);
            assert(items@.skip(i as int).drop_first() =~= items@.skip(i as int + 1));
        }
        match &items[i] {
            CellContent::Paragraph(p) => match ParagraphConverter::convert(p, ctx) {
                Err(e) => {
                    return Err(e);
                },
                Ok(converted) => {
                    if converted.as_str().unicode_len() != 0 {
                        let ghost before = output.view_blocks();
                        let ghost cv = converted@;
                        output.blocks.push(BlockNode::Paragraph(converted));
                        proof {
                            assert(output.view_blocks() =~= before + seq![BlockView::Paragraph(cv)]);
                        }
                    } else {
                        proof {
                            assert(output.view_blocks() + Seq::<BlockView>::empty()
                                =~= output.view_blocks());
                        }
                    }
                },
            },
            CellContent::Table(t) => match TableConverter::convert(t, ctx) {
                Err(e) => {
                    return Err(e);
                },
                Ok(converted) => {
                    let ghost before = output.view_blocks();
                    let ghost cv = converted@;
                    output.blocks.push(BlockNode::TableHtml(converted));
                    proof {
                        assert(output.view_blocks() =~= before + seq![BlockView::TableHtml(cv)]);
                    }
                },
            },
        }
        let ghost mid_blocks = output.view_blocks();
        let r = self.extract_table_cell(items, i + 1, ctx, output);
        proof {
            if r is Ok {
                assert(final(output).view_blocks() =~= old(output).view_blocks() + (
                extract_cell_items(
                    items@.skip(i as int),
                    old(ctx).spec_env(),
                    old(ctx).spec_state(),
                )->Some_0.0));
            }
        }
        r
    }

    fn extract_contents_from<L: LocalizationStrategy>(
        &self,
        cs: &Vec<BodyContent>,
        i: usize,
        ctx: &mut ConversionContext<L>,
        output: &mut DocumentAst,
    ) -> (r: Result<(), ConvertError>)
        requires
            i <= cs@.len(),
        ensures
            final(ctx).spec_env() == old(ctx).spec_env(),
            match r {
                Ok(_) => grows_to(
                    extract_contents(
                        cs@.skip(i as int),
                        old(ctx).spec_env(),
                        old(ctx).spec_state(),
                    ),
                    old(output).view_blocks(),
                    final(output).view_blocks(),
                    final(ctx).spec_state(),
                ),
                Err(e) => extract_contents(
                    cs@.skip(i as int),
                    old(ctx).spec_env(),
                    old(ctx).spec_state(),
                ) is None && e is UnresolvedRelationship,
            },
        decreases cs@.skip(i as int), 1int,
    {
        if i == cs.len() {
            proof {
                assert(cs@.skip(i as int) =~= Seq::<BodyContent>::empty());
                assert(old(output).view_blocks() + Seq::<BlockView>::empty() =~= old(
                    output,
                ).view_blocks());
            }
            return Ok(());
        }
        proof {
            assert(cs@.skip(i as int)[0] == cs@[i as int]);
            assert(cs@.skip(i as int).drop_first() =~= cs@.skip(i as int + 1));
            vstd::seq::axiom_seq_len_decreases(cs@.skip(i as int), cs@.skip(i as int + 1));
        }
        match self.extract_content(&cs[i], ctx, output) {
            Err(e) => {
                return Err(e);
            },
            Ok(_) => {},
        }
        let r = self.extract_contents_from(cs, i + 1, ctx, output);
        proof {
            if r is Ok {
                assert(final(output).view_blocks() =~= old(output).view_blocks() + (
                extract_contents(
                    cs@.skip(i as int),
                    old(ctx).spec_env(),
                    old(ctx).spec_state(),
                )->Some_0.0));
            }
        }
        r
    }

    fn extract_content<L: LocalizationStrategy>(
        &self,
        content: &BodyContent,
        ctx: &mut ConversionContext<L>,
        output: &mut DocumentAst,
    ) -> (r: Result<(), ConvertError>)
        ensures
            final(ctx).spec_env() == old(ctx).spec_env(),
            match r {
                Ok(_) => grows_to(
                    extract_content(*content, old(ctx).spec_env(), old(ctx).spec_state()),
                    old(output).view_blocks(),
                    final(output).view_blocks(),
                    final(ctx).spec_state(),
                ),
                Err(e) => extract_content(*content, old(ctx).spec_env(), old(ctx).spec_state())
                    is None && e is UnresolvedRelationship,
            },
        decreases *content, 0int,
    {
        match content {
            BodyContent::Paragraph(p) => match ParagraphConverter::convert(p, ctx) {
                Err(e) => Err(e),
                Ok(converted) => {
                    if converted.as_str().unicode_len() != 0 {
                        let ghost before = output.view_blocks();
                        let ghost cv = converted@;
                        output.blocks.push(BlockNode::Paragraph(converted));
                        proof {
                            assert(output.view_blocks() =~= before + seq![BlockView::Paragraph(cv)]);
                        }
                    } else {
                        proof {
                            assert(output.view_blocks() + Seq::<BlockView>::empty()
                                =~= output.view_blocks());
                        }
                    }
                    Ok(())
                },
            },
            BodyContent::Table(t) => match TableConverter::convert(t, ctx) {
                Err(e) => Err(e),
                Ok(converted) => {
                    let ghost before = output.view_blocks();
                    let ghost cv = converted@;
                    output.blocks.push(BlockNode::TableHtml(converted));
                    proof {
                        assert(output.view_blocks() =~= before + seq![BlockView::TableHtml(cv)]);
                    }
                    Ok(())
                },
            },
            BodyContent::Run(run) => match RunConverter::convert(run, ctx, None) {
                Err(e) => Err(e),
                Ok(converted) => {
                    if converted.as_str().unicode_len() != 0 {
                        let ghost before = output.view_blocks();
                        let ghost cv = converted@;
                        output.blocks.push(BlockNode::Paragraph(converted));
                        proof {
                            assert(output.view_blocks() =~= before + seq![BlockView::Paragraph(cv)]);
                        }
                    } else {
                        proof {
                            assert(output.view_blocks() + Seq::<BlockView>::empty()
                                =~= output.view_blocks());
                        }
                    }
                    Ok(())
                },
            },
            BodyContent::TableCell(cell) => {
                proof {
                    assert(cell.content@.skip(0) =~= cell.content@);
                }
                self.extract_table_cell(&cell.content, 0, ctx, output)
            },
            BodyContent::Sdt(s) => match &s.content {
                None => {
                    proof {
                        assert(output.view_blocks() + Seq::<BlockView>::empty()
                            =~= output.view_blocks());
                    }
                    Ok(())
                },
                Some(children) => {
                    proof {
                        assert(children@.skip(0) =~= children@);
                        assert(decreases_to!(*content => content->Sdt_0));
                        assert(decreases_to!(content->Sdt_0 => content->Sdt_0.content));
                        assert(decreases_to!(content->Sdt_0.content => content->Sdt_0.content->Some_0));
                        assert(decreases_to!(content->Sdt_0.content->Some_0 => content->Sdt_0.content->Some_0@));
                    }
                    self.extract_contents_from(children, 0, ctx, output)
                },
            },
            BodyContent::BookmarkStart(name) => {
                match name {
                    Some(n) => {
                        let esc = escape_html(n.as_str());
                        let mut html = String::new();
                        html.append("<a id=\"");
                        html.append(esc.as_str());
                        html.append("\"></a>");
                        assert(html@ =~= anchor_html(n@));
                        let ghost before = output.view_blocks();
                        let ghost hv = html@;
                        output.blocks.push(BlockNode::RawHtml(html));
                        proof {
                            assert(output.view_blocks() =~= before + seq![BlockView::RawHtml(hv)]);
                        }
                    },
                    None => {
                        proof {
                            assert(output.view_blocks() + Seq::<BlockView>::empty()
                                =~= output.view_blocks());
                        }
                    },
                }
                Ok(())
            },
            BodyContent::BookmarkEnd => {
                proof {
                    assert(output.view_blocks() + Seq::<BlockView>::empty()
                        =~= output.view_blocks());
                }
                Ok(())
            },
            BodyContent::Unsupported => {
                proof {
                    assert(output.view_blocks() + Seq::<BlockView>::empty()
                        =~= output.view_blocks());
                }
                Ok(())
            },
        }
    }
}

} // verus!

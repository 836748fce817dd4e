//! The block-level document AST produced by traversal: an ordered sequence
//! of fully rendered blocks, in source document order.

use vstd::prelude::*;

verus! {

/// One rendered block. Each variant owns its rendered string; no further
/// processing happens after creation.
pub enum BlockNode {
    /// A fully rendered Markdown paragraph or list-item line.
    Paragraph(String),
    /// A fully rendered HTML table fragment.
    TableHtml(String),
    /// An opaque HTML fragment, as for bookmark anchors.
    RawHtml(String),
}

/// The spec-level image of one block: the same tag over the rendered text.
pub enum BlockView {
    Paragraph(Seq<char>),
    TableHtml(Seq<char>),
    RawHtml(Seq<char>),
}

pub open spec fn block_view(b: BlockNode) -> BlockView {
    match b {
        BlockNode::Paragraph(s) => BlockView::Paragraph(s@),
        BlockNode::TableHtml(s) => BlockView::TableHtml(s@),
        BlockNode::RawHtml(s) => BlockView::RawHtml(s@),
    }
}

/// Ordered sequence of blocks; order equals source document order.
pub struct DocumentAst {
    pub blocks: Vec<BlockNode>,
}

impl DocumentAst {
    pub open spec fn view_blocks(&self) -> Seq<BlockView> {
        self.blocks@.map_values(|b: BlockNode| block_view(b))
    }

    /// An empty AST.
    pub fn empty() -> (r: Self)
        ensures
            r.view_blocks() =~= Seq::<BlockView>::empty(),
    {
        DocumentAst { blocks: Vec::new() }
    }
}

} // verus!

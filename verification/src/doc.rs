//! The typed document model the converters work on. An external package
//! parser supplies these plain values: paragraphs with styled runs, tables,
//! structured-content wrappers, bookmarks, and note references, together with
//! the per-document lookup tables (relationships, styles, list definitions,
//! note definition texts).

use vstd::prelude::*;

verus! {

/// One piece of inline content inside a run.
pub enum InlineContent {
    /// Literal text.
    Text(String),
    /// Reference to a footnote definition, by its identifier.
    FootnoteRef(String),
    /// Reference to an endnote definition, by its identifier.
    EndnoteRef(String),
    /// Reference to a comment definition, by its identifier.
    CommentRef(String),
    /// Inline image, by its relationship identifier.
    Image(String),
}

/// A text run with resolved character formatting.
pub struct RunNode {
    pub bold: bool,
    pub italic: bool,
    pub underline: bool,
    pub strike: bool,
    pub content: Vec<InlineContent>,
}

/// A hyperlink element: a relationship identifier (absent for anchor-only
/// links) and the runs it encloses.
pub struct HyperlinkNode {
    pub rel_id: Option<String>,
    pub runs: Vec<RunNode>,
}

/// One item of a paragraph's content.
pub enum ParagraphItem {
    Run(RunNode),
    Hyperlink(HyperlinkNode),
    /// A bookmark start inside the paragraph, with its name if it has one.
    Bookmark(Option<String>),
}

/// The paragraph's membership in a list: which list, at which level.
pub struct NumberingRef {
    pub num_id: u64,
    pub level: u64,
}

/// A paragraph node: style, list membership, and inline content.
pub struct ParagraphNode {
    pub style_id: Option<String>,
    pub numbering: Option<NumberingRef>,
    pub content: Vec<ParagraphItem>,
}

/// A table node; rows hold cells, cells hold paragraphs or nested tables.
pub struct TableNode {
    pub rows: Vec<TableRowNode>,
}

pub struct TableRowNode {
    pub cells: Vec<TableCellNode>,
}

pub struct TableCellNode {
    /// Whether the cell carries detectable header semantics (`<th>`).
    pub header: bool,
    pub content: Vec<CellContent>,
}

pub enum CellContent {
    Paragraph(ParagraphNode),
    Table(TableNode),
}

/// A structured-content wrapper (content control); its children, when it has
/// any, are flattened transparently into the surrounding output.
pub struct SdtNode {
    pub content: Option<Vec<BodyContent>>,
}

/// One node of body content.
pub enum BodyContent {
    Paragraph(ParagraphNode),
    Table(TableNode),
    /// A bare inline run at block level.
    Run(RunNode),
    /// A table cell encountered at block level.
    TableCell(TableCellNode),
    Sdt(SdtNode),
    /// A bookmark start, with its name if it has one.
    BookmarkStart(Option<String>),
    BookmarkEnd,
    /// Any node kind the conversion does not recognize; silently ignored.
    Unsupported,
}

/// A style definition as parsed from the document's style table.
pub struct StyleDef {
    pub id: String,
    /// The style this one inherits from, if any.
    pub based_on: Option<String>,
    /// The heading level this style maps to, if any.
    pub heading_level: Option<u8>,
}

/// One level of one list definition: whether items at this (list, level) are
/// ordered (numbered) rather than bulleted.
pub struct ListLevelDef {
    pub num_id: u64,
    pub level: u64,
    pub ordered: bool,
}

/// A whole parsed document, as plain values.
pub struct Document {
    pub body: Vec<BodyContent>,
    /// Relationship pairs (id, target), in document order.
    pub rels: Vec<(String, String)>,
    pub styles: Vec<StyleDef>,
    pub list_defs: Vec<ListLevelDef>,
    /// Note definition tables: (id, text).
    pub footnote_defs: Vec<(String, String)>,
    pub endnote_defs: Vec<(String, String)>,
    pub comment_defs: Vec<(String, String)>,
    /// Image references resolved by the image-extraction collaborator:
    /// (relationship id, Markdown-usable target).
    pub images: Vec<(String, String)>,
}

} // verus!

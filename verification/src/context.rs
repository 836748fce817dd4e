//! The conversion context: the mutable bundle of shared state threaded
//! through every converter call for the duration of one document conversion,
//! together with its spec-level images. The read-only environment (lookup
//! tables, options, localization) and the mutable state (collected notes,
//! list counters) are split so that contracts can say exactly which part a
//! converter reads and which part it advances.

use vstd::prelude::*;
use crate::doc::{ListLevelDef, StyleDef};
use crate::image::ImageExtractor;
use crate::localization::LocalizationStrategy;
use crate::numbering::NumberingResolver;
use crate::options::ConvertOptions;
use crate::rels::RelationshipMap;
use crate::styles::StyleResolver;

verus! {

/// The read-only part of a conversion, at spec level: built once when the
/// conversion starts and never mutated during traversal.
pub struct ConvEnv<L> {
    pub loc: L,
    pub rels: Seq<(String, String)>,
    pub styles: Seq<StyleDef>,
    pub list_defs: Seq<ListLevelDef>,
    pub fdefs: Seq<(String, String)>,
    pub edefs: Seq<(String, String)>,
    pub cdefs: Seq<(String, String)>,
    pub img_skip: bool,
    pub images: Seq<(String, String)>,
}

/// The mutable part of a conversion, at spec level: the three ordered note
/// collections in first-reference order, and the list counters.
pub struct ConvState {
    pub footnotes: Seq<(String, String)>,
    pub endnotes: Seq<(String, String)>,
    pub comments: Seq<(String, String)>,
    pub counters: Seq<((u64, u64), u64)>,
}

/// Shared state for one document conversion, exclusively owned by the call
/// stack performing it; nothing observes or mutates it concurrently.
pub struct ConversionContext<L: LocalizationStrategy> {
    /// Relationship map (id to target URL or path), read-only.
    pub rels: RelationshipMap,
    /// Per-document running list counters.
    pub numbering: NumberingResolver,
    /// Image extractor with the configured handling policy.
    pub image_extractor: ImageExtractor,
    /// Conversion options.
    pub options: ConvertOptions,
    /// Collected footnotes (id, text), in first-reference order.
    pub footnotes: Vec<(String, String)>,
    /// Collected endnotes (id, text), in first-reference order.
    pub endnotes: Vec<(String, String)>,
    /// Collected comments (id, text), in first-reference order.
    pub comments: Vec<(String, String)>,
    /// Parsed footnote definition table (id, text), read-only.
    pub doc_footnotes: Vec<(String, String)>,
    /// Parsed endnote definition table (id, text), read-only.
    pub doc_endnotes: Vec<(String, String)>,
    /// Parsed comment definition table (id, text), read-only.
    pub doc_comments: Vec<(String, String)>,
    /// Style resolver, read-only.
    pub style_resolver: StyleResolver,
    /// Localization strategy.
    pub localization: L,
}

impl<L: LocalizationStrategy> ConversionContext<L> {
    /// The read-only environment this context carries.
    pub open spec fn spec_env(&self) -> ConvEnv<L> {
        ConvEnv {
            loc: self.localization,
            rels: self.rels.pairs@,
            styles: self.style_resolver.styles@,
            list_defs: self.numbering.defs@,
            fdefs: self.doc_footnotes@,
            edefs: self.doc_endnotes@,
            cdefs: self.doc_comments@,
            img_skip: self.image_extractor.skip,
            images: self.image_extractor.images@,
        }
    }

    /// The mutable state this context carries.
    pub open spec fn spec_state(&self) -> ConvState {
        ConvState {
            footnotes: self.footnotes@,
            endnotes: self.endnotes@,
            comments: self.comments@,
            counters: self.numbering.counters@,
        }
    }
}

} // verus!

//! Conversion of a parsed word-processing document tree into Markdown text.
//!
//! The library works on its own typed document model ([`doc`]): an external
//! package parser hands plain values (strings, integers, options) to the
//! converters here, and the converters turn paragraphs, runs, tables, lists,
//! bookmarks and note references into Markdown or HTML fragments, coordinated
//! through a shared [`context::ConversionContext`]. The whole pipeline —
//! extraction ([`extractor`]), block and inline conversion ([`paragraph`],
//! [`run`], [`table`]), the resolvers ([`styles`], [`numbering`], [`rels`],
//! [`image`]) and the orchestrator ([`converter`]) — carries contracts over
//! the spec functions beside it, and [`laws`] states the guarantees that
//! relate them.

pub mod ast;
pub mod context;
pub mod converter;
pub mod doc;
pub mod error;
pub mod extractor;
pub mod image;
pub mod laws;
pub mod localization;
pub mod lookup;
pub mod numbering;
pub mod options;
pub mod paragraph;
pub mod rels;
pub mod run;
pub mod strutil;
pub mod styles;
pub mod table;

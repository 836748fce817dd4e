//! The top-level orchestrator: builds the relationship table, the resolvers
//! and the image extractor from a parsed document, runs the body conversion
//! in source order, and appends the deterministic trailing note section.
//! The call either returns the complete Markdown string or a single error;
//! it never returns truncated output.

use vstd::prelude::*;
use vstd::string::StrSliceExecFns;
use vstd::string::StringExecFns;
use crate::context::{ConvEnv, ConvState, ConversionContext};
use crate::doc::{BodyContent, Document};
use crate::error::ConvertError;
use crate::image::ImageExtractor;
use crate::localization::{KoreanLocalization, LocalizationStrategy};
use crate::numbering::NumberingResolver;
use crate::options::{ConvertOptions, ImageHandling};
use crate::paragraph::{conv_paragraph, ParagraphConverter};
use crate::rels::build_relationship_map;
use crate::strutil::{dec_seq, dec_string};
use crate::styles::StyleResolver;
use crate::table::{conv_table, TableConverter};

verus! {

/// What one body node contributes to the direct-to-string conversion: a
/// non-empty paragraph or a table followed by a blank line, a flattened
/// wrapper, nothing for anything else.
pub open spec fn conv_body_content<L: LocalizationStrategy>(
    c: BodyContent,
    env: ConvEnv<L>,
    st: ConvState,
) -> Option<(Seq<char>, ConvState)>
    decreases c,
{
    match c {
        BodyContent::Paragraph(p) => match conv_paragraph(p, env, st) {
            None => None,
            Some((m, st1)) => Some(
                (
                    if m.len() == 0 {
                        m
                    } else {
                        m + "\n\n"@
                    },
                    st1,
                ),
            ),
        },
        BodyContent::Table(t) => match conv_table(t, env, st) {
            None => None,
            Some((m, st1)) => Some((m + "\n\n"@, st1)),
        },
        BodyContent::Sdt(s) => match s.content {
            None => Some((Seq::<char>::empty(), st)),
            Some(children) => conv_body_contents(children@, env, st),
        },
        _ => Some((Seq::<char>::empty(), st)),
    }
}

/// The concatenation of a body content sequence, threading the state.
pub open spec fn conv_body_contents<L: LocalizationStrategy>(
    cs: Seq<BodyContent>,
    env: ConvEnv<L>,
    st: ConvState,
) -> Option<(Seq<char>, ConvState)>
    decreases cs,
{
    if cs.len() == 0 {
        Some((Seq::<char>::empty(), st))
    } else {
        match conv_body_content(cs[0], env, st) {
            None => None,
            Some((m, st1)) => match conv_body_contents(cs.drop_first(), env, st1) {
                None => None,
                Some((r, st2)) => Some((m + r, st2)),
            },
        }
    }
}

/// The footnote definition lines, numbered from `k` on.
pub open spec fn footnote_lines(f: Seq<(String, String)>, k: int) -> Seq<char>
    decreases f.len(),
{
    if f.len() == 0 {
        Seq::<char>::empty()
    } else {
        "[^"@ + dec_seq(k as u64) + "]: "@ + f[0].1@ + "\n"@ + footnote_lines(f.drop_first(), k + 1)
    }
}

/// The endnote definition lines, numbered from `k` on.
pub open spec fn endnote_lines(e: Seq<(String, String)>, k: int) -> Seq<char>
    decreases e.len(),
{
    if e.len() == 0 {
        Seq::<char>::empty()
    } else {
        "[^en"@ + dec_seq(k as u64) + "]: "@ + e[0].1@ + "\n"@ + endnote_lines(e.drop_first(), k + 1)
    }
}

/// The comment definition lines, keyed by their own ids.
pub open spec fn comment_lines(c: Seq<(String, String)>) -> Seq<char>
    decreases c.len(),
{
    if c.len() == 0 {
        Seq::<char>::empty()
    } else {
        "[^c"@ + c[0].0@ + "]: "@ + c[0].1@ + "\n"@ + comment_lines(c.drop_first())
    }
}

/// The trailing note section: nothing when no note was referenced, else a
/// horizontal rule and the collected footnotes, endnotes and comments, each
/// in first-reference order.
pub open spec fn notes_section(st: ConvState) -> Seq<char> {
    if st.footnotes.len() == 0 && st.endnotes.len() == 0 && st.comments.len() == 0 {
        Seq::<char>::empty()
    } else {
        "\n\n---\n\n"@ + footnote_lines(st.footnotes, 1) + endnote_lines(st.endnotes, 1)
            + comment_lines(st.comments)
    }
}

/// The environment one conversion of `doc` under `options` runs in.
pub open spec fn init_env(doc: Document, options: ConvertOptions) -> ConvEnv<KoreanLocalization> {
    ConvEnv {
        loc: KoreanLocalization,
        rels: doc.rels@,
        styles: doc.styles@,
        list_defs: doc.list_defs@,
        fdefs: doc.footnote_defs@,
        edefs: doc.endnote_defs@,
        cdefs: doc.comment_defs@,
        img_skip: options.image_handling is Skip,
        images: if options.image_handling is Skip {
            Seq::<(String, String)>::empty()
        } else {
            doc.images@
        },
    }
}

/// The state every conversion starts from: nothing collected, all counters
/// at zero.
pub open spec fn init_state() -> ConvState {
    ConvState {
        footnotes: Seq::<(String, String)>::empty(),
        endnotes: Seq::<(String, String)>::empty(),
        comments: Seq::<(String, String)>::empty(),
        counters: Seq::<((u64, u64), u64)>::empty(),
    }
}

/// The whole Markdown output for `doc` under `options`, or `None` when some
/// hyperlink carries an unknown relationship id.
pub open spec fn spec_convert(doc: Document, options: ConvertOptions) -> Option<Seq<char>> {
    match conv_body_contents(doc.body@, init_env(doc, options), init_state()) {
        None => None,
        Some((m, st)) => Some(m + notes_section(st)),
    }
}

fn render_footnotes(f: &Vec<(String, String)>, i: usize) -> (out: String)
    requires
        i <= f@.len(),
    ensures
        out@ == footnote_lines(f@.skip(i as int), i + 1),
    decreases f@.len() - i,
{
    if i == f.len() {
        proof {
            assert(f@.skip(i as int) =~= Seq::<(String, String)>::empty());
        }
        String::new()
    } else {
        proof {
            assert(f@.skip(i as int)[0] == f@[i as int]);
            assert(f@.skip(i as int).drop_first() =~= f@.skip(i as int + 1));
        }
        let mut out = String::new();
        out.append("[^");
        let d = dec_string((i as u64) + 1);
        out.append(d.as_str());
        out.append("]: ");
        out.append(f[i].1.as_str());
        out.append("\n");
        let rest = render_footnotes(f, i + 1);
        out.append(rest.as_str());
        assert(out@ =~= "[^"@ + dec_seq((i + 1) as u64) + "]: "@ + f@[i as int].1@ + "\n"@
            + rest@);
        out
    }
}

fn render_endnotes(e: &Vec<(String, String)>, i: usize) -> (out: String)
    requires
        i <= e@.len(),
    ensures
        out@ == endnote_lines(e@.skip(i as int), i + 1),
    decreases e@.len() - i,
{
    if i == e.len() {
        proof {
            assert(e@.skip(i as int) =~= Seq::<(String, String)>::empty());
        }
        String::new()
    } else {
        proof {
            assert(e@.skip(i as int)[0] == e@[i as int]);
            assert(e@.skip(i as int).drop_first() =~= e@.skip(i as int + 1));
        }
        let mut out = String::new();
        out.append("[^en");
        let d = dec_string((i as u64) + 1);
        out.append(d.as_str());
        out.append("]: ");
        out.append(e[i].1.as_str());
        out.append("\n");
        let rest = render_endnotes(e, i + 1);
        out.append(rest.as_str());
        assert(out@ =~= "[^en"@ + dec_seq((i + 1) as u64) + "]: "@ + e@[i as int].1@ + "\n"@
            + rest@);
        out
    }
}

fn render_comments(c: &Vec<(String, String)>, i: usize) -> (out: String)
    requires
        i <= c@.len(),
    ensures
        out@ == comment_lines(c@.skip(i as int)),
    decreases c@.len() - i,
{
    if i == c.len() {
        proof {
            assert(c@.skip(i as int) =~= Seq::<(String, String)>::empty());
        }
        String::new()
    } else {
        proof {
            assert(c@.skip(i as int)[0] == c@[i as int]);
            assert(c@.skip(i as int).drop_first() =~= c@.skip(i as int + 1));
        }
        let mut out = String::new();
        out.append("[^c");
        out.append(c[i].0.as_str());
        out.append("]: ");
        out.append(c[i].1.as_str());
        out.append("\n");
        let rest = render_comments(c, i + 1);
        out.append(rest.as_str());
        assert(out@ =~= "[^c"@ + c@[i as int].0@ + "]: "@ + c@[i as int].1@ + "\n"@ + rest@);
        out
    }
}

fn convert_body_from(
    cs: &Vec<BodyContent>,
    i: usize,
    ctx: &mut ConversionContext<KoreanLocalization>,
) -> (r: Result<String, ConvertError>)
    requires
        i <= cs@.len(),
    ensures
        final(ctx).spec_env() == old(ctx).spec_env(),
        match r {
            Ok(s) => conv_body_contents(
                cs@.skip(i as int),
                old(ctx).spec_env(),
                old(ctx).spec_state(),
            ) == Some((s@, final(ctx).spec_state())),
            Err(e) => conv_body_contents(
                cs@.skip(i as int),
                old(ctx).spec_env(),
                old(ctx).spec_state(),
            ) is None && e is UnresolvedRelationship,
        },
    decreases cs@.skip(i as int), 1int,
{
    if i == cs.len() {
        proof {
            assert(cs@.skip(i as int) =~= Seq::<BodyContent>::empty());
        }
        Ok(String::new())
    } else {
        proof {
            assert(cs@.skip(i as int)[0] == cs@[i as int]);
            assert(cs@.skip(i as int).drop_first() =~= cs@.skip(i as int + 1));
            vstd::seq::axiom_seq_len_decreases(cs@.skip(i as int), cs@.skip(i as int + 1));
        }
        match convert_body_content(&cs[i], ctx) {
            Err(e) => Err(e),
            Ok(mut first) => match convert_body_from(cs, i + 1, ctx) {
                Err(e) => Err(e),
                Ok(rest) => {
                    first.append(rest.as_str());
                    Ok(first)
                },
            },
        }
    }
}

fn convert_body_content(
    content: &BodyContent,
    ctx: &mut ConversionContext<KoreanLocalization>,
) -> (r: Result<String, ConvertError>)
    ensures
        final(ctx).spec_env() == old(ctx).spec_env(),
        match r {
            Ok(s) => conv_body_content(*content, old(ctx).spec_env(), old(ctx).spec_state())
                == Some((s@, final(ctx).spec_state())),
            Err(e) => conv_body_content(
                *content,
                old(ctx).spec_env(),
                old(ctx).spec_state(),
            ) is None && e is UnresolvedRelationship,
        },
    decreases *content, 0int,
{
    match content {
        BodyContent::Paragraph(p) => match ParagraphConverter::convert(p, ctx) {
            Err(e) => Err(e),
            Ok(mut converted) => {
                if converted.as_str().unicode_len() != 0 {
                    converted.append("\n\n");
                }
                Ok(converted)
            },
        },
        BodyContent::Table(t) => match TableConverter::convert(t, ctx) {
            Err(e) => Err(e),
            Ok(mut converted) => {
                converted.append("\n\n");
                Ok(converted)
            },
        },
        BodyContent::Sdt(s) => match &s.content {
            None => Ok(String::new()),
            Some(children) => {
                proof {
                    assert(children@.skip(0) =~= children@);
                    assert(decreases_to!(*content => content->Sdt_0));
                    assert(decreases_to!(content->Sdt_0 => content->Sdt_0.content));
                    assert(decreases_to!(
                        content->Sdt_0.content => content->Sdt_0.content->Some_0));
                    assert(decreases_to!(
                        content->Sdt_0.content->Some_0 => content->Sdt_0.content->Some_0@));
                }
                convert_body_from(children, 0, ctx)
            },
        },
        _ => Ok(String::new()),
    }
}

/// Orchestrates one whole document-to-Markdown conversion.
pub struct DocxToMarkdown {
    pub options: ConvertOptions,
}

impl DocxToMarkdown {
    /// Creates a new converter with the given options.
    pub fn new(options: ConvertOptions) -> (r: Self)
        ensures
            r.options == options,
    {
        DocxToMarkdown { options }
    }

    /// Creates a new converter with default options.
    pub fn with_defaults() -> (r: Self)
        ensures
            r.options.image_handling is Skip,
    {
        DocxToMarkdown::new(ConvertOptions::default())
    }

    /// Converts a parsed document to Markdown: the body in source order,
    /// then the trailing note section. `Err` exactly when some hyperlink in
    /// the document carries an unknown relationship id.
    pub fn convert(&self, doc: Document) -> (r: Result<String, ConvertError>)
        ensures
            match r {
                Ok(s) => spec_convert(doc, self.options) == Some(s@),
                Err(e) => spec_convert(doc, self.options) is None
                    && e is UnresolvedRelationship,
            },
    {
        let Document {
            body,
            rels,
            styles,
            list_defs,
            footnote_defs,
            endnote_defs,
            comment_defs,
            images,
        } = doc;
        let image_extractor = match &self.options.image_handling {
            ImageHandling::SaveToDir(_) => ImageExtractor::new_with_dir(images),
            ImageHandling::Inline => ImageExtractor::new_inline(images),
            ImageHandling::Skip => ImageExtractor::new_skip(),
        };
        let mut ctx = ConversionContext {
            rels: build_relationship_map(rels),
            numbering: NumberingResolver::new(list_defs),
            image_extractor,
            options: DocxToMarkdown::copy_options(&self.options),
            footnotes: Vec::new(),
            endnotes: Vec::new(),
            comments: Vec::new(),
            doc_footnotes: footnote_defs,
            doc_endnotes: endnote_defs,
            doc_comments: comment_defs,
            style_resolver: StyleResolver::new(styles),
            localization: KoreanLocalization,
        };
        proof {
            assert(ctx.spec_env() == init_env(doc, self.options));
            assert(ctx.spec_state() == init_state());
            assert(body@.skip(0) =~= body@);
        }
        let mut out = match convert_body_from(&body, 0, &mut ctx) {
            Err(e) => {
                return Err(e);
            },
            Ok(s) => s,
        };
        if ctx.footnotes.len() != 0 || ctx.endnotes.len() != 0 || ctx.comments.len() != 0 {
            out.append("\n\n---\n\n");
            let f = render_footnotes(&ctx.footnotes, 0);
            out.append(f.as_str());
            let e = render_endnotes(&ctx.endnotes, 0);
            out.append(e.as_str());
            let c = render_comments(&ctx.comments, 0);
            out.append(c.as_str());
            proof {
                assert(ctx.footnotes@.skip(0) =~= ctx.footnotes@);
                assert(ctx.endnotes@.skip(0) =~= ctx.endnotes@);
                assert(ctx.comments@.skip(0) =~= ctx.comments@);
            }
        }
        Ok(out)
    }

    fn copy_options(options: &ConvertOptions) -> (r: ConvertOptions)
        ensures
            r.image_handling is Skip <==> options.image_handling is Skip,
    {
        match &options.image_handling {
            ImageHandling::SaveToDir(d) => ConvertOptions {
                image_handling: ImageHandling::SaveToDir(d.clone()),
            },
            ImageHandling::Inline => ConvertOptions { image_handling: ImageHandling::Inline },
            ImageHandling::Skip => ConvertOptions { image_handling: ImageHandling::Skip },
        }
    }
}

} // verus!

//! The run converter: turns an inline run (character formatting, note and
//! comment references, inline images) into an inline Markdown fragment,
//! recording referenced notes in the shared context in first-reference
//! order.
//!
//! Emphasis nests in one fixed order, outside in: bold, italic, underline,
//! strikethrough. A footnote or endnote reference renders as a bracketed
//! caret marker whose number is one more than the position of the note in
//! the collection when it was first referenced; a repeated reference reuses
//! the marker already assigned. A comment reference renders its own id. A
//! reference whose definition table has no entry for its id renders nothing
//! and records nothing.

use vstd::prelude::*;
use vstd::string::StrSliceExecFns;
use vstd::string::StringExecFns;
use crate::context::{ConvEnv, ConvState, ConversionContext};
use crate::doc::{InlineContent, RunNode};
use crate::error::ConvertError;
use crate::localization::LocalizationStrategy;
use crate::lookup::{assoc_get, assoc_lookup, string_eq};
use crate::image::image_markdown;
use crate::numbering::inc_sat;
use crate::strutil::{dec_seq, dec_string};

verus! {

/// The position of the first entry recorded for `id`, or -1 when none is.
pub open spec fn note_index(notes: Seq<(String, String)>, id: Seq<char>) -> int
    decreases notes.len(),
{
    if notes.len() == 0 {
        -1
    } else if notes[0].0@ == id {
        0
    } else {
        let r = note_index(notes.drop_first(), id);
        if r == -1 {
            -1
        } else {
            r + 1
        }
    }
}

/// What one inline content item renders as, and the note collections after
/// it: the only items that change the state are first references to notes
/// whose definitions exist.
pub open spec fn conv_inline<L>(item: InlineContent, env: ConvEnv<L>, st: ConvState) -> (Seq<
    char,
>, ConvState) {
    match item {
        InlineContent::Text(t) => (t@, st),
        InlineContent::FootnoteRef(id) => match assoc_lookup(env.fdefs, id@) {
            None => (Seq::<char>::empty(), st),
            Some(text) => {
                let i = note_index(st.footnotes, id@);
                if i >= 0 {
                    ("[^"@ + dec_seq((i + 1) as u64) + "]"@, st)
                } else {
                    (
                        "[^"@ + dec_seq(inc_sat(st.footnotes.len() as u64)) + "]"@,
                        ConvState { footnotes: st.footnotes.push((id, text)), ..st },
                    )
                }
            },
        },
        InlineContent::EndnoteRef(id) => match assoc_lookup(env.edefs, id@) {
            None => (Seq::<char>::empty(), st),
            Some(text) => {
                let i = note_index(st.endnotes, id@);
                if i >= 0 {
                    ("[^en"@ + dec_seq((i + 1) as u64) + "]"@, st)
                } else {
                    (
                        "[^en"@ + dec_seq(inc_sat(st.endnotes.len() as u64)) + "]"@,
                        ConvState { endnotes: st.endnotes.push((id, text)), ..st },
                    )
                }
            },
        },
        InlineContent::CommentRef(id) => match assoc_lookup(env.cdefs, id@) {
            None => (Seq::<char>::empty(), st),
            Some(text) => {
                let marker = "[^c"@ + id@ + "]"@;
                if note_index(st.comments, id@) >= 0 {
                    (marker, st)
                } else {
                    (marker, ConvState { comments: st.comments.push((id, text)), ..st })
                }
            },
        },
        InlineContent::Image(rid) => match image_markdown(env.img_skip, env.images, rid@) {
            None => (Seq::<char>::empty(), st),
            Some(m) => (m, st),
        },
    }
}

/// The concatenation of a sequence of inline items, threading the state.
pub open spec fn conv_inlines<L>(items: Seq<InlineContent>, env: ConvEnv<L>, st: ConvState) -> (
    Seq<char>,
    ConvState,
)
    decreases items.len(),
{
    if items.len() == 0 {
        (Seq::<char>::empty(), st)
    } else {
        let (m, st1) = conv_inline(items[0], env, st);
        let (r, st2) = conv_inlines(items.drop_first(), env, st1);
        (m + r, st2)
    }
}

/// Character-level markup around non-empty inline content, nesting outside
/// in: bold, italic, underline, strikethrough.
pub open spec fn emphasize(run: RunNode, inner: Seq<char>) -> Seq<char> {
    if inner.len() == 0 {
        inner
    } else {
        let a = if run.strike {
            "~~"@ + inner + "~~"@
        } else {
            inner
        };
        let b = if run.underline {
            "<u>"@ + a + "</u>"@
        } else {
            a
        };
        let c = if run.italic {
            "*"@ + b + "*"@
        } else {
            b
        };
        if run.bold {
            "**"@ + c + "**"@
        } else {
            c
        }
    }
}

/// What a whole run renders as: its marked-up inline content, wrapped as a
/// Markdown link when an enclosing hyperlink target is given and the content
/// is not empty.
pub open spec fn conv_run<L>(
    run: RunNode,
    env: ConvEnv<L>,
    st: ConvState,
    enclosing: Option<Seq<char>>,
) -> (Seq<char>, ConvState) {
    let (inner, st1) = conv_inlines(run.content@, env, st);
    let marked = emphasize(run, inner);
    let out = match enclosing {
        Some(u) => if marked.len() == 0 {
            marked
        } else {
            "["@ + marked + "]("@ + u + ")"@
        },
        None => marked,
    };
    (out, st1)
}

/// The spec image of an optional enclosing hyperlink target.
pub open spec fn opt_target(o: Option<&String>) -> Option<Seq<char>> {
    match o {
        Some(u) => Some(u@),
        None => None,
    }
}

proof fn lemma_note_index_found(s: Seq<(String, String)>, id: Seq<char>, j: int)
    requires
        0 <= j < s.len(),
        s[j].0@ == id,
        forall|k: int| 0 <= k < j ==> s[k].0@ != id,
    ensures
        note_index(s, id) == j,
    decreases j,
{
    if j == 0 {
    } else {
        assert forall|k: int| 0 <= k < j - 1 implies s.drop_first()[k].0@ != id by {
            assert(s.drop_first()[k] == s[k + 1]);
        }
        assert(s.drop_first()[j - 1] == s[j]);
        lemma_note_index_found(s.drop_first(), id, j - 1);
    }
}

proof fn lemma_note_index_absent(s: Seq<(String, String)>, id: Seq<char>)
    requires
        forall|k: int| 0 <= k < s.len() ==> s[k].0@ != id,
    ensures
        note_index(s, id) == -1,
    decreases s.len(),
{
    if s.len() == 0 {
    } else {
        assert forall|k: int| 0 <= k < s.drop_first().len() implies s.drop_first()[k].0@ != id by {
            assert(s.drop_first()[k] == s[k + 1]);
        }
        lemma_note_index_absent(s.drop_first(), id);
    }
}

/// Finds the position of the first entry recorded for `id`.
pub fn find_note(notes: &Vec<(String, String)>, id: &String) -> (r: Option<usize>)
    ensures
        match r {
            Some(j) => note_index(notes@, id@) == j as int && j < usize::MAX,
            None => note_index(notes@, id@) == -1,
        },
{
    let n = notes.len();
    let mut i: usize = 0;
    while i < n
        invariant
            n == notes@.len(),
            i <= n,
            forall|k: int| 0 <= k < i ==> notes@[k].0@ != id@,
        decreases n - i,
    {
        if string_eq(&notes[i].0, id) {
            proof {
                lemma_note_index_found(notes@, id@, i as int);
            }
            return Some(i);
        }
        i = i + 1;
    }
    proof {
        lemma_note_index_absent(notes@, id@);
    }
    None
}

fn make_marker(prefix: &str, n: u64) -> (r: String)
    ensures
        r@ == prefix@ + dec_seq(n) + "]"@,
{
    let mut out = String::new();
    out.append(prefix);
    let d = dec_string(n);
    out.append(d.as_str());
    out.append("]");
    out
}

fn convert_inline_item<L: LocalizationStrategy>(
    item: &InlineContent,
    ctx: &mut ConversionContext<L>,
) -> (out: String)
    ensures
        final(ctx).spec_env() == old(ctx).spec_env(),
        (out@, final(ctx).spec_state()) == conv_inline(
            *item,
            old(ctx).spec_env(),
            old(ctx).spec_state(),
        ),
{
    match item {
        InlineContent::Text(t) => t.clone(),
        InlineContent::FootnoteRef(id) => match assoc_get(&ctx.doc_footnotes, id) {
            None => String::new(),
            Some(text) => match find_note(&ctx.footnotes, id) {
                Some(j) => make_marker("[^", (j as u64) + 1, ),
                None => {
                    let n = ctx.footnotes.len() as u64;
                    let num = if n == u64::MAX {
                        n
                    } else {
                        n + 1
                    };
                    ctx.footnotes.push((id.clone(), text));
                    make_marker("[^", num)
                },
            },
        },
        InlineContent::EndnoteRef(id) => match assoc_get(&ctx.doc_endnotes, id) {
            None => String::new(),
            Some(text) => match find_note(&ctx.endnotes, id) {
                Some(j) => make_marker("[^en", (j as u64) + 1),
                None => {
                    let n = ctx.endnotes.len() as u64;
                    let num = if n == u64::MAX {
                        n
                    } else {
                        n + 1
                    };
                    ctx.endnotes.push((id.clone(), text));
                    make_marker("[^en", num)
                },
            },
        },
        InlineContent::CommentRef(id) => match assoc_get(&ctx.doc_comments, id) {
            None => String::new(),
            Some(text) => {
                let mut out = String::new();
                out.append("[^c");
                out.append(id.as_str());
                out.append("]");
                assert(out@ =~= "[^c"@ + id@ + "]"@);
                match find_note(&ctx.comments, id) {
                    Some(_) => out,
                    None => {
                        ctx.comments.push((id.clone(), text));
                        out
                    },
                }
            },
        },
        InlineContent::Image(rid) => match ctx.image_extractor.extract(rid) {
            None => String::new(),
            Some(m) => m,
        },
    }
}

fn convert_inlines_from<L: LocalizationStrategy>(
    items: &Vec<InlineContent>,
    i: usize,
    ctx: &mut ConversionContext<L>,
) -> (out: String)
    requires
        i <= items@.len(),
    ensures
        final(ctx).spec_env() == old(ctx).spec_env(),
        (out@, final(ctx).spec_state()) == conv_inlines(
            items@.skip(i as int),
            old(ctx).spec_env(),
            old(ctx).spec_state(),
        ),
    decreases items@.len() - i,
{
    if i == items.len() {
        proof {
            assert(items@.skip(i as int) =~= Seq::<InlineContent>::empty());
        }
        String::new()
    } else {
        let mut first = convert_inline_item(&items[i], ctx);
        let rest = convert_inlines_from(items, i + 1, ctx);
        proof {
            assert(items@.skip(i as int)[0] == items@[i as int]);
            assert(items@.skip(i as int).drop_first() =~= items@.skip(i as int + 1));
        }
        first.append(rest.as_str());
        first
    }
}

/// Converts an inline run into an inline Markdown fragment.
pub struct RunConverter;

impl RunConverter {
    /// Converts one run. The conversion itself cannot fail; the `Result`
    /// mirrors the uniform converter interface, and every call returns `Ok`.
    pub fn convert<L: LocalizationStrategy>(
        run: &RunNode,
        ctx: &mut ConversionContext<L>,
        enclosing: Option<&String>,
    ) -> (r: Result<String, ConvertError>)
        ensures
            final(ctx).spec_env() == old(ctx).spec_env(),
            r is Ok,
            (r->Ok_0@, final(ctx).spec_state()) == conv_run(
                *run,
                old(ctx).spec_env(),
                old(ctx).spec_state(),
                opt_target(enclosing),
            ),
    {
        proof {
            assert(run.content@.skip(0) =~= run.content@);
        }
        let inner = convert_inlines_from(&run.content, 0, ctx);
        let empty = inner.as_str().unicode_len() == 0;
        let mut cur = inner;
        if !empty {
            if run.strike {
                let mut t = String::new();
                t.append("~~");
                t.append(cur.as_str());
                t.append("~~");
                cur = t;
            }
            if run.underline {
                let mut t = String::new();
                t.append("<u>");
                t.append(cur.as_str());
                t.append("</u>");
                cur = t;
            }
            if run.italic {
                let mut t = String::new();
                t.append("*");
                t.append(cur.as_str());
                t.append("*");
                cur = t;
            }
            if run.bold {
                let mut t = String::new();
                t.append("**");
                t.append(cur.as_str());
                t.append("**");
                cur = t;
            }
        }
        match enclosing {
            Some(u) => {
                if empty {
                    Ok(cur)
                } else {
                    let mut t = String::new();
                    t.append("[");
                    t.append(cur.as_str());
                    t.append("](");
                    t.append(u.as_str());
                    t.append(")");
                    Ok(t)
                }
            },
            None => Ok(cur),
        }
    }
}

} // verus!

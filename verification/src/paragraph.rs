//! The paragraph converter: turns a paragraph node (style, run sequence,
//! list membership) into a Markdown paragraph or list-item line.
//!
//! The paragraph's inline content is the concatenation of its converted
//! items, in order. A paragraph whose rendered inline content is empty
//! converts to the empty string, with no heading or list prefix and without
//! advancing any list counter — but a bookmark anchor or an embedded image
//! renders non-empty content, so such a paragraph is not suppressed. When
//! the content is non-empty, a style that resolves to a heading level takes
//! precedence over list membership; a list paragraph gets two spaces of
//! indentation per level and the locale's ordered label or bullet, and
//! advances its (list, level) counter.

use vstd::prelude::*;
use vstd::string::StrSliceExecFns;
use vstd::string::StringExecFns;
use crate::context::{ConvEnv, ConvState, ConversionContext};
use crate::doc::{HyperlinkNode, ParagraphItem, ParagraphNode, RunNode};
use crate::error::ConvertError;
use crate::localization::LocalizationStrategy;
use crate::lookup::assoc_lookup;
use crate::numbering::{advance_counters, advance_value, list_is_ordered};
use crate::rels::resolve_hyperlink;
use crate::run::{conv_run, opt_target, RunConverter};
use crate::strutil::{escape_html, escape_seq, repeat_char, repeat_seq, repeat_string};
use crate::styles::effective_heading;

verus! {

/// The concatenation of a sequence of runs, each converted under the same
/// enclosing hyperlink target, threading the state.
pub open spec fn conv_runs_linked<L>(
    runs: Seq<RunNode>,
    env: ConvEnv<L>,
    st: ConvState,
    enclosing: Option<Seq<char>>,
) -> (Seq<char>, ConvState)
    decreases runs.len(),
{
    if runs.len() == 0 {
        (Seq::<char>::empty(), st)
    } else {
        let (m, st1) = conv_run(runs[0], env, st, enclosing);
        let (r, st2) = conv_runs_linked(runs.drop_first(), env, st1, enclosing);
        (m + r, st2)
    }
}

/// What one paragraph item renders as: a run, a hyperlink (each enclosed run
/// wrapped as a link over the resolved target; an unresolvable relationship
/// id is the conversion error), or a bookmark anchor. `None` is the error.
pub open spec fn conv_para_item<L>(item: ParagraphItem, env: ConvEnv<L>, st: ConvState) -> Option<
    (Seq<char>, ConvState),
> {
    match item {
        ParagraphItem::Run(r) => Some(conv_run(r, env, st, None)),
        ParagraphItem::Bookmark(name) => Some(
            (
                match name {
                    Some(n) => "<a id=\""@ + escape_seq(n@) + "\"></a>"@,
                    None => Seq::<char>::empty(),
                },
                st,
            ),
        ),
        ParagraphItem::Hyperlink(h) => match h.rel_id {
            None => Some(conv_runs_linked(h.runs@, env, st, None)),
            Some(rid) => match assoc_lookup(env.rels, rid@) {
                None => None,
                Some(t) => Some(conv_runs_linked(h.runs@, env, st, Some(t@))),
            },
        },
    }
}

/// The concatenation of a paragraph's items, threading the state; the first
/// error aborts the whole conversion.
pub open spec fn conv_para_items<L>(
    items: Seq<ParagraphItem>,
    env: ConvEnv<L>,
    st: ConvState,
) -> Option<(Seq<char>, ConvState)>
    decreases items.len(),
{
    if items.len() == 0 {
        Some((Seq::<char>::empty(), st))
    } else {
        match conv_para_item(items[0], env, st) {
            None => None,
            Some((m, st1)) => match conv_para_items(items.drop_first(), env, st1) {
                None => None,
                Some((r, st2)) => Some((m + r, st2)),
            },
        }
    }
}

/// What a whole paragraph renders as, and the state after it.
pub open spec fn conv_paragraph<L: LocalizationStrategy>(
    p: ParagraphNode,
    env: ConvEnv<L>,
    st: ConvState,
) -> Option<(Seq<char>, ConvState)> {
    match conv_para_items(p.content@, env, st) {
        None => None,
        Some((inline, st1)) => {
            if inline.len() == 0 {
                Some((inline, st1))
            } else {
                let heading = match p.style_id {
                    Some(sid) => effective_heading(env.styles, sid@, env.styles.len()),
                    None => None,
                };
                match heading {
                    Some(h) => Some((repeat_char('#', h as nat) + " "@ + inline, st1)),
                    None => match p.numbering {
                        Some(nr) => {
                            let value = advance_value(st1.counters, nr.num_id, nr.level);
                            let counters2 = advance_counters(st1.counters, nr.num_id, nr.level);
                            let label = if list_is_ordered(env.list_defs, nr.num_id, nr.level) {
                                env.loc.spec_ordered_label(value)
                            } else {
                                env.loc.spec_bullet()
                            };
                            Some(
                                (
                                    repeat_seq("  "@, nr.level as nat) + label + inline,
                                    ConvState { counters: counters2, ..st1 },
                                ),
                            )
                        },
                        None => Some((inline, st1)),
                    },
                }
            }
        },
    }
}

fn convert_runs_from<L: LocalizationStrategy>(
    runs: &Vec<RunNode>,
    i: usize,
    ctx: &mut ConversionContext<L>,
    enclosing: Option<&String>,
) -> (out: String)
    requires
        i <= runs@.len(),
    ensures
        final(ctx).spec_env() == old(ctx).spec_env(),
        (out@, final(ctx).spec_state()) == conv_runs_linked(
            runs@.skip(i as int),
            old(ctx).spec_env(),
            old(ctx).spec_state(),
            opt_target(enclosing),
        ),
    decreases runs@.len() - i,
{
    if i == runs.len() {
        proof {
            assert(runs@.skip(i as int) =~= Seq::<RunNode>::empty());
        }
        String::new()
    } else {
        let first = RunConverter::convert(&runs[i], ctx, enclosing);
        let mut first = match first {
            Ok(s) => s,
            Err(_) => String::new(),
        };
        let rest = convert_runs_from(runs, i + 1, ctx, enclosing);
        proof {
            assert(runs@.skip(i as int)[0] == runs@[i as int]);
            assert(runs@.skip(i as int).drop_first() =~= runs@.skip(i as int + 1));
        }
        first.append(rest.as_str());
        first
    }
}

fn convert_para_item<L: LocalizationStrategy>(
    item: &ParagraphItem,
    ctx: &mut ConversionContext<L>,
) -> (r: Result<String, ConvertError>)
    ensures
        final(ctx).spec_env() == old(ctx).spec_env(),
        match r {
            Ok(s) => conv_para_item(*item, old(ctx).spec_env(), old(ctx).spec_state()) == Some(
                (s@, final(ctx).spec_state()),
            ),
            Err(e) => conv_para_item(*item, old(ctx).spec_env(), old(ctx).spec_state()) is None
                && e is UnresolvedRelationship,
        },
{
    match item {
        ParagraphItem::Run(run) => RunConverter::convert(run, ctx, None),
        ParagraphItem::Bookmark(name) => match name {
            Some(n) => {
                let esc = escape_html(n.as_str());
                let mut out = String::new();
                out.append("<a id=\"");
                out.append(esc.as_str());
                out.append("\"></a>");
                assert(out@ =~= "<a id=\""@ + escape_seq(n@) + "\"></a>"@);
                Ok(out)
            },
            None => Ok(String::new()),
        },
        ParagraphItem::Hyperlink(h) => match &h.rel_id {
            None => {
                proof {
                    assert(h.runs@.skip(0) =~= h.runs@);
                }
                Ok(convert_runs_from(&h.runs, 0, ctx, None))
            },
            Some(rid) => match resolve_hyperlink(&ctx.rels, rid) {
                None => Err(ConvertError::UnresolvedRelationship(rid.clone())),
                Some(t) => {
                    proof {
                        assert(h.runs@.skip(0) =~= h.runs@);
                    }
                    Ok(convert_runs_from(&h.runs, 0, ctx, Some(&t)))
                },
            },
        },
    }
}

fn convert_para_items_from<L: LocalizationStrategy>(
    items: &Vec<ParagraphItem>,
    i: usize,
    ctx: &mut ConversionContext<L>,
) -> (r: Result<String, ConvertError>)
    requires
        i <= items@.len(),
    ensures
        final(ctx).spec_env() == old(ctx).spec_env(),
        match r {
            Ok(s) => conv_para_items(items@.skip(i as int), old(ctx).spec_env(), old(ctx).spec_state())
                == Some((s@, final(ctx).spec_state())),
            Err(e) => conv_para_items(
                items@.skip(i as int),
                old(ctx).spec_env(),
                old(ctx).spec_state(),
            ) is None && e is UnresolvedRelationship,
        },
    decreases items@.len() - i,
{
    if i == items.len() {
        proof {
            assert(items@.skip(i as int) =~= Seq::<ParagraphItem>::empty());
        }
        Ok(String::new())
    } else {
        proof {
            assert(items@.skip(i as int)[0] == items@[i as int]);
            assert(items@.skip(i as int).drop_first() =~= items@.skip(i as int + 1));
        }
        match convert_para_item(&items[i], ctx) {
            Err(e) => Err(e),
            Ok(mut first) => match convert_para_items_from(items, i + 1, ctx) {
                Err(e) => Err(e),
                Ok(rest) => {
                    first.append(rest.as_str());
                    Ok(first)
                },
            },
        }
    }
}

/// Converts a paragraph node into a Markdown paragraph or list-item line.
pub struct ParagraphConverter;

impl ParagraphConverter {
    /// Converts one paragraph; `Err` exactly when a hyperlink in it carries
    /// a relationship id the relationship table does not know.
    pub fn convert<L: LocalizationStrategy>(
        p: &ParagraphNode,
        ctx: &mut ConversionContext<L>,
    ) -> (r: Result<String, ConvertError>)
        ensures
            final(ctx).spec_env() == old(ctx).spec_env(),
            match r {
                Ok(s) => conv_paragraph(*p, old(ctx).spec_env(), old(ctx).spec_state()) == Some(
                    (s@, final(ctx).spec_state()),
                ),
                Err(e) => conv_paragraph(*p, old(ctx).spec_env(), old(ctx).spec_state()) is None
                    && e is UnresolvedRelationship,
            },
    {
        proof {
            assert(p.content@.skip(0) =~= p.content@);
        }
        let inline = match convert_para_items_from(&p.content, 0, ctx) {
            Err(e) => {
                return Err(e);
            },
            Ok(s) => s,
        };
        if inline.as_str().unicode_len() == 0 {
            return Ok(inline);
        }
        let heading = match &p.style_id {
            Some(sid) => ctx.style_resolver.resolve(sid).heading_level,
            None => None,
        };
        match heading {
            Some(h) => {
                let mut out = repeat_string('#', h as u64);
                out.append(" ");
                out.append(inline.as_str());
                assert(out@ =~= repeat_char('#', h as nat) + " "@ + inline@);
                Ok(out)
            },
            None => match &p.numbering {
                Some(nr) => {
                    let value = ctx.numbering.advance(nr.num_id, nr.level);
                    let label = if ctx.numbering.is_ordered(nr.num_id, nr.level) {
                        ctx.localization.ordered_label(value)
                    } else {
                        ctx.localization.bullet()
                    };
                    let mut out = String::new();
                    crate::strutil::append_repeat(&mut out, "  ", nr.level);
                    out.append(label.as_str());
                    out.append(inline.as_str());
                    assert(out@ =~= repeat_seq("  "@, nr.level as nat) + label@ + inline@);
                    Ok(out)
                },
                None => Ok(inline),
            },
        }
    }
}

} // verus!

//! Conversion laws: the guarantees that relate the converters to the
//! extractor and the trailing note section, stated over the same spec
//! functions the converters' own contracts use.

use vstd::prelude::*;
use crate::ast::BlockView;
use crate::context::{ConvEnv, ConvState};
use crate::doc::{BodyContent, InlineContent, ParagraphNode, SdtNode, TableNode};
use crate::extractor::{extract_content, extract_contents};
use crate::localization::LocalizationStrategy;
use crate::lookup::assoc_lookup;
use crate::numbering::inc_sat;
use crate::paragraph::{conv_para_items, conv_paragraph};
use crate::run::{conv_inline, note_index};
use crate::strutil::dec_seq;
use crate::converter::footnote_lines;
use crate::table::conv_table;

verus! {

/// A paragraph whose resolved inline content is empty converts to the empty
/// string — no heading mark, no list prefix, no counter advanced beyond what
/// its items did — and the extractor emits no block for it. Content with an
/// anchor or an embedded image renders non-empty, so this only covers
/// paragraphs that truly show nothing.
pub proof fn lemma_empty_paragraph_suppressed<L: LocalizationStrategy>(
    p: ParagraphNode,
    env: ConvEnv<L>,
    st: ConvState,
)
    requires
        conv_para_items(p.content@, env, st) is Some,
        conv_para_items(p.content@, env, st)->Some_0.0.len() == 0,
    ensures
        conv_paragraph(p, env, st) == Some(
            (Seq::<char>::empty(), conv_para_items(p.content@, env, st)->Some_0.1),
        ),
        extract_content(BodyContent::Paragraph(p), env, st) == Some(
            (Seq::<BlockView>::empty(), conv_para_items(p.content@, env, st)->Some_0.1),
        ),
{
    let m = conv_para_items(p.content@, env, st)->Some_0.0;
    assert(m =~= Seq::<char>::empty());
}

/// A table always yields exactly one `TableHtml` block: table emission is
/// never suppressed for emptiness, unlike paragraphs.
pub proof fn lemma_table_always_block<L: LocalizationStrategy>(
    t: TableNode,
    env: ConvEnv<L>,
    st: ConvState,
)
    requires
        conv_table(t, env, st) is Some,
    ensures
        extract_content(BodyContent::Table(t), env, st) == Some(
            (
                seq![BlockView::TableHtml(conv_table(t, env, st)->Some_0.0)],
                conv_table(t, env, st)->Some_0.1,
            ),
        ),
{
}

/// Even a table with no rows converts (to an empty HTML table) and yields
/// its one block.
pub proof fn lemma_empty_table_not_suppressed<L: LocalizationStrategy>(
    t: TableNode,
    env: ConvEnv<L>,
    st: ConvState,
)
    requires
        t.rows@.len() == 0,
    ensures
        conv_table(t, env, st) == Some(("<table></table>"@, st)),
        extract_content(BodyContent::Table(t), env, st) == Some(
            (seq![BlockView::TableHtml("<table></table>"@)], st),
        ),
{
    reveal_strlit("<table>");
    reveal_strlit("</table>");
    reveal_strlit("<table></table>");
    assert("<table>"@ + Seq::<char>::empty() + "</table>"@ =~= "<table></table>"@);
    lemma_table_always_block(t, env, st);
}

/// A repeated reference to an already-recorded footnote reuses the marker
/// assigned at first reference — the number is the note's position plus one —
/// and records nothing new.
pub proof fn lemma_footnote_marker_reused<L: LocalizationStrategy>(
    id: String,
    env: ConvEnv<L>,
    st: ConvState,
)
    requires
        assoc_lookup(env.fdefs, id@) is Some,
        note_index(st.footnotes, id@) >= 0,
    ensures
        conv_inline(InlineContent::FootnoteRef(id), env, st) == (
            "[^"@ + dec_seq((note_index(st.footnotes, id@) + 1) as u64) + "]"@,
            st,
        ),
{
}

/// A first reference to a footnote is assigned the next sequential marker —
/// one more than the count of footnotes already recorded — and appends the
/// note at the end of the collection. Stated below the saturation bound of
/// the counter width, where the next number is representable.
pub proof fn lemma_footnote_marker_fresh<L: LocalizationStrategy>(
    id: String,
    env: ConvEnv<L>,
    st: ConvState,
)
    requires
        assoc_lookup(env.fdefs, id@) is Some,
        note_index(st.footnotes, id@) == -1,
        st.footnotes.len() < u64::MAX,
    ensures
        conv_inline(InlineContent::FootnoteRef(id), env, st) == (
            "[^"@ + dec_seq((st.footnotes.len() + 1) as u64) + "]"@,
            ConvState {
                footnotes: st.footnotes.push((id, assoc_lookup(env.fdefs, id@)->0)),
                ..st
            },
        ),
{
    assert(inc_sat(st.footnotes.len() as u64) == (st.footnotes.len() + 1) as u64);
}

/// A repeated reference to an already-recorded endnote reuses the marker
/// assigned at first reference and records nothing new.
pub proof fn lemma_endnote_marker_reused<L: LocalizationStrategy>(
    id: String,
    env: ConvEnv<L>,
    st: ConvState,
)
    requires
        assoc_lookup(env.edefs, id@) is Some,
        note_index(st.endnotes, id@) >= 0,
    ensures
        conv_inline(InlineContent::EndnoteRef(id), env, st) == (
            "[^en"@ + dec_seq((note_index(st.endnotes, id@) + 1) as u64) + "]"@,
            st,
        ),
{
}

/// A first reference to an endnote is assigned the next sequential marker
/// and appends the note, as for footnotes.
pub proof fn lemma_endnote_marker_fresh<L: LocalizationStrategy>(
    id: String,
    env: ConvEnv<L>,
    st: ConvState,
)
    requires
        assoc_lookup(env.edefs, id@) is Some,
        note_index(st.endnotes, id@) == -1,
        st.endnotes.len() < u64::MAX,
    ensures
        conv_inline(InlineContent::EndnoteRef(id), env, st) == (
            "[^en"@ + dec_seq((st.endnotes.len() + 1) as u64) + "]"@,
            ConvState {
                endnotes: st.endnotes.push((id, assoc_lookup(env.edefs, id@)->0)),
                ..st
            },
        ),
{
    assert(inc_sat(st.endnotes.len() as u64) == (st.endnotes.len() + 1) as u64);
}

/// A comment reference always renders the marker carrying its own id; a
/// repeated reference records nothing new, so the comment's single entry in
/// the trailing section keeps its first-reference position.
pub proof fn lemma_comment_marker_reused<L: LocalizationStrategy>(
    id: String,
    env: ConvEnv<L>,
    st: ConvState,
)
    requires
        assoc_lookup(env.cdefs, id@) is Some,
        note_index(st.comments, id@) >= 0,
    ensures
        conv_inline(InlineContent::CommentRef(id), env, st) == ("[^c"@ + id@ + "]"@, st),
{
}

/// In the trailing section, the definition recorded at position `j` renders
/// on the line carrying marker number `j + 1` — the same number the body
/// marker for that note uses.
pub proof fn lemma_footnote_section_position(f: Seq<(String, String)>, k: int, j: int)
    requires
        0 <= j < f.len(),
    ensures
        footnote_lines(f, k) == footnote_lines(f.take(j), k) + ("[^"@ + dec_seq((k + j) as u64)
            + "]: "@ + f[j].1@ + "\n"@) + footnote_lines(f.skip(j + 1), k + j + 1),
    decreases j,
{
    if j == 0 {
        assert(f.take(0) =~= Seq::<(String, String)>::empty());
        assert(f.skip(1) =~= f.drop_first());
        assert(footnote_lines(f.take(0), k) == Seq::<char>::empty());
        assert(footnote_lines(f, k) =~= footnote_lines(f.take(0), k) + ("[^"@ + dec_seq(
            (k + 0) as u64,
        ) + "]: "@ + f[0].1@ + "\n"@) + footnote_lines(f.skip(1), k + 1));
    } else {
        lemma_footnote_section_position(f.drop_first(), k + 1, j - 1);
        assert(f.drop_first().take(j - 1) =~= f.take(j).drop_first());
        assert(f.drop_first().skip(j) =~= f.skip(j + 1));
        assert(f.drop_first()[j - 1] == f[j]);
        assert(footnote_lines(f, k) =~= footnote_lines(f.take(j), k) + ("[^"@ + dec_seq(
            (k + j) as u64,
        ) + "]: "@ + f[j].1@ + "\n"@) + footnote_lines(f.skip(j + 1), k + j + 1));
    }
}

/// Extraction distributes over concatenation of body sequences: the blocks
/// of `cs1 + cs2` are the blocks of `cs1` followed by the blocks of `cs2`
/// converted in the state `cs1` left behind — source order is preserved, and
/// the first error in either part aborts the whole extraction.
pub proof fn lemma_extract_append<L: LocalizationStrategy>(
    cs1: Seq<BodyContent>,
    cs2: Seq<BodyContent>,
    env: ConvEnv<L>,
    st: ConvState,
)
    ensures
        extract_contents(cs1 + cs2, env, st) == match extract_contents(cs1, env, st) {
            None => None::<(Seq<BlockView>, ConvState)>,
            Some((b1, st1)) => match extract_contents(cs2, env, st1) {
                None => None,
                Some((b2, st2)) => Some((b1 + b2, st2)),
            },
        },
    decreases cs1.len(),
{
    if cs1.len() == 0 {
        assert(cs1 + cs2 =~= cs2);
        match extract_contents(cs2, env, st) {
            None => {},
            Some((b2, st2)) => {
                assert(Seq::<BlockView>::empty() + b2 =~= b2);
            },
        }
    } else {
        assert((cs1 + cs2)[0] == cs1[0]);
        assert((cs1 + cs2).drop_first() =~= cs1.drop_first() + cs2);
        match extract_content(cs1[0], env, st) {
            None => {},
            Some((b0, st0)) => {
                lemma_extract_append(cs1.drop_first(), cs2, env, st0);
                match extract_contents(cs1.drop_first(), env, st0) {
                    None => {},
                    Some((b1, st1)) => {
                        match extract_contents(cs2, env, st1) {
                            None => {},
                            Some((b2, st2)) => {
                                assert(b0 + (b1 + b2) =~= (b0 + b1) + b2);
                            },
                        }
                    },
                }
            },
        }
    }
}

/// A structured-content wrapper with child content is transparent: the
/// extraction of `before + [wrapper] + after` equals, block for block and in
/// the same state, the extraction of `before + children + after`.
pub proof fn lemma_sdt_transparent<L: LocalizationStrategy>(
    before: Seq<BodyContent>,
    s: SdtNode,
    after: Seq<BodyContent>,
    env: ConvEnv<L>,
    st: ConvState,
)
    requires
        s.content is Some,
    ensures
        extract_contents(before + seq![BodyContent::Sdt(s)] + after, env, st) == extract_contents(
            before + s.content->0@ + after,
            env,
            st,
        ),
{
    let children = s.content->0@;
    lemma_extract_append(before, seq![BodyContent::Sdt(s)] + after, env, st);
    lemma_extract_append(before, children + after, env, st);
    assert(before + seq![BodyContent::Sdt(s)] + after =~= before + (seq![BodyContent::Sdt(s)]
        + after));
    assert(before + children + after =~= before + (children + after));
    match extract_contents(before, env, st) {
        None => {},
        Some((b0, st0)) => {
            lemma_extract_append(seq![BodyContent::Sdt(s)], after, env, st0);
            lemma_extract_append(children, after, env, st0);
            assert(seq![BodyContent::Sdt(s)][0] == BodyContent::Sdt(s));
            assert(seq![BodyContent::Sdt(s)].drop_first() =~= Seq::<BodyContent>::empty());
            match extract_content(BodyContent::Sdt(s), env, st0) {
                None => {},
                Some((bs, st1)) => {
                    assert(extract_contents(Seq::<BodyContent>::empty(), env, st1) == Some(
                        (Seq::<BlockView>::empty(), st1),
                    ));
                    assert(extract_contents(seq![BodyContent::Sdt(s)], env, st0) == Some(
                        (bs + Seq::<BlockView>::empty(), st1),
                    ));
                    assert(bs + Seq::<BlockView>::empty() =~= bs);
                    assert(extract_contents(seq![BodyContent::Sdt(s)], env, st0)
                        =~= extract_contents(children, env, st0));
                },
            }
            if extract_content(BodyContent::Sdt(s), env, st0) is None {
            }
        },
    }
}

} // verus!

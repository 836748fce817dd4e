//! The table converter: tables render as raw HTML (`<table>…</table>`)
//! rather than Markdown pipe tables, because source tables may hold merged
//! cells, nested tables, or multi-paragraph cells that Markdown tables
//! cannot express. Each row becomes `<tr>`, each cell `<td>` (`<th>` when
//! header semantics are detectable); a cell paragraph's Markdown is
//! interpolated HTML-escaped, and a nested table recurses.

use vstd::prelude::*;
use vstd::string::StrSliceExecFns;
use vstd::string::StringExecFns;
use crate::context::{ConvEnv, ConvState, ConversionContext};
use crate::doc::{CellContent, TableCellNode, TableNode, TableRowNode};
use crate::error::ConvertError;
use crate::localization::LocalizationStrategy;
use crate::paragraph::{conv_paragraph, ParagraphConverter};
use crate::strutil::escape_seq;

verus! {

/// What a whole table renders as, and the state after it.
pub open spec fn conv_table<L: LocalizationStrategy>(
    t: TableNode,
    env: ConvEnv<L>,
    st: ConvState,
) -> Option<(Seq<char>, ConvState)>
    decreases t,
{
    match conv_rows(t.rows@, env, st) {
        None => None,
        Some((m, st1)) => Some(("<table>"@ + m + "</table>"@, st1)),
    }
}

pub open spec fn conv_rows<L: LocalizationStrategy>(
    rows: Seq<TableRowNode>,
    env: ConvEnv<L>,
    st: ConvState,
) -> Option<(Seq<char>, ConvState)>
    decreases rows,
{
    if rows.len() == 0 {
        Some((Seq::<char>::empty(), st))
    } else {
        match conv_row(rows[0], env, st) {
            None => None,
            Some((m, st1)) => match conv_rows(rows.drop_first(), env, st1) {
                None => None,
                Some((r, st2)) => Some((m + r, st2)),
            },
        }
    }
}

pub open spec fn conv_row<L: LocalizationStrategy>(
    row: TableRowNode,
    env: ConvEnv<L>,
    st: ConvState,
) -> Option<(Seq<char>, ConvState)>
    decreases row,
{
    match conv_cells(row.cells@, env, st) {
        None => None,
        Some((m, st1)) => Some(("<tr>"@ + m + "</tr>"@, st1)),
    }
}

pub open spec fn conv_cells<L: LocalizationStrategy>(
    cells: Seq<TableCellNode>,
    env: ConvEnv<L>,
    st: ConvState,
) -> Option<(Seq<char>, ConvState)>
    decreases cells,
{
    if cells.len() == 0 {
        Some((Seq::<char>::empty(), st))
    } else {
        match conv_cell(cells[0], env, st) {
            None => None,
            Some((m, st1)) => match conv_cells(cells.drop_first(), env, st1) {
                None => None,
                Some((r, st2)) => Some((m + r, st2)),
            },
        }
    }
}

pub open spec fn conv_cell<L: LocalizationStrategy>(
    cell: TableCellNode,
    env: ConvEnv<L>,
    st: ConvState,
) -> Option<(Seq<char>, ConvState)>
    decreases cell,
{
    match conv_cell_items(cell.content@, env, st) {
        None => None,
        Some((m, st1)) => Some(
            (
                if cell.header {
                    "<th>"@ + m + "</th>"@
                } else {
                    "<td>"@ + m + "</td>"@
                },
                st1,
            ),
        ),
    }
}

pub open spec fn conv_cell_items<L: LocalizationStrategy>(
    items: Seq<CellContent>,
    env: ConvEnv<L>,
    st: ConvState,
) -> Option<(Seq<char>, ConvState)>
    decreases items,
{
    if items.len() == 0 {
        Some((Seq::<char>::empty(), st))
    } else {
        match conv_cell_item(items[0], env, st) {
            None => None,
            Some((m, st1)) => match conv_cell_items(items.drop_first(), env, st1) {
                None => None,
                Some((r, st2)) => Some((m + r, st2)),
            },
        }
    }
}

/// One cell content item: a paragraph's Markdown, HTML-escaped, or a nested
/// table's HTML.
pub open spec fn conv_cell_item<L: LocalizationStrategy>(
    item: CellContent,
    env: ConvEnv<L>,
    st: ConvState,
) -> Option<(Seq<char>, ConvState)>
    decreases item,
{
    match item {
        CellContent::Paragraph(p) => match conv_paragraph(p, env, st) {
            None => None,
            Some((m, st1)) => Some((escape_seq(m), st1)),
        },
        CellContent::Table(t) => conv_table(t, env, st),
    }
}

/// Converts a table node into an HTML table fragment.
pub struct TableConverter;

impl TableConverter {
    /// Converts one table; `Err` exactly when a hyperlink somewhere in a
    /// cell carries a relationship id the relationship table does not know.
    pub fn convert<L: LocalizationStrategy>(t: &TableNode, ctx: &mut ConversionContext<L>) -> (r:
        Result<String, ConvertError>)
        ensures
            final(ctx).spec_env() == old(ctx).spec_env(),
            match r {
                Ok(s) => conv_table(*t, old(ctx).spec_env(), old(ctx).spec_state()) == Some(
                    (s@, final(ctx).spec_state()),
                ),
                Err(e) => conv_table(*t, old(ctx).spec_env(), old(ctx).spec_state()) is None
                    && e is UnresolvedRelationship,
            },
        decreases *t,
    {
        proof {
            assert(t.rows@.skip(0) =~= t.rows@);
        }
        match convert_rows_from(&t.rows, 0, ctx) {
            Err(e) => Err(e),
            Ok(m) => {
                let mut out = String::new();
                out.append("<table>");
                out.append(m.as_str());
                out.append("</table>");
                assert(out@ =~= "<table>"@ + m@ + "</table>"@);
                Ok(out)
            },
        }
    }
}

fn convert_rows_from<L: LocalizationStrategy>(
    rows: &Vec<TableRowNode>,
    i: usize,
    ctx: &mut ConversionContext<L>,
) -> (r: Result<String, ConvertError>)
    requires
        i <= rows@.len(),
    ensures
        final(ctx).spec_env() == old(ctx).spec_env(),
        match r {
            Ok(s) => conv_rows(rows@.skip(i as int), old(ctx).spec_env(), old(ctx).spec_state())
                == Some((s@, final(ctx).spec_state())),
            Err(e) => conv_rows(
                rows@.skip(i as int),
                old(ctx).spec_env(),
                old(ctx).spec_state(),
            ) is None && e is UnresolvedRelationship,
        },
    decreases rows@.skip(i as int),
{
    if i == rows.len() {
        proof {
            assert(rows@.skip(i as int) =~= Seq::<TableRowNode>::empty());
        }
        Ok(String::new())
    } else {
        proof {
            assert(rows@.skip(i as int)[0] == rows@[i as int]);
            assert(rows@.skip(i as int).drop_first() =~= rows@.skip(i as int + 1));
            vstd::seq::axiom_seq_len_decreases(rows@.skip(i as int), rows@.skip(i as int + 1));
        }
        match convert_row(&rows[i], ctx) {
            Err(e) => Err(e),
            Ok(mut first) => match convert_rows_from(rows, i + 1, ctx) {
                Err(e) => Err(e),
                Ok(rest) => {
                    first.append(rest.as_str());
                    Ok(first)
                },
            },
        }
    }
}

fn convert_row<L: LocalizationStrategy>(
    row: &TableRowNode,
    ctx: &mut ConversionContext<L>,
) -> (r: Result<String, ConvertError>)
    ensures
        final(ctx).spec_env() == old(ctx).spec_env(),
        match r {
            Ok(s) => conv_row(*row, old(ctx).spec_env(), old(ctx).spec_state()) == Some(
                (s@, final(ctx).spec_state()),
            ),
            Err(e) => conv_row(*row, old(ctx).spec_env(), old(ctx).spec_state()) is None
                && e is UnresolvedRelationship,
        },
    decreases *row,
{
    proof {
        assert(row.cells@.skip(0) =~= row.cells@);
    }
    match convert_cells_from(&row.cells, 0, ctx) {
        Err(e) => Err(e),
        Ok(m) => {
            let mut out = String::new();
            out.append("<tr>");
            out.append(m.as_str());
            out.append("</tr>");
            assert(out@ =~= "<tr>"@ + m@ + "</tr>"@);
            Ok(out)
        },
    }
}

fn convert_cells_from<L: LocalizationStrategy>(
    cells: &Vec<TableCellNode>,
    i: usize,
    ctx: &mut ConversionContext<L>,
) -> (r: Result<String, ConvertError>)
    requires
        i <= cells@.len(),
    ensures
        final(ctx).spec_env() == old(ctx).spec_env(),
        match r {
            Ok(s) => conv_cells(cells@.skip(i as int), old(ctx).spec_env(), old(ctx).spec_state())
                == Some((s@, final(ctx).spec_state())),
            Err(e) => conv_cells(
                cells@.skip(i as int),
                old(ctx).spec_env(),
                old(ctx).spec_state(),
            ) is None && e is UnresolvedRelationship,
        },
    decreases cells@.skip(i as int),
{
    if i == cells.len() {
        proof {
            assert(cells@.skip(i as int) =~= Seq::<TableCellNode>::empty());
        }
        Ok(String::new())
    } else {
        proof {
            assert(cells@.skip(i as int)[0] == cells@[i as int]);
            assert(cells@.skip(i as int).drop_first() =~= cells@.skip(i as int + 1));
            vstd::seq::axiom_seq_len_decreases(cells@.skip(i as int), cells@.skip(i as int + 1));
        }
        match convert_cell(&cells[i], ctx) {
            Err(e) => Err(e),
            Ok(mut first) => match convert_cells_from(cells, i + 1, ctx) {
                Err(e) => Err(e),
                Ok(rest) => {
                    first.append(rest.as_str());
                    Ok(first)
                },
            },
        }
    }
}

fn convert_cell<L: LocalizationStrategy>(
    cell: &TableCellNode,
    ctx: &mut ConversionContext<L>,
) -> (r: Result<String, ConvertError>)
    ensures
        final(ctx).spec_env() == old(ctx).spec_env(),
        match r {
            Ok(s) => conv_cell(*cell, old(ctx).spec_env(), old(ctx).spec_state()) == Some(
                (s@, final(ctx).spec_state()),
            ),
            Err(e) => conv_cell(*cell, old(ctx).spec_env(), old(ctx).spec_state()) is None
                && e is UnresolvedRelationship,
        },
    decreases *cell,
{
    proof {
        assert(cell.content@.skip(0) =~= cell.content@);
    }
    match convert_cell_items_from(&cell.content, 0, ctx) {
        Err(e) => Err(e),
        Ok(m) => {
            let mut out = String::new();
            if cell.header {
                out.append("<th>");
                out.append(m.as_str());
                out.append("</th>");
                assert(out@ =~= "<th>"@ + m@ + "</th>"@);
            } else {
                out.append("<td>");
                out.append(m.as_str());
                out.append("</td>");
                assert(out@ =~= "<td>"@ + m@ + "</td>"@);
            }
            Ok(out)
        },
    }
}

fn convert_cell_items_from<L: LocalizationStrategy>(
    items: &Vec<CellContent>,
    i: usize,
    ctx: &mut ConversionContext<L>,
) -> (r: Result<String, ConvertError>)
    requires
        i <= items@.len(),
    ensures
        final(ctx).spec_env() == old(ctx).spec_env(),
        match r {
            Ok(s) => conv_cell_items(
                items@.skip(i as int),
                old(ctx).spec_env(),
                old(ctx).spec_state(),
            ) == Some((s@, final(ctx).spec_state())),
            Err(e) => conv_cell_items(
                items@.skip(i as int),
                old(ctx).spec_env(),
                old(ctx).spec_state(),
            ) is None && e is UnresolvedRelationship,
        },
    decreases items@.skip(i as int),
{
    if i == items.len() {
        proof {
            assert(items@.skip(i as int) =~= Seq::<CellContent>::empty());
        }
        Ok(String::new())
    } else {
        proof {
            assert(items@.skip(i as int)[0] == items@[i as int]);
            assert(items@.skip(i as int).drop_first() =~= items@.skip(i as int + 1));
            vstd::seq::axiom_seq_len_decreases(items@.skip(i as int), items@.skip(i as int + 1));
        }
        match convert_cell_item(&items[i], ctx) {
            Err(e) => Err(e),
            Ok(mut first) => match convert_cell_items_from(items, i + 1, ctx) {
                Err(e) => Err(e),
                Ok(rest) => {
                    first.append(rest.as_str());
                    Ok(first)
                },
            },
        }
    }
}

fn convert_cell_item<L: LocalizationStrategy>(
    item: &CellContent,
    ctx: &mut ConversionContext<L>,
) -> (r: Result<String, ConvertError>)
    ensures
        final(ctx).spec_env() == old(ctx).spec_env(),
        match r {
            Ok(s) => conv_cell_item(*item, old(ctx).spec_env(), old(ctx).spec_state()) == Some(
                (s@, final(ctx).spec_state()),
            ),
            Err(e) => conv_cell_item(*item, old(ctx).spec_env(), old(ctx).spec_state()) is None
                && e is UnresolvedRelationship,
        },
    decreases *item,
{
    match item {
        CellContent::Paragraph(p) => match ParagraphConverter::convert(p, ctx) {
            Err(e) => Err(e),
            Ok(m) => Ok(crate::strutil::escape_html(m.as_str())),
        },
        CellContent::Table(t) => TableConverter::convert(t, ctx),
    }
}

} // verus!

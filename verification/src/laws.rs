//! What holds of every assembled statement.

use vstd::prelude::*;

use crate::assembler::any_present;
use crate::assembler::clause_text;
use crate::assembler::delete_sql;
use crate::assembler::each_present_holds;
use crate::assembler::join;
use crate::assembler::present_fragments;
use crate::assembler::present_values;
use crate::assembler::select_sql;
use crate::assembler::select_values;
use crate::assembler::update_sql;
use crate::assembler::update_values;
use crate::assembler::AssignmentSetView;
use crate::assembler::ContributionView;
use crate::assembler::FilterSetView;
use crate::assembler::PaginationView;
use crate::assembler::PredicateView;
use crate::assembler::ValueView;
use crate::text::lemma_placeholder_count_concat;
use crate::text::placeholder_count;

verus! {

/// One fragment is emitted for each present item, so fragments exist exactly
/// when an item is present.
pub proof fn lemma_present_fragments_any(items: Seq<ContributionView>, suffix: Seq<char>)
    ensures
        present_fragments(items, suffix).len() == present_values(items).len(),
        present_fragments(items, suffix).len() <= items.len(),
        present_fragments(items, suffix).len() > 0 <==> any_present(items),
    decreases items.len(),
{
    if items.len() > 0 {
        let before = items.drop_last();
        lemma_present_fragments_any(before, suffix);
        if items.last().value is Some {
            assert(items[items.len() - 1].value is Some);
        } else if any_present(items) {
            let i = choose|i: int| 0 <= i < items.len() && (#[trigger] items[i]).value is Some;
            assert(before[i].value is Some);
        } else if any_present(before) {
            let i = choose|i: int| 0 <= i < before.len() && (#[trigger] before[i]).value is Some;
            assert(items[i].value is Some);
        }
    }
}

/// A clause with no item present is no text at all, and binds nothing.
pub proof fn lemma_clause_without_present_items(
    items: Seq<ContributionView>,
    opening: Seq<char>,
    separator: Seq<char>,
    suffix: Seq<char>,
    closing: Seq<char>,
)
    requires
        !any_present(items),
    ensures
        clause_text(items, opening, separator, suffix, closing) == Seq::<char>::empty(),
        present_values(items) == Seq::<ValueView>::empty(),
{
    lemma_present_fragments_any(items, suffix);
    assert(present_values(items) =~= Seq::<ValueView>::empty());
}

/// The characters of all the parts together.
pub open spec fn total_len(parts: Seq<Seq<char>>) -> nat
    decreases parts.len(),
{
    if parts.len() == 0 {
        0
    } else {
        total_len(parts.drop_last()) + parts.last().len()
    }
}

/// Joined parts hold, besides their own characters, one separator fewer
/// than there are parts.
pub proof fn lemma_join_len(parts: Seq<Seq<char>>, separator: Seq<char>)
    requires
        parts.len() > 0,
    ensures
        join(parts, separator).len() == total_len(parts) + (parts.len() - 1) * separator.len(),
    decreases parts.len(),
{
    if parts.len() == 1 {
        assert(total_len(parts.drop_last()) == 0);
    } else {
        lemma_join_len(parts.drop_last(), separator);
        assert((parts.len() - 1) * separator.len() == (parts.len() - 2) * separator.len()
            + separator.len()) by (nonlinear_arith);
    }
}

/// Joined parts begin with the first part and end with the last one: no
/// separator stands before the first or after the last.
pub proof fn lemma_join_ends(parts: Seq<Seq<char>>, separator: Seq<char>)
    requires
        parts.len() > 0,
    ensures
        parts.first().is_prefix_of(join(parts, separator)),
        parts.last().is_suffix_of(join(parts, separator)),
    decreases parts.len(),
{
    if parts.len() > 1 {
        lemma_join_ends(parts.drop_last(), separator);
        assert(parts.drop_last().first() == parts.first());
    }
}

/// The placeholders of all the parts together.
pub open spec fn total_placeholders(parts: Seq<Seq<char>>) -> nat
    decreases parts.len(),
{
    if parts.len() == 0 {
        0
    } else {
        total_placeholders(parts.drop_last()) + placeholder_count(parts.last())
    }
}

/// Joining with a separator that holds no placeholder adds none.
pub proof fn lemma_join_placeholders(parts: Seq<Seq<char>>, separator: Seq<char>)
    requires
        placeholder_count(separator) == 0,
    ensures
        placeholder_count(join(parts, separator)) == total_placeholders(parts),
    decreases parts.len(),
{
    if parts.len() == 0 {
    } else if parts.len() == 1 {
        assert(total_placeholders(parts.drop_last()) == 0);
    } else {
        lemma_join_placeholders(parts.drop_last(), separator);
        lemma_placeholder_count_concat(join(parts.drop_last(), separator), separator);
        lemma_placeholder_count_concat(join(parts.drop_last(), separator) + separator, parts.last());
    }
}

/// Where each present item brings one placeholder, in its text or in the
/// suffix, the fragments hold as many placeholders as there are values.
pub proof fn lemma_fragment_placeholders(items: Seq<ContributionView>, suffix: Seq<char>)
    requires
        forall|i: int|
            0 <= i < items.len() && (#[trigger] items[i]).value is Some ==> placeholder_count(
                items[i].text,
            ) + placeholder_count(suffix) == 1,
    ensures
        total_placeholders(present_fragments(items, suffix)) == present_values(items).len(),
    decreases items.len(),
{
    if items.len() > 0 {
        let before = items.drop_last();
        assert forall|i: int| 0 <= i < before.len() && (#[trigger] before[i]).value is Some implies
            placeholder_count(before[i].text) + placeholder_count(suffix) == 1 by {
            assert(items[i].value is Some);
        }
        lemma_fragment_placeholders(before, suffix);
        if items.last().value is Some {
            assert(items[items.len() - 1].value is Some);
            lemma_placeholder_count_concat(items.last().text, suffix);
            let fragments = present_fragments(before, suffix);
            assert(fragments.push(items.last().text + suffix).drop_last() =~= fragments);
        }
    }
}

/// How many placeholders the keywords and separators of the clauses hold.
proof fn lemma_literal_placeholders()
    ensures
        placeholder_count(" AND "@) == 0,
        placeholder_count(" OR "@) == 0,
        placeholder_count(", "@) == 0,
        placeholder_count(" WHERE ("@) == 0,
        placeholder_count(")"@) == 0,
        placeholder_count(" OFFSET ? LIMIT ?"@) == 2,
        placeholder_count("UPDATE "@) == 0,
        placeholder_count(" SET "@) == 0,
        placeholder_count(" = ?"@) == 1,
        placeholder_count(" WHERE "@) == 0,
        placeholder_count("DELETE FROM "@) == 0,
{
    reveal_strlit(" AND ");
    reveal_strlit(" OR ");
    reveal_strlit(", ");
    reveal_strlit(" WHERE (");
    reveal_strlit(")");
    reveal_strlit(" OFFSET ? LIMIT ?");
    reveal_strlit("UPDATE ");
    reveal_strlit(" SET ");
    reveal_strlit(" = ?");
    reveal_strlit(" WHERE ");
    reveal_strlit("DELETE FROM ");
    reveal_with_fuel(placeholder_count, 20);
}

/// In an assembled search there are as many placeholders as bound values,
/// provided the base query holds no placeholder and the template of each
/// present filter holds exactly one.
pub proof fn lemma_select_placeholders_match_values(
    base_query: Seq<char>,
    filters: FilterSetView,
    pagination: PaginationView,
)
    requires
        placeholder_count(base_query) == 0,
        each_present_holds(filters.items, 1),
    ensures
        placeholder_count(select_sql(base_query, filters)) == select_values(
            filters,
            pagination,
        ).len(),
{
    lemma_literal_placeholders();
    let none = Seq::<char>::empty();
    let separator = filters.operator.separator();
    let parts = present_fragments(filters.items, none);
    let clause = clause_text(filters.items, " WHERE ("@, separator, none, ")"@);
    lemma_fragment_placeholders(filters.items, none);
    lemma_join_placeholders(parts, separator);
    if parts.len() > 0 {
        lemma_placeholder_count_concat(" WHERE ("@, join(parts, separator));
        lemma_placeholder_count_concat(" WHERE ("@ + join(parts, separator), ")"@);
    }
    lemma_placeholder_count_concat(base_query, clause);
    lemma_placeholder_count_concat(base_query + clause, " OFFSET ? LIMIT ?"@);
}

/// In an assembled update there are as many placeholders as bound values,
/// provided the table and the columns of the present assignments hold no
/// placeholder and the identity predicate holds one for each of its values.
pub proof fn lemma_update_placeholders_match_values(
    table: Seq<char>,
    assignments: AssignmentSetView,
    identity: PredicateView,
)
    requires
        placeholder_count(table) == 0,
        each_present_holds(assignments.items, 0),
        identity.is_balanced(),
    ensures
        placeholder_count(update_sql(table, assignments, identity)) == update_values(
            assignments,
            identity,
        ).len(),
{
    lemma_literal_placeholders();
    let none = Seq::<char>::empty();
    let parts = present_fragments(assignments.items, " = ?"@);
    let clause = clause_text(assignments.items, " SET "@, ", "@, " = ?"@, none);
    lemma_fragment_placeholders(assignments.items, " = ?"@);
    lemma_join_placeholders(parts, ", "@);
    if parts.len() > 0 {
        lemma_placeholder_count_concat(" SET "@, join(parts, ", "@));
        lemma_placeholder_count_concat(" SET "@ + join(parts, ", "@), none);
    }
    lemma_placeholder_count_concat("UPDATE "@, table);
    lemma_placeholder_count_concat("UPDATE "@ + table, clause);
    lemma_placeholder_count_concat("UPDATE "@ + table + clause, " WHERE "@);
    lemma_placeholder_count_concat("UPDATE "@ + table + clause + " WHERE "@, identity.text);
}

/// In an assembled deletion there are as many placeholders as bound values,
/// provided the table holds no placeholder and the identity predicate holds
/// one for each of its values.
pub proof fn lemma_delete_placeholders_match_values(table: Seq<char>, identity: PredicateView)
    requires
        placeholder_count(table) == 0,
        identity.is_balanced(),
    ensures
        placeholder_count(delete_sql(table, identity)) == identity.values.len(),
{
    lemma_literal_placeholders();
    lemma_placeholder_count_concat("DELETE FROM "@, table);
    lemma_placeholder_count_concat("DELETE FROM "@ + table, " WHERE "@);
    lemma_placeholder_count_concat("DELETE FROM "@ + table + " WHERE "@, identity.text);
}

/// A search with no filter present has no `WHERE` clause: its text is the
/// base query followed at once by the pagination, and only the offset and
/// the limit are bound.
pub proof fn lemma_select_without_filters(
    base_query: Seq<char>,
    filters: FilterSetView,
    pagination: PaginationView,
)
    requires
        !any_present(filters.items),
    ensures
        select_sql(base_query, filters) == base_query + " OFFSET ? LIMIT ?"@,
        select_values(filters, pagination) == seq![
            ValueView::Int(pagination.offset() as i64),
            ValueView::Int(pagination.limit as i64),
        ],
{
    lemma_present_fragments_any(filters.items, Seq::empty());
    assert(select_sql(base_query, filters) =~= base_query + " OFFSET ? LIMIT ?"@);
    assert(select_values(filters, pagination) =~= seq![
        ValueView::Int(pagination.offset() as i64),
        ValueView::Int(pagination.limit as i64),
    ]);
}

/// Where item `k` is the only present one, its fragment and its value are
/// all that is emitted.
pub proof fn lemma_only_present(items: Seq<ContributionView>, suffix: Seq<char>, k: int)
    requires
        0 <= k < items.len(),
        forall|i: int| 0 <= i < items.len() ==> ((#[trigger] items[i]).value is Some <==> i == k),
    ensures
        present_fragments(items, suffix) == seq![items[k].text + suffix],
        items[k].value matches Some(value) && present_values(items) == seq![value],
    decreases items.len(),
{
    let before = items.drop_last();
    if k == items.len() - 1 {
        assert(!any_present(before)) by {
            if any_present(before) {
                let i = choose|i: int| 0 <= i < before.len() && (#[trigger] before[i]).value is Some;
                assert(items[i].value is Some);
            }
        }
        lemma_present_fragments_any(before, suffix);
        assert(present_fragments(items, suffix) =~= seq![items[k].text + suffix]);
        assert(present_values(items) =~= seq![items[k].value->0]);
    } else {
        assert(items[items.len() - 1].value is None);
        assert forall|i: int| 0 <= i < before.len() implies ((#[trigger] before[i]).value is Some
            <==> i == k) by {
            assert(before[i] == items[i]);
        }
        lemma_only_present(before, suffix, k);
    }
}

/// A search with exactly one filter present has exactly that predicate in
/// its `WHERE` clause, with no operator before or after it, and binds its
/// value before the offset and the limit.
pub proof fn lemma_select_single_filter(
    base_query: Seq<char>,
    filters: FilterSetView,
    pagination: PaginationView,
    k: int,
)
    requires
        0 <= k < filters.items.len(),
        forall|i: int|
            0 <= i < filters.items.len() ==> ((#[trigger] filters.items[i]).value is Some <==> i
                == k),
    ensures
        select_sql(base_query, filters) == base_query + " WHERE ("@ + filters.items[k].text + ")"@
            + " OFFSET ? LIMIT ?"@,
        filters.items[k].value matches Some(value) && select_values(filters, pagination) == seq![
            value,
            ValueView::Int(pagination.offset() as i64),
            ValueView::Int(pagination.limit as i64),
        ],
{
    lemma_only_present(filters.items, Seq::empty(), k);
    assert(filters.items[k].text + Seq::<char>::empty() =~= filters.items[k].text);
    assert(select_sql(base_query, filters) =~= base_query + " WHERE ("@ + filters.items[k].text
        + ")"@ + " OFFSET ? LIMIT ?"@);
    assert(select_values(filters, pagination) =~= seq![
        filters.items[k].value->0,
        ValueView::Int(pagination.offset() as i64),
        ValueView::Int(pagination.limit as i64),
    ]);
}

/// An update with exactly one assignment present sets exactly that column,
/// with no comma before or after it, and binds its value before those of
/// the identity predicate.
pub proof fn lemma_update_single_assignment(
    table: Seq<char>,
    assignments: AssignmentSetView,
    identity: PredicateView,
    k: int,
)
    requires
        0 <= k < assignments.items.len(),
        forall|i: int|
            0 <= i < assignments.items.len() ==> ((#[trigger] assignments.items[i]).value is Some
                <==> i == k),
    ensures
        update_sql(table, assignments, identity) == "UPDATE "@ + table + " SET "@
            + assignments.items[k].text + " = ?"@ + " WHERE "@ + identity.text,
        assignments.items[k].value matches Some(value) && update_values(assignments, identity)
            == seq![value] + identity.values,
{
    lemma_only_present(assignments.items, " = ?"@, k);
    assert(update_sql(table, assignments, identity) =~= "UPDATE "@ + table + " SET "@
        + assignments.items[k].text + " = ?"@ + " WHERE "@ + identity.text);
}

/// The place of item `i` among what is emitted: the number of present items
/// before it.
pub open spec fn place(items: Seq<ContributionView>, i: int) -> int {
    present_values(items.take(i)).len() as int
}

/// A present item is emitted at its place: its fragment and its value stand
/// there, so text and values keep the same order.
pub proof fn lemma_present_at_place(items: Seq<ContributionView>, suffix: Seq<char>, i: int)
    requires
        0 <= i < items.len(),
        items[i].value is Some,
    ensures
        0 <= place(items, i) < present_values(items).len(),
        present_fragments(items, suffix).len() == present_values(items).len(),
        present_fragments(items, suffix)[place(items, i)] == items[i].text + suffix,
        Some(present_values(items)[place(items, i)]) == items[i].value,
    decreases items.len(),
{
    let before = items.drop_last();
    lemma_present_fragments_any(items, suffix);
    lemma_present_fragments_any(before, suffix);
    if i == items.len() - 1 {
        assert(items.take(i) =~= before);
    } else {
        assert(items.take(i) =~= before.take(i));
        lemma_present_at_place(before, suffix, i);
    }
}

/// The places follow the order of the items: of two present items the
/// earlier one is emitted first.
pub proof fn lemma_places_in_order(items: Seq<ContributionView>, i: int, j: int)
    requires
        0 <= i < j < items.len(),
        items[i].value is Some,
    ensures
        place(items, i) < place(items, j),
    decreases j,
{
    let upto = items.take(j);
    assert(upto.drop_last() =~= items.take(j - 1));
    if i == j - 1 {
        assert(upto.last() == items[i]);
    } else {
        lemma_places_in_order(items, i, j - 1);
    }
}

} // verus!

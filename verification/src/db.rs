//! The statements of the data layer, one function for each operation on the
//! store. Each hands back the statement to execute; executing it is the
//! caller's part.

pub mod email;
pub mod person;
pub mod post;
pub mod texts;

use vstd::prelude::*;

use crate::assembler::Contribution;
use crate::assembler::ContributionView;
use crate::assembler::Pagination;
use crate::assembler::PaginationView;
use crate::assembler::Predicate;
use crate::assembler::PredicateView;
use crate::assembler::Statement;
use crate::assembler::StatementView;
use crate::assembler::Value;
use crate::assembler::ValueView;
use crate::assembler::values_view;
use crate::db::texts::lemma_row_identity_text;
use crate::text::contains_pattern;
use crate::text::wrap_in_wildcards;

verus! {

/// The page that is served where the request names none.
pub const DEFAULT_PAGE: u32 = 1;

/// The number of rows on a page where the request names none.
pub const DEFAULT_LIMIT: usize = 6;

/// The page a request asks for, with the defaults where it is silent.
pub open spec fn requested_page(page: Option<u32>, limit: Option<usize>) -> PaginationView {
    PaginationView {
        page: match page {
            Some(page) => page as nat,
            None => DEFAULT_PAGE as nat,
        },
        limit: match limit {
            Some(limit) => limit as nat,
            None => DEFAULT_LIMIT as nat,
        },
    }
}

/// Whether the page a request asks for is a page.
pub open spec fn page_accepted(page: Option<u32>, limit: Option<usize>) -> bool {
    Pagination::accepts(
        requested_page(page, limit).page as int,
        requested_page(page, limit).limit as int,
    )
}

/// Reads the page a request asks for.
pub fn read_page(page: Option<u32>, limit: Option<usize>) -> (made: Option<Pagination>)
    ensures
        made is Some <==> page_accepted(page, limit),
        made matches Some(pagination) ==> pagination@ == requested_page(page, limit),
{
    let page = match page {
        Some(page) => page,
        None => DEFAULT_PAGE,
    };
    let limit = match limit {
        Some(limit) => limit,
        None => DEFAULT_LIMIT,
    };
    Pagination::new(page, limit)
}

/// Whether a statement that was executed changed or removed anything: the
/// number of affected rows is the only sign of it.
pub fn any_row_affected(rows_affected: u64) -> (any: bool)
    ensures
        any == (rows_affected > 0),
{
    rows_affected > 0
}

/// The value bound for an optional text.
pub open spec fn text_bound(text: Option<String>) -> Option<ValueView> {
    match text {
        Some(text) => Some(ValueView::Text(text@)),
        None => None,
    }
}

/// The value bound for an optional flag.
pub open spec fn flag_bound(flag: Option<bool>) -> Option<ValueView> {
    match flag {
        Some(flag) => Some(ValueView::Bool(flag)),
        None => None,
    }
}

/// The value bound for an optional search term: the term between wildcards.
pub open spec fn pattern_bound(term: Option<String>) -> Option<ValueView> {
    match term {
        Some(term) => Some(ValueView::Text(contains_pattern(term@))),
        None => None,
    }
}

/// A contribution that binds an optional text as it is.
pub(crate) fn text_contribution(text: &str, bound: &Option<String>) -> (item: Contribution)
    ensures
        item@ == (ContributionView { text: text@, value: text_bound(*bound) }),
{
    Contribution {
        text: String::from_str(text),
        value: match bound {
            Some(bound) => Some(Value::Text(bound.clone())),
            None => None,
        },
    }
}

/// A contribution that binds an optional flag.
pub(crate) fn flag_contribution(text: &str, bound: Option<bool>) -> (item: Contribution)
    ensures
        item@ == (ContributionView { text: text@, value: flag_bound(bound) }),
{
    Contribution {
        text: String::from_str(text),
        value: match bound {
            Some(bound) => Some(Value::Bool(bound)),
            None => None,
        },
    }
}

/// A contribution that binds an optional search term between wildcards.
pub(crate) fn pattern_contribution(text: &str, term: &Option<String>) -> (item: Contribution)
    ensures
        item@ == (ContributionView { text: text@, value: pattern_bound(*term) }),
{
    Contribution {
        text: String::from_str(text),
        value: match term {
            Some(term) => Some(Value::Text(wrap_in_wildcards(term.as_str()))),
            None => None,
        },
    }
}

/// The predicate that picks the row with the given identifier.
pub open spec fn row_identity(id: u128) -> PredicateView {
    PredicateView { text: "id = ?"@, values: seq![ValueView::Uuid(id)] }
}

/// The predicate that picks the row with the given identifier.
pub(crate) fn identify_row(id: u128) -> (identity: Predicate)
    ensures
        identity@ == row_identity(id),
        identity@.is_balanced(),
{
    let mut values: Vec<Value> = Vec::new();
    values.push(Value::Uuid(id));
    proof {
        assert(values_view(values@) =~= seq![ValueView::Uuid(id)]);
        lemma_row_identity_text();
    }
    Predicate { text: String::from_str("id = ?"), values }
}

/// A statement with a fixed text that binds one identifier.
pub(crate) fn statement_about(sql: &str, id: u128) -> (statement: Statement)
    ensures
        statement@ == (StatementView { sql: sql@, values: seq![ValueView::Uuid(id)] }),
{
    let mut values: Vec<Value> = Vec::new();
    values.push(Value::Uuid(id));
    assert(values_view(values@) =~= seq![ValueView::Uuid(id)]);
    Statement { sql: String::from_str(sql), values }
}

} // verus!

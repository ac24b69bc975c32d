//! The conditional query assembler.
//!
//! A statement is assembled from ordered lists of optional contributions.
//! An absent contribution leaves no trace: no text and no bound value. The
//! present ones appear in the order given, the clause keyword once before the
//! first of them and the separator once between neighbours. Values never
//! enter the text; each stands behind a `?` placeholder and is carried in the
//! list of bound values, at the position of its placeholder.

use vstd::prelude::*;

use crate::laws::lemma_delete_placeholders_match_values;
use crate::laws::lemma_present_fragments_any;
use crate::laws::lemma_select_placeholders_match_values;
use crate::laws::lemma_update_placeholders_match_values;
use crate::models::Gender;
use crate::text::count_placeholders;
use crate::text::placeholder_count;
use crate::text::positional;
use crate::text::to_positional;
use crate::time::Timestamp;

verus! {

/// A value bound to a placeholder.
#[derive(Debug)]
pub enum Value {
    Text(String),
    Bool(bool),
    NullableBool(Option<bool>),
    Int(i64),
    Uuid(u128),
    Timestamp(Timestamp),
    Gender(Gender),
}

/// What a [`Value`] holds.
pub enum ValueView {
    Text(Seq<char>),
    Bool(bool),
    NullableBool(Option<bool>),
    Int(i64),
    Uuid(u128),
    Timestamp(Timestamp),
    Gender(Gender),
}

impl View for Value {
    type V = ValueView;

    open spec fn view(&self) -> ValueView {
        match self {
            Value::Text(text) => ValueView::Text(text@),
            Value::Bool(flag) => ValueView::Bool(*flag),
            Value::NullableBool(flag) => ValueView::NullableBool(*flag),
            Value::Int(number) => ValueView::Int(*number),
            Value::Uuid(id) => ValueView::Uuid(*id),
            Value::Timestamp(at) => ValueView::Timestamp(*at),
            Value::Gender(gender) => ValueView::Gender(*gender),
        }
    }
}

impl Clone for Value {
    fn clone(&self) -> (copy: Value)
        ensures
            copy@ == self@,
    {
        match self {
            Value::Text(text) => Value::Text(text.clone()),
            Value::Bool(flag) => Value::Bool(*flag),
            Value::NullableBool(flag) => Value::NullableBool(*flag),
            Value::Int(number) => Value::Int(*number),
            Value::Uuid(id) => Value::Uuid(*id),
            Value::Timestamp(at) => Value::Timestamp(*at),
            Value::Gender(gender) => Value::Gender(*gender),
        }
    }
}

/// What a list of values holds, item by item.
pub open spec fn values_view(values: Seq<Value>) -> Seq<ValueView> {
    values.map_values(|value: Value| value@)
}

/// One optional contribution to a clause: a piece of SQL text, and the value
/// that is bound where the piece is used. In a filter the text is a predicate
/// template with one `?` in it; in an assignment it is a column name.
#[derive(Debug)]
pub struct Contribution {
    pub text: String,
    pub value: Option<Value>,
}

/// What a [`Contribution`] holds.
pub struct ContributionView {
    pub text: Seq<char>,
    pub value: Option<ValueView>,
}

impl View for Contribution {
    type V = ContributionView;

    open spec fn view(&self) -> ContributionView {
        ContributionView {
            text: self.text@,
            value: match self.value {
                Some(value) => Some(value@),
                None => None,
            },
        }
    }
}

/// What a list of contributions holds, item by item.
pub open spec fn contributions_view(items: Seq<Contribution>) -> Seq<ContributionView> {
    items.map_values(|item: Contribution| item@)
}

/// The boolean operator that joins the predicates of a search.
#[derive(Debug, Clone, Copy, PartialEq, Eq, Structural)]
pub enum Connective {
    And,
    Or,
}

impl Connective {
    /// The operator as it stands between two predicates.
    pub open spec fn separator(self) -> Seq<char> {
        match self {
            Connective::And => " AND "@,
            Connective::Or => " OR "@,
        }
    }

    /// The operator as it stands between two predicates.
    pub fn as_separator(&self) -> (text: &'static str)
        ensures
            text@ == self.separator(),
    {
        match self {
            Connective::And => " AND ",
            Connective::Or => " OR ",
        }
    }
}

/// The optional predicates of a search, in the order in which they are to
/// appear, and the operator that joins them.
#[derive(Debug)]
pub struct FilterSet {
    pub operator: Connective,
    pub items: Vec<Contribution>,
}

/// What a [`FilterSet`] holds.
pub struct FilterSetView {
    pub operator: Connective,
    pub items: Seq<ContributionView>,
}

impl View for FilterSet {
    type V = FilterSetView;

    open spec fn view(&self) -> FilterSetView {
        FilterSetView { operator: self.operator, items: contributions_view(self.items@) }
    }
}

/// The optional column assignments of a partial update, in the order in
/// which they are to appear.
#[derive(Debug)]
pub struct AssignmentSet {
    pub items: Vec<Contribution>,
}

/// What an [`AssignmentSet`] holds.
pub struct AssignmentSetView {
    pub items: Seq<ContributionView>,
}

impl View for AssignmentSet {
    type V = AssignmentSetView;

    open spec fn view(&self) -> AssignmentSetView {
        AssignmentSetView { items: contributions_view(self.items@) }
    }
}

/// A condition that is always part of the statement, such as the one that
/// identifies the row of an update, with the values for its placeholders.
#[derive(Debug)]
pub struct Predicate {
    pub text: String,
    pub values: Vec<Value>,
}

/// What a [`Predicate`] holds.
pub struct PredicateView {
    pub text: Seq<char>,
    pub values: Seq<ValueView>,
}

impl View for Predicate {
    type V = PredicateView;

    open spec fn view(&self) -> PredicateView {
        PredicateView { text: self.text@, values: values_view(self.values@) }
    }
}

impl PredicateView {
    /// Whether the text holds exactly one placeholder for each of the
    /// values.
    pub open spec fn is_balanced(self) -> bool {
        placeholder_count(self.text) == self.values.len()
    }
}

/// An assembled statement: SQL text with `?` placeholders, and the values
/// bound to them, in the order of the placeholders.
#[derive(Debug)]
pub struct Statement {
    pub sql: String,
    pub values: Vec<Value>,
}

/// What a [`Statement`] holds.
pub struct StatementView {
    pub sql: Seq<char>,
    pub values: Seq<ValueView>,
}

impl View for Statement {
    type V = StatementView;

    open spec fn view(&self) -> StatementView {
        StatementView { sql: self.sql@, values: values_view(self.values@) }
    }
}

impl StatementView {
    /// Whether the text holds exactly one placeholder for each bound value.
    pub open spec fn is_balanced(self) -> bool {
        placeholder_count(self.sql) == self.values.len()
    }
}

impl Statement {
    /// Whether the text holds exactly one placeholder for each bound value.
    /// A statement that does not must not reach the store.
    pub fn is_balanced(&self) -> (balanced: bool)
        ensures
            balanced == self@.is_balanced(),
    {
        count_placeholders(self.sql.as_str()) == self.values.len()
    }

    /// The text with its placeholders numbered, for a store that takes
    /// `$1`, `$2` and so on in place of `?`.
    pub fn positional_sql(&self) -> (sql: String)
        ensures
            sql@ == positional(self.sql@),
    {
        to_positional(self.sql.as_str())
    }
}

/// Why no statement was assembled.
#[derive(Debug, Clone, Copy, PartialEq, Eq, Structural)]
pub enum ConstructionError {
    /// An update was asked for with no column to set.
    EmptyAssignmentSet,
    /// The page or the limit is zero, or the offset is out of range.
    InvalidPagination,
    /// A birthdate could not be read.
    InvalidBirthdate,
}

/// A page of results: the number of the page, counted from one, and the
/// number of rows on a page. Both are positive, and the offset of the page
/// fits the integer type that is bound for it.
#[derive(Debug, Clone, Copy)]
pub struct Pagination {
    page: u32,
    limit: u64,
}

/// What a [`Pagination`] holds.
pub struct PaginationView {
    pub page: nat,
    pub limit: nat,
}

impl PaginationView {
    /// The number of rows on the pages before this one.
    pub open spec fn offset(self) -> int {
        (self.page - 1) * self.limit
    }
}

impl View for Pagination {
    type V = PaginationView;

    closed spec fn view(&self) -> PaginationView {
        PaginationView { page: self.page as nat, limit: self.limit as nat }
    }
}

impl Pagination {
    #[verifier::type_invariant]
    spec fn in_range(self) -> bool {
        Pagination::accepts(self.page as int, self.limit as int)
    }

    /// Whether a page number and a page size make a page: both positive, and
    /// neither the size nor the offset beyond `i64::MAX`.
    pub open spec fn accepts(page: int, limit: int) -> bool {
        &&& 1 <= page
        &&& 1 <= limit <= i64::MAX
        &&& (page - 1) * limit <= i64::MAX
    }

    /// The page `page` of pages of `limit` rows, if that is a page.
    pub fn new(page: u32, limit: usize) -> (made: Option<Pagination>)
        ensures
            made is Some <==> Pagination::accepts(page as int, limit as int),
            made matches Some(pagination) ==> pagination@ == (PaginationView {
                page: page as nat,
                limit: limit as nat,
            }),
    {
        if page == 0 || limit == 0 || limit as u64 > i64::MAX as u64 {
            return None;
        }
        let before: u128 = (page - 1) as u128;
        let size: u128 = limit as u128;
        assert(before * size <= 0x1_0000_0000 * 0x1_0000_0000_0000_0000) by (nonlinear_arith)
            requires
                0 <= before <= 0x1_0000_0000,
                0 <= size <= 0x1_0000_0000_0000_0000,
        ;
        if before * size > i64::MAX as u128 {
            return None;
        }
        Some(Pagination { page, limit: limit as u64 })
    }

    /// The number of the page, counted from one.
    pub fn page(&self) -> (page: u32)
        ensures
            page == self@.page,
            page >= 1,
    {
        proof {
            use_type_invariant(self);
        }
        self.page
    }

    /// The number of rows on a page.
    pub fn limit(&self) -> (limit: i64)
        ensures
            limit == self@.limit,
            limit >= 1,
    {
        proof {
            use_type_invariant(self);
        }
        self.limit as i64
    }

    /// The number of rows on the pages before this one.
    pub fn offset(&self) -> (offset: i64)
        ensures
            offset == self@.offset(),
            offset >= 0,
    {
        proof {
            use_type_invariant(self);
            assert((self.page - 1) * self.limit >= 0) by (nonlinear_arith)
                requires
                    self.page >= 1,
                    self.limit >= 1,
            ;
        }
        ((self.page - 1) as u64 * self.limit) as i64
    }
}

/// Whether any item is present.
pub open spec fn any_present(items: Seq<ContributionView>) -> bool {
    exists|i: int| 0 <= i < items.len() && (#[trigger] items[i]).value is Some
}

/// Whether the text of each present item holds exactly `count`
/// placeholders.
pub open spec fn each_present_holds(items: Seq<ContributionView>, count: nat) -> bool {
    forall|i: int|
        0 <= i < items.len() && (#[trigger] items[i]).value is Some ==> placeholder_count(
            items[i].text,
        ) == count
}

/// The text fragments of the present items, in order, each followed by
/// `suffix`.
pub open spec fn present_fragments(items: Seq<ContributionView>, suffix: Seq<char>) -> Seq<
    Seq<char>,
>
    decreases items.len(),
{
    if items.len() == 0 {
        Seq::empty()
    } else {
        let before = present_fragments(items.drop_last(), suffix);
        match items.last().value {
            Some(_) => before.push(items.last().text + suffix),
            None => before,
        }
    }
}

/// The values of the present items, in order.
pub open spec fn present_values(items: Seq<ContributionView>) -> Seq<ValueView>
    decreases items.len(),
{
    if items.len() == 0 {
        Seq::empty()
    } else {
        let before = present_values(items.drop_last());
        match items.last().value {
            Some(value) => before.push(value),
            None => before,
        }
    }
}

/// The parts in order, with `separator` between neighbours and nowhere else.
pub open spec fn join(parts: Seq<Seq<char>>, separator: Seq<char>) -> Seq<char>
    decreases parts.len(),
{
    if parts.len() == 0 {
        Seq::empty()
    } else if parts.len() == 1 {
        parts[0]
    } else {
        join(parts.drop_last(), separator) + separator + parts.last()
    }
}

/// The text of a clause: nothing at all where no item is present; else
/// `opening`, the fragments of the present items joined by `separator`, and
/// `closing`.
pub open spec fn clause_text(
    items: Seq<ContributionView>,
    opening: Seq<char>,
    separator: Seq<char>,
    suffix: Seq<char>,
    closing: Seq<char>,
) -> Seq<char> {
    let parts = present_fragments(items, suffix);
    if parts.len() == 0 {
        Seq::empty()
    } else {
        opening + join(parts, separator) + closing
    }
}

/// Appends the clause made of the present `items` to `sql`, and their values
/// to `values`. Tells whether any item was present.
fn append_clause(
    sql: &mut String,
    values: &mut Vec<Value>,
    items: &Vec<Contribution>,
    opening: &str,
    separator: &str,
    suffix: &str,
    closing: &str,
) -> (started: bool)
    ensures
        started == (present_fragments(contributions_view(items@), suffix@).len() > 0),
        final(sql)@ == old(sql)@ + clause_text(
            contributions_view(items@),
            opening@,
            separator@,
            suffix@,
            closing@,
        ),
        values_view(final(values)@) == values_view(old(values)@) + present_values(
            contributions_view(items@),
        ),
{
    let ghost all = contributions_view(items@);
    let ghost sql_before = sql@;
    let ghost values_before = values_view(values@);
    let mut started = false;
    let mut i: usize = 0;
    while i < items.len()
        invariant
            0 <= i <= items.len(),
            all == contributions_view(items@),
            started == (present_fragments(all.take(i as int), suffix@).len() > 0),
            sql@ == sql_before + if started {
                opening@ + join(present_fragments(all.take(i as int), suffix@), separator@)
            } else {
                Seq::<char>::empty()
            },
            values_view(values@) == values_before + present_values(all.take(i as int)),
        decreases items.len() - i,
    {
        let item = &items[i];
        proof {
            let next = all.take(i + 1);
            assert(next.drop_last() =~= all.take(i as int));
        }
        let ghost fragments = present_fragments(all.take(i as int), suffix@);
        match &item.value {
            Some(value) => {
                if started {
                    sql.append(separator);
                } else {
                    sql.append(opening);
                }
                sql.append(item.text.as_str());
                sql.append(suffix);
                let ghost values_earlier = values@;
                values.push(value.clone());
                proof {
                    let fragment = item@.text + suffix@;
                    assert(fragments.push(fragment).drop_last() =~= fragments);
                    assert(values_view(values@) =~= values_view(values_earlier).push(value@));
                }
                started = true;
            },
            None => {},
        }
        i += 1;
    }
    assert(all.take(i as int) =~= all);
    if started {
        sql.append(closing);
    }
    started
}

/// Appends copies of `more` to `values`.
fn append_values(values: &mut Vec<Value>, more: &Vec<Value>)
    ensures
        values_view(final(values)@) == values_view(old(values)@) + values_view(more@),
{
    let ghost values_before = values_view(values@);
    let mut i: usize = 0;
    while i < more.len()
        invariant
            0 <= i <= more.len(),
            values_view(values@) == values_before + values_view(more@).take(i as int),
        decreases more.len() - i,
    {
        let ghost values_earlier = values@;
        values.push(more[i].clone());
        assert(values_view(values@) =~= values_view(values_earlier).push(more@[i as int]@));
        i += 1;
    }
}

/// The text of a search: the base query, the `WHERE` clause if any filter
/// is present, and the pagination.
pub open spec fn select_sql(base_query: Seq<char>, filters: FilterSetView) -> Seq<char> {
    base_query + clause_text(
        filters.items,
        " WHERE ("@,
        filters.operator.separator(),
        Seq::empty(),
        ")"@,
    ) + " OFFSET ? LIMIT ?"@
}

/// The values bound by a search: those of the present filters, then the
/// offset, then the limit.
pub open spec fn select_values(filters: FilterSetView, pagination: PaginationView) -> Seq<
    ValueView,
> {
    present_values(filters.items).push(ValueView::Int(pagination.offset() as i64)).push(
        ValueView::Int(pagination.limit as i64),
    )
}

/// Assembles a search. `base_query` is a complete query without a `WHERE`
/// clause or pagination of its own.
pub fn build_select(base_query: &str, filters: &FilterSet, pagination: &Pagination) -> (statement:
    Statement)
    ensures
        statement@.sql == select_sql(base_query@, filters@),
        statement@.values == select_values(filters@, pagination@),
        placeholder_count(base_query@) == 0 && each_present_holds(filters@.items, 1)
            ==> statement@.is_balanced(),
{
    let mut sql = String::new();
    let mut values: Vec<Value> = Vec::new();
    sql.append(base_query);
    append_clause(
        &mut sql,
        &mut values,
        &filters.items,
        " WHERE (",
        filters.operator.as_separator(),
        "",
        ")",
    );
    sql.append(" OFFSET ? LIMIT ?");
    values.push(Value::Int(pagination.offset()));
    values.push(Value::Int(pagination.limit()));
    proof {
        reveal_strlit("");
        assert(""@ =~= Seq::<char>::empty());
        if placeholder_count(base_query@) == 0 && each_present_holds(filters@.items, 1) {
            lemma_select_placeholders_match_values(base_query@, filters@, pagination@);
        }
    }
    Statement { sql, values }
}

/// The text of a partial update of `table`.
pub open spec fn update_sql(
    table: Seq<char>,
    assignments: AssignmentSetView,
    identity: PredicateView,
) -> Seq<char> {
    "UPDATE "@ + table + clause_text(assignments.items, " SET "@, ", "@, " = ?"@, Seq::empty())
        + " WHERE "@ + identity.text
}

/// The values bound by a partial update: those of the present assignments,
/// then those of the identity predicate.
pub open spec fn update_values(assignments: AssignmentSetView, identity: PredicateView) -> Seq<
    ValueView,
> {
    present_values(assignments.items) + identity.values
}

/// Assembles a partial update of `table`: the present assignments in the
/// order given, then the identity predicate. With no assignment present
/// there is nothing to set, and no statement is made.
pub fn build_update(table: &str, assignments: &AssignmentSet, identity: &Predicate) -> (made:
    Result<Statement, ConstructionError>)
    ensures
        made is Ok <==> any_present(assignments@.items),
        made matches Ok(statement) ==> {
            &&& statement@.sql == update_sql(table@, assignments@, identity@)
            &&& statement@.values == update_values(assignments@, identity@)
        },
        made matches Err(error) ==> error == ConstructionError::EmptyAssignmentSet,
        made matches Ok(statement) ==> (placeholder_count(table@) == 0 && each_present_holds(
            assignments@.items,
            0,
        ) && identity@.is_balanced() ==> statement@.is_balanced()),
{
    let mut sql = String::new();
    let mut values: Vec<Value> = Vec::new();
    sql.append("UPDATE ");
    sql.append(table);
    let started = append_clause(&mut sql, &mut values, &assignments.items, " SET ", ", ", " = ?", "");
    proof {
        lemma_present_fragments_any(assignments@.items, " = ?"@);
    }
    if !started {
        return Err(ConstructionError::EmptyAssignmentSet);
    }
    sql.append(" WHERE ");
    sql.append(identity.text.as_str());
    append_values(&mut values, &identity.values);
    proof {
        reveal_strlit("");
        if placeholder_count(table@) == 0 && each_present_holds(assignments@.items, 0)
            && identity@.is_balanced() {
            lemma_update_placeholders_match_values(table@, assignments@, identity@);
        }
    }
    Ok(Statement { sql, values })
}

/// The text of a deletion from `table`.
pub open spec fn delete_sql(table: Seq<char>, identity: PredicateView) -> Seq<char> {
    "DELETE FROM "@ + table + " WHERE "@ + identity.text
}

/// Assembles the deletion of the rows of `table` that the identity predicate
/// picks.
pub fn build_delete(table: &str, identity: &Predicate) -> (statement: Statement)
    ensures
        statement@.sql == delete_sql(table@, identity@),
        statement@.values == identity@.values,
        placeholder_count(table@) == 0 && identity@.is_balanced() ==> statement@.is_balanced(),
{
    let mut sql = String::new();
    let mut values: Vec<Value> = Vec::new();
    sql.append("DELETE FROM ");
    sql.append(table);
    sql.append(" WHERE ");
    sql.append(identity.text.as_str());
    append_values(&mut values, &identity.values);
    proof {
        if placeholder_count(table@) == 0 && identity@.is_balanced() {
            lemma_delete_placeholders_match_values(table@, identity@);
        }
    }
    Statement { sql, values }
}

} // verus!

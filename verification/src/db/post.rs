//! The statements about posts.

use vstd::prelude::*;

use crate::assembler::any_present;
use crate::assembler::build_delete;
use crate::assembler::build_select;
use crate::assembler::build_update;
use crate::assembler::delete_sql;
use crate::assembler::select_sql;
use crate::assembler::select_values;
use crate::assembler::update_sql;
use crate::assembler::update_values;
use crate::assembler::values_view;
use crate::assembler::AssignmentSet;
use crate::assembler::AssignmentSetView;
use crate::assembler::Connective;
use crate::assembler::ConstructionError;
use crate::assembler::Contribution;
use crate::assembler::ContributionView;
use crate::assembler::FilterSet;
use crate::assembler::FilterSetView;
use crate::assembler::Statement;
use crate::assembler::StatementView;
use crate::assembler::Value;
use crate::assembler::ValueView;
use crate::db::identify_row;
use crate::db::page_accepted;
use crate::db::pattern_bound;
use crate::db::pattern_contribution;
use crate::db::read_page;
use crate::db::requested_page;
use crate::db::row_identity;
use crate::db::statement_about;
use crate::db::text_bound;
use crate::db::text_contribution;
use crate::db::texts::lemma_get_post_text;
use crate::db::texts::lemma_names_hold_no_placeholder;
use crate::db::texts::lemma_posts_query_text;
use crate::db::texts::lemma_save_post_text;
use crate::db::texts::lemma_title_filter_text;
use crate::dtos::post::CreatePostDto;
use crate::dtos::post::SearchPostQueryDto;
use crate::dtos::post::UpdatePostDto;

verus! {

/// The statement that fetches the post with the given identifier.
pub fn get_post(post_id: u128) -> (statement: Statement)
    ensures
        statement@ == (StatementView {
            sql: "SELECT * FROM posts WHERE id = ?"@,
            values: seq![ValueView::Uuid(post_id)],
        }),
        statement@.is_balanced(),
{
    proof {
        lemma_get_post_text();
    }
    statement_about("SELECT * FROM posts WHERE id = ?", post_id)
}

/// The filters of a search for posts: the title holds the term.
pub open spec fn post_filters(query: SearchPostQueryDto) -> FilterSetView {
    FilterSetView {
        operator: Connective::And,
        items: seq![ContributionView { text: "title LIKE ?"@, value: pattern_bound(query.title) }],
    }
}

/// What a search for posts is, where its page is a page.
pub open spec fn get_posts_statement(query: SearchPostQueryDto) -> StatementView {
    StatementView {
        sql: select_sql("SELECT * FROM posts"@, post_filters(query)),
        values: select_values(post_filters(query), requested_page(query.page, query.limit)),
    }
}

/// The statement that fetches a page of the posts that match the query.
pub fn get_posts(query: &SearchPostQueryDto) -> (made: Result<Statement, ConstructionError>)
    ensures
        made is Ok <==> page_accepted(query.page, query.limit),
        made matches Ok(statement) ==> statement@ == get_posts_statement(*query)
            && statement@.is_balanced(),
        made matches Err(error) ==> error == ConstructionError::InvalidPagination,
{
    let pagination = match read_page(query.page, query.limit) {
        Some(pagination) => pagination,
        None => {
            return Err(ConstructionError::InvalidPagination);
        },
    };
    let mut items: Vec<Contribution> = Vec::new();
    items.push(pattern_contribution("title LIKE ?", &query.title));
    let filters = FilterSet { operator: Connective::And, items };
    proof {
        assert(filters@.items =~= post_filters(*query).items);
        lemma_posts_query_text();
        lemma_title_filter_text();
    }
    Ok(build_select("SELECT * FROM posts", &filters, &pagination))
}

/// What storing a post is.
pub open spec fn save_post_statement(dto: CreatePostDto) -> StatementView {
    StatementView {
        sql: "INSERT INTO posts (title, description) VALUES (?, ?) RETURNING *"@,
        values: seq![ValueView::Text(dto.title@), ValueView::Text(dto.description@)],
    }
}

/// The statement that stores a new post and hands back its row.
pub fn save_post(dto: &CreatePostDto) -> (statement: Statement)
    ensures
        statement@ == save_post_statement(*dto),
        statement@.is_balanced(),
{
    let mut values: Vec<Value> = Vec::new();
    values.push(Value::Text(dto.title.clone()));
    values.push(Value::Text(dto.description.clone()));
    proof {
        assert(values_view(values@) =~= save_post_statement(*dto).values);
        lemma_save_post_text();
    }
    Statement {
        sql: String::from_str("INSERT INTO posts (title, description) VALUES (?, ?) RETURNING *"),
        values,
    }
}

/// The columns that an update of a post may set.
pub open spec fn post_assignments(dto: UpdatePostDto) -> AssignmentSetView {
    AssignmentSetView {
        items: seq![
            ContributionView { text: "title"@, value: text_bound(dto.title) },
            ContributionView { text: "description"@, value: text_bound(dto.description) },
        ],
    }
}

/// What an update of a post is, where it sets anything.
pub open spec fn update_post_statement(post_id: u128, dto: UpdatePostDto) -> StatementView {
    StatementView {
        sql: update_sql("posts"@, post_assignments(dto), row_identity(post_id)),
        values: update_values(post_assignments(dto), row_identity(post_id)),
    }
}

/// The statement that sets the given columns of the post with the given
/// identifier.
pub fn update_post(post_id: u128, dto: &UpdatePostDto) -> (made: Result<
    Statement,
    ConstructionError,
>)
    ensures
        made is Ok <==> any_present(post_assignments(*dto).items),
        made matches Ok(statement) ==> statement@ == update_post_statement(post_id, *dto)
            && statement@.is_balanced(),
        made matches Err(error) ==> error == ConstructionError::EmptyAssignmentSet,
{
    let mut items: Vec<Contribution> = Vec::new();
    items.push(text_contribution("title", &dto.title));
    items.push(text_contribution("description", &dto.description));
    let assignments = AssignmentSet { items };
    proof {
        assert(assignments@.items =~= post_assignments(*dto).items);
        lemma_names_hold_no_placeholder();
    }
    build_update("posts", &assignments, &identify_row(post_id))
}

/// What the deletion of a post is.
pub open spec fn delete_post_statement(post_id: u128) -> StatementView {
    StatementView {
        sql: delete_sql("posts"@, row_identity(post_id)),
        values: row_identity(post_id).values,
    }
}

/// The statement that deletes the post with the given identifier.
pub fn delete_post(post_id: u128) -> (statement: Statement)
    ensures
        statement@ == delete_post_statement(post_id),
        statement@.is_balanced(),
{
    proof {
        lemma_names_hold_no_placeholder();
    }
    build_delete("posts", &identify_row(post_id))
}

} // verus!

//! The statements about emails.

use vstd::prelude::*;

use crate::assembler::any_present;
use crate::assembler::build_delete;
use crate::assembler::build_update;
use crate::assembler::delete_sql;
use crate::assembler::update_sql;
use crate::assembler::update_values;
use crate::assembler::values_view;
use crate::assembler::AssignmentSet;
use crate::assembler::AssignmentSetView;
use crate::assembler::ConstructionError;
use crate::assembler::Contribution;
use crate::assembler::ContributionView;
use crate::assembler::Predicate;
use crate::assembler::PredicateView;
use crate::assembler::Statement;
use crate::assembler::StatementView;
use crate::assembler::Value;
use crate::assembler::ValueView;
use crate::db::flag_bound;
use crate::db::flag_contribution;
use crate::db::statement_about;
use crate::db::text_bound;
use crate::db::text_contribution;
use crate::db::texts::lemma_email_by_id_text;
use crate::db::texts::lemma_email_identity_text;
use crate::db::texts::lemma_names_hold_no_placeholder;
use crate::db::texts::lemma_person_emails_text;
use crate::db::texts::lemma_save_email_text;
use crate::db::texts::lemma_save_primary_email_text;
use crate::dtos::email::CreateEmailDto;
use crate::dtos::email::UpdateEmailDto;

verus! {

/// The statement that fetches the emails of a person.
pub fn get_person_emails(person_id: u128) -> (statement: Statement)
    ensures
        statement@ == (StatementView {
            sql: "SELECT * FROM emails WHERE owner_id = ?"@,
            values: seq![ValueView::Uuid(person_id)],
        }),
        statement@.is_balanced(),
{
    proof {
        lemma_person_emails_text();
    }
    statement_about("SELECT * FROM emails WHERE owner_id = ?", person_id)
}

/// The statement that fetches the email with the given identifier.
pub fn get_email_by_id(email_id: u128) -> (statement: Statement)
    ensures
        statement@ == (StatementView {
            sql: "SELECT * FROM emails WHERE id = ?"@,
            values: seq![ValueView::Uuid(email_id)],
        }),
        statement@.is_balanced(),
{
    proof {
        lemma_email_by_id_text();
    }
    statement_about("SELECT * FROM emails WHERE id = ?", email_id)
}

/// What storing an email is.
pub open spec fn save_email_statement(owner_id: u128, dto: CreateEmailDto) -> StatementView {
    StatementView {
        sql:
            "INSERT INTO emails (owner_id, address, is_private, is_primary) VALUES (?, ?, ?, ?) RETURNING *"@,
        values: seq![
            ValueView::Uuid(owner_id),
            ValueView::Text(dto.address@),
            ValueView::NullableBool(dto.is_private),
            ValueView::NullableBool(dto.is_primary),
        ],
    }
}

/// The statement that stores a new email of the given owner and hands back
/// its row.
pub fn save_email(owner_id: u128, dto: &CreateEmailDto) -> (statement: Statement)
    ensures
        statement@ == save_email_statement(owner_id, *dto),
        statement@.is_balanced(),
{
    let mut values: Vec<Value> = Vec::new();
    values.push(Value::Uuid(owner_id));
    values.push(Value::Text(dto.address.clone()));
    values.push(Value::NullableBool(dto.is_private));
    values.push(Value::NullableBool(dto.is_primary));
    proof {
        assert(values_view(values@) =~= save_email_statement(owner_id, *dto).values);
        lemma_save_email_text();
    }
    Statement {
        sql: String::from_str(
            "INSERT INTO emails (owner_id, address, is_private, is_primary) VALUES (?, ?, ?, ?) RETURNING *",
        ),
        values,
    }
}

/// What storing the first email of a person is: primary and private.
pub open spec fn save_primary_email_statement(owner_id: u128, address: Seq<char>) -> StatementView {
    StatementView {
        sql:
            "INSERT INTO emails (address, owner_id, is_primary, is_private) VALUES (?, ?, true, true) RETURNING *"@,
        values: seq![ValueView::Text(address), ValueView::Uuid(owner_id)],
    }
}

/// The statement that stores the email a person signs up with and hands
/// back its row.
pub fn save_primary_email(owner_id: u128, address: &str) -> (statement: Statement)
    ensures
        statement@ == save_primary_email_statement(owner_id, address@),
        statement@.is_balanced(),
{
    let mut values: Vec<Value> = Vec::new();
    values.push(Value::Text(String::from_str(address)));
    values.push(Value::Uuid(owner_id));
    proof {
        assert(values_view(values@) =~= save_primary_email_statement(owner_id, address@).values);
        lemma_save_primary_email_text();
    }
    Statement {
        sql: String::from_str(
            "INSERT INTO emails (address, owner_id, is_primary, is_private) VALUES (?, ?, true, true) RETURNING *",
        ),
        values,
    }
}

/// The predicate that picks the email with the given identifier if it
/// belongs to the given owner.
pub open spec fn email_identity(owner_id: u128, email_id: u128) -> PredicateView {
    PredicateView {
        text: "id = ? AND owner_id = ?"@,
        values: seq![ValueView::Uuid(email_id), ValueView::Uuid(owner_id)],
    }
}

/// The predicate that picks the email with the given identifier if it
/// belongs to the given owner.
fn identify_email(owner_id: u128, email_id: u128) -> (identity: Predicate)
    ensures
        identity@ == email_identity(owner_id, email_id),
        identity@.is_balanced(),
{
    let mut values: Vec<Value> = Vec::new();
    values.push(Value::Uuid(email_id));
    values.push(Value::Uuid(owner_id));
    proof {
        assert(values_view(values@) =~= email_identity(owner_id, email_id).values);
        lemma_email_identity_text();
    }
    Predicate { text: String::from_str("id = ? AND owner_id = ?"), values }
}

/// The columns that an update of an email may set.
pub open spec fn email_assignments(dto: UpdateEmailDto) -> AssignmentSetView {
    AssignmentSetView {
        items: seq![
            ContributionView { text: "address"@, value: text_bound(dto.address) },
            ContributionView { text: "is_private"@, value: flag_bound(dto.is_private) },
            ContributionView { text: "is_primary"@, value: flag_bound(dto.is_primary) },
            ContributionView { text: "is_verified"@, value: flag_bound(dto.is_verified) },
        ],
    }
}

/// What an update of an email is, where it sets anything.
pub open spec fn update_email_statement(
    owner_id: u128,
    email_id: u128,
    dto: UpdateEmailDto,
) -> StatementView {
    StatementView {
        sql: update_sql("emails"@, email_assignments(dto), email_identity(owner_id, email_id)),
        values: update_values(email_assignments(dto), email_identity(owner_id, email_id)),
    }
}

/// The statement that sets the given columns of an email of the given
/// owner.
pub fn update_email(owner_id: u128, email_id: u128, dto: &UpdateEmailDto) -> (made: Result<
    Statement,
    ConstructionError,
>)
    ensures
        made is Ok <==> any_present(email_assignments(*dto).items),
        made matches Ok(statement) ==> statement@ == update_email_statement(
            owner_id,
            email_id,
            *dto,
        ) && statement@.is_balanced(),
        made matches Err(error) ==> error == ConstructionError::EmptyAssignmentSet,
{
    let mut items: Vec<Contribution> = Vec::new();
    items.push(text_contribution("address", &dto.address));
    items.push(flag_contribution("is_private", dto.is_private));
    items.push(flag_contribution("is_primary", dto.is_primary));
    items.push(flag_contribution("is_verified", dto.is_verified));
    let assignments = AssignmentSet { items };
    proof {
        assert(assignments@.items =~= email_assignments(*dto).items);
        lemma_names_hold_no_placeholder();
    }
    build_update("emails", &assignments, &identify_email(owner_id, email_id))
}

/// What the deletion of an email is.
pub open spec fn delete_email_statement(owner_id: u128, email_id: u128) -> StatementView {
    StatementView {
        sql: delete_sql("emails"@, email_identity(owner_id, email_id)),
        values: email_identity(owner_id, email_id).values,
    }
}

/// The statement that deletes an email of the given owner.
pub fn delete_email(owner_id: u128, email_id: u128) -> (statement: Statement)
    ensures
        statement@ == delete_email_statement(owner_id, email_id),
        statement@.is_balanced(),
{
    proof {
        lemma_names_hold_no_placeholder();
    }
    build_delete("emails", &identify_email(owner_id, email_id))
}

} // verus!

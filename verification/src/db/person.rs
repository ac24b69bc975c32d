//! The statements about users and admins. Both are rows of `people`, told
//! apart by their role.

use vstd::prelude::*;

use crate::assembler::any_present;
use crate::assembler::build_delete;
use crate::assembler::build_select;
use crate::assembler::build_update;
use crate::assembler::delete_sql;
use crate::assembler::select_sql;
use crate::assembler::select_values;
use crate::assembler::update_sql;
use crate::assembler::update_values;
use crate::assembler::values_view;
use crate::assembler::AssignmentSet;
use crate::assembler::AssignmentSetView;
use crate::assembler::Connective;
use crate::assembler::ConstructionError;
use crate::assembler::Contribution;
use crate::assembler::ContributionView;
use crate::assembler::FilterSet;
use crate::assembler::FilterSetView;
use crate::assembler::Predicate;
use crate::assembler::PredicateView;
use crate::assembler::Statement;
use crate::assembler::StatementView;
use crate::assembler::Value;
use crate::assembler::ValueView;
use crate::db::flag_bound;
use crate::db::flag_contribution;
use crate::db::page_accepted;
use crate::db::pattern_bound;
use crate::db::pattern_contribution;
use crate::db::read_page;
use crate::db::requested_page;
use crate::db::text_bound;
use crate::db::text_contribution;
use crate::db::texts::lemma_firstname_filter_text;
use crate::db::texts::lemma_lastname_filter_text;
use crate::db::texts::lemma_members_text;
use crate::db::texts::lemma_names_hold_no_placeholder;
use crate::db::texts::lemma_people_query_text;
use crate::db::texts::lemma_person_identity_text;
use crate::db::texts::lemma_person_query_text;
use crate::db::texts::lemma_save_admin_text;
use crate::db::texts::lemma_save_user_text;
use crate::db::texts::lemma_username_filter_text;
use crate::dtos::person::CreateAdminDto;
use crate::dtos::person::CreateUserDto;
use crate::dtos::person::SearchAdminQueryDto;
use crate::dtos::person::SearchUserQueryDto;
use crate::dtos::person::UpdateAdminDto;
use crate::dtos::person::UpdateUserDto;
use crate::models::Gender;
use crate::models::PersonRole;
use crate::assembler::each_present_holds;
use crate::text::contains_pattern;
use crate::text::lemma_placeholder_count_concat;
use crate::text::placeholder_count;
use crate::text::lowercased;
use crate::text::to_lowercase;
use crate::text::wrap_in_wildcards;
use crate::time::read_datetime;
use crate::time::parsed_datetime;
use crate::time::Timestamp;

verus! {

/// The pattern in which a birthdate is written.
pub open spec fn birthdate_format() -> Seq<char> {
    "%Y-%m-%d"@
}

/// Reads a birthdate.
pub fn read_birthdate(text: &str) -> (read: Result<Timestamp, ConstructionError>)
    ensures
        match parsed_datetime(text@, birthdate_format()) {
            Some(birthdate) => read == Ok::<Timestamp, ConstructionError>(birthdate),
            None => read == Err::<Timestamp, ConstructionError>(
                ConstructionError::InvalidBirthdate,
            ),
        },
{
    match read_datetime(text, "%Y-%m-%d") {
        Some(birthdate) => Ok(birthdate),
        None => Err(ConstructionError::InvalidBirthdate),
    }
}

/// What reading an optional birthdate gives: no birthdate where none was
/// given, the birthdate where the text can be read, and nothing at all
/// where it cannot.
pub open spec fn birthdate_read(text: Option<String>) -> Option<Option<Timestamp>> {
    match text {
        None => Some(None),
        Some(text) => match parsed_datetime(text@, birthdate_format()) {
            Some(birthdate) => Some(Some(birthdate)),
            None => None,
        },
    }
}

/// Reads an optional birthdate.
pub fn read_optional_birthdate(text: &Option<String>) -> (read: Result<
    Option<Timestamp>,
    ConstructionError,
>)
    ensures
        match birthdate_read(*text) {
            Some(birthdate) => read == Ok::<Option<Timestamp>, ConstructionError>(birthdate),
            None => read == Err::<Option<Timestamp>, ConstructionError>(
                ConstructionError::InvalidBirthdate,
            ),
        },
{
    match text {
        None => Ok(None),
        Some(text) => match read_birthdate(text.as_str()) {
            Ok(birthdate) => Ok(Some(birthdate)),
            Err(error) => Err(error),
        },
    }
}

/// The gender a text stands for, whatever the case of its letters.
pub open spec fn gender_of(text: Seq<char>) -> Gender {
    Gender::of_label(lowercased(text))
}

/// The value bound for an optional gender.
pub open spec fn gender_bound(text: Option<String>) -> Option<ValueView> {
    match text {
        Some(text) => Some(ValueView::Gender(gender_of(text@))),
        None => None,
    }
}

/// The value bound for an optional birthdate.
pub open spec fn birthdate_bound(birthdate: Option<Timestamp>) -> Option<ValueView> {
    match birthdate {
        Some(birthdate) => Some(ValueView::Timestamp(birthdate)),
        None => None,
    }
}

/// The value bound for an optional search term that is matched whatever the
/// case of its letters: the term in lowercase, between wildcards.
pub open spec fn lowercase_pattern_bound(term: Option<String>) -> Option<ValueView> {
    match term {
        Some(term) => Some(ValueView::Text(contains_pattern(lowercased(term@)))),
        None => None,
    }
}

/// A contribution that binds an optional gender.
fn gender_contribution(text: &str, bound: &Option<String>) -> (item: Contribution)
    ensures
        item@ == (ContributionView { text: text@, value: gender_bound(*bound) }),
{
    Contribution {
        text: String::from_str(text),
        value: match bound {
            Some(bound) => Some(Value::Gender(Gender::from(bound.clone()))),
            None => None,
        },
    }
}

/// A contribution that binds an optional birthdate.
fn birthdate_contribution(text: &str, bound: Option<Timestamp>) -> (item: Contribution)
    ensures
        item@ == (ContributionView { text: text@, value: birthdate_bound(bound) }),
{
    Contribution {
        text: String::from_str(text),
        value: match bound {
            Some(bound) => Some(Value::Timestamp(bound)),
            None => None,
        },
    }
}

/// A contribution that binds an optional search term in lowercase,
/// between wildcards.
fn lowercase_pattern_contribution(text: &str, term: &Option<String>) -> (item: Contribution)
    ensures
        item@ == (ContributionView { text: text@, value: lowercase_pattern_bound(*term) }),
{
    Contribution {
        text: String::from_str(text),
        value: match term {
            Some(term) => {
                let lower = to_lowercase(term.as_str());
                Some(Value::Text(wrap_in_wildcards(lower.as_str())))
            },
            None => None,
        },
    }
}

/// The predicate that picks the person with the given identifier if the
/// person has the given role.
pub open spec fn person_identity(id: u128, role: PersonRole) -> PredicateView {
    PredicateView {
        text: "id = ? AND role = '"@ + role.label() + "'"@,
        values: seq![ValueView::Uuid(id)],
    }
}

/// The predicate that picks a person in a role holds one placeholder, for
/// the identifier.
pub proof fn lemma_person_identity_balanced(id: u128, role: PersonRole)
    ensures
        person_identity(id, role).is_balanced(),
{
    lemma_person_identity_text();
    lemma_names_hold_no_placeholder();
    lemma_placeholder_count_concat("id = ? AND role = '"@, role.label());
    lemma_placeholder_count_concat("id = ? AND role = '"@ + role.label(), "'"@);
}

/// The predicate that picks a person in a role.
fn identify_person(id: u128, role: PersonRole) -> (identity: Predicate)
    ensures
        identity@ == person_identity(id, role),
        identity@.is_balanced(),
{
    let mut text = String::new();
    text.append("id = ? AND role = '");
    text.append(role.to_str());
    text.append("'");
    let mut values: Vec<Value> = Vec::new();
    values.push(Value::Uuid(id));
    proof {
        assert(values_view(values@) =~= seq![ValueView::Uuid(id)]);
        assert(text@ =~= person_identity(id, role).text);
        lemma_person_identity_balanced(id, role);
    }
    Predicate { text, values }
}

/// What fetching one person in a role is.
pub open spec fn get_person_statement(id: u128, role: PersonRole) -> StatementView {
    StatementView {
        sql: "SELECT * FROM people WHERE "@ + person_identity(id, role).text,
        values: person_identity(id, role).values,
    }
}

/// The statement that fetches one person in a role.
fn get_person(id: u128, role: PersonRole) -> (statement: Statement)
    ensures
        statement@ == get_person_statement(id, role),
        statement@.is_balanced(),
{
    let identity = identify_person(id, role);
    let mut sql = String::new();
    sql.append("SELECT * FROM people WHERE ");
    sql.append(identity.text.as_str());
    proof {
        assert(sql@ =~= get_person_statement(id, role).sql);
        lemma_person_query_text();
        lemma_placeholder_count_concat("SELECT * FROM people WHERE "@, identity@.text);
    }
    Statement { sql, values: identity.values }
}

/// The statement that fetches the user with the given identifier.
pub fn get_user(user_id: u128) -> (statement: Statement)
    ensures
        statement@ == get_person_statement(user_id, PersonRole::User),
        statement@.is_balanced(),
{
    get_person(user_id, PersonRole::User)
}

/// The statement that fetches the admin with the given identifier.
pub fn get_admin(admin_id: u128) -> (statement: Statement)
    ensures
        statement@ == get_person_statement(admin_id, PersonRole::Admin),
        statement@.is_balanced(),
{
    get_person(admin_id, PersonRole::Admin)
}

/// The query for all the people in a role. The role is settled inside, so
/// that the filters of a search apply to these people only, whatever the
/// operator that joins them.
pub open spec fn people_in_role(role: PersonRole) -> Seq<char> {
    "SELECT * FROM (SELECT * FROM people WHERE role = '"@ + role.label() + "') AS members"@
}

/// The query for all the people in a role.
fn select_people_in_role(role: PersonRole) -> (query: String)
    ensures
        query@ == people_in_role(role),
        placeholder_count(query@) == 0,
{
    let mut query = String::new();
    query.append("SELECT * FROM (SELECT * FROM people WHERE role = '");
    query.append(role.to_str());
    query.append("') AS members");
    proof {
        assert(query@ =~= people_in_role(role));
        lemma_people_query_text();
        lemma_members_text();
        lemma_names_hold_no_placeholder();
        let opening = "SELECT * FROM (SELECT * FROM people WHERE role = '"@;
        lemma_placeholder_count_concat(opening, role.label());
        lemma_placeholder_count_concat(opening + role.label(), "') AS members"@);
    }
    query
}

/// The filters of a search for people: each name holds its term, the
/// username whatever the case of its letters.
pub open spec fn person_filters(
    operator: Connective,
    firstname: Option<String>,
    lastname: Option<String>,
    username: Option<String>,
) -> FilterSetView {
    FilterSetView {
        operator,
        items: seq![
            ContributionView { text: "firstname LIKE ?"@, value: pattern_bound(firstname) },
            ContributionView { text: "lastname LIKE ?"@, value: pattern_bound(lastname) },
            ContributionView {
                text: "LOWER(username) LIKE ?"@,
                value: lowercase_pattern_bound(username),
            },
        ],
    }
}

/// The filters of a search for people, joined by `operator`.
fn filter_people(
    operator: Connective,
    firstname: &Option<String>,
    lastname: &Option<String>,
    username: &Option<String>,
) -> (filters: FilterSet)
    ensures
        filters@ == person_filters(operator, *firstname, *lastname, *username),
        each_present_holds(filters@.items, 1),
{
    let mut items: Vec<Contribution> = Vec::new();
    items.push(pattern_contribution("firstname LIKE ?", firstname));
    items.push(pattern_contribution("lastname LIKE ?", lastname));
    items.push(lowercase_pattern_contribution("LOWER(username) LIKE ?", username));
    let filters = FilterSet { operator, items };
    proof {
        assert(filters@.items =~= person_filters(
            operator,
            *firstname,
            *lastname,
            *username,
        ).items);
        lemma_firstname_filter_text();
        lemma_lastname_filter_text();
        lemma_username_filter_text();
    }
    filters
}

/// The filters of a search for users. A user must match every term given.
pub open spec fn user_filters(query: SearchUserQueryDto) -> FilterSetView {
    person_filters(Connective::And, query.firstname, query.lastname, query.username)
}

/// What a search for users is, where its page is a page.
pub open spec fn get_users_statement(query: SearchUserQueryDto) -> StatementView {
    StatementView {
        sql: select_sql(people_in_role(PersonRole::User), user_filters(query)),
        values: select_values(user_filters(query), requested_page(query.page, query.limit)),
    }
}

/// The statement that fetches a page of the users that match the query.
pub fn get_users(query: &SearchUserQueryDto) -> (made: Result<Statement, ConstructionError>)
    ensures
        made is Ok <==> page_accepted(query.page, query.limit),
        made matches Ok(statement) ==> statement@ == get_users_statement(*query)
            && statement@.is_balanced(),
        made matches Err(error) ==> error == ConstructionError::InvalidPagination,
{
    let pagination = match read_page(query.page, query.limit) {
        Some(pagination) => pagination,
        None => {
            return Err(ConstructionError::InvalidPagination);
        },
    };
    let filters = filter_people(
        Connective::And,
        &query.firstname,
        &query.lastname,
        &query.username,
    );
    let base = select_people_in_role(PersonRole::User);
    Ok(build_select(base.as_str(), &filters, &pagination))
}

/// The filters of a search for admins. An admin must match one of the terms
/// given.
pub open spec fn admin_filters(query: SearchAdminQueryDto) -> FilterSetView {
    person_filters(Connective::Or, query.firstname, query.lastname, query.username)
}

/// What a search for admins is, where its page is a page.
pub open spec fn get_admins_statement(query: SearchAdminQueryDto) -> StatementView {
    StatementView {
        sql: select_sql(people_in_role(PersonRole::Admin), admin_filters(query)),
        values: select_values(admin_filters(query), requested_page(query.page, query.limit)),
    }
}

/// The statement that fetches a page of the admins that match the query.
pub fn get_admins(query: &SearchAdminQueryDto) -> (made: Result<Statement, ConstructionError>)
    ensures
        made is Ok <==> page_accepted(query.page, query.limit),
        made matches Ok(statement) ==> statement@ == get_admins_statement(*query)
            && statement@.is_balanced(),
        made matches Err(error) ==> error == ConstructionError::InvalidPagination,
{
    let pagination = match read_page(query.page, query.limit) {
        Some(pagination) => pagination,
        None => {
            return Err(ConstructionError::InvalidPagination);
        },
    };
    let filters = filter_people(
        Connective::Or,
        &query.firstname,
        &query.lastname,
        &query.username,
    );
    let base = select_people_in_role(PersonRole::Admin);
    Ok(build_select(base.as_str(), &filters, &pagination))
}

/// What storing a user born at `birthdate` is.
pub open spec fn save_user_statement(dto: CreateUserDto, birthdate: Timestamp) -> StatementView {
    StatementView {
        sql:
            "INSERT INTO people (firstname, lastname, username, gender, is_profile_private, birthdate, password, role) VALUES (?, ?, ?, ?, ?, ?, ?, 'user') RETURNING *"@,
        values: seq![
            ValueView::Text(dto.firstname@),
            ValueView::Text(dto.lastname@),
            ValueView::Text(dto.username@),
            ValueView::Gender(gender_of(dto.gender@)),
            ValueView::NullableBool(dto.is_profile_private),
            ValueView::Timestamp(birthdate),
            ValueView::Text(dto.password@),
        ],
    }
}

/// The statement that stores a new user and hands back the row, with
/// `birthdate` for what `dto.birthdate` reads as.
pub fn save_user_with_birthdate(dto: &CreateUserDto, birthdate: Timestamp) -> (statement:
    Statement)
    ensures
        statement@ == save_user_statement(*dto, birthdate),
        statement@.is_balanced(),
{
    let mut values: Vec<Value> = Vec::new();
    values.push(Value::Text(dto.firstname.clone()));
    values.push(Value::Text(dto.lastname.clone()));
    values.push(Value::Text(dto.username.clone()));
    values.push(Value::Gender(Gender::from(dto.gender.clone())));
    values.push(Value::NullableBool(dto.is_profile_private));
    values.push(Value::Timestamp(birthdate));
    values.push(Value::Text(dto.password.clone()));
    proof {
        assert(values_view(values@) =~= save_user_statement(*dto, birthdate).values);
        lemma_save_user_text();
    }
    Statement {
        sql: String::from_str(
            "INSERT INTO people (firstname, lastname, username, gender, is_profile_private, birthdate, password, role) VALUES (?, ?, ?, ?, ?, ?, ?, 'user') RETURNING *",
        ),
        values,
    }
}

/// The statement that stores a new user and hands back the row. The email
/// of the user is stored next, by its own statement.
pub fn save_user(dto: &CreateUserDto) -> (made: Result<Statement, ConstructionError>)
    ensures
        match parsed_datetime(dto.birthdate@, birthdate_format()) {
            Some(birthdate) => made matches Ok(statement) && statement@ == save_user_statement(
                *dto,
                birthdate,
            ) && statement@.is_balanced(),
            None => made matches Err(error) && error == ConstructionError::InvalidBirthdate,
        },
{
    match read_birthdate(dto.birthdate.as_str()) {
        Ok(birthdate) => Ok(save_user_with_birthdate(dto, birthdate)),
        Err(error) => Err(error),
    }
}

/// What storing an admin born at `birthdate` is.
pub open spec fn save_admin_statement(dto: CreateAdminDto, birthdate: Timestamp) -> StatementView {
    StatementView {
        sql:
            "INSERT INTO people (firstname, lastname, username, gender, birthdate, password, role) VALUES (?, ?, ?, ?, ?, ?, 'user') RETURNING *"@,
        values: seq![
            ValueView::Text(dto.firstname@),
            ValueView::Text(dto.lastname@),
            ValueView::Text(dto.username@),
            ValueView::Gender(gender_of(dto.gender@)),
            ValueView::Timestamp(birthdate),
            ValueView::Text(dto.password@),
        ],
    }
}

/// The statement that stores a new admin and hands back the row, with
/// `birthdate` for what `dto.birthdate` reads as. The row is written with
/// the role `user`.
pub fn save_admin_with_birthdate(dto: &CreateAdminDto, birthdate: Timestamp) -> (statement:
    Statement)
    ensures
        statement@ == save_admin_statement(*dto, birthdate),
        statement@.is_balanced(),
{
    let mut values: Vec<Value> = Vec::new();
    values.push(Value::Text(dto.firstname.clone()));
    values.push(Value::Text(dto.lastname.clone()));
    values.push(Value::Text(dto.username.clone()));
    values.push(Value::Gender(Gender::from(dto.gender.clone())));
    values.push(Value::Timestamp(birthdate));
    values.push(Value::Text(dto.password.clone()));
    proof {
        assert(values_view(values@) =~= save_admin_statement(*dto, birthdate).values);
        lemma_save_admin_text();
    }
    Statement {
        sql: String::from_str(
            "INSERT INTO people (firstname, lastname, username, gender, birthdate, password, role) VALUES (?, ?, ?, ?, ?, ?, 'user') RETURNING *",
        ),
        values,
    }
}

/// The statement that stores a new admin and hands back the row. The email
/// of the admin is stored next, by its own statement.
pub fn save_admin(dto: &CreateAdminDto) -> (made: Result<Statement, ConstructionError>)
    ensures
        match parsed_datetime(dto.birthdate@, birthdate_format()) {
            Some(birthdate) => made matches Ok(statement) && statement@ == save_admin_statement(
                *dto,
                birthdate,
            ) && statement@.is_balanced(),
            None => made matches Err(error) && error == ConstructionError::InvalidBirthdate,
        },
{
    match read_birthdate(dto.birthdate.as_str()) {
        Ok(birthdate) => Ok(save_admin_with_birthdate(dto, birthdate)),
        Err(error) => Err(error),
    }
}

/// The columns that an update of a user may set, with `birthdate` for what
/// `dto.birthdate` reads as.
pub open spec fn user_assignments(dto: UpdateUserDto, birthdate: Option<Timestamp>) -> AssignmentSetView {
    AssignmentSetView {
        items: seq![
            ContributionView { text: "firstname"@, value: text_bound(dto.firstname) },
            ContributionView { text: "lastname"@, value: text_bound(dto.lastname) },
            ContributionView { text: "birthdate"@, value: birthdate_bound(birthdate) },
            ContributionView { text: "gender"@, value: gender_bound(dto.gender) },
            ContributionView {
                text: "is_profile_private"@,
                value: flag_bound(dto.is_profile_private),
            },
            ContributionView { text: "biography"@, value: text_bound(dto.biography) },
            ContributionView { text: "username"@, value: text_bound(dto.username) },
        ],
    }
}

/// What an update of a user is, where it sets anything.
pub open spec fn update_user_statement(
    user_id: u128,
    dto: UpdateUserDto,
    birthdate: Option<Timestamp>,
) -> StatementView {
    let assignments = user_assignments(dto, birthdate);
    let identity = person_identity(user_id, PersonRole::User);
    StatementView {
        sql: update_sql("people"@, assignments, identity),
        values: update_values(assignments, identity),
    }
}

/// Whether `made` is what is owed for an update of a user, with `birthdate`
/// for what `dto.birthdate` reads as: the statement where anything is set,
/// else the refusal of an empty update.
pub open spec fn is_update_of_user(
    made: Result<Statement, ConstructionError>,
    user_id: u128,
    dto: UpdateUserDto,
    birthdate: Option<Timestamp>,
) -> bool {
    match made {
        Ok(statement) => {
            &&& any_present(user_assignments(dto, birthdate).items)
            &&& statement@ == update_user_statement(user_id, dto, birthdate)
            &&& statement@.is_balanced()
        },
        Err(error) => {
            &&& !any_present(user_assignments(dto, birthdate).items)
            &&& error == ConstructionError::EmptyAssignmentSet
        },
    }
}

/// The statement that sets the given columns of a user, with `birthdate`
/// for what `dto.birthdate` reads as.
pub fn update_user_with_birthdate(
    user_id: u128,
    dto: &UpdateUserDto,
    birthdate: Option<Timestamp>,
) -> (made: Result<Statement, ConstructionError>)
    ensures
        is_update_of_user(made, user_id, *dto, birthdate),
{
    let mut items: Vec<Contribution> = Vec::new();
    items.push(text_contribution("firstname", &dto.firstname));
    items.push(text_contribution("lastname", &dto.lastname));
    items.push(birthdate_contribution("birthdate", birthdate));
    items.push(gender_contribution("gender", &dto.gender));
    items.push(flag_contribution("is_profile_private", dto.is_profile_private));
    items.push(text_contribution("biography", &dto.biography));
    items.push(text_contribution("username", &dto.username));
    let assignments = AssignmentSet { items };
    proof {
        assert(assignments@.items =~= user_assignments(*dto, birthdate).items);
        lemma_names_hold_no_placeholder();
    }
    build_update("people", &assignments, &identify_person(user_id, PersonRole::User))
}

/// The statement that sets the given columns of the user with the given
/// identifier. A birthdate that cannot be read is refused before anything
/// else is looked at.
pub fn update_user(user_id: u128, dto: &UpdateUserDto) -> (made: Result<
    Statement,
    ConstructionError,
>)
    ensures
        match birthdate_read(dto.birthdate) {
            Some(birthdate) => is_update_of_user(made, user_id, *dto, birthdate),
            None => made matches Err(error) && error == ConstructionError::InvalidBirthdate,
        },
{
    match read_optional_birthdate(&dto.birthdate) {
        Ok(birthdate) => update_user_with_birthdate(user_id, dto, birthdate),
        Err(error) => Err(error),
    }
}

/// The columns that an update of an admin may set, with `birthdate` for
/// what `dto.birthdate` reads as.
pub open spec fn admin_assignments(dto: UpdateAdminDto, birthdate: Option<Timestamp>) -> AssignmentSetView {
    AssignmentSetView {
        items: seq![
            ContributionView { text: "firstname"@, value: text_bound(dto.firstname) },
            ContributionView { text: "lastname"@, value: text_bound(dto.lastname) },
            ContributionView { text: "birthdate"@, value: birthdate_bound(birthdate) },
            ContributionView { text: "gender"@, value: gender_bound(dto.gender) },
            ContributionView { text: "username"@, value: text_bound(dto.username) },
        ],
    }
}

/// What an update of an admin is, where it sets anything.
pub open spec fn update_admin_statement(
    admin_id: u128,
    dto: UpdateAdminDto,
    birthdate: Option<Timestamp>,
) -> StatementView {
    let assignments = admin_assignments(dto, birthdate);
    let identity = person_identity(admin_id, PersonRole::Admin);
    StatementView {
        sql: update_sql("people"@, assignments, identity),
        values: update_values(assignments, identity),
    }
}

/// Whether `made` is what is owed for an update of an admin, with
/// `birthdate` for what `dto.birthdate` reads as: the statement where
/// anything is set, else the refusal of an empty update.
pub open spec fn is_update_of_admin(
    made: Result<Statement, ConstructionError>,
    admin_id: u128,
    dto: UpdateAdminDto,
    birthdate: Option<Timestamp>,
) -> bool {
    match made {
        Ok(statement) => {
            &&& any_present(admin_assignments(dto, birthdate).items)
            &&& statement@ == update_admin_statement(admin_id, dto, birthdate)
            &&& statement@.is_balanced()
        },
        Err(error) => {
            &&& !any_present(admin_assignments(dto, birthdate).items)
            &&& error == ConstructionError::EmptyAssignmentSet
        },
    }
}

/// The statement that sets the given columns of an admin, with `birthdate`
/// for what `dto.birthdate` reads as.
pub fn update_admin_with_birthdate(
    admin_id: u128,
    dto: &UpdateAdminDto,
    birthdate: Option<Timestamp>,
) -> (made: Result<Statement, ConstructionError>)
    ensures
        is_update_of_admin(made, admin_id, *dto, birthdate),
{
    let mut items: Vec<Contribution> = Vec::new();
    items.push(text_contribution("firstname", &dto.firstname));
    items.push(text_contribution("lastname", &dto.lastname));
    items.push(birthdate_contribution("birthdate", birthdate));
    items.push(gender_contribution("gender", &dto.gender));
    items.push(text_contribution("username", &dto.username));
    let assignments = AssignmentSet { items };
    proof {
        assert(assignments@.items =~= admin_assignments(*dto, birthdate).items);
        lemma_names_hold_no_placeholder();
    }
    build_update("people", &assignments, &identify_person(admin_id, PersonRole::Admin))
}

/// The statement that sets the given columns of the admin with the given
/// identifier. A birthdate that cannot be read is refused before anything
/// else is looked at.
pub fn update_admin(admin_id: u128, dto: &UpdateAdminDto) -> (made: Result<
    Statement,
    ConstructionError,
>)
    ensures
        match birthdate_read(dto.birthdate) {
            Some(birthdate) => is_update_of_admin(made, admin_id, *dto, birthdate),
            None => made matches Err(error) && error == ConstructionError::InvalidBirthdate,
        },
{
    match read_optional_birthdate(&dto.birthdate) {
        Ok(birthdate) => update_admin_with_birthdate(admin_id, dto, birthdate),
        Err(error) => Err(error),
    }
}

/// What the deletion of a person in a role is.
pub open spec fn delete_person_statement(id: u128, role: PersonRole) -> StatementView {
    StatementView {
        sql: delete_sql("people"@, person_identity(id, role)),
        values: person_identity(id, role).values,
    }
}

/// The statement that deletes the user with the given identifier.
pub fn delete_user(user_id: u128) -> (statement: Statement)
    ensures
        statement@ == delete_person_statement(user_id, PersonRole::User),
        statement@.is_balanced(),
{
    proof {
        lemma_names_hold_no_placeholder();
    }
    build_delete("people", &identify_person(user_id, PersonRole::User))
}

/// The statement that deletes the admin with the given identifier.
pub fn delete_admin(admin_id: u128) -> (statement: Statement)
    ensures
        statement@ == delete_person_statement(admin_id, PersonRole::Admin),
        statement@.is_balanced(),
{
    proof {
        lemma_names_hold_no_placeholder();
    }
    build_delete("people", &identify_person(admin_id, PersonRole::Admin))
}

} // verus!

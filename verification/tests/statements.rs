use blog_backend::assembler::ConstructionError;
use blog_backend::assembler::Statement;
use blog_backend::assembler::Value;
use blog_backend::db::any_row_affected;
use blog_backend::db::email;
use blog_backend::db::person;
use blog_backend::db::post;
use blog_backend::db::read_page;
use blog_backend::dtos::email::CreateEmailDto;
use blog_backend::dtos::email::UpdateEmailDto;
use blog_backend::dtos::person::CreateAdminDto;
use blog_backend::dtos::person::CreateUserDto;
use blog_backend::dtos::person::SearchAdminQueryDto;
use blog_backend::dtos::person::SearchUserQueryDto;
use blog_backend::dtos::person::UpdateAdminDto;
use blog_backend::dtos::person::UpdateUserDto;
use blog_backend::dtos::post::CreatePostDto;
use blog_backend::dtos::post::SearchPostQueryDto;
use blog_backend::dtos::post::UpdatePostDto;
use blog_backend::models::Gender;
use blog_backend::time::Timestamp;

fn bound(statement: &Statement) -> Vec<String> {
    statement.values.iter().map(|value| format!("{:?}", value)).collect()
}

fn placeholders(sql: &str) -> usize {
    sql.chars().filter(|c| *c == '?').count()
}

fn assert_balanced(statement: &Statement) {
    assert_eq!(placeholders(&statement.sql), statement.values.len());
}

fn some(text: &str) -> Option<String> {
    Some(text.to_string())
}

fn birthday() -> Timestamp {
    Timestamp { seconds: 939_513_600, nanos: 0, offset: 0 }
}

#[test]
fn a_post_is_fetched_by_its_identifier() {
    let statement = post::get_post(42);
    assert_eq!(statement.sql, "SELECT * FROM posts WHERE id = ?");
    assert_eq!(bound(&statement), vec!["Uuid(42)"]);
    assert_balanced(&statement);
}

#[test]
fn all_posts_are_searched_without_a_where_clause() {
    let query = SearchPostQueryDto { limit: Some(6), page: Some(1), title: None };
    let statement = post::get_posts(&query).unwrap();
    assert_eq!(statement.sql, "SELECT * FROM posts OFFSET ? LIMIT ?");
    assert_eq!(bound(&statement), vec!["Int(0)", "Int(6)"]);
    assert_balanced(&statement);
}

#[test]
fn posts_are_searched_by_a_term_in_the_title() {
    let query = SearchPostQueryDto { limit: Some(6), page: Some(1), title: some("web") };
    let statement = post::get_posts(&query).unwrap();
    assert_eq!(statement.sql, "SELECT * FROM posts WHERE (title LIKE ?) OFFSET ? LIMIT ?");
    assert_eq!(bound(&statement), vec!["Text(\"%web%\")", "Int(0)", "Int(6)"]);
    assert_balanced(&statement);
}

#[test]
fn a_search_without_page_or_limit_serves_the_first_six() {
    let query = SearchPostQueryDto { limit: None, page: None, title: None };
    let statement = post::get_posts(&query).unwrap();
    assert_eq!(bound(&statement), vec!["Int(0)", "Int(6)"]);
    let second = SearchPostQueryDto { limit: None, page: Some(2), title: None };
    assert_eq!(bound(&post::get_posts(&second).unwrap()), vec!["Int(6)", "Int(6)"]);
    let wide = SearchPostQueryDto { limit: Some(50), page: None, title: None };
    assert_eq!(bound(&post::get_posts(&wide).unwrap()), vec!["Int(0)", "Int(50)"]);
}

#[test]
fn a_search_for_page_zero_is_refused() {
    let query = SearchPostQueryDto { limit: Some(6), page: Some(0), title: some("web") };
    assert_eq!(post::get_posts(&query).unwrap_err(), ConstructionError::InvalidPagination);
    let empty = SearchPostQueryDto { limit: Some(0), page: Some(1), title: None };
    assert_eq!(post::get_posts(&empty).unwrap_err(), ConstructionError::InvalidPagination);
    assert!(read_page(Some(0), None).is_none());
    assert!(read_page(None, Some(0)).is_none());
    assert_eq!(read_page(None, None).unwrap().offset(), 0);
    assert_eq!(read_page(None, None).unwrap().limit(), 6);
    assert_eq!(read_page(None, None).unwrap().page(), 1);
}

#[test]
fn a_post_is_stored_with_its_title_and_description() {
    let dto = CreatePostDto {
        title: "New Post".to_string(),
        description: "New Post Description".to_string(),
    };
    let statement = post::save_post(&dto);
    assert_eq!(statement.sql, "INSERT INTO posts (title, description) VALUES (?, ?) RETURNING *");
    assert_eq!(bound(&statement), vec!["Text(\"New Post\")", "Text(\"New Post Description\")"]);
    assert_balanced(&statement);
}

#[test]
fn a_post_update_sets_the_title_only() {
    let dto = UpdatePostDto { title: some("New Title"), description: None };
    let statement = post::update_post(1, &dto).unwrap();
    assert_eq!(statement.sql, "UPDATE posts SET title = ? WHERE id = ?");
    assert_eq!(bound(&statement), vec!["Text(\"New Title\")", "Uuid(1)"]);
    assert_balanced(&statement);
}

#[test]
fn a_post_update_sets_the_description_only() {
    let dto = UpdatePostDto { title: None, description: some("New Description") };
    let statement = post::update_post(1, &dto).unwrap();
    assert_eq!(statement.sql, "UPDATE posts SET description = ? WHERE id = ?");
    assert!(!statement.sql.contains("title"));
    assert_eq!(bound(&statement), vec!["Text(\"New Description\")", "Uuid(1)"]);
}

#[test]
fn a_post_update_sets_title_and_description() {
    let dto = UpdatePostDto { title: some("New Title"), description: some("New Description") };
    let statement = post::update_post(5, &dto).unwrap();
    assert_eq!(statement.sql, "UPDATE posts SET title = ?, description = ? WHERE id = ?");
    assert_eq!(
        bound(&statement),
        vec!["Text(\"New Title\")", "Text(\"New Description\")", "Uuid(5)"]
    );
    assert_balanced(&statement);
}

#[test]
fn a_post_update_that_sets_nothing_is_refused() {
    let dto = UpdatePostDto { title: None, description: None };
    assert_eq!(post::update_post(1, &dto).unwrap_err(), ConstructionError::EmptyAssignmentSet);
}

#[test]
fn a_post_update_keeps_an_empty_text() {
    let dto = UpdatePostDto { title: some(""), description: None };
    let statement = post::update_post(1, &dto).unwrap();
    assert_eq!(statement.sql, "UPDATE posts SET title = ? WHERE id = ?");
    assert_eq!(bound(&statement), vec!["Text(\"\")", "Uuid(1)"]);
}

#[test]
fn a_post_is_deleted_by_its_identifier() {
    let statement = post::delete_post(9);
    assert_eq!(statement.sql, "DELETE FROM posts WHERE id = ?");
    assert_eq!(bound(&statement), vec!["Uuid(9)"]);
    assert_balanced(&statement);
}

#[test]
fn no_affected_row_means_nothing_was_done() {
    assert!(any_row_affected(1));
    assert!(any_row_affected(u64::MAX));
    assert!(!any_row_affected(0));
}

#[test]
fn emails_are_fetched_by_owner_and_by_identifier() {
    let of_person = email::get_person_emails(3);
    assert_eq!(of_person.sql, "SELECT * FROM emails WHERE owner_id = ?");
    assert_eq!(bound(&of_person), vec!["Uuid(3)"]);
    let one = email::get_email_by_id(4);
    assert_eq!(one.sql, "SELECT * FROM emails WHERE id = ?");
    assert_eq!(bound(&one), vec!["Uuid(4)"]);
}

#[test]
fn an_email_is_stored_with_what_was_given() {
    let dto = CreateEmailDto {
        address: "a@example.com".to_string(),
        is_private: Some(true),
        is_primary: None,
    };
    let statement = email::save_email(8, &dto);
    assert_eq!(
        statement.sql,
        "INSERT INTO emails (owner_id, address, is_private, is_primary) VALUES (?, ?, ?, ?) RETURNING *"
    );
    assert_eq!(
        bound(&statement),
        vec![
            "Uuid(8)",
            "Text(\"a@example.com\")",
            "NullableBool(Some(true))",
            "NullableBool(None)"
        ]
    );
    assert_balanced(&statement);
}

#[test]
fn the_first_email_is_primary_and_private() {
    let statement = email::save_primary_email(8, "alice@example.com");
    assert_eq!(
        statement.sql,
        "INSERT INTO emails (address, owner_id, is_primary, is_private) VALUES (?, ?, true, true) RETURNING *"
    );
    assert_eq!(bound(&statement), vec!["Text(\"alice@example.com\")", "Uuid(8)"]);
    assert_balanced(&statement);
}

#[test]
fn an_email_update_sets_what_was_given() {
    let dto = UpdateEmailDto {
        address: some("b@example.com"),
        is_private: None,
        is_primary: Some(false),
        is_verified: Some(true),
    };
    let statement = email::update_email(1, 2, &dto).unwrap();
    assert_eq!(
        statement.sql,
        "UPDATE emails SET address = ?, is_primary = ?, is_verified = ? WHERE id = ? AND owner_id = ?"
    );
    assert_eq!(
        bound(&statement),
        vec!["Text(\"b@example.com\")", "Bool(false)", "Bool(true)", "Uuid(2)", "Uuid(1)"]
    );
    assert_balanced(&statement);
}

#[test]
fn an_email_update_with_the_last_column_only_has_no_comma() {
    let dto = UpdateEmailDto {
        address: None,
        is_private: None,
        is_primary: None,
        is_verified: Some(true),
    };
    let statement = email::update_email(1, 2, &dto).unwrap();
    assert_eq!(statement.sql, "UPDATE emails SET is_verified = ? WHERE id = ? AND owner_id = ?");
    let nothing = UpdateEmailDto::default();
    assert_eq!(
        email::update_email(1, 2, &nothing).unwrap_err(),
        ConstructionError::EmptyAssignmentSet
    );
}

#[test]
fn an_email_is_deleted_for_its_owner_only() {
    let statement = email::delete_email(1, 2);
    assert_eq!(statement.sql, "DELETE FROM emails WHERE id = ? AND owner_id = ?");
    assert_eq!(bound(&statement), vec!["Uuid(2)", "Uuid(1)"]);
}

#[test]
fn people_are_fetched_in_their_role() {
    let user = person::get_user(7);
    assert_eq!(user.sql, "SELECT * FROM people WHERE id = ? AND role = 'user'");
    assert_eq!(bound(&user), vec!["Uuid(7)"]);
    let admin = person::get_admin(7);
    assert_eq!(admin.sql, "SELECT * FROM people WHERE id = ? AND role = 'admin'");
    assert_eq!(bound(&admin), vec!["Uuid(7)"]);
}

#[test]
fn all_users_are_searched_without_a_where_clause_of_the_search() {
    let query = SearchUserQueryDto {
        firstname: None,
        lastname: None,
        username: None,
        page: Some(1),
        limit: Some(6),
    };
    let statement = person::get_users(&query).unwrap();
    assert_eq!(
        statement.sql,
        "SELECT * FROM (SELECT * FROM people WHERE role = 'user') AS members OFFSET ? LIMIT ?"
    );
    assert_eq!(bound(&statement), vec!["Int(0)", "Int(6)"]);
}

#[test]
fn users_are_searched_by_firstname_only() {
    let query = SearchUserQueryDto {
        firstname: some("Alic"),
        lastname: None,
        username: None,
        page: Some(1),
        limit: Some(6),
    };
    let statement = person::get_users(&query).unwrap();
    assert_eq!(
        statement.sql,
        "SELECT * FROM (SELECT * FROM people WHERE role = 'user') AS members WHERE (firstname LIKE ?) OFFSET ? LIMIT ?"
    );
    assert_eq!(bound(&statement), vec!["Text(\"%Alic%\")", "Int(0)", "Int(6)"]);
}

#[test]
fn users_are_searched_by_lastname_only() {
    let query = SearchUserQueryDto {
        firstname: None,
        lastname: some("Doe"),
        username: None,
        page: Some(1),
        limit: Some(6),
    };
    let statement = person::get_users(&query).unwrap();
    assert_eq!(
        statement.sql,
        "SELECT * FROM (SELECT * FROM people WHERE role = 'user') AS members WHERE (lastname LIKE ?) OFFSET ? LIMIT ?"
    );
    assert_eq!(bound(&statement), vec!["Text(\"%Doe%\")", "Int(0)", "Int(6)"]);
}

#[test]
fn users_are_searched_by_username_in_lowercase() {
    let query = SearchUserQueryDto {
        firstname: None,
        lastname: None,
        username: some("JoHn_123"),
        page: Some(1),
        limit: Some(6),
    };
    let statement = person::get_users(&query).unwrap();
    assert_eq!(
        statement.sql,
        "SELECT * FROM (SELECT * FROM people WHERE role = 'user') AS members WHERE (LOWER(username) LIKE ?) OFFSET ? LIMIT ?"
    );
    assert_eq!(bound(&statement), vec!["Text(\"%john_123%\")", "Int(0)", "Int(6)"]);
}

#[test]
fn users_must_match_every_term() {
    let query = SearchUserQueryDto {
        firstname: some("john"),
        lastname: some("john"),
        username: some("john"),
        page: Some(2),
        limit: Some(10),
    };
    let statement = person::get_users(&query).unwrap();
    assert_eq!(
        statement.sql,
        "SELECT * FROM (SELECT * FROM people WHERE role = 'user') AS members WHERE (firstname LIKE ? AND lastname LIKE ? AND LOWER(username) LIKE ?) OFFSET ? LIMIT ?"
    );
    assert_eq!(
        bound(&statement),
        vec!["Text(\"%john%\")", "Text(\"%john%\")", "Text(\"%john%\")", "Int(10)", "Int(10)"]
    );
    assert_balanced(&statement);
}

#[test]
fn admins_must_match_one_term() {
    let query = SearchAdminQueryDto {
        firstname: some("Ann"),
        lastname: None,
        username: some("ROOT"),
        page: None,
        limit: None,
    };
    let statement = person::get_admins(&query).unwrap();
    assert_eq!(
        statement.sql,
        "SELECT * FROM (SELECT * FROM people WHERE role = 'admin') AS members WHERE (firstname LIKE ? OR LOWER(username) LIKE ?) OFFSET ? LIMIT ?"
    );
    assert_eq!(bound(&statement), vec!["Text(\"%Ann%\")", "Text(\"%root%\")", "Int(0)", "Int(6)"]);
    assert_balanced(&statement);
    let bad = SearchAdminQueryDto { page: Some(0), ..SearchAdminQueryDto::default() };
    assert_eq!(person::get_admins(&bad).unwrap_err(), ConstructionError::InvalidPagination);
    let bad_user = SearchUserQueryDto { limit: Some(0), ..SearchUserQueryDto::default() };
    assert_eq!(person::get_users(&bad_user).unwrap_err(), ConstructionError::InvalidPagination);
}

#[test]
fn a_birthdate_without_an_offset_is_not_read() {
    assert_eq!(person::read_birthdate("1999-10-10"), Err(ConstructionError::InvalidBirthdate));
    assert_eq!(person::read_birthdate("yesterday"), Err(ConstructionError::InvalidBirthdate));
    assert_eq!(person::read_birthdate(""), Err(ConstructionError::InvalidBirthdate));
    assert_eq!(person::read_optional_birthdate(&None), Ok(None));
    assert_eq!(
        person::read_optional_birthdate(&some("10/10/1999")),
        Err(ConstructionError::InvalidBirthdate)
    );
}

#[test]
fn a_user_is_stored_with_the_birthdate_read() {
    let dto = CreateUserDto {
        username: "new_user123".to_string(),
        firstname: "New".to_string(),
        lastname: "User".to_string(),
        email: "new_user@example.com".to_string(),
        password: "abc12345".to_string(),
        birthdate: "1999-10-10".to_string(),
        gender: "male".to_string(),
        is_profile_private: None,
    };
    let statement = person::save_user_with_birthdate(&dto, birthday());
    assert_eq!(
        statement.sql,
        "INSERT INTO people (firstname, lastname, username, gender, is_profile_private, birthdate, password, role) VALUES (?, ?, ?, ?, ?, ?, ?, 'user') RETURNING *"
    );
    assert_eq!(
        bound(&statement),
        vec![
            "Text(\"New\")".to_string(),
            "Text(\"User\")".to_string(),
            "Text(\"new_user123\")".to_string(),
            "Gender(Male)".to_string(),
            "NullableBool(None)".to_string(),
            format!("Timestamp({:?})", birthday()),
            "Text(\"abc12345\")".to_string(),
        ]
    );
    assert_balanced(&statement);
    assert_eq!(person::save_user(&dto).unwrap_err(), ConstructionError::InvalidBirthdate);
}

#[test]
fn an_unknown_gender_is_stored_as_male() {
    let dto = CreateUserDto {
        gender: "maleee".to_string(),
        is_profile_private: Some(true),
        ..CreateUserDto::default()
    };
    let statement = person::save_user_with_birthdate(&dto, birthday());
    assert!(matches!(statement.values[3], Value::Gender(Gender::Male)));
    assert!(matches!(statement.values[4], Value::NullableBool(Some(true))));
    let other = CreateUserDto { gender: "FeMale".to_string(), ..CreateUserDto::default() };
    let statement = person::save_user_with_birthdate(&other, birthday());
    assert!(matches!(statement.values[3], Value::Gender(Gender::Female)));
}

#[test]
fn an_admin_is_stored_with_the_birthdate_read() {
    let dto = CreateAdminDto {
        username: "root".to_string(),
        firstname: "Ann".to_string(),
        lastname: "Admin".to_string(),
        email: "ann@example.com".to_string(),
        password: "abc12345".to_string(),
        birthdate: "1990-01-01".to_string(),
        gender: "Female".to_string(),
    };
    let statement = person::save_admin_with_birthdate(&dto, birthday());
    assert_eq!(
        statement.sql,
        "INSERT INTO people (firstname, lastname, username, gender, birthdate, password, role) VALUES (?, ?, ?, ?, ?, ?, 'user') RETURNING *"
    );
    assert_eq!(statement.values.len(), 6);
    assert!(matches!(statement.values[3], Value::Gender(Gender::Female)));
    assert_balanced(&statement);
    assert_eq!(person::save_admin(&dto).unwrap_err(), ConstructionError::InvalidBirthdate);
}

#[test]
fn a_user_update_sets_the_username_only() {
    let dto = UpdateUserDto { username: some("new_username"), ..UpdateUserDto::default() };
    let statement = person::update_user(3, &dto).unwrap();
    assert_eq!(statement.sql, "UPDATE people SET username = ? WHERE id = ? AND role = 'user'");
    assert_eq!(bound(&statement), vec!["Text(\"new_username\")", "Uuid(3)"]);
    assert_balanced(&statement);
}

#[test]
fn a_user_update_sets_the_firstname_only() {
    let dto = UpdateUserDto { firstname: some("New Firstname"), ..UpdateUserDto::default() };
    let statement = person::update_user(3, &dto).unwrap();
    assert_eq!(statement.sql, "UPDATE people SET firstname = ? WHERE id = ? AND role = 'user'");
    assert_eq!(bound(&statement), vec!["Text(\"New Firstname\")", "Uuid(3)"]);
}

#[test]
fn a_user_update_sets_the_lastname_only() {
    let dto = UpdateUserDto { lastname: some("New Lastname"), ..UpdateUserDto::default() };
    let statement = person::update_user(3, &dto).unwrap();
    assert_eq!(statement.sql, "UPDATE people SET lastname = ? WHERE id = ? AND role = 'user'");
    assert_eq!(bound(&statement), vec!["Text(\"New Lastname\")", "Uuid(3)"]);
}

#[test]
fn a_user_update_sets_username_and_firstname() {
    let dto = UpdateUserDto {
        firstname: some("New Firstname"),
        username: some("new_username"),
        ..UpdateUserDto::default()
    };
    let statement = person::update_user(3, &dto).unwrap();
    assert_eq!(
        statement.sql,
        "UPDATE people SET firstname = ?, username = ? WHERE id = ? AND role = 'user'"
    );
    assert_eq!(
        bound(&statement),
        vec!["Text(\"New Firstname\")", "Text(\"new_username\")", "Uuid(3)"]
    );
}

#[test]
fn a_user_update_sets_every_column_in_order() {
    let dto = UpdateUserDto {
        firstname: some("F"),
        lastname: some("L"),
        username: some("u"),
        birthdate: some("1999-10-10"),
        gender: some("FEMALE"),
        biography: some("bio"),
        is_profile_private: Some(true),
    };
    let statement = person::update_user_with_birthdate(3, &dto, Some(birthday())).unwrap();
    assert_eq!(
        statement.sql,
        "UPDATE people SET firstname = ?, lastname = ?, birthdate = ?, gender = ?, is_profile_private = ?, biography = ?, username = ? WHERE id = ? AND role = 'user'"
    );
    assert_eq!(
        bound(&statement),
        vec![
            "Text(\"F\")".to_string(),
            "Text(\"L\")".to_string(),
            format!("Timestamp({:?})", birthday()),
            "Gender(Female)".to_string(),
            "Bool(true)".to_string(),
            "Text(\"bio\")".to_string(),
            "Text(\"u\")".to_string(),
            "Uuid(3)".to_string(),
        ]
    );
    assert_balanced(&statement);
}

#[test]
fn a_user_update_with_an_unreadable_birthdate_is_refused() {
    let dto = UpdateUserDto {
        firstname: some("F"),
        birthdate: some("1999-10-10"),
        ..UpdateUserDto::default()
    };
    assert_eq!(person::update_user(3, &dto).unwrap_err(), ConstructionError::InvalidBirthdate);
    let only = UpdateUserDto { birthdate: some("?"), ..UpdateUserDto::default() };
    assert_eq!(person::update_user(3, &only).unwrap_err(), ConstructionError::InvalidBirthdate);
}

#[test]
fn a_user_update_that_sets_nothing_is_refused() {
    let dto = UpdateUserDto::default();
    assert_eq!(person::update_user(3, &dto).unwrap_err(), ConstructionError::EmptyAssignmentSet);
    assert_eq!(
        person::update_user_with_birthdate(3, &dto, None).unwrap_err(),
        ConstructionError::EmptyAssignmentSet
    );
    let born = person::update_user_with_birthdate(3, &dto, Some(birthday())).unwrap();
    assert_eq!(born.sql, "UPDATE people SET birthdate = ? WHERE id = ? AND role = 'user'");
}

#[test]
fn an_admin_update_sets_its_columns_in_order() {
    let dto = UpdateAdminDto {
        firstname: some("F"),
        lastname: None,
        username: some("u"),
        birthdate: None,
        gender: some("male"),
    };
    let statement = person::update_admin(4, &dto).unwrap();
    assert_eq!(
        statement.sql,
        "UPDATE people SET firstname = ?, gender = ?, username = ? WHERE id = ? AND role = 'admin'"
    );
    assert_eq!(
        bound(&statement),
        vec!["Text(\"F\")", "Gender(Male)", "Text(\"u\")", "Uuid(4)"]
    );
    assert_balanced(&statement);
    let full = person::update_admin_with_birthdate(4, &dto, Some(birthday())).unwrap();
    assert_eq!(
        full.sql,
        "UPDATE people SET firstname = ?, birthdate = ?, gender = ?, username = ? WHERE id = ? AND role = 'admin'"
    );
    assert_balanced(&full);
}

#[test]
fn an_admin_update_is_refused_like_that_of_a_user() {
    let nothing = UpdateAdminDto::default();
    assert_eq!(
        person::update_admin(4, &nothing).unwrap_err(),
        ConstructionError::EmptyAssignmentSet
    );
    let unreadable = UpdateAdminDto { birthdate: some("1990-01-01"), ..UpdateAdminDto::default() };
    assert_eq!(
        person::update_admin(4, &unreadable).unwrap_err(),
        ConstructionError::InvalidBirthdate
    );
}

#[test]
fn people_are_deleted_in_their_role() {
    let user = person::delete_user(5);
    assert_eq!(user.sql, "DELETE FROM people WHERE id = ? AND role = 'user'");
    assert_eq!(bound(&user), vec!["Uuid(5)"]);
    let admin = person::delete_admin(6);
    assert_eq!(admin.sql, "DELETE FROM people WHERE id = ? AND role = 'admin'");
    assert_eq!(bound(&admin), vec!["Uuid(6)"]);
}

#[test]
fn a_statement_numbers_its_placeholders() {
    let dto = UpdatePostDto { title: some("t"), description: some("d") };
    let statement = post::update_post(5, &dto).unwrap();
    assert_eq!(
        statement.positional_sql(),
        "UPDATE posts SET title = $1, description = $2 WHERE id = $3"
    );
    let query = SearchPostQueryDto { limit: None, page: None, title: None };
    assert_eq!(
        post::get_posts(&query).unwrap().positional_sql(),
        "SELECT * FROM posts OFFSET $1 LIMIT $2"
    );
}

//! How many placeholders the fixed texts of the statements hold.
//!
//! A short text is counted in one go. A long one is counted stretch by
//! stretch, sixteen characters at a time, and the stretches are added up.

use vstd::prelude::*;

use crate::text::lemma_placeholder_count_step;
use crate::text::placeholder_count;

verus! {

/// The names of the tables, the columns and the roles, and the quote that
/// closes a role, hold no placeholder.
pub proof fn lemma_names_hold_no_placeholder()
    ensures
        placeholder_count("posts"@) == 0,
        placeholder_count("emails"@) == 0,
        placeholder_count("people"@) == 0,
        placeholder_count("title"@) == 0,
        placeholder_count("description"@) == 0,
        placeholder_count("address"@) == 0,
        placeholder_count("is_private"@) == 0,
        placeholder_count("is_primary"@) == 0,
        placeholder_count("is_verified"@) == 0,
        placeholder_count("firstname"@) == 0,
        placeholder_count("lastname"@) == 0,
        placeholder_count("birthdate"@) == 0,
        placeholder_count("gender"@) == 0,
        placeholder_count("is_profile_private"@) == 0,
        placeholder_count("biography"@) == 0,
        placeholder_count("username"@) == 0,
        placeholder_count("user"@) == 0,
        placeholder_count("admin"@) == 0,
        placeholder_count("'"@) == 0,
{
    reveal_strlit("posts");
    reveal_strlit("emails");
    reveal_strlit("people");
    reveal_strlit("title");
    reveal_strlit("description");
    reveal_strlit("address");
    reveal_strlit("is_private");
    reveal_strlit("is_primary");
    reveal_strlit("is_verified");
    reveal_strlit("firstname");
    reveal_strlit("lastname");
    reveal_strlit("birthdate");
    reveal_strlit("gender");
    reveal_strlit("is_profile_private");
    reveal_strlit("biography");
    reveal_strlit("username");
    reveal_strlit("user");
    reveal_strlit("admin");
    reveal_strlit("'");
    reveal_with_fuel(placeholder_count, 20);
}

/// The query for one post holds one placeholder.
pub proof fn lemma_get_post_text()
    ensures
        placeholder_count("SELECT * FROM posts WHERE id = ?"@) == 1,
{
    let text = "SELECT * FROM posts WHERE id = ?"@;
    reveal_strlit("SELECT * FROM posts WHERE id = ?");
    reveal_with_fuel(placeholder_count, 18);
    assert(text.len() == 32);
    assert(text.take(0) =~= Seq::<char>::empty());
    lemma_placeholder_count_step(text, 0, 16);
    assert(placeholder_count(text.subrange(0, 16)) == 0);
    lemma_placeholder_count_step(text, 16, 32);
    assert(placeholder_count(text.subrange(16, 32)) == 1);
    assert(text.take(32) =~= text);
}

/// The query for all posts holds no placeholder.
pub proof fn lemma_posts_query_text()
    ensures
        placeholder_count("SELECT * FROM posts"@) == 0,
{
    reveal_strlit("SELECT * FROM posts");
    reveal_with_fuel(placeholder_count, 21);
}

/// The filter on the title of a post holds one placeholder.
pub proof fn lemma_title_filter_text()
    ensures
        placeholder_count("title LIKE ?"@) == 1,
{
    reveal_strlit("title LIKE ?");
    reveal_with_fuel(placeholder_count, 14);
}

/// The insertion of a post holds two placeholders.
pub proof fn lemma_save_post_text()
    ensures
        placeholder_count(
            "INSERT INTO posts (title, description) VALUES (?, ?) RETURNING *"@,
        ) == 2,
{
    let text = "INSERT INTO posts (title, description) VALUES (?, ?) RETURNING *"@;
    reveal_strlit("INSERT INTO posts (title, description) VALUES (?, ?) RETURNING *");
    reveal_with_fuel(placeholder_count, 18);
    assert(text.len() == 64);
    assert(text.take(0) =~= Seq::<char>::empty());
    lemma_placeholder_count_step(text, 0, 16);
    assert(placeholder_count(text.subrange(0, 16)) == 0);
    lemma_placeholder_count_step(text, 16, 32);
    assert(placeholder_count(text.subrange(16, 32)) == 0);
    lemma_placeholder_count_step(text, 32, 48);
    assert(placeholder_count(text.subrange(32, 48)) == 1);
    lemma_placeholder_count_step(text, 48, 64);
    assert(placeholder_count(text.subrange(48, 64)) == 1);
    assert(text.take(64) =~= text);
}

/// The query for the emails of a person holds one placeholder.
pub proof fn lemma_person_emails_text()
    ensures
        placeholder_count("SELECT * FROM emails WHERE owner_id = ?"@) == 1,
{
    let text = "SELECT * FROM emails WHERE owner_id = ?"@;
    reveal_strlit("SELECT * FROM emails WHERE owner_id = ?");
    reveal_with_fuel(placeholder_count, 18);
    assert(text.len() == 39);
    assert(text.take(0) =~= Seq::<char>::empty());
    lemma_placeholder_count_step(text, 0, 16);
    assert(placeholder_count(text.subrange(0, 16)) == 0);
    lemma_placeholder_count_step(text, 16, 32);
    assert(placeholder_count(text.subrange(16, 32)) == 0);
    lemma_placeholder_count_step(text, 32, 39);
    assert(placeholder_count(text.subrange(32, 39)) == 1);
    assert(text.take(39) =~= text);
}

/// The query for one email holds one placeholder.
pub proof fn lemma_email_by_id_text()
    ensures
        placeholder_count("SELECT * FROM emails WHERE id = ?"@) == 1,
{
    let text = "SELECT * FROM emails WHERE id = ?"@;
    reveal_strlit("SELECT * FROM emails WHERE id = ?");
    reveal_with_fuel(placeholder_count, 18);
    assert(text.len() == 33);
    assert(text.take(0) =~= Seq::<char>::empty());
    lemma_placeholder_count_step(text, 0, 16);
    assert(placeholder_count(text.subrange(0, 16)) == 0);
    lemma_placeholder_count_step(text, 16, 32);
    assert(placeholder_count(text.subrange(16, 32)) == 0);
    lemma_placeholder_count_step(text, 32, 33);
    assert(placeholder_count(text.subrange(32, 33)) == 1);
    assert(text.take(33) =~= text);
}

/// The insertion of an email holds four placeholders.
pub proof fn lemma_save_email_text()
    ensures
        placeholder_count(
            "INSERT INTO emails (owner_id, address, is_private, is_primary) VALUES (?, ?, ?, ?) RETURNING *"@,
        ) == 4,
{
    let text =
        "INSERT INTO emails (owner_id, address, is_private, is_primary) VALUES (?, ?, ?, ?) RETURNING *"@;
    reveal_strlit(
        "INSERT INTO emails (owner_id, address, is_private, is_primary) VALUES (?, ?, ?, ?) RETURNING *",
    );
    reveal_with_fuel(placeholder_count, 18);
    assert(text.len() == 94);
    assert(text.take(0) =~= Seq::<char>::empty());
    lemma_placeholder_count_step(text, 0, 16);
    assert(placeholder_count(text.subrange(0, 16)) == 0);
    lemma_placeholder_count_step(text, 16, 32);
    assert(placeholder_count(text.subrange(16, 32)) == 0);
    lemma_placeholder_count_step(text, 32, 48);
    assert(placeholder_count(text.subrange(32, 48)) == 0);
    lemma_placeholder_count_step(text, 48, 64);
    assert(placeholder_count(text.subrange(48, 64)) == 0);
    lemma_placeholder_count_step(text, 64, 80);
    assert(placeholder_count(text.subrange(64, 80)) == 3);
    lemma_placeholder_count_step(text, 80, 94);
    assert(placeholder_count(text.subrange(80, 94)) == 1);
    assert(text.take(94) =~= text);
}

/// The insertion of a first email holds two placeholders.
pub proof fn lemma_save_primary_email_text()
    ensures
        placeholder_count(
            "INSERT INTO emails (address, owner_id, is_primary, is_private) VALUES (?, ?, true, true) RETURNING *"@,
        ) == 2,
{
    let text =
        "INSERT INTO emails (address, owner_id, is_primary, is_private) VALUES (?, ?, true, true) RETURNING *"@;
    reveal_strlit(
        "INSERT INTO emails (address, owner_id, is_primary, is_private) VALUES (?, ?, true, true) RETURNING *",
    );
    reveal_with_fuel(placeholder_count, 18);
    assert(text.len() == 100);
    assert(text.take(0) =~= Seq::<char>::empty());
    lemma_placeholder_count_step(text, 0, 16);
    assert(placeholder_count(text.subrange(0, 16)) == 0);
    lemma_placeholder_count_step(text, 16, 32);
    assert(placeholder_count(text.subrange(16, 32)) == 0);
    lemma_placeholder_count_step(text, 32, 48);
    assert(placeholder_count(text.subrange(32, 48)) == 0);
    lemma_placeholder_count_step(text, 48, 64);
    assert(placeholder_count(text.subrange(48, 64)) == 0);
    lemma_placeholder_count_step(text, 64, 80);
    assert(placeholder_count(text.subrange(64, 80)) == 2);
    lemma_placeholder_count_step(text, 80, 96);
    assert(placeholder_count(text.subrange(80, 96)) == 0);
    lemma_placeholder_count_step(text, 96, 100);
    assert(placeholder_count(text.subrange(96, 100)) == 0);
    assert(text.take(100) =~= text);
}

/// The predicate that picks an email of an owner holds two placeholders.
pub proof fn lemma_email_identity_text()
    ensures
        placeholder_count("id = ? AND owner_id = ?"@) == 2,
{
    let text = "id = ? AND owner_id = ?"@;
    reveal_strlit("id = ? AND owner_id = ?");
    reveal_with_fuel(placeholder_count, 18);
    assert(text.len() == 23);
    assert(text.take(0) =~= Seq::<char>::empty());
    lemma_placeholder_count_step(text, 0, 16);
    assert(placeholder_count(text.subrange(0, 16)) == 1);
    lemma_placeholder_count_step(text, 16, 23);
    assert(placeholder_count(text.subrange(16, 23)) == 1);
    assert(text.take(23) =~= text);
}

/// The predicate that picks a row holds one placeholder.
pub proof fn lemma_row_identity_text()
    ensures
        placeholder_count("id = ?"@) == 1,
{
    reveal_strlit("id = ?");
    reveal_with_fuel(placeholder_count, 8);
}

/// The opening of the predicate that picks a person in a role holds one placeholder.
pub proof fn lemma_person_identity_text()
    ensures
        placeholder_count("id = ? AND role = '"@) == 1,
{
    reveal_strlit("id = ? AND role = '");
    reveal_with_fuel(placeholder_count, 21);
}

/// The opening of the query for one person holds no placeholder.
pub proof fn lemma_person_query_text()
    ensures
        placeholder_count("SELECT * FROM people WHERE "@) == 0,
{
    let text = "SELECT * FROM people WHERE "@;
    reveal_strlit("SELECT * FROM people WHERE ");
    reveal_with_fuel(placeholder_count, 18);
    assert(text.len() == 27);
    assert(text.take(0) =~= Seq::<char>::empty());
    lemma_placeholder_count_step(text, 0, 16);
    assert(placeholder_count(text.subrange(0, 16)) == 0);
    lemma_placeholder_count_step(text, 16, 27);
    assert(placeholder_count(text.subrange(16, 27)) == 0);
    assert(text.take(27) =~= text);
}

/// The opening of the query for the people in a role holds no placeholder.
pub proof fn lemma_people_query_text()
    ensures
        placeholder_count("SELECT * FROM (SELECT * FROM people WHERE role = '"@) == 0,
{
    let text = "SELECT * FROM (SELECT * FROM people WHERE role = '"@;
    reveal_strlit("SELECT * FROM (SELECT * FROM people WHERE role = '");
    reveal_with_fuel(placeholder_count, 18);
    assert(text.len() == 50);
    assert(text.take(0) =~= Seq::<char>::empty());
    lemma_placeholder_count_step(text, 0, 16);
    assert(placeholder_count(text.subrange(0, 16)) == 0);
    lemma_placeholder_count_step(text, 16, 32);
    assert(placeholder_count(text.subrange(16, 32)) == 0);
    lemma_placeholder_count_step(text, 32, 48);
    assert(placeholder_count(text.subrange(32, 48)) == 0);
    lemma_placeholder_count_step(text, 48, 50);
    assert(placeholder_count(text.subrange(48, 50)) == 0);
    assert(text.take(50) =~= text);
}

/// The closing of the query for the people in a role holds no placeholder.
pub proof fn lemma_members_text()
    ensures
        placeholder_count("') AS members"@) == 0,
{
    reveal_strlit("') AS members");
    reveal_with_fuel(placeholder_count, 15);
}

/// The filter on the first name of a person holds one placeholder.
pub proof fn lemma_firstname_filter_text()
    ensures
        placeholder_count("firstname LIKE ?"@) == 1,
{
    reveal_strlit("firstname LIKE ?");
    reveal_with_fuel(placeholder_count, 18);
}

/// The filter on the last name of a person holds one placeholder.
pub proof fn lemma_lastname_filter_text()
    ensures
        placeholder_count("lastname LIKE ?"@) == 1,
{
    reveal_strlit("lastname LIKE ?");
    reveal_with_fuel(placeholder_count, 17);
}

/// The filter on the username of a person holds one placeholder.
pub proof fn lemma_username_filter_text()
    ensures
        placeholder_count("LOWER(username) LIKE ?"@) == 1,
{
    let text = "LOWER(username) LIKE ?"@;
    reveal_strlit("LOWER(username) LIKE ?");
    reveal_with_fuel(placeholder_count, 18);
    assert(text.len() == 22);
    assert(text.take(0) =~= Seq::<char>::empty());
    lemma_placeholder_count_step(text, 0, 16);
    assert(placeholder_count(text.subrange(0, 16)) == 0);
    lemma_placeholder_count_step(text, 16, 22);
    assert(placeholder_count(text.subrange(16, 22)) == 1);
    assert(text.take(22) =~= text);
}

/// The insertion of a user holds seven placeholders.
pub proof fn lemma_save_user_text()
    ensures
        placeholder_count(
            "INSERT INTO people (firstname, lastname, username, gender, is_profile_private, birthdate, password, role) VALUES (?, ?, ?, ?, ?, ?, ?, 'user') RETURNING *"@,
        ) == 7,
{
    let text =
        "INSERT INTO people (firstname, lastname, username, gender, is_profile_private, birthdate, password, role) VALUES (?, ?, ?, ?, ?, ?, ?, 'user') RETURNING *"@;
    reveal_strlit(
        "INSERT INTO people (firstname, lastname, username, gender, is_profile_private, birthdate, password, role) VALUES (?, ?, ?, ?, ?, ?, ?, 'user') RETURNING *",
    );
    reveal_with_fuel(placeholder_count, 18);
    assert(text.len() == 154);
    assert(text.take(0) =~= Seq::<char>::empty());
    lemma_placeholder_count_step(text, 0, 16);
    assert(placeholder_count(text.subrange(0, 16)) == 0);
    lemma_placeholder_count_step(text, 16, 32);
    assert(placeholder_count(text.subrange(16, 32)) == 0);
    lemma_placeholder_count_step(text, 32, 48);
    assert(placeholder_count(text.subrange(32, 48)) == 0);
    lemma_placeholder_count_step(text, 48, 64);
    assert(placeholder_count(text.subrange(48, 64)) == 0);
    lemma_placeholder_count_step(text, 64, 80);
    assert(placeholder_count(text.subrange(64, 80)) == 0);
    lemma_placeholder_count_step(text, 80, 96);
    assert(placeholder_count(text.subrange(80, 96)) == 0);
    lemma_placeholder_count_step(text, 96, 112);
    assert(placeholder_count(text.subrange(96, 112)) == 0);
    lemma_placeholder_count_step(text, 112, 128);
    assert(placeholder_count(text.subrange(112, 128)) == 5);
    lemma_placeholder_count_step(text, 128, 144);
    assert(placeholder_count(text.subrange(128, 144)) == 2);
    lemma_placeholder_count_step(text, 144, 154);
    assert(placeholder_count(text.subrange(144, 154)) == 0);
    assert(text.take(154) =~= text);
}

/// The insertion of an admin holds six placeholders.
pub proof fn lemma_save_admin_text()
    ensures
        placeholder_count(
            "INSERT INTO people (firstname, lastname, username, gender, birthdate, password, role) VALUES (?, ?, ?, ?, ?, ?, 'user') RETURNING *"@,
        ) == 6,
{
    let text =
        "INSERT INTO people (firstname, lastname, username, gender, birthdate, password, role) VALUES (?, ?, ?, ?, ?, ?, 'user') RETURNING *"@;
    reveal_strlit(
        "INSERT INTO people (firstname, lastname, username, gender, birthdate, password, role) VALUES (?, ?, ?, ?, ?, ?, 'user') RETURNING *",
    );
    reveal_with_fuel(placeholder_count, 18);
    assert(text.len() == 131);
    assert(text.take(0) =~= Seq::<char>::empty());
    lemma_placeholder_count_step(text, 0, 16);
    assert(placeholder_count(text.subrange(0, 16)) == 0);
    lemma_placeholder_count_step(text, 16, 32);
    assert(placeholder_count(text.subrange(16, 32)) == 0);
    lemma_placeholder_count_step(text, 32, 48);
    assert(placeholder_count(text.subrange(32, 48)) == 0);
    lemma_placeholder_count_step(text, 48, 64);
    assert(placeholder_count(text.subrange(48, 64)) == 0);
    lemma_placeholder_count_step(text, 64, 80);
    assert(placeholder_count(text.subrange(64, 80)) == 0);
    lemma_placeholder_count_step(text, 80, 96);
    assert(placeholder_count(text.subrange(80, 96)) == 1);
    lemma_placeholder_count_step(text, 96, 112);
    assert(placeholder_count(text.subrange(96, 112)) == 5);
    lemma_placeholder_count_step(text, 112, 128);
    assert(placeholder_count(text.subrange(112, 128)) == 0);
    lemma_placeholder_count_step(text, 128, 131);
    assert(placeholder_count(text.subrange(128, 131)) == 0);
    assert(text.take(131) =~= text);
}

} // verus!

use blog_backend::assembler::ConstructionError;
use blog_backend::dtos::post::GetPostParamsDto;
use blog_backend::error::HttpError;
use blog_backend::models::Post;
use blog_backend::response::code_for;
use blog_backend::response::DefaultHttpError;
use blog_backend::response::DefaultHttpResponse;
use blog_backend::response::HttpResponse;
use blog_backend::scopes::posts;
use blog_backend::time::Timestamp;

fn at(seconds: i64) -> Timestamp {
    Timestamp { seconds, nanos: 0, offset: 0 }
}

fn post(id: u128, title: &str) -> Post {
    Post {
        id,
        title: title.to_string(),
        description: format!("About {}", title),
        created_at: Some(at(1_700_000_000)),
        updated_at: Some(at(1_700_000_100)),
    }
}

#[test]
fn an_error_is_made_with_its_status() {
    let error = HttpError::new("teapot", 418);
    assert_eq!(error.message, "teapot");
    assert_eq!(error.status, 418);
    assert_eq!(HttpError::server_error("a").status, 500);
    assert_eq!(HttpError::bad_request("b").status, 400);
    assert_eq!(HttpError::unique_constraint_voilation("c").status, 409);
    assert_eq!(HttpError::unauthorized("d").status, 401);
    assert_eq!(HttpError::not_found("e").status, 404);
    assert_eq!(HttpError::not_found("e").message, "e");
    assert_eq!(HttpError::server_error("a").message, "a");
    assert_eq!(HttpError::bad_request("b").message, "b");
    assert_eq!(HttpError::unique_constraint_voilation("c").message, "c");
    assert_eq!(HttpError::unauthorized("d").message, "d");
}

#[test]
fn a_reported_error_is_sent_as_it_stands() {
    for status in [400u16, 401, 404, 409, 500] {
        assert!(HttpError::new("what happened", status).keeps_status());
        let reply = HttpError::new("what happened", status).into_http_response();
        assert_eq!(reply.code, status);
        assert_eq!(reply.body.status, status);
        assert_eq!(reply.body.message, "what happened");
    }
}

#[test]
fn any_other_error_is_sent_as_a_plain_server_error() {
    for status in [0u16, 200, 403, 418, 501, 999, u16::MAX] {
        assert!(!HttpError::new("what happened", status).keeps_status());
        let reply = HttpError::new("what happened", status).into_http_response();
        assert_eq!(reply.code, 500);
        assert_eq!(reply.body.status, 500);
        assert_eq!(reply.body.message, "Internal Server Error");
    }
}

#[test]
fn an_error_is_described_in_words() {
    assert_eq!(
        HttpError::not_found("Post not found").to_string(),
        "HttpError: message: Post not found, status: 404"
    );
    assert_eq!(HttpError::new("", 0).to_string(), "HttpError: message: , status: 0");
    assert_eq!(
        DefaultHttpError::unauthorized("no").to_string(),
        "HttpError: message: no, status: 401"
    );
    assert_eq!(
        DefaultHttpError::new("x", u16::MAX).to_string(),
        "HttpError: message: x, status: 65535"
    );
}

#[test]
fn default_replies_are_made_with_their_status() {
    assert_eq!(DefaultHttpResponse::ok("fine").status, 200);
    assert_eq!(DefaultHttpResponse::ok("fine").message, "fine");
    assert_eq!(DefaultHttpResponse::new("made", 201).status, 201);
    assert_eq!(DefaultHttpError::new("x", 418).status, 418);
    assert_eq!(DefaultHttpError::new("x", 418).message, "x");
    assert_eq!(DefaultHttpError::server_error("a").status, 500);
    assert_eq!(DefaultHttpError::bad_request("b").status, 400);
    assert_eq!(DefaultHttpError::unique_constraint_voilation("c").status, 409);
    assert_eq!(DefaultHttpError::unauthorized("d").status, 401);
    assert_eq!(DefaultHttpError::not_found("e").status, 404);
    assert_eq!(DefaultHttpError::not_found("e").message, "e");
}

#[test]
fn a_status_that_is_no_status_code_is_sent_as_a_server_error() {
    assert_eq!(code_for(200), 200);
    assert_eq!(code_for(100), 100);
    assert_eq!(code_for(999), 999);
    assert_eq!(code_for(99), 500);
    assert_eq!(code_for(0), 500);
    assert_eq!(code_for(1000), 500);
    assert_eq!(code_for(u16::MAX), 500);
}

#[test]
fn a_default_reply_keeps_its_body() {
    let reply = DefaultHttpResponse::ok("Post has been updated").into_http_response();
    assert_eq!(reply.code, 200);
    assert_eq!(reply.body.status, 200);
    assert_eq!(reply.body.message, "Post has been updated");
    let odd = DefaultHttpError::new("odd", 42).into_http_response();
    assert_eq!(odd.code, 500);
    assert_eq!(odd.body.status, 42);
    assert_eq!(odd.body.message, "odd");
    let missing = DefaultHttpError::not_found("Post not found").into_http_response();
    assert_eq!(missing.code, 404);
    assert_eq!(missing.body.status, 404);
}

#[test]
fn a_valid_identifier_is_read_from_the_path() {
    let path = GetPostParamsDto { post_id: "550e8400-e29b-41d4-a716-446655440000".to_string() };
    assert_eq!(posts::read_post_id(&path).unwrap(), 0x550e8400_e29b_41d4_a716_446655440000u128);
    let simple = GetPostParamsDto { post_id: "550e8400e29b41d4a716446655440000".to_string() };
    assert_eq!(posts::read_post_id(&simple).unwrap(), 0x550e8400_e29b_41d4_a716_446655440000u128);
    let nil = GetPostParamsDto { post_id: "00000000-0000-0000-0000-000000000000".to_string() };
    assert_eq!(posts::read_post_id(&nil).unwrap(), 0);
}

#[test]
fn an_invalid_identifier_is_reported() {
    for text in ["", "42", "not-a-uuid", "550e8400-e29b-41d4-a716-44665544000g"] {
        let path = GetPostParamsDto { post_id: text.to_string() };
        let error = posts::read_post_id(&path).unwrap_err();
        assert_eq!(error.status, 500);
        assert_eq!(error.message, "The provided id is not valid");
    }
    let error = posts::post_id_or_failure(None).unwrap_err();
    assert_eq!(error.message, "The provided id is not valid");
    assert_eq!(posts::post_id_or_failure(Some(5)).unwrap(), 5);
}

#[test]
fn a_found_post_is_sent_out() {
    let found = Some(post(0x550e8400_e29b_41d4_a716_446655440000, "Posts"));
    let reply = posts::get_post(&found).unwrap();
    assert_eq!(reply.status, 200);
    assert_eq!(reply.post.id, "550e8400-e29b-41d4-a716-446655440000");
    assert_eq!(reply.post.title, "Posts");
    assert_eq!(reply.post.description, "About Posts");
    assert_eq!(reply.post.created_at, at(1_700_000_000));
    assert_eq!(reply.post.updated_at, at(1_700_000_100));
}

#[test]
fn a_missing_post_is_reported_as_not_found() {
    let error = posts::get_post(&None).unwrap_err();
    assert_eq!(error.status, 404);
    assert_eq!(error.message, "Post not found");
}

#[test]
fn a_search_reply_counts_its_posts() {
    let found = vec![post(1, "One"), post(2, "Two"), post(3, "Three")];
    let reply = posts::get_posts(&found);
    assert_eq!(reply.status, 200);
    assert_eq!(reply.results, 3);
    let titles: Vec<&str> = reply.posts.iter().map(|post| post.title.as_str()).collect();
    assert_eq!(titles, vec!["One", "Two", "Three"]);
    assert_eq!(reply.posts[1].id, "00000000-0000-0000-0000-000000000002");
    let none = posts::get_posts(&[]);
    assert_eq!(none.results, 0);
    assert!(none.posts.is_empty());
}

#[test]
fn a_stored_post_is_sent_out() {
    let reply = posts::save_post(&post(1, "New Post"));
    assert_eq!(reply.status, 200);
    assert_eq!(reply.post.title, "New Post");
    assert_eq!(reply.post.id, "00000000-0000-0000-0000-000000000001");
}

#[test]
fn an_update_that_changed_nothing_is_reported_as_not_found() {
    let done = posts::update_post(true).unwrap();
    assert_eq!(done.status, 200);
    assert_eq!(done.message, "Post has been updated");
    let missing = posts::update_post(false).unwrap_err();
    assert_eq!(missing.status, 404);
    assert_eq!(missing.message, "Post not found");
}

#[test]
fn a_second_deletion_is_reported_as_not_found() {
    let first = posts::delete_post(blog_backend::db::any_row_affected(1)).unwrap();
    assert_eq!(first.status, 200);
    assert_eq!(first.message, "Post has been deleted");
    let second = posts::delete_post(blog_backend::db::any_row_affected(0)).unwrap_err();
    assert_eq!(second.status, 404);
    assert_eq!(second.message, "Post not found");
}

#[test]
fn failures_are_told_apart_by_where_they_arose() {
    let invalid = posts::validation_failed("title: Title is required");
    assert_eq!(invalid.status, 400);
    assert_eq!(invalid.message, "title: Title is required");
    let failed = posts::execution_failed("connection refused");
    assert_eq!(failed.status, 500);
    assert_eq!(failed.message, "connection refused");
    let empty = posts::construction_failed(ConstructionError::EmptyAssignmentSet);
    assert_eq!(empty.status, 400);
    assert_eq!(empty.message, "Nothing to update");
    let page = posts::construction_failed(ConstructionError::InvalidPagination);
    assert_eq!(page.status, 400);
    assert_eq!(page.message, "The page or the limit is not valid");
    let birthdate = posts::construction_failed(ConstructionError::InvalidBirthdate);
    assert_eq!(birthdate.status, 400);
    assert_eq!(birthdate.message, "The birthdate is not valid");
}

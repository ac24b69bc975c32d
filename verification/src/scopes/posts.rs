//! What the handlers of `/api/posts` decide: which identifier a path names,
//! and which reply follows from what the store answered. Talking to the
//! client and to the store is the caller's part.

use vstd::prelude::*;

use crate::assembler::ConstructionError;
use crate::dtos::post::GetPostParamsDto;
use crate::dtos::post::PostDto;
use crate::dtos::post::PostListResponseDto;
use crate::dtos::post::PostResponseDto;
use crate::ids::parse_uuid;
use crate::ids::parsed_uuid;
use crate::models::Post;
use crate::response::DefaultHttpError;
use crate::response::DefaultHttpResponse;

verus! {

/// Whether `error` is a failure with this status and this message.
pub open spec fn is_failure(error: DefaultHttpError, status: u16, message: Seq<char>) -> bool {
    error.status == status && error.message@ == message
}

/// What follows from reading the identifier in a path: the identifier where
/// one was read, else the failure that reports an invalid one.
pub fn post_id_or_failure(parsed: Option<u128>) -> (read: Result<u128, DefaultHttpError>)
    ensures
        match parsed {
            Some(id) => read matches Ok(post_id) && post_id == id,
            None => read matches Err(error) && is_failure(
                error,
                500,
                "The provided id is not valid"@,
            ),
        },
{
    match parsed {
        Some(id) => Ok(id),
        None => Err(DefaultHttpError::server_error("The provided id is not valid")),
    }
}

/// The identifier of the post that the path names.
pub fn read_post_id(path: &GetPostParamsDto) -> (read: Result<u128, DefaultHttpError>)
    ensures
        match parsed_uuid(path.post_id@) {
            Some(id) => read matches Ok(post_id) && post_id == id,
            None => read matches Err(error) && is_failure(
                error,
                500,
                "The provided id is not valid"@,
            ),
        },
{
    post_id_or_failure(parse_uuid(path.post_id.as_str()))
}

/// The failure that reports a request that did not pass validation.
pub fn validation_failed(message: &str) -> (error: DefaultHttpError)
    ensures
        is_failure(error, 400, message@),
{
    DefaultHttpError::bad_request(message)
}

/// The failure that reports that the store did not execute a statement.
pub fn execution_failed(message: &str) -> (error: DefaultHttpError)
    ensures
        is_failure(error, 500, message@),
{
    DefaultHttpError::server_error(message)
}

/// What the client is told of each reason for which no statement was made.
pub open spec fn construction_message(error: ConstructionError) -> Seq<char> {
    match error {
        ConstructionError::EmptyAssignmentSet => "Nothing to update"@,
        ConstructionError::InvalidPagination => "The page or the limit is not valid"@,
        ConstructionError::InvalidBirthdate => "The birthdate is not valid"@,
    }
}

/// The failure that reports a request for which no statement could be
/// made. It is the client's to mend, and nothing has reached the store.
pub fn construction_failed(error: ConstructionError) -> (failure: DefaultHttpError)
    ensures
        is_failure(failure, 400, construction_message(error)),
{
    match error {
        ConstructionError::EmptyAssignmentSet => DefaultHttpError::bad_request(
            "Nothing to update",
        ),
        ConstructionError::InvalidPagination => DefaultHttpError::bad_request(
            "The page or the limit is not valid",
        ),
        ConstructionError::InvalidBirthdate => DefaultHttpError::bad_request(
            "The birthdate is not valid",
        ),
    }
}

/// The reply to a search: the posts found, and their number.
pub fn get_posts(posts: &[Post]) -> (reply: PostListResponseDto)
    requires
        forall|i: int| 0 <= i < posts@.len() ==> PostDto::is_dated(#[trigger] posts@[i]),
    ensures
        reply.status == 200,
        reply.results == posts@.len(),
        reply.posts@.len() == posts@.len(),
        forall|i: int| 0 <= i < posts@.len() ==> (#[trigger] reply.posts@[i]).shows(posts@[i]),
{
    PostListResponseDto { status: 200, posts: PostDto::filter_posts(posts), results: posts.len() }
}

/// The reply to the request for one post: the post if the store has it,
/// else the failure that reports it as not found.
pub fn get_post(found: &Option<Post>) -> (reply: Result<PostResponseDto, DefaultHttpError>)
    requires
        found matches Some(post) ==> PostDto::is_dated(*post),
    ensures
        match found {
            Some(post) => reply matches Ok(response) && response.status == 200
                && response.post.shows(*post),
            None => reply matches Err(error) && is_failure(error, 404, "Post not found"@),
        },
{
    match found {
        Some(post) => Ok(PostResponseDto { status: 200, post: PostDto::filter_post(post) }),
        None => Err(DefaultHttpError::not_found("Post not found")),
    }
}

/// The reply to the request to store a post: the post as the store holds
/// it.
pub fn save_post(post: &Post) -> (reply: PostResponseDto)
    requires
        PostDto::is_dated(*post),
    ensures
        reply.status == 200,
        reply.post.shows(*post),
{
    PostResponseDto { status: 200, post: PostDto::filter_post(post) }
}

/// The reply to the request to update a post, given whether the store
/// changed a row.
pub fn update_post(is_updated: bool) -> (reply: Result<DefaultHttpResponse, DefaultHttpError>)
    ensures
        if is_updated {
            reply matches Ok(response) && response.status == 200 && response.message@
                == "Post has been updated"@
        } else {
            reply matches Err(error) && is_failure(error, 404, "Post not found"@)
        },
{
    if is_updated {
        Ok(DefaultHttpResponse::ok("Post has been updated"))
    } else {
        Err(DefaultHttpError::not_found("Post not found"))
    }
}

/// The reply to the request to delete a post, given whether the store
/// removed a row.
pub fn delete_post(is_deleted: bool) -> (reply: Result<DefaultHttpResponse, DefaultHttpError>)
    ensures
        if is_deleted {
            reply matches Ok(response) && response.status == 200 && response.message@
                == "Post has been deleted"@
        } else {
            reply matches Err(error) && is_failure(error, 404, "Post not found"@)
        },
{
    if is_deleted {
        Ok(DefaultHttpResponse::ok("Post has been deleted"))
    } else {
        Err(DefaultHttpError::not_found("Post not found"))
    }
}

} // verus!

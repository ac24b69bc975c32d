//! What is received from and sent to the clients of the service.
//!
//! The types of this file wrap a post in an envelope with a status in
//! words; those of [`post`] send it with a numeric status.

pub mod email;
pub mod person;
pub mod post;

pub use self::post::CreatePostDto;

use vstd::prelude::*;

use crate::ids::format_uuid;
use crate::ids::uuid_text;
use crate::models::Post;
use crate::time::Timestamp;

verus! {

/// The part of a path that names a post.
pub struct PostPathParamDto {
    pub post_id: String,
}

/// A post as it is sent out.
#[derive(Debug)]
pub struct FilterPostDto {
    pub id: String,
    pub title: String,
    pub description: String,
    pub created_at: Timestamp,
    pub updated_at: Timestamp,
}

impl FilterPostDto {
    /// Whether this is `post` as it is sent out.
    pub open spec fn shows(self, post: Post) -> bool {
        &&& self.id@ == uuid_text(post.id)
        &&& self.title@ == post.title@
        &&& self.description@ == post.description@
        &&& Some(self.created_at) == post.created_at
        &&& Some(self.updated_at) == post.updated_at
    }

    /// A post can be sent out once the store has dated it.
    pub open spec fn is_dated(post: Post) -> bool {
        post.created_at is Some && post.updated_at is Some
    }

    /// The post as it is sent out.
    pub fn filter_post(post: &Post) -> (dto: FilterPostDto)
        requires
            FilterPostDto::is_dated(*post),
        ensures
            dto.shows(*post),
    {
        FilterPostDto {
            id: format_uuid(post.id),
            title: post.title.clone(),
            description: post.description.clone(),
            created_at: post.created_at.unwrap(),
            updated_at: post.updated_at.unwrap(),
        }
    }

    /// The posts as they are sent out, in their order.
    pub fn filter_posts(posts: &[Post]) -> (dtos: Vec<FilterPostDto>)
        requires
            forall|i: int| 0 <= i < posts@.len() ==> FilterPostDto::is_dated(#[trigger] posts@[i]),
        ensures
            dtos@.len() == posts@.len(),
            forall|i: int| 0 <= i < posts@.len() ==> (#[trigger] dtos@[i]).shows(posts@[i]),
    {
        let mut dtos: Vec<FilterPostDto> = Vec::new();
        let mut i: usize = 0;
        while i < posts.len()
            invariant
                0 <= i <= posts@.len(),
                dtos@.len() == i,
                forall|j: int|
                    0 <= j < posts@.len() ==> FilterPostDto::is_dated(#[trigger] posts@[j]),
                forall|j: int| 0 <= j < i ==> (#[trigger] dtos@[j]).shows(posts@[j]),
            decreases posts@.len() - i,
        {
            dtos.push(FilterPostDto::filter_post(&posts[i]));
            i += 1;
        }
        dtos
    }
}

/// The envelope of one post.
#[derive(Debug)]
pub struct PostData {
    pub post: FilterPostDto,
}

/// The reply that carries one post in its envelope.
#[derive(Debug)]
pub struct PostResponseDto {
    pub status: String,
    pub data: PostData,
}

/// The reply that carries a list of posts and their number.
#[derive(Debug)]
pub struct PostListResponseDto {
    pub status: String,
    pub posts: Vec<FilterPostDto>,
    pub results: usize,
}

} // verus!

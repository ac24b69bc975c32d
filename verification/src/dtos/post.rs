//! What is received and sent about posts.

use vstd::prelude::*;

use crate::ids::format_uuid;
use crate::ids::uuid_text;
use crate::models::Post;
use crate::time::Timestamp;

verus! {

/// What is asked for when a post is written.
#[derive(Debug, Default, Clone)]
pub struct CreatePostDto {
    pub title: String,
    pub description: String,
}

/// The columns of a post to set; an absent one is left as it is.
#[derive(Debug, Default, Clone)]
pub struct UpdatePostDto {
    pub title: Option<String>,
    pub description: Option<String>,
}

/// A search for posts: the term to match, and the page to serve.
#[derive(Debug, Default, Clone)]
pub struct SearchPostQueryDto {
    pub title: Option<String>,
    pub page: Option<u32>,
    pub limit: Option<usize>,
}

/// A post as it is sent out.
#[derive(Debug)]
pub struct PostDto {
    pub id: String,
    pub title: String,
    pub description: String,
    pub created_at: Timestamp,
    pub updated_at: Timestamp,
}

impl PostDto {
    /// Whether this is `post` as it is sent out.
    pub open spec fn shows(self, post: Post) -> bool {
        &&& self.id@ == uuid_text(post.id)
        &&& self.title@ == post.title@
        &&& self.description@ == post.description@
        &&& Some(self.created_at) == post.created_at
        &&& Some(self.updated_at) == post.updated_at
    }

    /// A post can be sent out once the store has dated it.
    pub open spec fn is_dated(post: Post) -> bool {
        post.created_at is Some && post.updated_at is Some
    }

    /// The post as it is sent out.
    pub fn filter_post(post: &Post) -> (dto: PostDto)
        requires
            PostDto::is_dated(*post),
        ensures
            dto.shows(*post),
    {
        PostDto {
            id: format_uuid(post.id),
            title: post.title.clone(),
            description: post.description.clone(),
            created_at: post.created_at.unwrap(),
            updated_at: post.updated_at.unwrap(),
        }
    }

    /// The posts as they are sent out, in their order.
    pub fn filter_posts(posts: &[Post]) -> (dtos: Vec<PostDto>)
        requires
            forall|i: int| 0 <= i < posts@.len() ==> PostDto::is_dated(#[trigger] posts@[i]),
        ensures
            dtos@.len() == posts@.len(),
            forall|i: int| 0 <= i < posts@.len() ==> (#[trigger] dtos@[i]).shows(posts@[i]),
    {
        let mut dtos: Vec<PostDto> = Vec::new();
        let mut i: usize = 0;
        while i < posts.len()
            invariant
                0 <= i <= posts@.len(),
                dtos@.len() == i,
                forall|j: int| 0 <= j < posts@.len() ==> PostDto::is_dated(#[trigger] posts@[j]),
                forall|j: int| 0 <= j < i ==> (#[trigger] dtos@[j]).shows(posts@[j]),
            decreases posts@.len() - i,
        {
            dtos.push(PostDto::filter_post(&posts[i]));
            i += 1;
        }
        dtos
    }
}

/// The part of a path that names a post.
pub struct GetPostParamsDto {
    pub post_id: String,
}

/// The reply that carries one post.
#[derive(Debug)]
pub struct PostResponseDto {
    pub status: u16,
    pub post: PostDto,
}

/// The reply that carries a list of posts and their number.
#[derive(Debug)]
pub struct PostListResponseDto {
    pub status: u16,
    pub posts: Vec<PostDto>,
    pub results: usize,
}

} // verus!

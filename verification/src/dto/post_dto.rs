//! Wire-facing post shapes and their validation.

use vstd::prelude::*;
use vstd::string::StringExecFns;

use crate::error::ApiError;
use crate::models::post::{CreatePost, Post, UpdatePost};
use crate::validation::{char_count, valid_content, valid_title};

verus! {

/// What a post looks like on the wire.
#[derive(Debug)]
pub struct PostResponse {
    pub id: u128,
    pub title: String,
    pub content: String,
    pub author_id: u128,
    pub published: bool,
    pub created_at: i64,
    pub updated_at: i64,
}

impl From<Post> for PostResponse {
    fn from(post: Post) -> (r: PostResponse) {
        PostResponse {
            id: post.id,
            title: post.title,
            content: post.content,
            author_id: post.author_id,
            published: post.published,
            created_at: post.created_at,
            updated_at: post.updated_at,
        }
    }
}

impl vstd::std_specs::convert::FromSpecImpl<Post> for PostResponse {
    open spec fn obeys_from_spec() -> bool {
        true
    }

    open spec fn from_spec(post: Post) -> PostResponse {
        PostResponse {
            id: post.id,
            title: post.title,
            content: post.content,
            author_id: post.author_id,
            published: post.published,
            created_at: post.created_at,
            updated_at: post.updated_at,
        }
    }
}

/// A post-creation request as it arrives from the transport. The author is
/// not part of the request: the caller resolves the author identity and
/// supplies it when building the creation input.
#[derive(Debug)]
pub struct CreatePostRequest {
    pub title: String,
    pub content: String,
}

impl CreatePostRequest {
    /// Accepts exactly the requests whose title is 1 to 100 characters and
    /// whose content is non-empty.
    pub fn validate(&self) -> (r: Result<(), ApiError>)
        ensures
            r is Ok <==> valid_title(self.title@) && valid_content(self.content@),
            (r matches Err(e) ==> e is ValidationError),
    {
        let title_chars = char_count(&self.title);
        if title_chars < 1 || title_chars > 100 {
            return Err(
                ApiError::ValidationError(String::from_str("title must be 1 to 100 characters")),
            );
        }
        if char_count(&self.content) < 1 {
            return Err(ApiError::ValidationError(String::from_str("content must not be empty")));
        }
        Ok(())
    }

    /// Pairs the request with the already-resolved author identity.
    pub fn into_create_post(self, author_id: u128) -> (r: CreatePost)
        ensures
            r.title == self.title,
            r.content == self.content,
            r.author_id == author_id,
    {
        CreatePost { title: self.title, content: self.content, author_id }
    }
}

/// A partial post-update request as it arrives from the transport.
#[derive(Debug)]
pub struct UpdatePostRequest {
    pub title: Option<String>,
    pub content: Option<String>,
    pub published: Option<bool>,
}

impl UpdatePostRequest {
    /// Accepts exactly the requests whose present fields each pass the rule
    /// the corresponding creation field must pass; absent fields pass.
    pub fn validate(&self) -> (r: Result<(), ApiError>)
        ensures
            r is Ok <==> (match self.title {
                Some(title) => valid_title(title@),
                None => true,
            } && match self.content {
                Some(content) => valid_content(content@),
                None => true,
            }),
            (r matches Err(e) ==> e is ValidationError),
    {
        if let Some(title) = &self.title {
            let title_chars = char_count(title);
            if title_chars < 1 || title_chars > 100 {
                return Err(
                    ApiError::ValidationError(
                        String::from_str("title must be 1 to 100 characters"),
                    ),
                );
            }
        }
        if let Some(content) = &self.content {
            if char_count(content) < 1 {
                return Err(
                    ApiError::ValidationError(String::from_str("content must not be empty")),
                );
            }
        }
        Ok(())
    }
}

impl From<UpdatePostRequest> for UpdatePost {
    fn from(request: UpdatePostRequest) -> (r: UpdatePost) {
        UpdatePost {
            title: request.title,
            content: request.content,
            published: request.published,
        }
    }
}

impl vstd::std_specs::convert::FromSpecImpl<UpdatePostRequest> for UpdatePost {
    open spec fn obeys_from_spec() -> bool {
        true
    }

    open spec fn from_spec(request: UpdatePostRequest) -> UpdatePost {
        UpdatePost {
            title: request.title,
            content: request.content,
            published: request.published,
        }
    }
}

} // verus!

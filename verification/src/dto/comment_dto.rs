//! Wire-facing comment shapes and their validation.

use vstd::prelude::*;
use vstd::string::StringExecFns;

use crate::error::ApiError;
use crate::models::comment::{Comment, CreateComment, UpdateComment};
use crate::validation::{char_count, valid_content};

verus! {

/// What a comment looks like on the wire.
#[derive(Debug)]
pub struct CommentResponse {
    pub id: u128,
    pub content: String,
    pub post_id: u128,
    pub author_id: u128,
    pub created_at: i64,
    pub updated_at: i64,
}

impl From<Comment> for CommentResponse {
    fn from(comment: Comment) -> (r: CommentResponse) {
        CommentResponse {
            id: comment.id,
            content: comment.content,
            post_id: comment.post_id,
            author_id: comment.author_id,
            created_at: comment.created_at,
            updated_at: comment.updated_at,
        }
    }
}

impl vstd::std_specs::convert::FromSpecImpl<Comment> for CommentResponse {
    open spec fn obeys_from_spec() -> bool {
        true
    }

    open spec fn from_spec(comment: Comment) -> CommentResponse {
        CommentResponse {
            id: comment.id,
            content: comment.content,
            post_id: comment.post_id,
            author_id: comment.author_id,
            created_at: comment.created_at,
            updated_at: comment.updated_at,
        }
    }
}

/// A comment-creation request as it arrives from the transport. The author
/// is not part of the request: the caller resolves the author identity and
/// supplies it when building the creation input.
#[derive(Debug)]
pub struct CreateCommentRequest {
    pub content: String,
    pub post_id: u128,
}

impl CreateCommentRequest {
    /// Accepts exactly the requests whose content is non-empty.
    pub fn validate(&self) -> (r: Result<(), ApiError>)
        ensures
            r is Ok <==> valid_content(self.content@),
            (r matches Err(e) ==> e is ValidationError),
    {
        if char_count(&self.content) < 1 {
            return Err(ApiError::ValidationError(String::from_str("content must not be empty")));
        }
        Ok(())
    }

    /// Pairs the request with the already-resolved author identity.
    pub fn into_create_comment(self, author_id: u128) -> (r: CreateComment)
        ensures
            r.content == self.content,
            r.post_id == self.post_id,
            r.author_id == author_id,
    {
        CreateComment { content: self.content, post_id: self.post_id, author_id }
    }
}

/// A partial comment-update request as it arrives from the transport.
#[derive(Debug)]
pub struct UpdateCommentRequest {
    pub content: Option<String>,
}

impl UpdateCommentRequest {
    /// Accepts exactly the requests whose content, when present, is
    /// non-empty; an absent content passes.
    pub fn validate(&self) -> (r: Result<(), ApiError>)
        ensures
            r is Ok <==> (match self.content {
                Some(content) => valid_content(content@),
                None => true,
            }),
            (r matches Err(e) ==> e is ValidationError),
    {
        if let Some(content) = &self.content {
            if char_count(content) < 1 {
                return Err(
                    ApiError::ValidationError(String::from_str("content must not be empty")),
                );
            }
        }
        Ok(())
    }
}

impl From<UpdateCommentRequest> for UpdateComment {
    fn from(request: UpdateCommentRequest) -> (r: UpdateComment) {
        UpdateComment { content: request.content }
    }
}

impl vstd::std_specs::convert::FromSpecImpl<UpdateCommentRequest> for UpdateComment {
    open spec fn obeys_from_spec() -> bool {
        true
    }

    open spec fn from_spec(request: UpdateCommentRequest) -> UpdateComment {
        UpdateComment { content: request.content }
    }
}

} // verus!

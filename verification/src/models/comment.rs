//! The comment entity: content attached to a post by an author.

use vstd::prelude::*;

verus! {

/// A persisted comment: identity, content, its post and author references,
/// and timestamps.
#[derive(Debug)]
pub struct Comment {
    pub id: u128,
    pub content: String,
    pub post_id: u128,
    pub author_id: u128,
    pub created_at: i64,
    pub updated_at: i64,
}

/// The mathematical value of a comment.
pub ghost struct CommentView {
    pub id: u128,
    pub content: Seq<char>,
    pub post_id: u128,
    pub author_id: u128,
    pub created_at: int,
    pub updated_at: int,
}

impl View for Comment {
    type V = CommentView;

    open spec fn view(&self) -> CommentView {
        CommentView {
            id: self.id,
            content: self.content@,
            post_id: self.post_id,
            author_id: self.author_id,
            created_at: self.created_at as int,
            updated_at: self.updated_at as int,
        }
    }
}

impl Clone for Comment {
    fn clone(&self) -> (res: Self)
        ensures
            res == *self,
    {
        Comment {
            id: self.id,
            content: self.content.clone(),
            post_id: self.post_id,
            author_id: self.author_id,
            created_at: self.created_at,
            updated_at: self.updated_at,
        }
    }
}

/// The input of comment creation. The author id is already resolved by the
/// caller.
#[derive(Debug)]
pub struct CreateComment {
    pub content: String,
    pub post_id: u128,
    pub author_id: u128,
}

/// The input of a partial comment update: only the content can change, and
/// only when present.
#[derive(Debug)]
pub struct UpdateComment {
    pub content: Option<String>,
}

/// The mathematical value of a partial comment update.
pub ghost struct UpdateCommentView {
    pub content: Option<Seq<char>>,
}

impl View for UpdateComment {
    type V = UpdateCommentView;

    open spec fn view(&self) -> UpdateCommentView {
        UpdateCommentView {
            content: match self.content {
                Some(s) => Some(s@),
                None => None,
            },
        }
    }
}

/// The field-level merge of a partial update into a current comment value.
pub open spec fn merged_comment(cur: CommentView, up: UpdateCommentView, now: int) -> CommentView {
    CommentView {
        id: cur.id,
        content: match up.content {
            Some(content) => content,
            None => cur.content,
        },
        post_id: cur.post_id,
        author_id: cur.author_id,
        created_at: cur.created_at,
        updated_at: now,
    }
}

/// A partial update never touches what it does not name: identity, references
/// and `created_at` are always preserved, absent content keeps its value, and
/// `updated_at` moves to `now`, strictly increasing whenever the clock has
/// advanced past the previous mutation.
pub proof fn partial_comment_update_preserves_rest(
    cur: CommentView,
    up: UpdateCommentView,
    now: int,
)
    requires
        now > cur.updated_at,
    ensures
        merged_comment(cur, up, now).id == cur.id,
        merged_comment(cur, up, now).post_id == cur.post_id,
        merged_comment(cur, up, now).author_id == cur.author_id,
        merged_comment(cur, up, now).created_at == cur.created_at,
        up.content is None ==> merged_comment(cur, up, now).content == cur.content,
        merged_comment(cur, up, now).updated_at == now,
        merged_comment(cur, up, now).updated_at > cur.updated_at,
{
}

} // verus!

//! The post entity: authored content that starts unpublished.

use vstd::prelude::*;

verus! {

/// A persisted post: identity, content fields, author reference, published
/// flag and timestamps.
#[derive(Debug)]
pub struct Post {
    pub id: u128,
    pub title: String,
    pub content: String,
    pub author_id: u128,
    pub published: bool,
    pub created_at: i64,
    pub updated_at: i64,
}

/// The mathematical value of a post.
pub ghost struct PostView {
    pub id: u128,
    pub title: Seq<char>,
    pub content: Seq<char>,
    pub author_id: u128,
    pub published: bool,
    pub created_at: int,
    pub updated_at: int,
}

impl View for Post {
    type V = PostView;

    open spec fn view(&self) -> PostView {
        PostView {
            id: self.id,
            title: self.title@,
            content: self.content@,
            author_id: self.author_id,
            published: self.published,
            created_at: self.created_at as int,
            updated_at: self.updated_at as int,
        }
    }
}

impl Clone for Post {
    fn clone(&self) -> (res: Self)
        ensures
            res == *self,
    {
        Post {
            id: self.id,
            title: self.title.clone(),
            content: self.content.clone(),
            author_id: self.author_id,
            published: self.published,
            created_at: self.created_at,
            updated_at: self.updated_at,
        }
    }
}

/// The input of post creation. The author id is already resolved by the
/// caller; the published flag is not an input — every post starts
/// unpublished.
#[derive(Debug)]
pub struct CreatePost {
    pub title: String,
    pub content: String,
    pub author_id: u128,
}

/// The input of a partial post update: absent fields are left untouched.
#[derive(Debug)]
pub struct UpdatePost {
    pub title: Option<String>,
    pub content: Option<String>,
    pub published: Option<bool>,
}

/// The mathematical value of a partial post update.
pub ghost struct UpdatePostView {
    pub title: Option<Seq<char>>,
    pub content: Option<Seq<char>>,
    pub published: Option<bool>,
}

impl View for UpdatePost {
    type V = UpdatePostView;

    open spec fn view(&self) -> UpdatePostView {
        UpdatePostView {
            title: match self.title {
                Some(s) => Some(s@),
                None => None,
            },
            content: match self.content {
                Some(s) => Some(s@),
                None => None,
            },
            published: self.published,
        }
    }
}

/// The field-level merge of a partial update into a current post value:
/// present fields overwrite, absent fields are preserved, and `updated_at`
/// is refreshed to `now`. Identity, author and `created_at` are immutable.
pub open spec fn merged_post(cur: PostView, up: UpdatePostView, now: int) -> PostView {
    PostView {
        id: cur.id,
        title: match up.title {
            Some(title) => title,
            None => cur.title,
        },
        content: match up.content {
            Some(content) => content,
            None => cur.content,
        },
        author_id: cur.author_id,
        published: match up.published {
            Some(published) => published,
            None => cur.published,
        },
        created_at: cur.created_at,
        updated_at: now,
    }
}

/// A partial update never touches what it does not name: identity, author and
/// `created_at` are always preserved, each absent field keeps its value, and
/// `updated_at` moves to `now`, strictly increasing whenever the clock has
/// advanced past the previous mutation.
pub proof fn partial_post_update_preserves_rest(cur: PostView, up: UpdatePostView, now: int)
    requires
        now > cur.updated_at,
    ensures
        merged_post(cur, up, now).id == cur.id,
        merged_post(cur, up, now).author_id == cur.author_id,
        merged_post(cur, up, now).created_at == cur.created_at,
        up.title is None ==> merged_post(cur, up, now).title == cur.title,
        up.content is None ==> merged_post(cur, up, now).content == cur.content,
        up.published is None ==> merged_post(cur, up, now).published == cur.published,
        merged_post(cur, up, now).updated_at == now,
        merged_post(cur, up, now).updated_at > cur.updated_at,
{
}

} // verus!

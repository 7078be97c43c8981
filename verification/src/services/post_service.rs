//! The post domain service: business rules over a post repository.
//!
//! Creation assigns identity and timestamps and defaults the published flag
//! to false; update merges field by field and refreshes `updated_at`; every
//! lookup and the delete delegate to the repository and propagate `NotFound`
//! untouched.

use vstd::prelude::*;

use crate::clock::current_timestamp;
use crate::error::ApiError;
use crate::identity::fresh_id;
use crate::models::post::{merged_post, CreatePost, Post, PostView, UpdatePost};
use crate::repository::{entry_for, has_key, key_index, PostRepository};

verus! {

/// The post service over any storage engine meeting the repository contract.
pub struct PostServiceImpl<R: PostRepository> {
    pub repository: R,
}

impl<R: PostRepository> PostServiceImpl<R> {
    /// The stored posts, as the repository holds them.
    pub open spec fn entities(&self) -> Seq<PostView> {
        self.repository.entities()
    }

    /// The service is as well-formed as its repository.
    pub open spec fn inv(&self) -> bool {
        self.repository.inv()
    }

    pub fn new(repository: R) -> (r: PostServiceImpl<R>)
        ensures
            r.repository == repository,
    {
        PostServiceImpl { repository }
    }

    /// Pure delegation: the stored post, or `NotFound` exactly when the id is
    /// absent.
    pub fn get_post(&self, id: u128) -> (r: Result<Post, ApiError>)
        requires
            self.inv(),
        ensures
            r is Ok <==> has_key(self.entities(), id),
            (r matches Ok(p) ==> p@ == entry_for(self.entities(), id)),
            (r matches Err(e) ==> e is NotFound),
    {
        self.repository.find(id)
    }

    /// Pure delegation: every stored post, in insertion order.
    pub fn get_posts(&self) -> (r: Result<Vec<Post>, ApiError>)
        requires
            self.inv(),
        ensures
            r is Ok,
            (r matches Ok(v) ==> v@.map_values(|p: Post| p@) == self.entities()),
    {
        self.repository.find_all()
    }

    /// Creation with the identity and clock reading supplied by the caller:
    /// the post is persisted exactly as stamped — unpublished, created and
    /// updated at `now` — and succeeds exactly when the id is fresh.
    pub fn create_post_with(&mut self, id: u128, now: i64, post: CreatePost) -> (r: Result<
        Post,
        ApiError,
    >)
        requires
            old(self).inv(),
        ensures
            final(self).inv(),
            r is Ok <==> !has_key(old(self).entities(), id),
            (r matches Ok(p) ==> {
                &&& p@ == (PostView {
                    id: id,
                    title: post.title@,
                    content: post.content@,
                    author_id: post.author_id,
                    published: false,
                    created_at: now as int,
                    updated_at: now as int,
                })
                &&& final(self).entities() == old(self).entities().push(p@)
            }),
            (r matches Err(e) ==> e is DatabaseError && final(self).entities() == old(
                self,
            ).entities()),
    {
        let new_post = Post {
            id,
            title: post.title,
            content: post.content,
            author_id: post.author_id,
            published: false,
            created_at: now,
            updated_at: now,
        };
        self.repository.create(new_post)
    }

    /// Creation as the transport sees it: a freshly drawn identity and the
    /// current clock reading. The persisted post echoes the input, starts
    /// unpublished, and carries equal creation and update timestamps; its id
    /// was issued to no stored post before.
    pub fn create_post(&mut self, post: CreatePost) -> (r: Result<Post, ApiError>)
        requires
            old(self).inv(),
        ensures
            final(self).inv(),
            (r matches Ok(p) ==> {
                &&& p@.title == post.title@
                &&& p@.content == post.content@
                &&& p@.author_id == post.author_id
                &&& p@.published == false
                &&& p@.created_at == p@.updated_at
                &&& !has_key(old(self).entities(), p@.id)
                &&& final(self).entities() == old(self).entities().push(p@)
            }),
            (r matches Err(e) ==> e is DatabaseError && final(self).entities() == old(
                self,
            ).entities()),
    {
        let id = fresh_id();
        let now = current_timestamp();
        self.create_post_with(id, now, post)
    }

    /// Update with the clock reading supplied by the caller: loads the stored
    /// post, merges field by field, stamps `updated_at = now`, persists.
    /// `NotFound` exactly when the id is absent, and then nothing changes.
    pub fn update_post_with(&mut self, id: u128, now: i64, post: UpdatePost) -> (r: Result<
        Post,
        ApiError,
    >)
        requires
            old(self).inv(),
        ensures
            final(self).inv(),
            r is Ok <==> has_key(old(self).entities(), id),
            (r matches Ok(p) ==> {
                &&& p@ == merged_post(entry_for(old(self).entities(), id), post@, now as int)
                &&& final(self).entities() == old(self).entities().update(
                    key_index(old(self).entities(), id),
                    p@,
                )
            }),
            (r matches Err(e) ==> e is NotFound && final(self).entities() == old(
                self,
            ).entities()),
    {
        let mut existing = match self.repository.find(id) {
            Ok(p) => p,
            Err(e) => {
                return Err(e);
            },
        };
        if let Some(title) = post.title {
            existing.title = title;
        }
        if let Some(content) = post.content {
            existing.content = content;
        }
        if let Some(published) = post.published {
            existing.published = published;
        }
        existing.updated_at = now;
        proof {
            assert(existing@ == merged_post(entry_for(old(self).entities(), id), post@, now as int));
        }
        self.repository.update(id, existing)
    }

    /// Update as the transport sees it, stamped with the current clock
    /// reading: the result is exactly the field-level merge, `updated_at`
    /// being whatever the clock gave.
    pub fn update_post(&mut self, id: u128, post: UpdatePost) -> (r: Result<Post, ApiError>)
        requires
            old(self).inv(),
        ensures
            final(self).inv(),
            r is Ok <==> has_key(old(self).entities(), id),
            (r matches Ok(p) ==> {
                &&& p@ == merged_post(entry_for(old(self).entities(), id), post@, p@.updated_at)
                &&& final(self).entities() == old(self).entities().update(
                    key_index(old(self).entities(), id),
                    p@,
                )
            }),
            (r matches Err(e) ==> e is NotFound && final(self).entities() == old(
                self,
            ).entities()),
    {
        let now = current_timestamp();
        self.update_post_with(id, now, post)
    }

    /// Pure delegation: removes the post, or `NotFound` exactly when the id
    /// is absent — so a second delete of the same id is an error, not a
    /// silent success.
    pub fn delete_post(&mut self, id: u128) -> (r: Result<(), ApiError>)
        requires
            old(self).inv(),
        ensures
            final(self).inv(),
            r is Ok <==> has_key(old(self).entities(), id),
            (r is Ok ==> final(self).entities() == old(self).entities().remove(
                key_index(old(self).entities(), id),
            )),
            (r matches Err(e) ==> e is NotFound && final(self).entities() == old(
                self,
            ).entities()),
    {
        self.repository.delete(id)
    }
}

} // verus!

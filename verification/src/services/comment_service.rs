//! The comment domain service: business rules over a comment repository.

use vstd::prelude::*;

use crate::clock::current_timestamp;
use crate::error::ApiError;
use crate::identity::fresh_id;
use crate::models::comment::{merged_comment, Comment, CommentView, CreateComment, UpdateComment};
use crate::repository::{comments_for, entry_for, has_key, key_index, CommentRepository};

verus! {

/// The comment service over any storage engine meeting the repository
/// contract.
pub struct CommentServiceImpl<R: CommentRepository> {
    pub repository: R,
}

impl<R: CommentRepository> CommentServiceImpl<R> {
    /// The stored comments, as the repository holds them.
    pub open spec fn entities(&self) -> Seq<CommentView> {
        self.repository.entities()
    }

    /// The service is as well-formed as its repository.
    pub open spec fn inv(&self) -> bool {
        self.repository.inv()
    }

    pub fn new(repository: R) -> (r: CommentServiceImpl<R>)
        ensures
            r.repository == repository,
    {
        CommentServiceImpl { repository }
    }

    /// Pure delegation: the stored comment, or `NotFound` exactly when the id
    /// is absent.
    pub fn find(&self, id: u128) -> (r: Result<Comment, ApiError>)
        requires
            self.inv(),
        ensures
            r is Ok <==> has_key(self.entities(), id),
            (r matches Ok(c) ==> c@ == entry_for(self.entities(), id)),
            (r matches Err(e) ==> e is NotFound),
    {
        self.repository.find(id)
    }

    /// Pure delegation: the comments attached to `post_id`, in insertion
    /// order. An unknown post id has an empty comment set, not an error.
    pub fn find_by_post(&self, post_id: u128) -> (r: Result<Vec<Comment>, ApiError>)
        requires
            self.inv(),
        ensures
            r is Ok,
            (r matches Ok(v) ==> v@.map_values(|c: Comment| c@) == comments_for(
                self.entities(),
                post_id,
            )),
    {
        self.repository.find_by_post(post_id)
    }

    /// Creation with the identity and clock reading supplied by the caller:
    /// the comment is persisted exactly as stamped and succeeds exactly when
    /// the id is fresh.
    pub fn create_with(&mut self, id: u128, now: i64, comment: CreateComment) -> (r: Result<
        Comment,
        ApiError,
    >)
        requires
            old(self).inv(),
        ensures
            final(self).inv(),
            r is Ok <==> !has_key(old(self).entities(), id),
            (r matches Ok(c) ==> {
                &&& c@ == (CommentView {
                    id: id,
                    content: comment.content@,
                    post_id: comment.post_id,
                    author_id: comment.author_id,
                    created_at: now as int,
                    updated_at: now as int,
                })
                &&& final(self).entities() == old(self).entities().push(c@)
            }),
            (r matches Err(e) ==> e is DatabaseError && final(self).entities() == old(
                self,
            ).entities()),
    {
        let new_comment = Comment {
            id,
            content: comment.content,
            post_id: comment.post_id,
            author_id: comment.author_id,
            created_at: now,
            updated_at: now,
        };
        self.repository.create(new_comment)
    }

    /// Creation as the transport sees it: a freshly drawn identity and the
    /// current clock reading. The persisted comment echoes the input and
    /// carries equal creation and update timestamps; its id was issued to no
    /// stored comment before.
    pub fn create(&mut self, comment: CreateComment) -> (r: Result<Comment, ApiError>)
        requires
            old(self).inv(),
        ensures
            final(self).inv(),
            (r matches Ok(c) ==> {
                &&& c@.content == comment.content@
                &&& c@.post_id == comment.post_id
                &&& c@.author_id == comment.author_id
                &&& c@.created_at == c@.updated_at
                &&& !has_key(old(self).entities(), c@.id)
                &&& final(self).entities() == old(self).entities().push(c@)
            }),
            (r matches Err(e) ==> e is DatabaseError && final(self).entities() == old(
                self,
            ).entities()),
    {
        let id = fresh_id();
        let now = current_timestamp();
        self.create_with(id, now, comment)
    }

    /// Update with the clock reading supplied by the caller: loads the stored
    /// comment, merges the content when present, stamps `updated_at = now`,
    /// persists. `NotFound` exactly when the id is absent, and then nothing
    /// changes.
    pub fn update_with(&mut self, id: u128, now: i64, comment: UpdateComment) -> (r: Result<
        Comment,
        ApiError,
    >)
        requires
            old(self).inv(),
        ensures
            final(self).inv(),
            r is Ok <==> has_key(old(self).entities(), id),
            (r matches Ok(c) ==> {
                &&& c@ == merged_comment(entry_for(old(self).entities(), id), comment@, now as int)
                &&& final(self).entities() == old(self).entities().update(
                    key_index(old(self).entities(), id),
                    c@,
                )
            }),
            (r matches Err(e) ==> e is NotFound && final(self).entities() == old(
                self,
            ).entities()),
    {
        let mut existing = match self.repository.find(id) {
            Ok(c) => c,
            Err(e) => {
                return Err(e);
            },
        };
        if let Some(content) = comment.content {
            existing.content = content;
        }
        existing.updated_at = now;
        proof {
            assert(existing@ == merged_comment(
                entry_for(old(self).entities(), id),
                comment@,
                now as int,
            ));
        }
        self.repository.update(id, existing)
    }

    /// Update as the transport sees it, stamped with the current clock
    /// reading: the result is exactly the field-level merge, `updated_at`
    /// being whatever the clock gave.
    pub fn update(&mut self, id: u128, comment: UpdateComment) -> (r: Result<Comment, ApiError>)
        requires
            old(self).inv(),
        ensures
            final(self).inv(),
            r is Ok <==> has_key(old(self).entities(), id),
            (r matches Ok(c) ==> {
                &&& c@ == merged_comment(
                    entry_for(old(self).entities(), id),
                    comment@,
                    c@.updated_at,
                )
                &&& final(self).entities() == old(self).entities().update(
                    key_index(old(self).entities(), id),
                    c@,
                )
            }),
            (r matches Err(e) ==> e is NotFound && final(self).entities() == old(
                self,
            ).entities()),
    {
        let now = current_timestamp();
        self.update_with(id, now, comment)
    }

    /// Pure delegation: removes the comment, or `NotFound` exactly when the
    /// id is absent — so a second delete of the same id is an error, not a
    /// silent success.
    pub fn delete(&mut self, id: u128) -> (r: Result<(), ApiError>)
        requires
            old(self).inv(),
        ensures
            final(self).inv(),
            r is Ok <==> has_key(old(self).entities(), id),
            (r is Ok ==> final(self).entities() == old(self).entities().remove(
                key_index(old(self).entities(), id),
            )),
            (r matches Err(e) ==> e is NotFound && final(self).entities() == old(
                self,
            ).entities()),
    {
        self.repository.delete(id)
    }
}

} // verus!

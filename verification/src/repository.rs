//! Repository contracts, one per entity kind.
//!
//! A repository is rule-free storage access: it performs no validation, no
//! timestamping and no id generation. Its abstract state is the sequence of
//! stored entity values in insertion order, with ids pairwise distinct (and,
//! for users, emails pairwise distinct). Every operation that references an
//! id answers `NotFound` exactly when no stored entity carries it.

use vstd::prelude::*;

use crate::error::ApiError;
use crate::models::comment::{Comment, CommentView};
use crate::models::post::{Post, PostView};
use crate::models::user::{User, UserView};

verus! {

/// Everything a store holds is addressed by a 128-bit key.
pub trait Identified {
    spec fn key(self) -> u128;
}

impl Identified for UserView {
    open spec fn key(self) -> u128 {
        self.id
    }
}

impl Identified for PostView {
    open spec fn key(self) -> u128 {
        self.id
    }
}

impl Identified for CommentView {
    open spec fn key(self) -> u128 {
        self.id
    }
}

/// Some stored entity carries the key `id`.
pub open spec fn has_key<T: Identified>(s: Seq<T>, id: u128) -> bool {
    exists|i: int| 0 <= i < s.len() && (#[trigger] s[i].key()) == id
}

/// The position of the entity carrying `id`; meaningful only under
/// `has_key` and `distinct_keys`.
pub open spec fn key_index<T: Identified>(s: Seq<T>, id: u128) -> int {
    choose|i: int| 0 <= i < s.len() && (#[trigger] s[i].key()) == id
}

/// The stored entity carrying `id`.
pub open spec fn entry_for<T: Identified>(s: Seq<T>, id: u128) -> T {
    s[key_index(s, id)]
}

/// No two stored entities share a key.
pub open spec fn distinct_keys<T: Identified>(s: Seq<T>) -> bool {
    forall|i: int, j: int| 0 <= i < j < s.len() ==> s[i].key() != s[j].key()
}

/// Under distinct keys, any position holding `id` is the position `key_index`
/// names, so `entry_for` is the entity found there.
pub proof fn lemma_key_index_of<T: Identified>(s: Seq<T>, id: u128, j: int)
    requires
        distinct_keys(s),
        0 <= j < s.len(),
        s[j].key() == id,
    ensures
        has_key(s, id),
        key_index(s, id) == j,
        entry_for(s, id) == s[j],
{
    assert(has_key(s, id));
    let i = key_index(s, id);
    if i != j {
        if i < j {
            assert(s[i].key() != s[j].key());
        } else {
            assert(s[j].key() != s[i].key());
        }
    }
}

/// Appending an entity whose key is fresh keeps keys distinct, and changes
/// exactly which keys are present.
pub proof fn lemma_push_keys<T: Identified>(s: Seq<T>, v: T)
    requires
        distinct_keys(s),
        !has_key(s, v.key()),
    ensures
        distinct_keys(s.push(v)),
        forall|id: u128| #[trigger] has_key(s.push(v), id) <==> has_key(s, id) || id == v.key(),
{
    let t = s.push(v);
    assert forall|i: int, j: int| 0 <= i < j < t.len() implies t[i].key() != t[j].key() by {
        if j == s.len() {
            assert(t[i] == s[i]);
            assert(!has_key(s, v.key()));
            assert(0 <= i < s.len() && s[i].key() == s[i].key());
        }
    }
    assert forall|id: u128| #[trigger] has_key(t, id) <==> has_key(s, id) || id == v.key() by {
        if has_key(t, id) {
            let i = choose|i: int| 0 <= i < t.len() && (#[trigger] t[i].key()) == id;
            if i < s.len() {
                assert(s[i].key() == id);
            }
        }
        if has_key(s, id) {
            let i = choose|i: int| 0 <= i < s.len() && (#[trigger] s[i].key()) == id;
            assert(t[i].key() == id);
        }
        if id == v.key() {
            assert(t[s.len() as int].key() == id);
        }
    }
}

/// Replacing an entity by one with the same key keeps keys distinct and
/// leaves every position's key as it was.
pub proof fn lemma_update_keys<T: Identified>(s: Seq<T>, i: int, v: T)
    requires
        distinct_keys(s),
        0 <= i < s.len(),
        v.key() == s[i].key(),
    ensures
        distinct_keys(s.update(i, v)),
        forall|id: u128| #[trigger] has_key(s.update(i, v), id) <==> has_key(s, id),
{
    let t = s.update(i, v);
    assert forall|a: int, b: int| 0 <= a < b < t.len() implies t[a].key() != t[b].key() by {
        assert(t[a].key() == s[a].key());
        assert(t[b].key() == s[b].key());
    }
    assert forall|id: u128| #[trigger] has_key(t, id) <==> has_key(s, id) by {
        if has_key(t, id) {
            let a = choose|a: int| 0 <= a < t.len() && (#[trigger] t[a].key()) == id;
            assert(s[a].key() == t[a].key() == id);
        }
        if has_key(s, id) {
            let a = choose|a: int| 0 <= a < s.len() && (#[trigger] s[a].key()) == id;
            assert(t[a].key() == id);
        }
    }
}

/// Removing a position keeps keys distinct, takes that key out, and keeps
/// every other key present.
pub proof fn lemma_remove_keys<T: Identified>(s: Seq<T>, i: int)
    requires
        distinct_keys(s),
        0 <= i < s.len(),
    ensures
        distinct_keys(s.remove(i)),
        !has_key(s.remove(i), s[i].key()),
        forall|id: u128| id != s[i].key() ==>
            (#[trigger] has_key(s.remove(i), id) <==> has_key(s, id)),
{
    let t = s.remove(i);
    assert forall|a: int, b: int| 0 <= a < b < t.len() implies t[a].key() != t[b].key() by {
        let a0: int = if a < i { a } else { a + 1 };
        let b0: int = if b < i { b } else { b + 1 };
        assert(t[a] == s[a0]);
        assert(t[b] == s[b0]);
    }
    assert forall|id: u128| #[trigger] has_key(t, id) implies
        (id != s[i].key() && has_key(s, id)) by {
        let a = choose|a: int| 0 <= a < t.len() && (#[trigger] t[a].key()) == id;
        let a0: int = if a < i { a } else { a + 1 };
        assert(t[a] == s[a0]);
        assert(s[a0].key() == id);
        if a0 < i {
            assert(s[a0].key() != s[i].key());
        } else {
            assert(s[i].key() != s[a0].key());
        }
    }
    assert forall|id: u128| id != s[i].key() && has_key(s, id) implies
        #[trigger] has_key(t, id) by {
        let a0 = choose|a0: int| 0 <= a0 < s.len() && (#[trigger] s[a0].key()) == id;
        let a: int = if a0 < i { a0 } else { a0 - 1 };
        assert(t[a] == s[a0]);
        assert(t[a].key() == id);
    }
}

/// Delete is not idempotent-success: once the entity carrying `id` has been
/// removed from a store with distinct keys, no lookup of `id` finds anything,
/// so a second delete of the same id answers `NotFound`.
pub proof fn removed_key_not_found<T: Identified>(s: Seq<T>, id: u128)
    requires
        distinct_keys(s),
        has_key(s, id),
    ensures
        !has_key(s.remove(key_index(s, id)), id),
{
    let i = key_index(s, id);
    lemma_remove_keys(s, i);
}

/// Some stored user carries the email `email`.
pub open spec fn has_email(s: Seq<UserView>, email: Seq<char>) -> bool {
    exists|i: int| 0 <= i < s.len() && (#[trigger] s[i].email) == email
}

/// The position of the user carrying `email`; meaningful only under
/// `has_email` and `distinct_emails`.
pub open spec fn email_index(s: Seq<UserView>, email: Seq<char>) -> int {
    choose|i: int| 0 <= i < s.len() && (#[trigger] s[i].email) == email
}

/// The stored user carrying `email`.
pub open spec fn entry_for_email(s: Seq<UserView>, email: Seq<char>) -> UserView {
    s[email_index(s, email)]
}

/// No two stored users share an email.
pub open spec fn distinct_emails(s: Seq<UserView>) -> bool {
    forall|i: int, j: int| 0 <= i < j < s.len() ==> s[i].email != s[j].email
}

/// Some user other than the one keyed `id` carries the email `email`.
pub open spec fn email_taken_by_other(s: Seq<UserView>, id: u128, email: Seq<char>) -> bool {
    exists|i: int| #![auto] 0 <= i < s.len() && s[i].key() != id && s[i].email == email
}

/// Appending a user whose email is fresh keeps emails distinct.
pub proof fn lemma_push_emails(s: Seq<UserView>, v: UserView)
    requires
        distinct_emails(s),
        !has_email(s, v.email),
    ensures
        distinct_emails(s.push(v)),
{
    let t = s.push(v);
    assert forall|i: int, j: int| 0 <= i < j < t.len() implies t[i].email != t[j].email by {
        if j == s.len() {
            assert(t[i] == s[i]);
            assert(0 <= i < s.len() && s[i].email == s[i].email);
        }
    }
}

/// Replacing one user by one whose email no other position carries keeps
/// emails distinct.
pub proof fn lemma_update_emails(s: Seq<UserView>, i: int, v: UserView)
    requires
        distinct_emails(s),
        0 <= i < s.len(),
        forall|j: int| 0 <= j < s.len() && j != i ==> (#[trigger] s[j].email) != v.email,
    ensures
        distinct_emails(s.update(i, v)),
{
    let t = s.update(i, v);
    assert forall|a: int, b: int| 0 <= a < b < t.len() implies t[a].email != t[b].email by {
        if a != i {
            assert(t[a] == s[a]);
        }
        if b != i {
            assert(t[b] == s[b]);
        }
    }
}

/// Removing a position keeps emails distinct.
pub proof fn lemma_remove_emails(s: Seq<UserView>, i: int)
    requires
        distinct_emails(s),
        0 <= i < s.len(),
    ensures
        distinct_emails(s.remove(i)),
{
    let t = s.remove(i);
    assert forall|a: int, b: int| 0 <= a < b < t.len() implies t[a].email != t[b].email by {
        let a0: int = if a < i { a } else { a + 1 };
        let b0: int = if b < i { b } else { b + 1 };
        assert(t[a] == s[a0]);
        assert(t[b] == s[b0]);
    }
}

/// Under distinct emails, any position holding `email` is the position
/// `email_index` names.
pub proof fn lemma_email_index_of(s: Seq<UserView>, email: Seq<char>, j: int)
    requires
        distinct_emails(s),
        0 <= j < s.len(),
        s[j].email == email,
    ensures
        has_email(s, email),
        email_index(s, email) == j,
        entry_for_email(s, email) == s[j],
{
    assert(has_email(s, email));
    let i = email_index(s, email);
    if i != j {
        if i < j {
            assert(s[i].email != s[j].email);
        } else {
            assert(s[j].email != s[i].email);
        }
    }
}

/// Storage access for users. `entities` is the stored sequence in insertion
/// order; the invariant keeps ids and emails unique, as the storage schema
/// does.
pub trait UserRepository: Sized {
    spec fn entities(&self) -> Seq<UserView>;

    spec fn inv(&self) -> bool;

    proof fn inv_distinct(&self)
        requires
            self.inv(),
        ensures
            distinct_keys(self.entities()),
            distinct_emails(self.entities()),
    ;

    /// Point lookup by id: the stored user, or `NotFound` exactly when the id
    /// is absent.
    fn find(&self, id: u128) -> (r: Result<User, ApiError>)
        requires
            self.inv(),
        ensures
            r is Ok <==> has_key(self.entities(), id),
            (r matches Ok(u) ==> u@ == entry_for(self.entities(), id)),
            (r matches Err(e) ==> e is NotFound),
    ;

    /// Every stored user, in insertion order.
    fn find_all(&self) -> (r: Result<Vec<User>, ApiError>)
        requires
            self.inv(),
        ensures
            r is Ok,
            (r matches Ok(v) ==> v@.map_values(|u: User| u@) == self.entities()),
    ;

    /// Point lookup by email: the stored user, or `NotFound` exactly when no
    /// stored user carries the email.
    fn find_by_email(&self, email: &str) -> (r: Result<User, ApiError>)
        requires
            self.inv(),
        ensures
            r is Ok <==> has_email(self.entities(), email@),
            (r matches Ok(u) ==> u@ == entry_for_email(self.entities(), email@)),
            (r matches Err(e) ==> e is NotFound),
    ;

    /// Persists a fully-formed user. Succeeds exactly when its id and email
    /// are both fresh; a uniqueness violation is a storage fault.
    fn create(&mut self, user: User) -> (r: Result<User, ApiError>)
        requires
            old(self).inv(),
        ensures
            final(self).inv(),
            r is Ok <==> !has_key(old(self).entities(), user@.id) && !has_email(
                old(self).entities(),
                user@.email,
            ),
            (r matches Ok(u) ==> u == user && final(self).entities() == old(
                self,
            ).entities().push(user@)),
            (r matches Err(e) ==> e is DatabaseError && final(self).entities() == old(
                self,
            ).entities()),
    ;

    /// Replaces the user keyed `id` by `user`. `NotFound` exactly when the id
    /// is absent; moving to an email another user holds is a storage fault.
    fn update(&mut self, id: u128, user: User) -> (r: Result<User, ApiError>)
        requires
            old(self).inv(),
            user@.id == id,
        ensures
            final(self).inv(),
            r is Ok <==> has_key(old(self).entities(), id) && !email_taken_by_other(
                old(self).entities(),
                id,
                user@.email,
            ),
            (r matches Ok(u) ==> u == user && final(self).entities() == old(
                self,
            ).entities().update(key_index(old(self).entities(), id), user@)),
            (r matches Err(e) ==> final(self).entities() == old(self).entities() && (
            e is NotFound <==> !has_key(old(self).entities(), id)) && (e is NotFound
                || e is DatabaseError)),
    ;

    /// Removes the user keyed `id` permanently; `NotFound` exactly when the
    /// id is absent.
    fn delete(&mut self, id: u128) -> (r: Result<(), ApiError>)
        requires
            old(self).inv(),
        ensures
            final(self).inv(),
            r is Ok <==> has_key(old(self).entities(), id),
            (r is Ok ==> final(self).entities() == old(self).entities().remove(
                key_index(old(self).entities(), id),
            )),
            (r matches Err(e) ==> e is NotFound && final(self).entities() == old(
                self,
            ).entities()),
    ;
}

/// Storage access for posts.
pub trait PostRepository: Sized {
    spec fn entities(&self) -> Seq<PostView>;

    spec fn inv(&self) -> bool;

    proof fn inv_distinct(&self)
        requires
            self.inv(),
        ensures
            distinct_keys(self.entities()),
    ;

    /// Point lookup by id: the stored post, or `NotFound` exactly when the id
    /// is absent.
    fn find(&self, id: u128) -> (r: Result<Post, ApiError>)
        requires
            self.inv(),
        ensures
            r is Ok <==> has_key(self.entities(), id),
            (r matches Ok(p) ==> p@ == entry_for(self.entities(), id)),
            (r matches Err(e) ==> e is NotFound),
    ;

    /// Every stored post, in insertion order.
    fn find_all(&self) -> (r: Result<Vec<Post>, ApiError>)
        requires
            self.inv(),
        ensures
            r is Ok,
            (r matches Ok(v) ==> v@.map_values(|p: Post| p@) == self.entities()),
    ;

    /// Persists a fully-formed post. Succeeds exactly when its id is fresh.
    fn create(&mut self, post: Post) -> (r: Result<Post, ApiError>)
        requires
            old(self).inv(),
        ensures
            final(self).inv(),
            r is Ok <==> !has_key(old(self).entities(), post@.id),
            (r matches Ok(p) ==> p == post && final(self).entities() == old(
                self,
            ).entities().push(post@)),
            (r matches Err(e) ==> e is DatabaseError && final(self).entities() == old(
                self,
            ).entities()),
    ;

    /// Replaces the post keyed `id` by `post`; `NotFound` exactly when the id
    /// is absent.
    fn update(&mut self, id: u128, post: Post) -> (r: Result<Post, ApiError>)
        requires
            old(self).inv(),
            post@.id == id,
        ensures
            final(self).inv(),
            r is Ok <==> has_key(old(self).entities(), id),
            (r matches Ok(p) ==> p == post && final(self).entities() == old(
                self,
            ).entities().update(key_index(old(self).entities(), id), post@)),
            (r matches Err(e) ==> e is NotFound && final(self).entities() == old(
                self,
            ).entities()),
    ;

    /// Removes the post keyed `id` permanently; `NotFound` exactly when the
    /// id is absent. Comments referencing the post are not cascaded.
    fn delete(&mut self, id: u128) -> (r: Result<(), ApiError>)
        requires
            old(self).inv(),
        ensures
            final(self).inv(),
            r is Ok <==> has_key(old(self).entities(), id),
            (r is Ok ==> final(self).entities() == old(self).entities().remove(
                key_index(old(self).entities(), id),
            )),
            (r matches Err(e) ==> e is NotFound && final(self).entities() == old(
                self,
            ).entities()),
    ;
}

/// The stored comments attached to one post, in insertion order.
pub open spec fn comments_for(s: Seq<CommentView>, post_id: u128) -> Seq<CommentView> {
    s.filter(|c: CommentView| c.post_id == post_id)
}

/// Scanning one more stored comment extends the comment set of a post by
/// exactly that comment when it is attached to the post, and by nothing
/// otherwise.
pub proof fn lemma_comments_for_take_step(s: Seq<CommentView>, post_id: u128, i: int)
    requires
        0 <= i < s.len(),
    ensures
        comments_for(s.take(i + 1), post_id) == (if s[i].post_id == post_id {
            comments_for(s.take(i), post_id).push(s[i])
        } else {
            comments_for(s.take(i), post_id)
        }),
{
    reveal_with_fuel(Seq::<_>::filter, 2);
    let t = s.take(i + 1);
    assert(t.len() == i + 1);
    assert(t.drop_last() =~= s.take(i));
    assert(t.last() == s[i]);
}

/// The comment set of the whole store is the comment set of its full prefix.
pub proof fn lemma_comments_for_full(s: Seq<CommentView>, post_id: u128)
    ensures
        comments_for(s.take(s.len() as int), post_id) == comments_for(s, post_id),
{
    assert(s.take(s.len() as int) =~= s);
}

/// Storage access for comments.
pub trait CommentRepository: Sized {
    spec fn entities(&self) -> Seq<CommentView>;

    spec fn inv(&self) -> bool;

    proof fn inv_distinct(&self)
        requires
            self.inv(),
        ensures
            distinct_keys(self.entities()),
    ;

    /// Point lookup by id: the stored comment, or `NotFound` exactly when the
    /// id is absent.
    fn find(&self, id: u128) -> (r: Result<Comment, ApiError>)
        requires
            self.inv(),
        ensures
            r is Ok <==> has_key(self.entities(), id),
            (r matches Ok(c) ==> c@ == entry_for(self.entities(), id)),
            (r matches Err(e) ==> e is NotFound),
    ;

    /// The comments attached to `post_id`, in insertion order. An unknown
    /// post id is not an error: its comment set is empty.
    fn find_by_post(&self, post_id: u128) -> (r: Result<Vec<Comment>, ApiError>)
        requires
            self.inv(),
        ensures
            r is Ok,
            (r matches Ok(v) ==> v@.map_values(|c: Comment| c@) == comments_for(
                self.entities(),
                post_id,
            )),
    ;

    /// Persists a fully-formed comment. Succeeds exactly when its id is
    /// fresh.
    fn create(&mut self, comment: Comment) -> (r: Result<Comment, ApiError>)
        requires
            old(self).inv(),
        ensures
            final(self).inv(),
            r is Ok <==> !has_key(old(self).entities(), comment@.id),
            (r matches Ok(c) ==> c == comment && final(self).entities() == old(
                self,
            ).entities().push(comment@)),
            (r matches Err(e) ==> e is DatabaseError && final(self).entities() == old(
                self,
            ).entities()),
    ;

    /// Replaces the comment keyed `id` by `comment`; `NotFound` exactly when
    /// the id is absent.
    fn update(&mut self, id: u128, comment: Comment) -> (r: Result<Comment, ApiError>)
        requires
            old(self).inv(),
            comment@.id == id,
        ensures
            final(self).inv(),
            r is Ok <==> has_key(old(self).entities(), id),
            (r matches Ok(c) ==> c == comment && final(self).entities() == old(
                self,
            ).entities().update(key_index(old(self).entities(), id), comment@)),
            (r matches Err(e) ==> e is NotFound && final(self).entities() == old(
                self,
            ).entities()),
    ;

    /// Removes the comment keyed `id` permanently; `NotFound` exactly when
    /// the id is absent.
    fn delete(&mut self, id: u128) -> (r: Result<(), ApiError>)
        requires
            old(self).inv(),
        ensures
            final(self).inv(),
            r is Ok <==> has_key(old(self).entities(), id),
            (r is Ok ==> final(self).entities() == old(self).entities().remove(
                key_index(old(self).entities(), id),
            )),
            (r matches Err(e) ==> e is NotFound && final(self).entities() == old(
                self,
            ).entities()),
    ;
}

} // verus!

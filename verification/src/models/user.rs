//! The user entity and its credential lifecycle.
//!
//! A user's password is never held in plain text: the entity carries only a
//! salted one-way hash, produced and checked by the credential hasher.

use vstd::prelude::*;

use crate::clock::current_timestamp;
use crate::credentials::{
    check_password, hash_password, hash_well_formed, hashable_password, verifies_against,
};
use crate::error::ApiError;
use crate::identity::fresh_id;

verus! {

/// A persisted user: identity, profile fields, credential hash, timestamps.
#[derive(Debug)]
pub struct User {
    pub id: u128,
    pub username: String,
    pub email: String,
    pub password_hash: String,
    pub created_at: i64,
    pub updated_at: i64,
}

/// The mathematical value of a user: every field as a plain value.
pub ghost struct UserView {
    pub id: u128,
    pub username: Seq<char>,
    pub email: Seq<char>,
    pub password_hash: Seq<char>,
    pub created_at: int,
    pub updated_at: int,
}

impl UserView {
    /// The credential invariant: the stored hash is a well-formed one-way
    /// hash — never plain text. Constructors establish it and every mutation
    /// that touches the credential preserves it.
    pub open spec fn credential_ok(self) -> bool {
        hash_well_formed(self.password_hash)
    }
}

impl View for User {
    type V = UserView;

    open spec fn view(&self) -> UserView {
        UserView {
            id: self.id,
            username: self.username@,
            email: self.email@,
            password_hash: self.password_hash@,
            created_at: self.created_at as int,
            updated_at: self.updated_at as int,
        }
    }
}

impl Clone for User {
    fn clone(&self) -> (res: Self)
        ensures
            res == *self,
    {
        User {
            id: self.id,
            username: self.username.clone(),
            email: self.email.clone(),
            password_hash: self.password_hash.clone(),
            created_at: self.created_at,
            updated_at: self.updated_at,
        }
    }
}

/// The row shape a storage adapter inserts for a user: the entity without
/// its storage-managed columns.
#[derive(Debug)]
pub struct NewUser {
    pub username: String,
    pub email: String,
    pub password_hash: String,
}

impl From<User> for NewUser {
    fn from(user: User) -> (r: NewUser) {
        NewUser { username: user.username, email: user.email, password_hash: user.password_hash }
    }
}

impl vstd::std_specs::convert::FromSpecImpl<User> for NewUser {
    open spec fn obeys_from_spec() -> bool {
        true
    }

    open spec fn from_spec(user: User) -> NewUser {
        NewUser { username: user.username, email: user.email, password_hash: user.password_hash }
    }
}

/// The input of user creation: profile fields and the plain-text password,
/// which is discarded as soon as it has been hashed.
#[derive(Debug)]
pub struct CreateUser {
    pub username: String,
    pub email: String,
    pub password: String,
}

/// The input of a partial user update: absent fields are left untouched.
#[derive(Debug)]
pub struct UpdateUser {
    pub username: Option<String>,
    pub email: Option<String>,
    pub password: Option<String>,
}

/// The mathematical value of a partial user update.
pub ghost struct UpdateUserView {
    pub username: Option<Seq<char>>,
    pub email: Option<Seq<char>>,
    pub password: Option<Seq<char>>,
}

impl View for UpdateUser {
    type V = UpdateUserView;

    open spec fn view(&self) -> UpdateUserView {
        UpdateUserView {
            username: match self.username {
                Some(s) => Some(s@),
                None => None,
            },
            email: match self.email {
                Some(s) => Some(s@),
                None => None,
            },
            password: match self.password {
                Some(s) => Some(s@),
                None => None,
            },
        }
    }
}

/// The field-level merge of a partial update into a current user value:
/// present fields overwrite, absent fields are preserved, the new credential
/// hash (if the password was replaced) takes the old one's place, and
/// `updated_at` is refreshed to `now`. Identity and `created_at` are
/// immutable.
pub open spec fn merged_user(
    cur: UserView,
    up: UpdateUserView,
    new_hash: Option<Seq<char>>,
    now: int,
) -> UserView {
    UserView {
        id: cur.id,
        username: match up.username {
            Some(name) => name,
            None => cur.username,
        },
        email: match up.email {
            Some(email) => email,
            None => cur.email,
        },
        password_hash: match new_hash {
            Some(hash) => hash,
            None => cur.password_hash,
        },
        created_at: cur.created_at,
        updated_at: now,
    }
}

/// A partial update never touches what it does not name: identity and
/// `created_at` are always preserved, each absent field keeps its value, and
/// `updated_at` moves to `now`, strictly increasing whenever the clock has
/// advanced past the previous mutation.
pub proof fn partial_user_update_preserves_rest(
    cur: UserView,
    up: UpdateUserView,
    new_hash: Option<Seq<char>>,
    now: int,
)
    requires
        now > cur.updated_at,
    ensures
        merged_user(cur, up, new_hash, now).id == cur.id,
        merged_user(cur, up, new_hash, now).created_at == cur.created_at,
        up.username is None ==> merged_user(cur, up, new_hash, now).username == cur.username,
        up.email is None ==> merged_user(cur, up, new_hash, now).email == cur.email,
        new_hash is None ==> merged_user(cur, up, new_hash, now).password_hash
            == cur.password_hash,
        merged_user(cur, up, new_hash, now).updated_at == now,
        merged_user(cur, up, new_hash, now).updated_at > cur.updated_at,
{
}

impl User {
    /// Builds a fully-formed user: a freshly drawn identity, equal creation
    /// and update timestamps, and the password replaced by its salted hash.
    /// Succeeds for every password within the hasher's bound; the one failure
    /// is a password beyond it, an internal error.
    pub fn new(username: String, email: String, password: String) -> (r: Result<User, ApiError>)
        ensures
            hashable_password(password@) ==> r is Ok,
            (r matches Ok(u) ==> {
                &&& u.username == username
                &&& u.email == email
                &&& u@.created_at == u@.updated_at
                &&& u@.credential_ok()
                &&& verifies_against(password@, u@.password_hash)
            }),
            (r matches Err(e) ==> e is InternalServerError),
    {
        let hash = match hash_password(password.as_str()) {
            Ok(hash) => hash,
            Err(_) => {
                return Err(ApiError::InternalServerError);
            },
        };
        let now = current_timestamp();
        Ok(
            User {
                id: fresh_id(),
                username,
                email,
                password_hash: hash,
                created_at: now,
                updated_at: now,
            },
        )
    }

    /// Checks a plain-text password against the stored hash. A malformed
    /// stored hash surfaces as an internal error, never a panic.
    pub fn verify_password(&self, password: &str) -> (r: Result<bool, ApiError>)
        ensures
            r is Ok <==> self@.credential_ok(),
            (r matches Ok(b) ==> b == verifies_against(password@, self@.password_hash)),
            (r matches Err(e) ==> e is InternalServerError),
    {
        match check_password(password, self.password_hash.as_str()) {
            Ok(matches) => Ok(matches),
            Err(_) => Err(ApiError::InternalServerError),
        }
    }

    /// Replaces the credential with a hash of the new password, stamping
    /// `updated_at` with the supplied clock reading; every other field is
    /// left untouched. Succeeds for every password within the hasher's
    /// bound; on failure the user is unchanged.
    pub fn update_password_with(&mut self, new_password: String, now: i64) -> (r: Result<
        (),
        ApiError,
    >)
        ensures
            final(self).id == old(self).id,
            final(self).username == old(self).username,
            final(self).email == old(self).email,
            final(self).created_at == old(self).created_at,
            hashable_password(new_password@) ==> r is Ok,
            (r is Ok ==> {
                &&& final(self)@.credential_ok()
                &&& verifies_against(new_password@, final(self)@.password_hash)
                &&& final(self)@.updated_at == now as int
            }),
            (r matches Err(e) ==> e is InternalServerError && *final(self) == *old(self)),
    {
        let hash = match hash_password(new_password.as_str()) {
            Ok(hash) => hash,
            Err(_) => {
                return Err(ApiError::InternalServerError);
            },
        };
        self.password_hash = hash;
        self.updated_at = now;
        Ok(())
    }

    /// Replaces the credential as `update_password_with` does, with
    /// `updated_at` refreshed to whatever the clock gave.
    pub fn update_password(&mut self, new_password: String) -> (r: Result<(), ApiError>)
        ensures
            final(self).id == old(self).id,
            final(self).username == old(self).username,
            final(self).email == old(self).email,
            final(self).created_at == old(self).created_at,
            hashable_password(new_password@) ==> r is Ok,
            (r is Ok ==> {
                &&& final(self)@.credential_ok()
                &&& verifies_against(new_password@, final(self)@.password_hash)
            }),
            (r matches Err(e) ==> e is InternalServerError && *final(self) == *old(self)),
    {
        let now = current_timestamp();
        self.update_password_with(new_password, now)
    }
}

} // verus!

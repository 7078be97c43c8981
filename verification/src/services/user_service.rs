//! The user domain service: business rules over a user repository, with the
//! credential hasher for everything that touches a password.
//!
//! The plain-text password of a create or update is hashed at once and then
//! discarded; only the hash reaches the repository.

use vstd::prelude::*;

use crate::clock::current_timestamp;
use crate::credentials::{hash_password, hashable_password, verifies_against};
use crate::error::ApiError;
use crate::identity::fresh_id;
use crate::models::user::{merged_user, CreateUser, UpdateUser, User, UserView};
use crate::repository::{
    email_taken_by_other, entry_for, entry_for_email, has_email, has_key,
    key_index, Identified, UserRepository,
};

verus! {

/// The user service over any storage engine meeting the repository contract.
pub struct UserServiceImpl<R: UserRepository> {
    pub repository: R,
}

impl<R: UserRepository> UserServiceImpl<R> {
    /// The stored users, as the repository holds them.
    pub open spec fn entities(&self) -> Seq<UserView> {
        self.repository.entities()
    }

    /// The service is as well-formed as its repository.
    pub open spec fn inv(&self) -> bool {
        self.repository.inv()
    }

    pub fn new(repository: R) -> (r: UserServiceImpl<R>)
        ensures
            r.repository == repository,
    {
        UserServiceImpl { repository }
    }

    /// Pure delegation: the stored user, or `NotFound` exactly when the id is
    /// absent.
    pub fn find(&self, id: u128) -> (r: Result<User, ApiError>)
        requires
            self.inv(),
        ensures
            r is Ok <==> has_key(self.entities(), id),
            (r matches Ok(u) ==> u@ == entry_for(self.entities(), id)),
            (r matches Err(e) ==> e is NotFound),
    {
        self.repository.find(id)
    }

    /// Pure delegation: the stored user carrying `email`, or `NotFound`
    /// exactly when no stored user does.
    pub fn find_by_email(&self, email: &str) -> (r: Result<User, ApiError>)
        requires
            self.inv(),
        ensures
            r is Ok <==> has_email(self.entities(), email@),
            (r matches Ok(u) ==> u@ == entry_for_email(self.entities(), email@)),
            (r matches Err(e) ==> e is NotFound),
    {
        self.repository.find_by_email(email)
    }

    /// Creation with the identity and clock reading supplied by the caller:
    /// the password is hashed and discarded, the user is persisted exactly as
    /// stamped. Succeeds whenever the id and the email are both fresh and the
    /// password is within the hasher's bound; a uniqueness violation is a
    /// storage fault, a password beyond the bound an internal error, and
    /// either way nothing changes.
    pub fn create_with(&mut self, id: u128, now: i64, user: CreateUser) -> (r: Result<
        User,
        ApiError,
    >)
        requires
            old(self).inv(),
        ensures
            final(self).inv(),
            (r matches Ok(u) ==> {
                &&& u@.id == id
                &&& u@.username == user.username@
                &&& u@.email == user.email@
                &&& u@.created_at == now as int
                &&& u@.updated_at == now as int
                &&& u@.credential_ok()
                &&& verifies_against(user.password@, u@.password_hash)
                &&& !has_key(old(self).entities(), id)
                &&& !has_email(old(self).entities(), user.email@)
                &&& final(self).entities() == old(self).entities().push(u@)
            }),
            (r matches Err(e) ==> final(self).entities() == old(self).entities() && (
            e is InternalServerError || e is DatabaseError)),
            (r matches Err(e) && e is DatabaseError ==> has_key(old(self).entities(), id)
                || has_email(old(self).entities(), user.email@)),
            (r matches Err(e) && e is InternalServerError ==> !hashable_password(user.password@)),
            (has_key(old(self).entities(), id) || has_email(old(self).entities(), user.email@)
                ==> r is Err),
            (!has_key(old(self).entities(), id) && !has_email(old(self).entities(), user.email@)
                && hashable_password(user.password@) ==> r is Ok),
    {
        let hash = match hash_password(user.password.as_str()) {
            Ok(hash) => hash,
            Err(_) => {
                return Err(ApiError::InternalServerError);
            },
        };
        let new_user = User {
            id,
            username: user.username,
            email: user.email,
            password_hash: hash,
            created_at: now,
            updated_at: now,
        };
        self.repository.create(new_user)
    }

    /// Creation as the transport sees it: a freshly drawn identity and the
    /// current clock reading. The persisted user echoes username and email,
    /// carries equal creation and update timestamps and a hash the password
    /// verifies against; its id was issued to no stored user before, and its
    /// email was free.
    pub fn create(&mut self, user: CreateUser) -> (r: Result<User, ApiError>)
        requires
            old(self).inv(),
        ensures
            final(self).inv(),
            (r matches Ok(u) ==> {
                &&& u@.username == user.username@
                &&& u@.email == user.email@
                &&& u@.created_at == u@.updated_at
                &&& u@.credential_ok()
                &&& verifies_against(user.password@, u@.password_hash)
                &&& !has_key(old(self).entities(), u@.id)
                &&& !has_email(old(self).entities(), user.email@)
                &&& final(self).entities() == old(self).entities().push(u@)
            }),
            (r matches Err(e) ==> final(self).entities() == old(self).entities() && (
            e is InternalServerError || e is DatabaseError)),
            (r matches Err(e) && e is InternalServerError ==> !hashable_password(user.password@)),
            (has_email(old(self).entities(), user.email@) ==> r is Err),
    {
        let id = fresh_id();
        let now = current_timestamp();
        self.create_with(id, now, user)
    }

    /// Update with the clock reading supplied by the caller: loads the stored
    /// user, merges field by field — re-hashing the password when one is
    /// present — stamps `updated_at = now`, persists. `NotFound` exactly when
    /// the id is absent; moving to an email another user holds is a storage
    /// fault; a password beyond the hasher's bound is an internal error; on
    /// any error nothing changes. When the id exists, any supplied password
    /// is within the hasher's bound, and the email (if supplied) is free,
    /// success is owed.
    pub fn update_with(&mut self, id: u128, now: i64, user: UpdateUser) -> (r: Result<
        User,
        ApiError,
    >)
        requires
            old(self).inv(),
        ensures
            final(self).inv(),
            (r matches Ok(u) ==> {
                &&& has_key(old(self).entities(), id)
                &&& u@.id == id
                &&& u@.created_at == entry_for(old(self).entities(), id).created_at
                &&& u@.username == (match user@.username {
                    Some(name) => name,
                    None => entry_for(old(self).entities(), id).username,
                })
                &&& u@.email == (match user@.email {
                    Some(email) => email,
                    None => entry_for(old(self).entities(), id).email,
                })
                &&& (user@.password matches Some(p) ==> u@.credential_ok()
                    && verifies_against(p, u@.password_hash))
                &&& (user@.password is None ==> u@ == merged_user(
                    entry_for(old(self).entities(), id),
                    user@,
                    None,
                    now as int,
                ))
                &&& u@.updated_at == now as int
                &&& final(self).entities() == old(self).entities().update(
                    key_index(old(self).entities(), id),
                    u@,
                )
            }),
            (r matches Err(e) ==> final(self).entities() == old(self).entities()),
            (r matches Err(e) ==> (e is NotFound <==> !has_key(old(self).entities(), id))),
            (r matches Err(e) && e is DatabaseError ==> (user@.email matches Some(email)
                && email_taken_by_other(old(self).entities(), id, email))),
            (r matches Err(e) && e is InternalServerError ==> (user@.password matches Some(p)
                && !hashable_password(p))),
            (has_key(old(self).entities(), id) && (match user@.password {
                Some(p) => hashable_password(p),
                None => true,
            }) && (match user@.email {
                Some(email) => !email_taken_by_other(old(self).entities(), id, email),
                None => true,
            }) ==> r is Ok),
    {
        let mut merged = match self.repository.find(id) {
            Ok(u) => u,
            Err(e) => {
                return Err(e);
            },
        };
        proof {
            assert(entry_for(old(self).entities(), id).key() == id);
        }
        if let Some(username) = user.username {
            merged.username = username;
        }
        if let Some(email) = user.email {
            merged.email = email;
        }
        if let Some(password) = user.password {
            let hash = match hash_password(password.as_str()) {
                Ok(hash) => hash,
                Err(_) => {
                    return Err(ApiError::InternalServerError);
                },
            };
            merged.password_hash = hash;
        }
        merged.updated_at = now;
        proof {
            self.repository.inv_distinct();
            if user@.email is None && email_taken_by_other(
                old(self).entities(),
                id,
                merged@.email,
            ) {
                let s = old(self).entities();
                let k = choose|k: int| #![auto]
                    0 <= k < s.len() && s[k].key() != id && s[k].email == merged@.email;
                let j = key_index(s, id);
                assert(s[j].key() == id);
                assert(s[j].email == merged@.email);
                if k < j {
                    assert(s[k].email != s[j].email);
                } else {
                    assert(s[j].email != s[k].email);
                }
                assert(false);
            }
        }
        self.repository.update(id, merged)
    }

    /// Update as the transport sees it, stamped with the current clock
    /// reading: the result is exactly the field-level merge, `updated_at`
    /// being whatever the clock gave.
    pub fn update(&mut self, id: u128, user: UpdateUser) -> (r: Result<User, ApiError>)
        requires
            old(self).inv(),
        ensures
            final(self).inv(),
            (r matches Ok(u) ==> {
                &&& has_key(old(self).entities(), id)
                &&& u@.id == id
                &&& u@.created_at == entry_for(old(self).entities(), id).created_at
                &&& u@.username == (match user@.username {
                    Some(name) => name,
                    None => entry_for(old(self).entities(), id).username,
                })
                &&& u@.email == (match user@.email {
                    Some(email) => email,
                    None => entry_for(old(self).entities(), id).email,
                })
                &&& (user@.password matches Some(p) ==> u@.credential_ok()
                    && verifies_against(p, u@.password_hash))
                &&& (user@.password is None ==> u@ == merged_user(
                    entry_for(old(self).entities(), id),
                    user@,
                    None,
                    u@.updated_at,
                ))
                &&& final(self).entities() == old(self).entities().update(
                    key_index(old(self).entities(), id),
                    u@,
                )
            }),
            (r matches Err(e) ==> final(self).entities() == old(self).entities()),
            (r matches Err(e) ==> (e is NotFound <==> !has_key(old(self).entities(), id))),
            (r matches Err(e) && e is DatabaseError ==> (user@.email matches Some(email)
                && email_taken_by_other(old(self).entities(), id, email))),
            (r matches Err(e) && e is InternalServerError ==> (user@.password matches Some(p)
                && !hashable_password(p))),
    {
        let now = current_timestamp();
        self.update_with(id, now, user)
    }

    /// Pure delegation: removes the user, or `NotFound` exactly when the id
    /// is absent — so a second delete of the same id is an error, not a
    /// silent success.
    pub fn delete(&mut self, id: u128) -> (r: Result<(), ApiError>)
        requires
            old(self).inv(),
        ensures
            final(self).inv(),
            r is Ok <==> has_key(old(self).entities(), id),
            (r is Ok ==> final(self).entities() == old(self).entities().remove(
                key_index(old(self).entities(), id),
            )),
            (r matches Err(e) ==> e is NotFound && final(self).entities() == old(
                self,
            ).entities()),
    {
        self.repository.delete(id)
    }
}

} // verus!

//! An in-memory user repository: the stored users in insertion order, with
//! unique ids and unique emails, as the storage schema enforces.

use vstd::prelude::*;
use vstd::pervasive::VecAdditionalExecFns;
use vstd::string::StringExecFns;

use crate::error::ApiError;
use crate::models::user::{User, UserView};
use crate::repository::{
    distinct_emails, distinct_keys, email_taken_by_other, has_email, has_key,
    lemma_email_index_of, lemma_key_index_of, lemma_push_emails, lemma_push_keys,
    lemma_remove_emails, lemma_remove_keys, lemma_update_emails, lemma_update_keys, Identified,
    UserRepository,
};

verus! {

/// A user store backed by a vector, suitable as the storage engine behind
/// the user service wherever a database is not.
pub struct InMemoryUserRepository {
    users: Vec<User>,
}

impl InMemoryUserRepository {
    /// An empty store.
    pub fn new() -> (r: InMemoryUserRepository)
        ensures
            r.inv(),
            r.entities() == Seq::<UserView>::empty(),
    {
        let r = InMemoryUserRepository { users: Vec::new() };
        proof {
            assert(r.entities() =~= Seq::<UserView>::empty());
        }
        r
    }

    /// The position of the user carrying `id`, if any.
    fn index_of(&self, id: u128) -> (r: Option<usize>)
        ensures
            (r matches Some(i) ==> 0 <= i < self.entities().len() && self.entities()[i as int].key()
                == id),
            r is Some <==> has_key(self.entities(), id),
    {
        let n = self.users.len();
        let mut i: usize = 0;
        while i < n
            invariant
                n == self.users.len(),
                i <= n,
                forall|k: int| 0 <= k < i ==> (#[trigger] self.entities()[k].key()) != id,
            decreases n - i,
        {
            if self.users[i].id == id {
                assert(self.entities()[i as int].key() == id);
                return Some(i);
            }
            i += 1;
        }
        proof {
            if has_key(self.entities(), id) {
                let k = choose|k: int|
                    0 <= k < self.entities().len() && (#[trigger] self.entities()[k].key()) == id;
                assert(false);
            }
        }
        None
    }
}

impl UserRepository for InMemoryUserRepository {
    closed spec fn entities(&self) -> Seq<UserView> {
        self.users@.map_values(|u: User| u@)
    }

    open spec fn inv(&self) -> bool {
        distinct_keys(self.entities()) && distinct_emails(self.entities())
    }

    proof fn inv_distinct(&self) {
    }

    fn find(&self, id: u128) -> (r: Result<User, ApiError>) {
        match self.index_of(id) {
            Some(i) => {
                proof {
                    lemma_key_index_of(self.entities(), id, i as int);
                }
                Ok(self.users[i].clone())
            },
            None => Err(ApiError::NotFound),
        }
    }

    fn find_all(&self) -> (r: Result<Vec<User>, ApiError>) {
        let mut out: Vec<User> = Vec::new();
        let n = self.users.len();
        let mut i: usize = 0;
        while i < n
            invariant
                n == self.users.len(),
                i <= n,
                out@.len() == i,
                forall|k: int| 0 <= k < i ==> (#[trigger] out@[k])@ == self.entities()[k],
            decreases n - i,
        {
            out.push(self.users[i].clone());
            i += 1;
        }
        proof {
            assert(out@.map_values(|u: User| u@) =~= self.entities());
        }
        Ok(out)
    }

    fn find_by_email(&self, email: &str) -> (r: Result<User, ApiError>) {
        proof {
            self.inv_distinct();
        }
        let needle = String::from_str(email);
        let n = self.users.len();
        let mut i: usize = 0;
        while i < n
            invariant
                n == self.users.len(),
                i <= n,
                self.inv(),
                needle@ == email@,
                forall|k: int| 0 <= k < i ==> (#[trigger] self.entities()[k].email) != email@,
            decreases n - i,
        {
            if self.users[i].email == needle {
                proof {
                    assert(self.entities()[i as int].email == email@);
                    lemma_email_index_of(self.entities(), email@, i as int);
                }
                return Ok(self.users[i].clone());
            }
            i += 1;
        }
        proof {
            if has_email(self.entities(), email@) {
                let k = choose|k: int|
                    0 <= k < self.entities().len() && (#[trigger] self.entities()[k].email)
                        == email@;
                assert(false);
            }
        }
        Err(ApiError::NotFound)
    }

    fn create(&mut self, user: User) -> (r: Result<User, ApiError>) {
        let n = self.users.len();
        let mut i: usize = 0;
        while i < n
            invariant
                *self == *old(self),
                old(self).inv(),
                n == self.users.len(),
                i <= n,
                forall|k: int| 0 <= k < i ==> (#[trigger] self.entities()[k].key()) != user@.id,
                forall|k: int| 0 <= k < i ==> (#[trigger] self.entities()[k].email) != user@.email,
            decreases n - i,
        {
            if self.users[i].id == user.id {
                assert(self.entities()[i as int].key() == user@.id);
                assert(has_key(self.entities(), user@.id));
                return Err(ApiError::DatabaseError(String::from_str("duplicate user id")));
            }
            if self.users[i].email == user.email {
                assert(self.entities()[i as int].email == user@.email);
                assert(has_email(self.entities(), user@.email));
                return Err(ApiError::DatabaseError(String::from_str("duplicate user email")));
            }
            i += 1;
        }
        proof {
            if has_key(self.entities(), user@.id) {
                let k = choose|k: int|
                    0 <= k < self.entities().len() && (#[trigger] self.entities()[k].key())
                        == user@.id;
                assert(false);
            }
            if has_email(self.entities(), user@.email) {
                let k = choose|k: int|
                    0 <= k < self.entities().len() && (#[trigger] self.entities()[k].email)
                        == user@.email;
                assert(false);
            }
            lemma_push_keys(self.entities(), user@);
            lemma_push_emails(self.entities(), user@);
        }
        let result = user.clone();
        let ghost prev = self.entities();
        self.users.push(user);
        proof {
            assert(self.entities() =~= prev.push(result@));
        }
        Ok(result)
    }

    fn update(&mut self, id: u128, user: User) -> (r: Result<User, ApiError>) {
        proof {
            self.inv_distinct();
        }
        let idx = match self.index_of(id) {
            Some(i) => i,
            None => {
                return Err(ApiError::NotFound);
            },
        };
        let n = self.users.len();
        let mut j: usize = 0;
        while j < n
            invariant
                *self == *old(self),
                old(self).inv(),
                self.inv(),
                n == self.users.len(),
                j <= n,
                idx < n,
                self.entities()[idx as int].key() == id,
                user@.id == id,
                distinct_keys(self.entities()),
                forall|k: int|
                    0 <= k < j && k != idx ==> (#[trigger] self.entities()[k].email)
                        != user@.email,
            decreases n - j,
        {
            if j != idx && self.users[j].email == user.email {
                proof {
                    assert(self.entities()[j as int].email == user@.email);
                    if idx < j {
                        assert(self.entities()[idx as int].key()
                            != self.entities()[j as int].key());
                    } else {
                        assert(self.entities()[j as int].key()
                            != self.entities()[idx as int].key());
                    }
                    assert(email_taken_by_other(self.entities(), id, user@.email));
                }
                return Err(ApiError::DatabaseError(String::from_str("duplicate user email")));
            }
            j += 1;
        }
        proof {
            if email_taken_by_other(self.entities(), id, user@.email) {
                let k = choose|k: int| #![auto]
                    0 <= k < self.entities().len() && self.entities()[k].key() != id
                        && self.entities()[k].email == user@.email;
                assert(k != idx);
                assert(false);
            }
            lemma_key_index_of(self.entities(), id, idx as int);
            lemma_update_keys(self.entities(), idx as int, user@);
            lemma_update_emails(self.entities(), idx as int, user@);
        }
        let result = user.clone();
        let ghost prev = self.entities();
        self.users.set(idx, user);
        proof {
            assert(self.entities() =~= prev.update(idx as int, result@));
        }
        Ok(result)
    }

    fn delete(&mut self, id: u128) -> (r: Result<(), ApiError>) {
        proof {
            self.inv_distinct();
        }
        match self.index_of(id) {
            Some(i) => {
                proof {
                    lemma_key_index_of(self.entities(), id, i as int);
                    lemma_remove_keys(self.entities(), i as int);
                    lemma_remove_emails(self.entities(), i as int);
                }
                let ghost prev = self.entities();
                let _removed = self.users.remove(i);
                proof {
                    assert(self.entities() =~= prev.remove(i as int));
                }
                Ok(())
            },
            None => Err(ApiError::NotFound),
        }
    }
}

} // verus!

//! An in-memory post repository: the stored posts in insertion order, with
//! unique ids.

use vstd::prelude::*;
use vstd::pervasive::VecAdditionalExecFns;
use vstd::string::StringExecFns;

use crate::error::ApiError;
use crate::models::post::{Post, PostView};
use crate::repository::{
    distinct_keys, has_key, lemma_key_index_of, lemma_push_keys, lemma_remove_keys,
    lemma_update_keys, Identified, PostRepository,
};

verus! {

/// A post store backed by a vector, suitable as the storage engine behind
/// the post service wherever a database is not.
pub struct InMemoryPostRepository {
    posts: Vec<Post>,
}

impl InMemoryPostRepository {
    /// An empty store.
    pub fn new() -> (r: InMemoryPostRepository)
        ensures
            r.inv(),
            r.entities() == Seq::<PostView>::empty(),
    {
        let r = InMemoryPostRepository { posts: Vec::new() };
        proof {
            assert(r.entities() =~= Seq::<PostView>::empty());
        }
        r
    }

    /// The position of the post carrying `id`, if any.
    fn index_of(&self, id: u128) -> (r: Option<usize>)
        ensures
            (r matches Some(i) ==> 0 <= i < self.entities().len() && self.entities()[i as int].key()
                == id),
            r is Some <==> has_key(self.entities(), id),
    {
        let n = self.posts.len();
        let mut i: usize = 0;
        while i < n
            invariant
                n == self.posts.len(),
                i <= n,
                forall|k: int| 0 <= k < i ==> (#[trigger] self.entities()[k].key()) != id,
            decreases n - i,
        {
            if self.posts[i].id == id {
                assert(self.entities()[i as int].key() == id);
                return Some(i);
            }
            i += 1;
        }
        proof {
            if has_key(self.entities(), id) {
                let k = choose|k: int|
                    0 <= k < self.entities().len() && (#[trigger] self.entities()[k].key()) == id;
                assert(false);
            }
        }
        None
    }
}

impl PostRepository for InMemoryPostRepository {
    closed spec fn entities(&self) -> Seq<PostView> {
        self.posts@.map_values(|p: Post| p@)
    }

    open spec fn inv(&self) -> bool {
        distinct_keys(self.entities())
    }

    proof fn inv_distinct(&self) {
    }

    fn find(&self, id: u128) -> (r: Result<Post, ApiError>) {
        match self.index_of(id) {
            Some(i) => {
                proof {
                    lemma_key_index_of(self.entities(), id, i as int);
                }
                Ok(self.posts[i].clone())
            },
            None => Err(ApiError::NotFound),
        }
    }

    fn find_all(&self) -> (r: Result<Vec<Post>, ApiError>) {
        let mut out: Vec<Post> = Vec::new();
        let n = self.posts.len();
        let mut i: usize = 0;
        while i < n
            invariant
                n == self.posts.len(),
                i <= n,
                out@.len() == i,
                forall|k: int| 0 <= k < i ==> (#[trigger] out@[k])@ == self.entities()[k],
            decreases n - i,
        {
            out.push(self.posts[i].clone());
            i += 1;
        }
        proof {
            assert(out@.map_values(|p: Post| p@) =~= self.entities());
        }
        Ok(out)
    }

    fn create(&mut self, post: Post) -> (r: Result<Post, ApiError>) {
        let n = self.posts.len();
        let mut i: usize = 0;
        while i < n
            invariant
                *self == *old(self),
                old(self).inv(),
                n == self.posts.len(),
                i <= n,
                forall|k: int| 0 <= k < i ==> (#[trigger] self.entities()[k].key()) != post@.id,
            decreases n - i,
        {
            if self.posts[i].id == post.id {
                assert(self.entities()[i as int].key() == post@.id);
                assert(has_key(self.entities(), post@.id));
                return Err(ApiError::DatabaseError(String::from_str("duplicate post id")));
            }
            i += 1;
        }
        proof {
            if has_key(self.entities(), post@.id) {
                let k = choose|k: int|
                    0 <= k < self.entities().len() && (#[trigger] self.entities()[k].key())
                        == post@.id;
                assert(false);
            }
            lemma_push_keys(self.entities(), post@);
        }
        let result = post.clone();
        let ghost prev = self.entities();
        self.posts.push(post);
        proof {
            assert(self.entities() =~= prev.push(result@));
        }
        Ok(result)
    }

    fn update(&mut self, id: u128, post: Post) -> (r: Result<Post, ApiError>) {
        proof {
            self.inv_distinct();
        }
        let idx = match self.index_of(id) {
            Some(i) => i,
            None => {
                return Err(ApiError::NotFound);
            },
        };
        proof {
            lemma_key_index_of(self.entities(), id, idx as int);
            lemma_update_keys(self.entities(), idx as int, post@);
        }
        let result = post.clone();
        let ghost prev = self.entities();
        self.posts.set(idx, post);
        proof {
            assert(self.entities() =~= prev.update(idx as int, result@));
        }
        Ok(result)
    }

    fn delete(&mut self, id: u128) -> (r: Result<(), ApiError>) {
        proof {
            self.inv_distinct();
        }
        match self.index_of(id) {
            Some(i) => {
                proof {
                    lemma_key_index_of(self.entities(), id, i as int);
                    lemma_remove_keys(self.entities(), i as int);
                }
                let ghost prev = self.entities();
                let _removed = self.posts.remove(i);
                proof {
                    assert(self.entities() =~= prev.remove(i as int));
                }
                Ok(())
            },
            None => Err(ApiError::NotFound),
        }
    }
}

} // verus!

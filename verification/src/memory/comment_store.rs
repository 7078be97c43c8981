//! An in-memory comment repository: the stored comments in insertion order,
//! with unique ids. Comments are kept when their post goes away: nothing
//! cascades, orphaned rows are allowed.

use vstd::prelude::*;
use vstd::pervasive::VecAdditionalExecFns;
use vstd::string::StringExecFns;

use crate::error::ApiError;
use crate::models::comment::{Comment, CommentView};
use crate::repository::{
    comments_for, distinct_keys, has_key, lemma_comments_for_full, lemma_comments_for_take_step,
    lemma_key_index_of, lemma_push_keys, lemma_remove_keys, lemma_update_keys, CommentRepository,
    Identified,
};

verus! {

/// A comment store backed by a vector, suitable as the storage engine behind
/// the comment service wherever a database is not.
pub struct InMemoryCommentRepository {
    comments: Vec<Comment>,
}

impl InMemoryCommentRepository {
    /// An empty store.
    pub fn new() -> (r: InMemoryCommentRepository)
        ensures
            r.inv(),
            r.entities() == Seq::<CommentView>::empty(),
    {
        let r = InMemoryCommentRepository { comments: Vec::new() };
        proof {
            assert(r.entities() =~= Seq::<CommentView>::empty());
        }
        r
    }

    /// The position of the comment carrying `id`, if any.
    fn index_of(&self, id: u128) -> (r: Option<usize>)
        ensures
            (r matches Some(i) ==> 0 <= i < self.entities().len() && self.entities()[i as int].key()
                == id),
            r is Some <==> has_key(self.entities(), id),
    {
        let n = self.comments.len();
        let mut i: usize = 0;
        while i < n
            invariant
                n == self.comments.len(),
                i <= n,
                forall|k: int| 0 <= k < i ==> (#[trigger] self.entities()[k].key()) != id,
            decreases n - i,
        {
            if self.comments[i].id == id {
                assert(self.entities()[i as int].key() == id);
                return Some(i);
            }
            i += 1;
        }
        proof {
            if has_key(self.entities(), id) {
                let k = choose|k: int|
                    0 <= k < self.entities().len() && (#[trigger] self.entities()[k].key()) == id;
                assert(false);
            }
        }
        None
    }
}

impl CommentRepository for InMemoryCommentRepository {
    closed spec fn entities(&self) -> Seq<CommentView> {
        self.comments@.map_values(|c: Comment| c@)
    }

    open spec fn inv(&self) -> bool {
        distinct_keys(self.entities())
    }

    proof fn inv_distinct(&self) {
    }

    fn find(&self, id: u128) -> (r: Result<Comment, ApiError>) {
        match self.index_of(id) {
            Some(i) => {
                proof {
                    lemma_key_index_of(self.entities(), id, i as int);
                }
                Ok(self.comments[i].clone())
            },
            None => Err(ApiError::NotFound),
        }
    }

    fn find_by_post(&self, post_id: u128) -> (r: Result<Vec<Comment>, ApiError>) {
        let mut out: Vec<Comment> = Vec::new();
        let n = self.comments.len();
        let mut i: usize = 0;
        proof {
            reveal_with_fuel(Seq::<_>::filter, 1);
            assert(self.entities().take(0) =~= Seq::<CommentView>::empty());
            assert(out@.map_values(|c: Comment| c@) =~= comments_for(
                self.entities().take(0),
                post_id,
            ));
        }
        while i < n
            invariant
                n == self.comments.len(),
                i <= n,
                out@.map_values(|c: Comment| c@) == comments_for(
                    self.entities().take(i as int),
                    post_id,
                ),
            decreases n - i,
        {
            proof {
                lemma_comments_for_take_step(self.entities(), post_id, i as int);
            }
            if self.comments[i].post_id == post_id {
                let ghost prior = out@;
                out.push(self.comments[i].clone());
                proof {
                    assert(out@ == prior.push(self.comments@[i as int]));
                    assert(out@.map_values(|c: Comment| c@) =~= prior.map_values(
                        |c: Comment| c@,
                    ).push(self.entities()[i as int]));
                }
            } else {
                proof {
                    assert(self.entities()[i as int].post_id != post_id);
                }
            }
            i += 1;
        }
        proof {
            lemma_comments_for_full(self.entities(), post_id);
            assert(self.entities().take(n as int) == self.entities().take(
                self.entities().len() as int,
            ));
        }
        Ok(out)
    }

    fn create(&mut self, comment: Comment) -> (r: Result<Comment, ApiError>) {
        let n = self.comments.len();
        let mut i: usize = 0;
        while i < n
            invariant
                *self == *old(self),
                old(self).inv(),
                n == self.comments.len(),
                i <= n,
                forall|k: int| 0 <= k < i ==> (#[trigger] self.entities()[k].key()) != comment@.id,
            decreases n - i,
        {
            if self.comments[i].id == comment.id {
                assert(self.entities()[i as int].key() == comment@.id);
                assert(has_key(self.entities(), comment@.id));
                return Err(ApiError::DatabaseError(String::from_str("duplicate comment id")));
            }
            i += 1;
        }
        proof {
            if has_key(self.entities(), comment@.id) {
                let k = choose|k: int|
                    0 <= k < self.entities().len() && (#[trigger] self.entities()[k].key())
                        == comment@.id;
                assert(false);
            }
            lemma_push_keys(self.entities(), comment@);
        }
        let result = comment.clone();
        let ghost prev = self.entities();
        self.comments.push(comment);
        proof {
            assert(self.entities() =~= prev.push(result@));
        }
        Ok(result)
    }

    fn update(&mut self, id: u128, comment: Comment) -> (r: Result<Comment, ApiError>) {
        proof {
            self.inv_distinct();
        }
        let idx = match self.index_of(id) {
            Some(i) => i,
            None => {
                return Err(ApiError::NotFound);
            },
        };
        proof {
            lemma_key_index_of(self.entities(), id, idx as int);
            lemma_update_keys(self.entities(), idx as int, comment@);
        }
        let result = comment.clone();
        let ghost prev = self.entities();
        self.comments.set(idx, comment);
        proof {
            assert(self.entities() =~= prev.update(idx as int, result@));
        }
        Ok(result)
    }

    fn delete(&mut self, id: u128) -> (r: Result<(), ApiError>) {
        proof {
            self.inv_distinct();
        }
        match self.index_of(id) {
            Some(i) => {
                proof {
                    lemma_key_index_of(self.entities(), id, i as int);
                    lemma_remove_keys(self.entities(), i as int);
                }
                let ghost prev = self.entities();
                let _removed = self.comments.remove(i);
                proof {
                    assert(self.entities() =~= prev.remove(i as int));
                }
                Ok(())
            },
            None => Err(ApiError::NotFound),
        }
    }
}

} // verus!

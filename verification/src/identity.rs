//! Identity generation, through the `uuid` crate. An identity is carried as
//! the 128-bit value of a version-4 UUID; the draw is random, so nothing is
//! promised about it, and uniqueness is enforced by the stores instead.

use vstd::prelude::*;

verus! {

/// Relies on `uuid::Uuid::new_v4`: draws a random identity; the value is
/// random, so nothing is stated about it.
#[verifier::external_body]
pub(crate) fn fresh_id() -> u128 {
    uuid::Uuid::new_v4().as_u128()
}

} // verus!

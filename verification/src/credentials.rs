//! The credential hasher: one-way salted password hashing and verification,
//! built on Argon2.
//!
//! A hash string embeds its salt and parameters, so whether a password
//! verifies against a hash string is a function of the two strings alone;
//! `verifies_against` names that verdict. The hash itself is salted from a
//! cryptographically secure source and therefore differs from call to call,
//! so no name is given to it.

use vstd::prelude::*;

verus! {

/// The verdict of Argon2 verification of `password` against the salt,
/// parameters and digest embedded in `hash`: a deterministic recomputation
/// followed by a constant-time comparison.
pub uninterp spec fn verifies_against(password: Seq<char>, hash: Seq<char>) -> bool;

/// Whether `hash` parses as a well-formed PHC hash string.
pub uninterp spec fn hash_well_formed(hash: Seq<char>) -> bool;

/// Passwords the hasher is sure to accept. Argon2 rejects only a password
/// longer than `0xFFFFFFFF` bytes; a character is at most four bytes in
/// UTF-8, so any password of at most `0x3FFFFFFF` characters hashes
/// successfully.
pub open spec fn hashable_password(s: Seq<char>) -> bool {
    s.len() <= 0x3FFFFFFF
}

/// Relies on `argon2::Argon2::hash_password` with a salt drawn from
/// `rand_core::OsRng`: on success the produced PHC string parses back and
/// verifies against the password it was derived from. With a generated salt
/// and the default parameters the call fails only on a password beyond
/// Argon2's byte limit, so every password within `hashable_password` hashes
/// successfully.
#[verifier::external_body]
pub(crate) fn hash_password(password: &str) -> (r: Result<String, ()>)
    ensures
        hashable_password(password@) ==> r is Ok,
        (r matches Ok(h) ==> hash_well_formed(h@)),
        (r matches Ok(h) ==> verifies_against(password@, h@)),
{
    let salt = argon2::password_hash::SaltString::generate(&mut rand_core::OsRng);
    match argon2::PasswordHasher::hash_password(
        &argon2::Argon2::default(),
        password.as_bytes(),
        &salt,
    ) {
        Ok(hash) => Ok(hash.to_string()),
        Err(_) => Err(()),
    }
}

/// Relies on `argon2::password_hash::PasswordHash::new` (parsing, which fails
/// exactly on malformed hash strings) and `argon2::Argon2::verify_password`
/// (the deterministic recomputation named by `verifies_against`).
#[verifier::external_body]
pub(crate) fn check_password(password: &str, hash: &str) -> (r: Result<bool, ()>)
    ensures
        r is Ok <==> hash_well_formed(hash@),
        (r matches Ok(b) ==> b == verifies_against(password@, hash@)),
{
    match argon2::password_hash::PasswordHash::new(hash) {
        Ok(parsed) => Ok(
            argon2::PasswordVerifier::verify_password(
                &argon2::Argon2::default(),
                password.as_bytes(),
                &parsed,
            )
            .is_ok(),
        ),
        Err(_) => Err(()),
    }
}

} // verus!

//! Shape and format constraints on the fields of incoming requests.
//!
//! Lengths are counted in characters. Email syntax is delegated to the
//! `validator` crate; `email_accepted` names its verdict so that contracts
//! can speak about it exactly.

use vstd::prelude::*;

verus! {

/// Usernames carry 3 to 50 characters.
pub open spec fn valid_username(s: Seq<char>) -> bool {
    3 <= s.len() <= 50
}

/// Passwords carry at least 8 characters.
pub open spec fn valid_password(s: Seq<char>) -> bool {
    s.len() >= 8
}

/// Post titles carry 1 to 100 characters.
pub open spec fn valid_title(s: Seq<char>) -> bool {
    1 <= s.len() <= 100
}

/// Post and comment bodies are non-empty.
pub open spec fn valid_content(s: Seq<char>) -> bool {
    s.len() >= 1
}

/// The verdict of the `validator` crate's email check on a string: an
/// HTML5-style syntax test, a pure function of the characters alone.
pub uninterp spec fn email_accepted(s: Seq<char>) -> bool;

/// Relies on `validator::ValidateEmail::validate_email`: a deterministic
/// syntax check; its source rejects the empty string outright.
#[verifier::external_body]
pub(crate) fn email_is_valid(s: &String) -> (r: bool)
    ensures
        r == email_accepted(s@),
        s@.len() == 0 ==> r == false,
{
    validator::ValidateEmail::validate_email(s)
}

/// Counts the characters of a string, the measure every length rule uses.
pub(crate) fn char_count(s: &String) -> (n: usize)
    ensures
        n == s@.len(),
{
    s.as_str().unicode_len()
}

} // verus!

//! The wall clock, read through `chrono`. A timestamp is the number of
//! microseconds of the local naive time; nothing is promised about its value,
//! so every contract that depends on time takes the timestamp as an argument.

use vstd::prelude::*;

verus! {

/// Relies on `chrono::Local::now`: reads the wall clock; the value depends on
/// the machine and the moment, so nothing is stated about it.
#[verifier::external_body]
pub(crate) fn current_timestamp() -> i64 {
    chrono::Local::now().naive_local().and_utc().timestamp_micros()
}

} // verus!

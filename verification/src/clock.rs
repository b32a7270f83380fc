//! The wall clock, read as milliseconds since the Unix epoch.

use vstd::prelude::*;

verus! {

/// Relies on `std::time::SystemTime` for the wall clock: milliseconds since
/// the Unix epoch, or zero should the clock read before the epoch. A clock
/// reading promises nothing about its value; the case record is filled by a
/// verified function that takes the two timestamps as plain values.
#[verifier::external_body]
pub fn now_unix() -> (t: u128) {
    match std::time::SystemTime::now().duration_since(std::time::UNIX_EPOCH) {
        Ok(d) => d.as_millis(),
        Err(_) => 0,
    }
}

} // verus!

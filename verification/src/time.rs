//! Clock reads.  The clock is the machine's; nothing can be promised of
//! the values, so these are thin trusted edges shared by everything that
//! needs a timestamp.

use vstd::prelude::*;

verus! {

/// Relies on std::time::SystemTime: the nanoseconds since the unix epoch,
/// or zero if the clock reads before it.
#[verifier::external_body]
pub fn now_timestamp_nanos() -> (r: u128) {
    std::time::SystemTime::now().duration_since(std::time::UNIX_EPOCH).map(
        |d| d.as_nanos(),
    ).unwrap_or(0)
}

/// Relies on std::time::SystemTime: the milliseconds since the unix
/// epoch, or zero if the clock reads before it.
#[verifier::external_body]
pub fn now_timestamp_millis() -> (r: u128) {
    std::time::SystemTime::now().duration_since(std::time::UNIX_EPOCH).map(
        |d| d.as_millis(),
    ).unwrap_or(0)
}

/// The current timestamp in nanoseconds since the unix epoch.
pub fn current_timestamp() -> (r: u128) {
    now_timestamp_nanos()
}

} // verus!

//! The wall clock.
use vstd::prelude::*;

verus! {

/// Milliseconds since the Unix epoch as `std::time::SystemTime::now` reports
/// them, 0 when the clock stands before the epoch. Nothing is promised of the
/// value: it is whatever the clock reads.
#[verifier::external_body]
pub(crate) fn unix_time_ms() -> (r: u128) {
    std::time::SystemTime::now().duration_since(std::time::UNIX_EPOCH).unwrap_or_default().as_millis()
}

} // verus!

//! The current time, as the rules count it.

use vstd::prelude::*;

verus! {

/// Relies on `std::time::SystemTime::now`: the clock's reading in whole
/// seconds since the Unix epoch (zero for a clock set before it). Nothing is
/// promised about the value.
#[verifier::external_body]
pub(crate) fn unix_now() -> (r: u64) {
    match std::time::SystemTime::now().duration_since(std::time::UNIX_EPOCH) {
        Ok(d) => d.as_secs(),
        Err(_) => 0,
    }
}

} // verus!

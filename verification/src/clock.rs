//! The wall-clock source for profiling timestamps.

use vstd::prelude::*;

verus! {

/// Relies on std::time::SystemTime::elapsed, measured from the Unix
/// epoch: a wall-clock reading in nanoseconds, truncated to 64 bits, or 0
/// if the clock reads earlier than the epoch. The reading depends on the
/// machine's clock, so nothing is promised of it.
#[verifier::external_body]
pub(crate) fn now_nanos() -> u64 {
    match std::time::UNIX_EPOCH.elapsed() {
        Ok(d) => d.as_nanos() as u64,
        Err(_) => 0,
    }
}

} // verus!

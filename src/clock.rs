//! Reading the wall clock.

use crate::state::Timestamp;
use vstd::prelude::*;

verus! {

/// Relies on `std::time::SystemTime::now` and `SystemTime::duration_since`
/// for the current wall-clock time. Nothing is promised of the value: the
/// clock may jump in either direction. A clock that reads before the Unix
/// epoch gives the epoch itself.
#[verifier::external_body]
pub(crate) fn clock_now() -> (t: Timestamp) {
    let since = std::time::SystemTime::now().duration_since(std::time::UNIX_EPOCH);
    Timestamp { nanos_since_epoch: since.unwrap_or_default().as_nanos() }
}

} // verus!

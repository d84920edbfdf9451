//! The open/closed state of the spinner and the time it was opened at.

use vstd::prelude::*;

verus! {

/// A point in wall-clock time, as nanoseconds since the Unix epoch.
#[derive(Debug, Clone, Copy, PartialEq, Eq, Structural)]
pub struct Timestamp {
    pub nanos_since_epoch: u128,
}

/// Nanoseconds from `start` to `now`; zero when the clock reads earlier than `start`.
pub open spec fn elapsed_nanos(start: Timestamp, now: Timestamp) -> nat {
    if now.nanos_since_epoch >= start.nanos_since_epoch {
        (now.nanos_since_epoch - start.nanos_since_epoch) as nat
    } else {
        0
    }
}

impl Timestamp {
    /// The timestamp `nanos` nanoseconds after the Unix epoch.
    pub fn from_nanos(nanos: u128) -> (t: Timestamp)
        ensures
            t.nanos_since_epoch == nanos,
    {
        Timestamp { nanos_since_epoch: nanos }
    }

    /// Nanoseconds that have passed from `self` to `now`, or zero when `now`
    /// lies before `self` (a clock set back).
    pub fn elapsed_until(&self, now: Timestamp) -> (d: u128)
        ensures
            d == elapsed_nanos(*self, now),
    {
        if now.nanos_since_epoch >= self.nanos_since_epoch {
            now.nanos_since_epoch - self.nanos_since_epoch
        } else {
            0
        }
    }
}

/// Represents the state the spinner is currently in.
#[derive(Debug, Clone, Copy, PartialEq, Eq, Structural)]
pub enum SpinnerState {
    /// The spinner is closed and not visible.
    Closed,
    /// The spinner is open and user input is suppressed. The value is the time
    /// the spinner was opened at, from which the elapsed time is shown.
    Open(Timestamp),
}

} // verus!

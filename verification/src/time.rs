//! Points in time as plain integers, and the one reading of the wall clock.

use vstd::prelude::*;

verus! {

/// Nanoseconds in a second.
pub const NANOS_PER_SEC: u32 = 1_000_000_000;

/// A point in time: seconds since the Unix epoch and the nanoseconds past that second.
#[derive(Clone, Copy, Debug, PartialEq, Eq, Hash, Structural)]
pub struct Timestamp {
    /// Whole seconds since 1970-01-01T00:00:00Z; negative before it.
    pub secs: i64,
    /// Nanoseconds since the last second boundary.
    pub nanos: u32,
}

impl Timestamp {
    /// The point in time in nanoseconds since the epoch.
    pub open spec fn total_nanos(self) -> int {
        self.secs as int * 1_000_000_000 + self.nanos as int
    }

    /// The time from `earlier` to `self` in nanoseconds; negative if `self` comes first.
    pub open spec fn nanos_since(self, earlier: Timestamp) -> int {
        self.total_nanos() - earlier.total_nanos()
    }

    /// The timestamp `secs` seconds and `nanos` nanoseconds after the epoch.
    pub fn new(secs: i64, nanos: u32) -> (t: Timestamp)
        ensures
            t.secs == secs,
            t.nanos == nanos,
    {
        Timestamp { secs, nanos }
    }

    /// Whether less than `secs` whole seconds have passed from `earlier` to `self`.
    ///
    /// A `self` that lies before `earlier` counts as less than any number of seconds,
    /// zero included.
    pub fn within_secs_of(&self, earlier: &Timestamp, secs: u64) -> (r: bool)
        ensures
            r == (self.nanos_since(*earlier) < secs as int * 1_000_000_000),
    {
        let elapsed: i128 = (self.secs as i128 - earlier.secs as i128) * 1_000_000_000 + (
        self.nanos as i128 - earlier.nanos as i128);
        elapsed < (secs as i128) * 1_000_000_000
    }

    /// Whether more than `secs` whole seconds have passed from `earlier` to `self`.
    pub fn more_than_secs_after(&self, earlier: &Timestamp, secs: u64) -> (r: bool)
        ensures
            r == (self.nanos_since(*earlier) > secs as int * 1_000_000_000),
    {
        let elapsed: i128 = (self.secs as i128 - earlier.secs as i128) * 1_000_000_000 + (
        self.nanos as i128 - earlier.nanos as i128);
        elapsed > (secs as i128) * 1_000_000_000
    }
}

/// Reads the wall clock through `chrono::Utc::now`.
///
/// Nothing is proved of the result: the contract states what `Utc::now` builds it
/// from, a duration since the epoch, so the seconds are not negative and the
/// nanoseconds stay below one second. `Utc::now` panics on a machine whose clock is
/// set before 1970.
#[verifier::external_body]
pub(crate) fn now() -> (t: Timestamp)
    ensures
        t.secs >= 0,
        t.nanos < NANOS_PER_SEC,
{
    let now = chrono::Utc::now();
    Timestamp { secs: now.timestamp(), nanos: now.timestamp_subsec_nanos() }
}

} // verus!

//! Plain units of measure used across the crate: time spans and points in
//! whole nanoseconds, information in bytes, frequencies in kilohertz.

use vstd::prelude::*;

verus! {

/// A span of time, or a point in time counted from the UNIX epoch,
/// stored as whole nanoseconds.
#[derive(Clone, Copy, Debug, PartialEq, Eq, Structural)]
pub struct Time {
    pub ns: u128,
}

impl Time {
    pub fn from_secs(s: u64) -> (t: Time)
        ensures
            t.ns == s * 1_000_000_000,
    {
        Time { ns: (s as u128) * 1_000_000_000 }
    }

    pub fn from_millis(ms: u64) -> (t: Time)
        ensures
            t.ns == ms * 1_000_000,
    {
        Time { ns: (ms as u128) * 1_000_000 }
    }

    pub fn from_nanos(n: u64) -> (t: Time)
        ensures
            t.ns == n,
    {
        Time { ns: n as u128 }
    }

    /// Converts a clock-tick count into a span, given the platform's ticks
    /// per second.
    pub fn from_ticks(ticks: u64, ticks_per_sec: u64) -> (t: Time)
        requires
            ticks_per_sec > 0,
        ensures
            t.ns == ticks * 1_000_000_000 / (ticks_per_sec as int),
    {
        Time { ns: ((ticks as u128) * 1_000_000_000) / (ticks_per_sec as u128) }
    }

    /// The sum of two spans, or a point offset by a span.
    pub fn add(self, other: Time) -> (t: Time)
        requires
            self.ns + other.ns <= u128::MAX,
        ensures
            t.ns == self.ns + other.ns,
    {
        Time { ns: self.ns + other.ns }
    }
}

/// An amount of information, stored as whole bytes.
#[derive(Clone, Copy, Debug, PartialEq, Eq, Structural)]
pub struct Information {
    pub bytes: u64,
}

/// A frequency, stored as whole kilohertz.
#[derive(Clone, Copy, Debug, PartialEq, Eq, Structural)]
pub struct Frequency {
    pub khz: u64,
}

} // verus!

//! A span of time with nanosecond resolution.

use vstd::prelude::*;

verus! {

pub const NANOS_PER_SEC: u32 = 1_000_000_000;

pub const NANOS_PER_MILLI: u32 = 1_000_000;

pub const MILLIS_PER_SEC: u64 = 1_000;

/// A span of time: whole seconds and the nanoseconds beyond them.
///
/// The nanosecond part always stays below one second, so every span has
/// exactly one representation.
#[derive(Clone, Copy, Debug, PartialEq, Eq, Structural)]
pub struct Duration {
    secs: u64,
    nanos: u32,
}

impl Duration {
    #[verifier::type_invariant]
    spec fn normalised(self) -> bool {
        self.nanos < NANOS_PER_SEC
    }

    /// The whole span in nanoseconds.
    pub closed spec fn as_nanos(self) -> nat {
        (self.secs * NANOS_PER_SEC + self.nanos) as nat
    }

    /// The whole milliseconds of the span, rounded down.
    pub open spec fn as_millis(self) -> nat {
        self.as_nanos() / (NANOS_PER_MILLI as nat)
    }

    /// A span of `secs` seconds and `nanos` nanoseconds. Nanoseconds beyond
    /// a second are carried over into the seconds, which must not overflow.
    pub fn new(secs: u64, nanos: u32) -> (d: Duration)
        requires
            secs + nanos / NANOS_PER_SEC <= u64::MAX,
        ensures
            d.as_nanos() == secs * NANOS_PER_SEC + nanos,
    {
        let carry: u32 = nanos / NANOS_PER_SEC;
        Duration { secs: secs + carry as u64, nanos: nanos % NANOS_PER_SEC }
    }

    pub fn from_secs(secs: u64) -> (d: Duration)
        ensures
            d.as_nanos() == secs * NANOS_PER_SEC,
    {
        Duration { secs, nanos: 0 }
    }

    pub fn from_millis(millis: u64) -> (d: Duration)
        ensures
            d.as_nanos() == millis * NANOS_PER_MILLI,
            d.as_millis() == millis,
    {
        let rest: u32 = (millis % MILLIS_PER_SEC) as u32;
        Duration { secs: millis / MILLIS_PER_SEC, nanos: rest * NANOS_PER_MILLI }
    }

    pub fn from_micros(micros: u64) -> (d: Duration)
        ensures
            d.as_nanos() == micros * 1_000,
    {
        let rest: u32 = (micros % 1_000_000) as u32;
        Duration { secs: micros / 1_000_000, nanos: rest * 1_000 }
    }

    pub fn from_nanos(nanos: u64) -> (d: Duration)
        ensures
            d.as_nanos() == nanos,
    {
        Duration { secs: nanos / 1_000_000_000, nanos: (nanos % 1_000_000_000) as u32 }
    }

    /// The whole seconds of the span.
    pub fn as_secs(&self) -> (secs: u64)
        ensures
            secs == self.as_nanos() / (NANOS_PER_SEC as nat),
    {
        proof {
            use_type_invariant(self);
        }
        self.secs
    }

    /// The part of the span beyond its whole seconds, in nanoseconds.
    pub fn subsec_nanos(&self) -> (nanos: u32)
        ensures
            nanos == self.as_nanos() % (NANOS_PER_SEC as nat),
    {
        proof {
            use_type_invariant(self);
        }
        self.nanos
    }

    /// The part of the span beyond its whole seconds, in whole milliseconds.
    pub fn subsec_millis(&self) -> (millis: u32)
        ensures
            millis == (self.as_nanos() % (NANOS_PER_SEC as nat)) / (NANOS_PER_MILLI as nat),
            millis < MILLIS_PER_SEC,
            self.as_millis() == (self.as_nanos() / (NANOS_PER_SEC as nat)) * MILLIS_PER_SEC + millis,
    {
        proof {
            use_type_invariant(self);
        }
        self.nanos / NANOS_PER_MILLI
    }

    /// Whether the span is empty.
    pub fn is_zero(&self) -> (zero: bool)
        ensures
            zero == (self.as_nanos() == 0),
    {
        self.secs == 0 && self.nanos == 0
    }
}

} // verus!

//! Time as the races see it: readings of one clock, and the spans between
//! them.

use vstd::prelude::*;

verus! {

/// The nanoseconds in one second.
pub const NANOS_PER_SEC: u128 = 1_000_000_000;

/// A reading of a clock that never runs backwards: the nanoseconds since the
/// clock's origin. Whoever drives the races reads the clock.
#[derive(Clone, Copy, Debug, PartialEq, Eq, Structural)]
pub struct Timestamp {
    pub nanos: u128,
}

/// The time between two readings of the clock, in nanoseconds.
#[derive(Clone, Copy, Debug, PartialEq, Eq, Structural)]
pub struct Span {
    pub nanos: u128,
}

impl Timestamp {
    /// The span from `earlier` to `self`; empty where `earlier` is the later
    /// of the two.
    pub open spec fn span_since(self, earlier: Timestamp) -> Span {
        if self.nanos >= earlier.nanos {
            Span { nanos: (self.nanos - earlier.nanos) as u128 }
        } else {
            Span { nanos: 0 }
        }
    }

    /// The reading `secs` seconds after the clock's origin.
    pub fn from_secs(secs: u64) -> (at: Timestamp)
        ensures
            at.nanos == secs * NANOS_PER_SEC,
    {
        Timestamp { nanos: secs as u128 * NANOS_PER_SEC }
    }

    /// The span from `earlier` to `self`.
    pub fn since(&self, earlier: Timestamp) -> (span: Span)
        ensures
            span == self.span_since(earlier),
    {
        if self.nanos >= earlier.nanos {
            Span { nanos: self.nanos - earlier.nanos }
        } else {
            Span { nanos: 0 }
        }
    }
}

impl Span {
    /// The whole seconds within the span; what is left of a second is dropped.
    pub open spec fn secs(self) -> nat {
        (self.nanos / NANOS_PER_SEC) as nat
    }

    /// A span of `secs` seconds.
    pub fn from_secs(secs: u64) -> (span: Span)
        ensures
            span.nanos == secs * NANOS_PER_SEC,
            span.secs() == secs,
    {
        Span { nanos: secs as u128 * NANOS_PER_SEC }
    }

    /// The whole seconds within the span.
    pub fn whole_secs(&self) -> (secs: u128)
        ensures
            secs == self.secs(),
    {
        self.nanos / NANOS_PER_SEC
    }
}

} // verus!

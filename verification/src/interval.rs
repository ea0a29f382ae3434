//! Spans of time between two scheduled compactions.

use vstd::prelude::*;

verus! {

pub const NANOS_PER_SEC: u32 = 1_000_000_000;

/// A span of time in whole seconds and nanoseconds below a second.
#[derive(Clone, Copy, PartialEq, Eq, Structural, Debug)]
pub struct Interval {
    secs: u64,
    subsec_nanos: u32,
}

impl View for Interval {
    type V = nat;

    /// The span in nanoseconds.
    closed spec fn view(&self) -> nat {
        (self.secs * NANOS_PER_SEC + self.subsec_nanos) as nat
    }
}

impl Interval {
    #[verifier::type_invariant]
    spec fn below_a_second(self) -> bool {
        self.subsec_nanos < NANOS_PER_SEC
    }

    pub fn new(secs: u64, subsec_nanos: u32) -> (interval: Interval)
        requires
            subsec_nanos < NANOS_PER_SEC,
        ensures
            interval@ == secs * NANOS_PER_SEC + subsec_nanos,
            interval@ == secs * 1_000_000_000 + subsec_nanos,
    {
        Interval { secs, subsec_nanos }
    }

    pub fn from_secs(secs: u64) -> (interval: Interval)
        ensures
            interval@ == secs * NANOS_PER_SEC,
            interval@ == secs * 1_000_000_000,
    {
        Interval { secs, subsec_nanos: 0 }
    }

    /// The whole seconds of the span.
    pub fn as_secs(&self) -> (secs: u64)
        ensures
            secs == self@ / NANOS_PER_SEC as nat,
            secs == self@ / 1_000_000_000,
    {
        proof {
            use_type_invariant(self);
        }
        self.secs
    }

    /// What the span holds beyond its whole seconds, in nanoseconds.
    pub fn subsec_nanos(&self) -> (nanos: u32)
        ensures
            nanos == self@ % NANOS_PER_SEC as nat,
            nanos == self@ % 1_000_000_000,
            nanos < NANOS_PER_SEC,
    {
        proof {
            use_type_invariant(self);
        }
        self.subsec_nanos
    }
}

} // verus!

//! A span of time held as plain integers.

use vstd::prelude::*;

verus! {

/// Nanoseconds in one second.
pub const NANOS_PER_SEC: u32 = 1_000_000_000;

/// A span of time: whole seconds plus a number of nanoseconds.
///
/// The nanosecond part is not required to stay below one second; the span
/// stands for the sum of both parts.
#[derive(Clone, Copy, Debug, PartialEq, Eq, Structural)]
pub struct TimeSpan {
    /// Whole seconds.
    pub secs: u64,
    /// Nanoseconds on top of the whole seconds.
    pub nanos: u32,
}

impl View for TimeSpan {
    type V = nat;

    /// The span in nanoseconds.
    open spec fn view(&self) -> nat {
        (self.secs * NANOS_PER_SEC + self.nanos) as nat
    }
}

impl TimeSpan {
    /// The span of `nanos` nanoseconds whose nanosecond part is below one
    /// second.
    pub open spec fn of_nanos(nanos: nat) -> TimeSpan {
        TimeSpan {
            secs: (nanos / (NANOS_PER_SEC as nat)) as u64,
            nanos: (nanos % (NANOS_PER_SEC as nat)) as u32,
        }
    }

    /// A span whose nanosecond part is below one second is the one that
    /// [`of_nanos`](Self::of_nanos) gives for its length.
    pub proof fn lemma_normal(self)
        requires
            self.nanos < NANOS_PER_SEC,
        ensures
            self == TimeSpan::of_nanos(self@),
    {
        vstd::arithmetic::div_mod::lemma_fundamental_div_mod_converse(
            self@ as int,
            NANOS_PER_SEC as int,
            self.secs as int,
            self.nanos as int,
        );
    }

    /// The empty span.
    pub fn zero() -> (span: TimeSpan)
        ensures
            span == (TimeSpan { secs: 0, nanos: 0 }),
            span@ == 0,
    {
        TimeSpan { secs: 0, nanos: 0 }
    }

    /// A span of `secs` whole seconds.
    pub fn from_secs(secs: u64) -> (span: TimeSpan)
        ensures
            span == (TimeSpan { secs, nanos: 0 }),
            span@ == secs * NANOS_PER_SEC,
    {
        TimeSpan { secs, nanos: 0 }
    }

    /// A span of `millis` milliseconds, with the nanosecond part below one second.
    pub fn from_millis(millis: u64) -> (span: TimeSpan)
        ensures
            span.secs == millis / 1000,
            span.nanos == (millis % 1000) * 1_000_000,
            span@ == millis * 1_000_000,
    {
        let rest: u32 = (millis % 1000) as u32;
        TimeSpan { secs: millis / 1000, nanos: rest * 1_000_000 }
    }

    /// Whether the span is empty.
    pub fn is_zero(&self) -> (empty: bool)
        ensures
            empty == (self@ == 0),
    {
        self.secs == 0 && self.nanos == 0
    }

    /// The span in whole milliseconds, rounded down.
    pub fn as_millis(&self) -> (millis: u128)
        ensures
            millis == self@ / 1_000_000,
    {
        let secs: u128 = self.secs as u128;
        let sub: u128 = (self.nanos / 1_000_000) as u128;
        secs * 1000 + sub
    }
}

} // verus!

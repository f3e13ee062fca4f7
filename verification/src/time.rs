//! Spans of time in plain integers.

use vstd::prelude::*;

verus! {

/// The nanoseconds in one second.
pub const NANOS_PER_SEC: u32 = 1_000_000_000u32;

/// A span of time: whole seconds, and a part of a second in nanoseconds.
#[derive(Debug, Clone, Copy, PartialEq, Eq)]
pub struct Duration {
    secs: u64,
    nanos: u32,
}

impl Duration {
    #[verifier::type_invariant]
    closed spec fn inv(self) -> bool {
        self.nanos < NANOS_PER_SEC
    }

    /// The whole seconds.
    pub closed spec fn secs(self) -> u64 {
        self.secs
    }

    /// What is left beside the whole seconds, in nanoseconds.
    pub closed spec fn subsec_nanos(self) -> u32 {
        self.nanos
    }

    /// The whole span in nanoseconds.
    pub open spec fn total_nanos(self) -> nat {
        (self.secs() * NANOS_PER_SEC + self.subsec_nanos()) as nat
    }

    /// A span of `secs` seconds and `nanos` nanoseconds.
    pub fn new(secs: u64, nanos: u32) -> (r: Duration)
        requires
            nanos < NANOS_PER_SEC,
        ensures
            r.secs() == secs,
            r.subsec_nanos() == nanos,
    {
        Duration { secs, nanos }
    }

    /// A span of `nanos` nanoseconds, unless it is too long for one.
    pub fn from_nanos(nanos: u128) -> (r: Option<Duration>)
        ensures
            r is Some <==> nanos < (u64::MAX + 1) * NANOS_PER_SEC,
            r matches Some(span) ==> span.total_nanos() == nanos,
            r matches Some(span) ==> span.secs() == nanos / 1_000_000_000,
            r matches Some(span) ==> span.subsec_nanos() == nanos % 1_000_000_000,
    {
        let secs: u128 = nanos / 1_000_000_000u128;
        if secs > u64::MAX as u128 {
            return None;
        }
        let rest: u128 = nanos % 1_000_000_000u128;
        Some(Duration { secs: secs as u64, nanos: rest as u32 })
    }

    /// The whole seconds.
    pub fn as_secs(&self) -> (r: u64)
        ensures
            r == self.secs(),
    {
        self.secs
    }

    /// What is left beside the whole seconds, in nanoseconds.
    pub fn subsec(&self) -> (r: u32)
        ensures
            r == self.subsec_nanos(),
            r < NANOS_PER_SEC,
    {
        proof {
            use_type_invariant(self);
        }
        self.nanos
    }

    /// The whole span in nanoseconds.
    pub fn as_nanos(&self) -> (r: u128)
        ensures
            r == self.total_nanos(),
            r <= u64::MAX * NANOS_PER_SEC + NANOS_PER_SEC,
    {
        proof {
            use_type_invariant(self);
        }
        let whole: u128 = (self.secs as u128) * 1_000_000_000u128;
        whole + (self.nanos as u128)
    }
}

} // verus!

//! Spans of time, to the nanosecond.

use vstd::prelude::*;

verus! {

/// The number of nanoseconds in a second.
pub const NANOS_PER_SEC: u32 = 1_000_000_000;

/// A span of time: whole seconds and the nanoseconds beyond them.
#[derive(Debug, Clone, Copy)]
pub struct TimeSpan {
    secs: u64,
    nanos: u32,
}

impl TimeSpan {
    /// The nanoseconds beyond the whole seconds are fewer than a second.
    #[verifier::type_invariant]
    spec fn nanos_below_a_second(&self) -> bool {
        self.nanos < NANOS_PER_SEC
    }

    /// The whole seconds of the span.
    pub closed spec fn secs_spec(&self) -> u64 {
        self.secs
    }

    /// The nanoseconds of the span beyond its whole seconds.
    pub closed spec fn nanos_spec(&self) -> u32 {
        self.nanos
    }

    /// A span of whole seconds.
    pub fn from_secs(secs: u64) -> (t: Self)
        ensures
            t.secs_spec() == secs,
            t.nanos_spec() == 0,
    {
        TimeSpan { secs, nanos: 0 }
    }

    /// The span of `secs` seconds and `nanos` nanoseconds, where `nanos` is
    /// less than a second; `None` otherwise.
    pub fn from_parts(secs: u64, nanos: u32) -> (t: Option<Self>)
        ensures
            t is Some <==> nanos < NANOS_PER_SEC,
            t matches Some(t) ==> t.secs_spec() == secs && t.nanos_spec() == nanos,
    {
        if nanos < NANOS_PER_SEC {
            Some(TimeSpan { secs, nanos })
        } else {
            None
        }
    }

    /// The whole seconds of the span.
    pub fn secs(&self) -> (s: u64)
        ensures
            s == self.secs_spec(),
    {
        self.secs
    }

    /// The nanoseconds of the span beyond its whole seconds.
    pub fn subsec_nanos(&self) -> (n: u32)
        ensures
            n == self.nanos_spec(),
            n < NANOS_PER_SEC,
    {
        proof {
            use_type_invariant(self);
        }
        self.nanos
    }
}

} // verus!

//! Lengths of time, as whole seconds and a sub-second part in nanoseconds.

use vstd::prelude::*;

verus! {

/// Number of nanoseconds in one second.
pub const NANOS_PER_SEC: u32 = 1_000_000_000;

/// A length of time: whole seconds and a sub-second part in nanoseconds.
///
/// The sub-second part is always less than one second, so two spans are equal
/// exactly when they last equally long.
#[derive(Clone, Copy, Debug, PartialEq, Eq)]
pub struct TimeSpan {
    secs: u64,
    nanos: u32,
}

impl TimeSpan {
    #[verifier::type_invariant]
    spec fn canonical(self) -> bool {
        self.nanos < NANOS_PER_SEC
    }

    /// The span of `secs` whole seconds and `nanos` nanoseconds.
    pub closed spec fn of(secs: u64, nanos: u32) -> TimeSpan {
        TimeSpan { secs, nanos }
    }

    /// The whole seconds of the span.
    pub closed spec fn whole_secs(self) -> u64 {
        self.secs
    }

    /// The part of the span beyond its whole seconds, in nanoseconds.
    pub closed spec fn sub_nanos(self) -> u32 {
        self.nanos
    }

    /// The span of `secs` seconds and `nanos` nanoseconds, where `nanos` is
    /// less than one second; `None` where it is not.
    pub fn new(secs: u64, nanos: u32) -> (span: Option<TimeSpan>)
        ensures
            span is Some <==> nanos < NANOS_PER_SEC,
            span matches Some(made) ==> {
                &&& made == TimeSpan::of(secs, nanos)
                &&& made.whole_secs() == secs
                &&& made.sub_nanos() == nanos
            },
    {
        if nanos < NANOS_PER_SEC {
            Some(TimeSpan { secs, nanos })
        } else {
            None
        }
    }

    /// The span of `secs` whole seconds.
    pub fn from_secs(secs: u64) -> (span: TimeSpan)
        ensures
            span == TimeSpan::of(secs, 0),
            span.whole_secs() == secs,
            span.sub_nanos() == 0,
    {
        TimeSpan { secs, nanos: 0 }
    }

    /// The whole seconds of the span.
    pub fn as_secs(&self) -> (secs: u64)
        ensures
            secs == self.whole_secs(),
    {
        self.secs
    }

    /// The part of the span beyond its whole seconds, in nanoseconds: always
    /// less than one second.
    pub fn subsec_nanos(&self) -> (nanos: u32)
        ensures
            nanos == self.sub_nanos(),
            nanos < NANOS_PER_SEC,
    {
        proof {
            use_type_invariant(self);
        }
        self.nanos
    }
}

} // verus!

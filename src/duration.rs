use vstd::prelude::*;

verus! {

/// A span of time, in whole seconds and additional nanoseconds.
#[derive(Debug, Clone, Copy, PartialEq, Eq, Structural)]
pub struct Duration {
    pub secs: u64,
    pub nanos: u32,
}

impl Duration {
    /// Number of nanoseconds in one second.
    pub const NANOS_PER_SEC: u32 = 1_000_000_000;

    /// A well-formed span keeps its sub-second part below one second.
    pub open spec fn wf(&self) -> bool {
        self.nanos < Self::NANOS_PER_SEC
    }

    /// The span as a number of nanoseconds.
    pub open spec fn total_nanos(&self) -> int {
        self.secs as int * 1_000_000_000 + self.nanos as int
    }

    /// A span of `secs` whole seconds.
    pub fn from_secs(secs: u64) -> (r: Duration)
        ensures
            r.secs == secs,
            r.nanos == 0,
            r.wf(),
    {
        Duration { secs, nanos: 0 }
    }

    /// The whole seconds of the span.
    pub fn as_secs(&self) -> (r: u64)
        ensures
            r == self.secs,
    {
        self.secs
    }
}

} // verus!

//! Points in time, and the time between two of them.
use vstd::prelude::*;

verus! {

/// The number of nanoseconds in a second.
pub const NANOS_PER_SEC: u32 = 1_000_000_000;

/// A point in time: `secs` whole seconds since the Unix epoch, negative before it, and `nanos`
/// nanoseconds after that.
#[derive(Debug, Clone, Copy, PartialEq, Eq, Structural)]
pub struct Timestamp {
    pub secs: i64,
    pub nanos: u32,
}

/// A span of time.
#[derive(Debug, Clone, Copy, PartialEq, Eq, Structural)]
pub struct Elapsed {
    pub secs: u64,
    pub nanos: u32,
}

impl Timestamp {
    /// The nanoseconds are less than a second.
    pub open spec fn wf(self) -> bool {
        self.nanos < NANOS_PER_SEC
    }

    /// The distance from the Unix epoch, in nanoseconds.
    pub open spec fn total_nanos(self) -> int {
        self.secs * NANOS_PER_SEC + self.nanos
    }

    /// The time that passed from `earlier` to this point; `None` where `earlier` lies after it.
    pub fn duration_since(self, earlier: Timestamp) -> (span: Option<Elapsed>)
        requires
            self.wf(),
            earlier.wf(),
        ensures
            span is Some <==> earlier.total_nanos() <= self.total_nanos(),
            span matches Some(time) ==> time.wf() && time.total_nanos() == self.total_nanos()
                - earlier.total_nanos(),
    {
        if earlier.secs > self.secs || (earlier.secs == self.secs && earlier.nanos > self.nanos) {
            return None;
        }
        let secs: i128 = self.secs as i128 - earlier.secs as i128;
        if self.nanos >= earlier.nanos {
            Some(Elapsed { secs: secs as u64, nanos: self.nanos - earlier.nanos })
        } else {
            Some(
                Elapsed {
                    secs: (secs - 1) as u64,
                    nanos: NANOS_PER_SEC - (earlier.nanos - self.nanos),
                },
            )
        }
    }
}

impl Elapsed {
    /// The nanoseconds are less than a second.
    pub open spec fn wf(self) -> bool {
        self.nanos < NANOS_PER_SEC
    }

    /// The length of the span, in nanoseconds.
    pub open spec fn total_nanos(self) -> int {
        self.secs * NANOS_PER_SEC + self.nanos
    }
}

/// A second has a thousand million nanoseconds, of points in time as of spans.
pub proof fn seconds_and_nanoseconds_add_up(point: Timestamp, span: Elapsed)
    ensures
        point.total_nanos() == point.secs * 1_000_000_000 + point.nanos,
        span.total_nanos() == span.secs * 1_000_000_000 + span.nanos,
        point.wf() <==> point.nanos < 1_000_000_000,
        span.wf() <==> span.nanos < 1_000_000_000,
{
}

} // verus!

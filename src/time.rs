use vstd::prelude::*;

verus! {

/// Number of nanoseconds in one second.
pub const NANOS_PER_SEC: u32 = 1_000_000_000;

/// A span of time: whole seconds plus a sub-second remainder in nanoseconds.
#[derive(Clone, Copy, Debug, PartialEq, Eq, Structural)]
pub struct Duration {
    pub secs: u64,
    pub nanos: u32,
}

impl Duration {
    /// The span in nanoseconds.
    pub open spec fn total_nanos(self) -> int {
        self.secs as int * NANOS_PER_SEC as int + self.nanos as int
    }

    /// The sub-second part is below one second.
    pub open spec fn wf(self) -> bool {
        self.nanos < NANOS_PER_SEC
    }

    pub fn from_secs(secs: u64) -> (r: Duration)
        ensures
            r.wf(),
            r.secs == secs,
            r.nanos == 0,
    {
        Duration { secs, nanos: 0 }
    }

    pub fn from_millis(millis: u64) -> (r: Duration)
        ensures
            r.wf(),
            r.total_nanos() == millis as int * 1_000_000,
    {
        let secs = millis / 1000;
        let nanos = ((millis % 1000) as u32) * 1_000_000;
        assert(millis as int == secs as int * 1000 + (millis % 1000) as int) by (nonlinear_arith)
            requires
                secs == millis / 1000,
        ;
        Duration { secs, nanos }
    }

    /// Builds a span from seconds and nanoseconds, carrying whole seconds out of `nanos`.
    pub fn new(secs: u64, nanos: u32) -> (r: Duration)
        requires
            secs as int + nanos as int / NANOS_PER_SEC as int <= u64::MAX,
        ensures
            r.wf(),
            r.total_nanos() == secs as int * NANOS_PER_SEC as int + nanos as int,
    {
        let extra = (nanos / NANOS_PER_SEC) as u64;
        Duration { secs: secs + extra, nanos: nanos % NANOS_PER_SEC }
    }
}

/// The wire form of a span: signed seconds and signed nanoseconds.
#[derive(Clone, Copy, Debug, PartialEq, Eq, Structural)]
pub struct ProtoDuration {
    pub seconds: i64,
    pub nanos: i32,
}

/// The wire form of `d`: seconds saturate at `i64::MAX`, the nanoseconds carry over.
pub open spec fn proto_of(d: Duration) -> ProtoDuration {
    ProtoDuration {
        seconds: if d.secs > i64::MAX as u64 { i64::MAX } else { d.secs as i64 },
        nanos: d.nanos as i32,
    }
}

impl ProtoDuration {
    pub fn from_duration(d: Duration) -> (r: ProtoDuration)
        requires
            d.wf(),
        ensures
            r == proto_of(d),
    {
        let seconds: i64 = if d.secs > i64::MAX as u64 { i64::MAX } else { d.secs as i64 };
        ProtoDuration { seconds, nanos: d.nanos as i32 }
    }
}

} // verus!

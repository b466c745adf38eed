//! A span of time, held as whole seconds and the nanoseconds beyond them.
use vstd::prelude::*;

verus! {

pub const NANOS_PER_SEC: u32 = 1_000_000_000;

pub const NANOS_PER_MILLI: u32 = 1_000_000;

/// A non-negative span of time.
#[derive(Debug, Clone, Copy, PartialEq, Eq)]
pub struct Duration {
    secs: u64,
    nanos: u32,
}

impl Duration {
    #[verifier::type_invariant]
    spec fn inv(self) -> bool {
        self.nanos < NANOS_PER_SEC
    }

    /// Whole seconds.
    pub closed spec fn secs_spec(self) -> u64 {
        self.secs
    }

    /// Nanoseconds beyond the whole seconds.
    pub closed spec fn nanos_spec(self) -> u32 {
        self.nanos
    }

    /// The span in whole milliseconds, rounded down.
    pub open spec fn millis_spec(self) -> int {
        self.secs_spec() as int * 1000 + self.nanos_spec() as int / NANOS_PER_MILLI as int
    }

    /// The span in nanoseconds.
    pub open spec fn total_nanos(self) -> int {
        self.secs_spec() as int * NANOS_PER_SEC as int + self.nanos_spec() as int
    }

    /// A span of `secs` seconds and `nanos` nanoseconds; whole seconds in
    /// `nanos` carry over.
    pub fn new(secs: u64, nanos: u32) -> (r: Duration)
        requires
            secs as int + nanos as int / NANOS_PER_SEC as int <= u64::MAX,
        ensures
            r.total_nanos() == secs as int * NANOS_PER_SEC as int + nanos as int,
    {
        let carry: u32 = nanos / NANOS_PER_SEC;
        Duration { secs: secs + carry as u64, nanos: nanos % NANOS_PER_SEC }
    }

    /// A span of whole seconds.
    pub fn from_secs(secs: u64) -> (r: Duration)
        ensures
            r.secs_spec() == secs,
            r.nanos_spec() == 0,
            r.millis_spec() == secs as int * 1000,
    {
        Duration { secs, nanos: 0 }
    }

    /// A span of whole milliseconds.
    pub fn from_millis(millis: u64) -> (r: Duration)
        ensures
            r.millis_spec() == millis as int,
            r.total_nanos() == millis as int * NANOS_PER_MILLI as int,
    {
        let secs: u64 = millis / 1000;
        let rest: u32 = (millis % 1000) as u32;
        let nanos: u32 = rest * NANOS_PER_MILLI;
        assert(nanos as int / NANOS_PER_MILLI as int == rest) by (nonlinear_arith)
            requires nanos == rest * 1_000_000, rest < 1000;
        Duration { secs, nanos }
    }

    /// Whole seconds.
    pub fn as_secs(&self) -> (r: u64)
        ensures
            r == self.secs_spec(),
    {
        self.secs
    }

    /// Nanoseconds beyond the whole seconds.
    pub fn subsec_nanos(&self) -> (r: u32)
        ensures
            r == self.nanos_spec(),
            r < NANOS_PER_SEC,
    {
        proof {
            use_type_invariant(self);
        }
        self.nanos
    }

    /// The span in whole milliseconds, rounded down.
    pub fn as_millis(&self) -> (r: u128)
        ensures
            r == self.millis_spec(),
    {
        self.secs as u128 * 1000 + (self.nanos / NANOS_PER_MILLI) as u128
    }
}

} // verus!

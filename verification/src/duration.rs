//! A span of time with nanosecond resolution, held as whole seconds plus the
//! nanoseconds below a second, so every span a `core::time::Duration` holds can be
//! expressed.

use vstd::prelude::*;

verus! {

/// Nanoseconds in a second.
pub const NANOS_PER_SEC: u32 = 1_000_000_000;

/// A span of time.
#[derive(Debug, Clone, Copy, PartialEq, Eq)]
pub struct Duration {
    secs: u64,
    nanos: u32,
}

impl Duration {
    /// The nanoseconds part stays below one second.
    #[verifier::type_invariant]
    spec fn inv(self) -> bool {
        self.nanos < NANOS_PER_SEC
    }
}

impl View for Duration {
    type V = nat;

    /// The span in nanoseconds.
    closed spec fn view(&self) -> nat {
        (self.secs * 1_000_000_000 + self.nanos) as nat
    }
}

impl Duration {
    /// A span of `secs` seconds and `nanos` nanoseconds; nanoseconds beyond a second
    /// carry into the seconds.
    pub fn new(secs: u64, nanos: u32) -> (d: Self)
        requires
            secs + nanos / 1_000_000_000 <= u64::MAX,
        ensures
            d@ == secs * 1_000_000_000 + nanos,
    {
        Duration { secs: secs + (nanos / NANOS_PER_SEC) as u64, nanos: nanos % NANOS_PER_SEC }
    }

    /// A span of `secs` seconds.
    pub fn from_secs(secs: u64) -> (d: Self)
        ensures
            d@ == secs * 1_000_000_000,
    {
        Duration { secs, nanos: 0 }
    }

    /// A span of `millis` milliseconds.
    pub fn from_millis(millis: u64) -> (d: Self)
        ensures
            d@ == millis * 1_000_000,
    {
        Duration { secs: millis / 1000, nanos: ((millis % 1000) * 1_000_000) as u32 }
    }

    /// A span of `micros` microseconds.
    pub fn from_micros(micros: u64) -> (d: Self)
        ensures
            d@ == micros * 1000,
    {
        Duration { secs: micros / 1_000_000, nanos: ((micros % 1_000_000) * 1000) as u32 }
    }

    /// A span of `nanos` nanoseconds.
    pub fn from_nanos(nanos: u64) -> (d: Self)
        ensures
            d@ == nanos,
    {
        Duration { secs: nanos / 1_000_000_000, nanos: (nanos % 1_000_000_000) as u32 }
    }

    /// The whole seconds of the span.
    pub fn as_secs(&self) -> (s: u64)
        ensures
            s == self@ / 1_000_000_000,
    {
        proof { use_type_invariant(self); }
        self.secs
    }

    /// The nanoseconds of the span below a whole second.
    pub fn subsec_nanos(&self) -> (n: u32)
        ensures
            n == self@ % 1_000_000_000,
    {
        proof { use_type_invariant(self); }
        self.nanos
    }

    /// The span in whole microseconds.
    pub fn as_micros(&self) -> (m: u128)
        ensures
            m == self@ / 1000,
    {
        proof { use_type_invariant(self); }
        (self.secs as u128) * 1_000_000 + (self.nanos / 1000) as u128
    }
}

} // verus!

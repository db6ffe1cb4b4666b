//! A span of time counted in nanoseconds, laid out as the native side expects.
use vstd::prelude::*;

verus! {

/// Nanoseconds in a microsecond, microseconds in a millisecond, and
/// milliseconds in a second.
pub const UNIT_STEP: u64 = 1000;

/// A span of time in whole nanoseconds.
#[derive(Copy, Clone)]
pub struct TimeSpan {
    pub nanos: u64,
}

impl TimeSpan {
    pub fn from_nanos(nanos: u64) -> (r: Self)
        ensures
            r.nanos == nanos,
    {
        TimeSpan { nanos }
    }

    pub fn from_micros(micros: u64) -> (r: Self)
        requires
            micros * 1000 <= u64::MAX,
        ensures
            r.nanos == micros * 1000,
    {
        TimeSpan { nanos: micros * UNIT_STEP }
    }

    pub fn from_millis(millis: u64) -> (r: Self)
        requires
            millis * 1_000_000 <= u64::MAX,
        ensures
            r.nanos == millis * 1_000_000,
    {
        TimeSpan { nanos: millis * 1_000_000 }
    }

    pub fn from_secs(secs: u64) -> (r: Self)
        requires
            secs * 1_000_000_000 <= u64::MAX,
        ensures
            r.nanos == secs * 1_000_000_000,
    {
        TimeSpan { nanos: secs * 1_000_000_000 }
    }

    pub fn as_nanos(&self) -> (r: u64)
        ensures
            r == self.nanos,
    {
        self.nanos
    }

    /// Whole microseconds, rounded down.
    pub fn as_micros(&self) -> (r: u64)
        ensures
            r == self.nanos / 1000,
    {
        self.nanos / UNIT_STEP
    }

    /// Whole milliseconds, rounded down.
    pub fn as_millis(&self) -> (r: u64)
        ensures
            r == self.nanos / 1_000_000,
    {
        let r = self.as_micros() / UNIT_STEP;
        proof {
            lemma_div_div(self.nanos as int, 1000, 1000);
        }
        r
    }

    /// Whole seconds, rounded down.
    pub fn as_secs(&self) -> (r: u64)
        ensures
            r == self.nanos / 1_000_000_000,
    {
        let r = self.as_millis() / UNIT_STEP;
        proof {
            lemma_div_div(self.nanos as int, 1_000_000, 1000);
        }
        r
    }
}

proof fn lemma_div_div(x: int, a: int, b: int)
    requires
        x >= 0,
        a > 0,
        b > 0,
    ensures
        x / a / b == x / (a * b),
{
    vstd::arithmetic::div_mod::lemma_div_denominator(x, a, b);
}

} // verus!

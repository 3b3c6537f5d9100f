//! Lengths of time with nanosecond resolution.
//!
//! A [`Span`] holds exactly the lengths that `std::time::Duration` holds, as one
//! number of nanoseconds, so that arithmetic on it is plain integer arithmetic.
//! Points in time are spans too: a wall-clock time is the span since the Unix
//! epoch, a monotonic time is the span since an origin that the caller picks.

use vstd::prelude::*;

verus! {

pub const NANOS_PER_MICRO: u128 = 1_000;

pub const NANOS_PER_MILLI: u128 = 1_000_000;

pub const NANOS_PER_SEC: u128 = 1_000_000_000;

/// The longest span, in nanoseconds: `u64::MAX` seconds and 999,999,999 nanoseconds.
pub const MAX_NANOS: u128 = 18_446_744_073_709_551_615_999_999_999;

/// The time that has passed at `now` since `start`, both in nanoseconds;
/// nothing where `now` is the earlier one.
pub open spec fn elapsed_since(start: nat, now: nat) -> nat {
    if start <= now {
        (now - start) as nat
    } else {
        0
    }
}

/// A non-negative length of time of at most `MAX_NANOS` nanoseconds.
#[derive(Clone, Copy, Debug, PartialEq, Eq, Structural)]
pub struct Span {
    nanos: u128,
}

impl Span {
    #[verifier::type_invariant]
    pub closed spec fn wf(self) -> bool {
        self.nanos <= MAX_NANOS
    }

    /// The length of the span in nanoseconds.
    pub closed spec fn nanos(self) -> nat {
        self.nanos as nat
    }

    /// The span of no length.
    pub fn zero() -> (s: Span)
        ensures
            s.nanos() == 0,
    {
        Span { nanos: 0 }
    }

    /// The span of `secs` seconds and `subsec_nanos` nanoseconds.
    pub fn new(secs: u64, subsec_nanos: u32) -> (s: Span)
        requires
            subsec_nanos < NANOS_PER_SEC,
        ensures
            s.nanos() == secs * NANOS_PER_SEC + subsec_nanos,
    {
        Span { nanos: secs as u128 * NANOS_PER_SEC + subsec_nanos as u128 }
    }

    pub fn from_secs(secs: u64) -> (s: Span)
        ensures
            s.nanos() == secs * NANOS_PER_SEC,
    {
        Span { nanos: secs as u128 * NANOS_PER_SEC }
    }

    pub fn from_millis(millis: u64) -> (s: Span)
        ensures
            s.nanos() == millis * NANOS_PER_MILLI,
    {
        Span { nanos: millis as u128 * NANOS_PER_MILLI }
    }

    pub fn from_micros(micros: u64) -> (s: Span)
        ensures
            s.nanos() == micros * NANOS_PER_MICRO,
    {
        Span { nanos: micros as u128 * NANOS_PER_MICRO }
    }

    /// The span of `micros` microseconds, for a count that may exceed 64 bits.
    pub fn from_micros_wide(micros: u128) -> (s: Span)
        requires
            micros * NANOS_PER_MICRO <= MAX_NANOS,
        ensures
            s.nanos() == micros * NANOS_PER_MICRO,
    {
        Span { nanos: micros * NANOS_PER_MICRO }
    }

    pub fn as_nanos(&self) -> (n: u128)
        ensures
            n == self.nanos(),
            n <= MAX_NANOS,
    {
        proof {
            use_type_invariant(self);
        }
        self.nanos
    }

    /// Whole microseconds in the span.
    pub fn as_micros(&self) -> (n: u128)
        ensures
            n == self.nanos() / (NANOS_PER_MICRO as nat),
    {
        self.nanos / NANOS_PER_MICRO
    }

    /// Whole milliseconds in the span.
    pub fn as_millis(&self) -> (n: u128)
        ensures
            n == self.nanos() / (NANOS_PER_MILLI as nat),
    {
        self.nanos / NANOS_PER_MILLI
    }

    /// Whole seconds in the span.
    pub fn as_secs(&self) -> (n: u64)
        ensures
            n == self.nanos() / (NANOS_PER_SEC as nat),
    {
        proof {
            use_type_invariant(self);
        }
        (self.nanos / NANOS_PER_SEC) as u64
    }

    /// The part of the span below one second, in nanoseconds.
    pub fn subsec_nanos(&self) -> (n: u32)
        ensures
            n == self.nanos() % (NANOS_PER_SEC as nat),
    {
        (self.nanos % NANOS_PER_SEC) as u32
    }

    /// `self - other`, or `None` where `other` is the longer one.
    pub fn checked_sub(&self, other: Span) -> (r: Option<Span>)
        ensures
            r is Some <==> other.nanos() <= self.nanos(),
            r matches Some(d) ==> d.nanos() == self.nanos() - other.nanos(),
    {
        proof {
            use_type_invariant(self);
        }
        if other.nanos <= self.nanos {
            Some(Span { nanos: self.nanos - other.nanos })
        } else {
            None
        }
    }

    /// `self - other`, or the empty span where `other` is the longer one.
    pub fn saturating_sub(&self, other: Span) -> (d: Span)
        ensures
            d.nanos() == if other.nanos() <= self.nanos() {
                self.nanos() - other.nanos()
            } else {
                0
            },
    {
        proof {
            use_type_invariant(self);
        }
        if other.nanos <= self.nanos {
            Span { nanos: self.nanos - other.nanos }
        } else {
            Span { nanos: 0 }
        }
    }

    /// `self + other`, or `None` where the sum is longer than the longest span.
    pub fn checked_add(&self, other: Span) -> (r: Option<Span>)
        ensures
            r is Some <==> self.nanos() + other.nanos() <= MAX_NANOS,
            r matches Some(s) ==> s.nanos() == self.nanos() + other.nanos(),
    {
        proof {
            use_type_invariant(self);
            use_type_invariant(other);
        }
        let sum: u128 = self.nanos + other.nanos;
        if sum <= MAX_NANOS {
            Some(Span { nanos: sum })
        } else {
            None
        }
    }

    /// The span divided by `divisor`, rounded down to whole nanoseconds.
    pub fn div(&self, divisor: u32) -> (q: Span)
        requires
            divisor > 0,
        ensures
            q.nanos() == self.nanos() / (divisor as nat),
    {
        proof {
            use_type_invariant(self);
            vstd::arithmetic::div_mod::lemma_div_is_ordered_by_denominator(
                self.nanos as int,
                1,
                divisor as int,
            );
        }
        Span { nanos: self.nanos / (divisor as u128) }
    }

    /// The shorter of the two spans.
    pub fn min(&self, other: Span) -> (m: Span)
        ensures
            m.nanos() == if self.nanos() <= other.nanos() {
                self.nanos()
            } else {
                other.nanos()
            },
    {
        if self.nanos <= other.nanos {
            *self
        } else {
            other
        }
    }
}

} // verus!

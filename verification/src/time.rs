//! Spans of playback time, counted in whole nanoseconds.

use vstd::prelude::*;
use crate::codec::{calc_time, calc_time_subsec, tick_secs};

verus! {

/// Nanoseconds in one second.
pub const NANOS_PER_SEC: u32 = 1_000_000_000;

/// Nanoseconds in one millisecond.
pub const NANOS_PER_MILLI: u32 = 1_000_000;

/// Milliseconds in one second.
pub const MILLIS_PER_SEC: u64 = 1_000;

/// The longest span there is, in nanoseconds.
pub open spec fn max_nanos() -> nat {
    (u64::MAX as nat) * (NANOS_PER_SEC as nat) + (NANOS_PER_SEC as nat - 1) as nat
}

/// A span of time: whole seconds and the nanoseconds beyond them, which are
/// always less than one second. Its view is the total in nanoseconds.
#[derive(Debug, Clone, Copy, PartialEq, Eq)]
pub struct Span {
    secs: u64,
    nanos: u32,
}

impl View for Span {
    type V = nat;

    closed spec fn view(&self) -> nat {
        (self.secs as nat) * (NANOS_PER_SEC as nat) + (self.nanos as nat)
    }
}

impl Span {
    #[verifier::type_invariant]
    closed spec fn sub_second(self) -> bool {
        self.nanos < NANOS_PER_SEC
    }

    /// No time at all.
    pub fn zero() -> (s: Span)
        ensures
            s@ == 0,
    {
        Span { secs: 0, nanos: 0 }
    }

    /// `secs` seconds and `nanos` nanoseconds.
    pub fn new(secs: u64, nanos: u32) -> (s: Span)
        requires
            nanos < NANOS_PER_SEC,
        ensures
            s@ == secs * NANOS_PER_SEC + nanos,
    {
        Span { secs, nanos }
    }

    /// `secs` whole seconds.
    pub fn from_secs(secs: u64) -> (s: Span)
        ensures
            s@ == secs * NANOS_PER_SEC,
    {
        Span { secs, nanos: 0 }
    }

    /// `millis` milliseconds.
    pub fn from_millis(millis: u64) -> (s: Span)
        ensures
            s@ == millis * NANOS_PER_MILLI,
    {
        let secs: u64 = millis / MILLIS_PER_SEC;
        let rest: u64 = millis % MILLIS_PER_SEC;
        let nanos: u32 = (rest as u32) * NANOS_PER_MILLI;
        Span { secs, nanos }
    }

    /// The whole seconds.
    pub fn secs(&self) -> (n: u64)
        ensures
            n == self@ / (NANOS_PER_SEC as nat),
    {
        proof {
            use_type_invariant(self);
        }
        self.secs
    }

    /// The nanoseconds beyond the whole seconds.
    pub fn subsec_nanos(&self) -> (n: u32)
        ensures
            n == self@ % (NANOS_PER_SEC as nat),
            n < NANOS_PER_SEC,
    {
        proof {
            use_type_invariant(self);
        }
        self.nanos
    }

    /// The span in whole milliseconds, rounded down.
    pub fn as_millis(&self) -> (n: u128)
        ensures
            n == self@ / (NANOS_PER_MILLI as nat),
    {
        proof {
            use_type_invariant(self);
        }
        (self.secs as u128) * 1_000 + ((self.nanos / NANOS_PER_MILLI) as u128)
    }

    /// The span in nanoseconds.
    pub fn as_nanos(&self) -> (n: u128)
        ensures
            n == self@,
    {
        proof {
            use_type_invariant(self);
        }
        (self.secs as u128) * 1_000_000_000 + (self.nanos as u128)
    }

    /// Whether this span is shorter than `other`.
    pub fn lt(&self, other: &Span) -> (b: bool)
        ensures
            b == (self@ < other@),
    {
        proof {
            use_type_invariant(self);
            use_type_invariant(other);
        }
        self.secs < other.secs || (self.secs == other.secs && self.nanos < other.nanos)
    }

    /// Whether this span is no longer than `other`.
    pub fn le(&self, other: &Span) -> (b: bool)
        ensures
            b == (self@ <= other@),
    {
        proof {
            use_type_invariant(self);
            use_type_invariant(other);
        }
        self.secs < other.secs || (self.secs == other.secs && self.nanos <= other.nanos)
    }

    /// The shorter of the two.
    pub fn min(self, other: Span) -> (m: Span)
        ensures
            m@ == if self@ <= other@ { self@ } else { other@ },
            m == self || m == other,
    {
        if self.le(&other) {
            self
        } else {
            other
        }
    }

    /// The two spans added; the longest span there is when the sum is beyond
    /// it.
    pub fn saturating_add(self, other: Span) -> (sum: Span)
        ensures
            sum@ == if self@ + other@ <= max_nanos() { self@ + other@ } else { max_nanos() },
    {
        proof {
            use_type_invariant(self);
            use_type_invariant(other);
        }
        let mut nanos: u32 = self.nanos + other.nanos;
        let mut carry: u64 = 0;
        if nanos >= NANOS_PER_SEC {
            nanos = nanos - NANOS_PER_SEC;
            carry = 1;
        }
        match self.secs.checked_add(other.secs) {
            Some(partial) => match partial.checked_add(carry) {
                Some(secs) => Span { secs, nanos },
                None => Span { secs: u64::MAX, nanos: NANOS_PER_SEC - 1 },
            },
            None => Span { secs: u64::MAX, nanos: NANOS_PER_SEC - 1 },
        }
    }

    /// This span shortened by `other`; no time at all when `other` is the
    /// longer one.
    pub fn saturating_sub(self, other: Span) -> (rest: Span)
        ensures
            rest@ == if self@ >= other@ { self@ - other@ } else { 0 },
    {
        proof {
            use_type_invariant(self);
            use_type_invariant(other);
        }
        if self.lt(&other) {
            Span { secs: 0, nanos: 0 }
        } else if self.nanos >= other.nanos {
            Span { secs: self.secs - other.secs, nanos: self.nanos - other.nanos }
        } else {
            Span { secs: self.secs - other.secs - 1, nanos: self.nanos + NANOS_PER_SEC - other.nanos }
        }
    }
}

/// The time, in nanoseconds, that `ts` ticks of `numer / denom` seconds each
/// come to.
pub open spec fn ticks_nanos(numer: u32, denom: u32, ts: u64) -> nat {
    (tick_secs(numer, denom, ts) * (NANOS_PER_SEC as int) + calc_time_subsec(numer, denom, ts)) as nat
}

/// The length of one tick of a track's clock, as a fraction of a second.
/// Neither part of the fraction is 0.
#[derive(Debug, Clone, Copy, PartialEq, Eq)]
pub struct TickRate {
    numer: u32,
    denom: u32,
}

impl TickRate {
    #[verifier::type_invariant]
    closed spec fn positive(self) -> bool {
        self.numer > 0 && self.denom > 0
    }

    /// The numerator of the fraction.
    pub closed spec fn numer(self) -> u32 {
        self.numer
    }

    /// The denominator of the fraction.
    pub closed spec fn denom(self) -> u32 {
        self.denom
    }

    /// A tick of `numer / denom` seconds, or `None` where either is 0.
    pub fn new(numer: u32, denom: u32) -> (r: Option<TickRate>)
        ensures
            r.is_some() <==> numer > 0 && denom > 0,
            r matches Some(rate) ==> rate.numer() == numer && rate.denom() == denom,
    {
        if numer > 0 && denom > 0 {
            Some(TickRate { numer, denom })
        } else {
            None
        }
    }

    /// The time that `ts` ticks come to.
    pub fn span(&self, ts: u64) -> (s: Span)
        ensures
            s@ == ticks_nanos(self.numer(), self.denom(), ts),
            self.numer() > 0,
            self.denom() > 0,
            (ts as int * self.numer() as int) % (self.denom() as int) == 0 ==> s@ == tick_secs(
                self.numer(),
                self.denom(),
                ts,
            ) * NANOS_PER_SEC,
            ts == 0 ==> s@ == 0,
    {
        proof {
            use_type_invariant(self);
        }
        let (secs, nanos) = calc_time(self.numer, self.denom, ts);
        proof {
            if ts == 0 {
                assert(ts as int * self.numer as int == 0) by (nonlinear_arith)
                    requires
                        ts == 0,
                ;
            }
        }
        Span::new(secs, nanos)
    }
}

} // verus!

//! Spans of time, as nanoseconds, in the shape of `core::time::Duration`.

use vstd::prelude::*;

verus! {

/// Nanoseconds in one second.
pub const NANOS_PER_SEC: u128 = 1_000_000_000;

/// The greatest number of nanoseconds a span can hold: `u64::MAX` whole seconds and
/// `NANOS_PER_SEC - 1` nanoseconds, as with `core::time::Duration`.
pub open spec fn max_nanos() -> nat {
    (u64::MAX as nat) * (NANOS_PER_SEC as nat) + (NANOS_PER_SEC as nat - 1) as nat
}

/// A span of time, measured in nanoseconds. Equality and order are those of the number of
/// nanoseconds, and the range of values is that of `core::time::Duration`. Verified code compares
/// spans with [`Duration::lt`], [`Duration::le`] and [`Duration::same`].
#[derive(Clone, Copy, Debug, PartialEq, Eq, Structural, PartialOrd, Ord, Hash)]
pub struct Duration {
    nanos: u128,
}

impl View for Duration {
    type V = nat;

    closed spec fn view(&self) -> nat {
        self.nanos as nat
    }
}

impl Default for Duration {
    /// The empty span.
    fn default() -> (d: Duration)
        ensures
            d@ == 0,
    {
        Duration { nanos: 0 }
    }
}

impl Duration {
    #[verifier::type_invariant]
    closed spec fn in_range(self) -> bool {
        self.nanos <= max_nanos()
    }

    /// Two spans are equal exactly when they count the same number of nanoseconds.
    pub proof fn lemma_view_injective(a: Duration, b: Duration)
        ensures
            a@ == b@ <==> a == b,
    {
    }

    /// A span of `secs` whole seconds and `nanos` nanoseconds.
    pub fn new(secs: u64, nanos: u32) -> (d: Duration)
        requires
            secs * NANOS_PER_SEC + nanos <= max_nanos(),
        ensures
            d@ == secs * NANOS_PER_SEC + nanos,
    {
        Duration { nanos: (secs as u128) * NANOS_PER_SEC + (nanos as u128) }
    }

    /// A span of `secs` whole seconds.
    pub fn from_secs(secs: u64) -> (d: Duration)
        ensures
            d@ == secs * NANOS_PER_SEC,
    {
        Duration { nanos: (secs as u128) * NANOS_PER_SEC }
    }

    /// The empty span.
    pub fn zero() -> (d: Duration)
        ensures
            d@ == 0,
    {
        Duration { nanos: 0 }
    }

    /// Whole seconds in this span.
    pub fn as_secs(&self) -> (s: u64)
        ensures
            s == self@ / (NANOS_PER_SEC as nat),
    {
        proof {
            use_type_invariant(self);
        }
        (self.nanos / NANOS_PER_SEC) as u64
    }

    /// Nanoseconds in this span past its whole seconds.
    pub fn subsec_nanos(&self) -> (n: u32)
        ensures
            n == self@ % (NANOS_PER_SEC as nat),
    {
        (self.nanos % NANOS_PER_SEC) as u32
    }

    /// The whole span in nanoseconds.
    pub fn as_nanos(&self) -> (n: u128)
        ensures
            n == self@,
    {
        self.nanos
    }

    /// `self - other`, or the empty span if `other` is longer than `self`.
    pub fn saturating_sub(self, other: Duration) -> (d: Duration)
        ensures
            d@ == if self@ >= other@ { self@ - other@ } else { 0 },
    {
        proof {
            use_type_invariant(self);
        }
        if self.nanos >= other.nanos {
            Duration { nanos: self.nanos - other.nanos }
        } else {
            Duration { nanos: 0 }
        }
    }

    /// `self + other`, or the longest span if the sum is out of range.
    pub fn saturating_add(self, other: Duration) -> (d: Duration)
        ensures
            d@ == if self@ + other@ <= max_nanos() { self@ + other@ } else { max_nanos() },
    {
        proof {
            use_type_invariant(self);
            use_type_invariant(other);
        }
        if self.nanos <= (u64::MAX as u128) * NANOS_PER_SEC + (NANOS_PER_SEC - 1) - other.nanos {
            Duration { nanos: self.nanos + other.nanos }
        } else {
            Duration { nanos: (u64::MAX as u128) * NANOS_PER_SEC + (NANOS_PER_SEC - 1) }
        }
    }

    /// `self + other`, or `None` if the sum is out of range.
    pub fn checked_add(self, other: Duration) -> (d: Option<Duration>)
        ensures
            d matches Some(s) ==> s@ == self@ + other@,
            d is None <==> self@ + other@ > max_nanos(),
    {
        proof {
            use_type_invariant(self);
            use_type_invariant(other);
        }
        if self.nanos <= (u64::MAX as u128) * NANOS_PER_SEC + (NANOS_PER_SEC - 1) - other.nanos {
            Some(Duration { nanos: self.nanos + other.nanos })
        } else {
            None
        }
    }

    /// `true` when `self` is shorter than `other`.
    pub fn lt(&self, other: &Duration) -> (r: bool)
        ensures
            r <==> self@ < other@,
    {
        self.nanos < other.nanos
    }

    /// `true` when `self` is no longer than `other`.
    pub fn le(&self, other: &Duration) -> (r: bool)
        ensures
            r <==> self@ <= other@,
    {
        self.nanos <= other.nanos
    }

    /// `true` when both spans are equally long.
    pub fn same(&self, other: &Duration) -> (r: bool)
        ensures
            r <==> self@ == other@,
    {
        self.nanos == other.nanos
    }
}

} // verus!

//! Polling intervals with nanosecond resolution.

use vstd::prelude::*;

verus! {

/// Nanoseconds in one second.
pub const NANOS_PER_SEC: u32 = 1_000_000_000;

/// The largest number of nanoseconds an [`Interval`] can hold: `u64::MAX`
/// whole seconds and a fraction just short of one more.
pub const MAX_NANOS: u128 = 18_446_744_073_709_551_615_999_999_999;

/// A span of time between two polls of a block.
///
/// Its model (`@`) is the length of the span in nanoseconds, which is never
/// more than [`MAX_NANOS`] for a value that a program holds.
#[derive(Clone, Copy, Debug, PartialEq, Eq, Structural)]
pub struct Interval {
    nanos: u128,
}

impl View for Interval {
    type V = nat;

    closed spec fn view(&self) -> nat {
        self.nanos as nat
    }
}

impl Interval {
    #[verifier::type_invariant]
    spec fn in_range(self) -> bool {
        self.nanos <= MAX_NANOS
    }

    /// An interval of `secs` whole seconds.
    pub fn from_secs(secs: u64) -> (interval: Interval)
        ensures
            interval@ == secs * NANOS_PER_SEC,
    {
        let wide: u128 = secs as u128;
        Interval { nanos: wide * 1_000_000_000u128 }
    }

    /// An interval of `secs` seconds and `nanos` nanoseconds, where that is
    /// not more than [`MAX_NANOS`]. A billion nanoseconds or more count as
    /// the seconds that they make up.
    pub fn new(secs: u64, nanos: u32) -> (interval: Option<Interval>)
        ensures
            interval is Some <==> secs * NANOS_PER_SEC + nanos <= MAX_NANOS,
            interval matches Some(i) ==> i@ == secs * NANOS_PER_SEC + nanos,
    {
        let wide: u128 = secs as u128;
        let total: u128 = wide * 1_000_000_000u128 + nanos as u128;
        if total <= MAX_NANOS {
            Some(Interval { nanos: total })
        } else {
            None
        }
    }

    /// The whole seconds in the interval.
    pub fn as_secs(&self) -> (secs: u64)
        ensures
            secs == self@ / (NANOS_PER_SEC as nat),
    {
        proof {
            use_type_invariant(self);
        }
        (self.nanos / 1_000_000_000u128) as u64
    }

    /// The part of the interval that is short of a whole second, in
    /// nanoseconds.
    pub fn subsec_nanos(&self) -> (nanos: u32)
        ensures
            nanos == self@ % (NANOS_PER_SEC as nat),
            nanos < NANOS_PER_SEC,
    {
        (self.nanos % 1_000_000_000u128) as u32
    }

    /// Whether the interval has no length.
    pub fn is_zero(&self) -> (zero: bool)
        ensures
            zero == (self@ == 0),
    {
        self.nanos == 0
    }
}

/// Two intervals of the same length are the same interval.
pub proof fn lemma_same_length_same_interval(a: Interval, b: Interval)
    requires
        a@ == b@,
    ensures
        a == b,
{
}

} // verus!

//! Points in time and lengths of time, counted in whole nanoseconds.
//!
//! The store never reads a clock. Whoever drives it hands in the current
//! instant as a [`Timestamp`], which makes every expiry decision a function
//! of its arguments.

use vstd::prelude::*;

verus! {

/// Nanoseconds in one second.
pub const NANOS_PER_SEC: u128 = 1_000_000_000;

/// Nanoseconds in one millisecond.
pub const NANOS_PER_MILLI: u128 = 1_000_000;

/// The largest number of nanoseconds a [`TimeSpan`] or [`Timestamp`] holds:
/// `u64::MAX` whole seconds and 999 999 999 nanoseconds more.
pub const MAX_NANOS: u128 = 18_446_744_073_709_551_615_999_999_999;

/// A length of time.
///
/// The view is the length in nanoseconds, never more than [`MAX_NANOS`].
#[derive(Clone, Copy, Debug, PartialEq, Eq, PartialOrd, Ord)]
pub struct TimeSpan {
    nanos: u128,
}

impl View for TimeSpan {
    type V = nat;

    closed spec fn view(&self) -> nat {
        self.nanos as nat
    }
}

impl TimeSpan {
    #[verifier::type_invariant]
    pub open spec fn in_range(self) -> bool {
        self@ <= MAX_NANOS
    }

    /// A span of `secs` whole seconds and `nanos` nanoseconds more. `nanos`
    /// may be a second or longer.
    pub fn new(secs: u64, nanos: u32) -> (span: Option<TimeSpan>)
        ensures
            secs * NANOS_PER_SEC + nanos <= MAX_NANOS ==> span is Some,
            secs * NANOS_PER_SEC + nanos > MAX_NANOS ==> span is None,
            span matches Some(s) ==> s@ == secs * NANOS_PER_SEC + nanos,
    {
        let wide: u128 = secs as u128;
        let extra: u128 = nanos as u128;
        let total: u128 = wide * NANOS_PER_SEC + extra;
        if total <= MAX_NANOS {
            Some(TimeSpan { nanos: total })
        } else {
            None
        }
    }

    /// A span of whole seconds.
    pub fn from_secs(secs: u64) -> (span: TimeSpan)
        ensures
            span@ == secs * NANOS_PER_SEC,
    {
        let wide: u128 = secs as u128;
        TimeSpan { nanos: wide * NANOS_PER_SEC }
    }

    /// A span of whole milliseconds.
    pub fn from_millis(millis: u64) -> (span: TimeSpan)
        ensures
            span@ == millis * NANOS_PER_MILLI,
    {
        let wide: u128 = millis as u128;
        TimeSpan { nanos: wide * NANOS_PER_MILLI }
    }

    /// The whole seconds in the span.
    pub fn as_secs(&self) -> (secs: u64)
        ensures
            secs == self@ / (NANOS_PER_SEC as nat),
    {
        proof {
            use_type_invariant(self);
        }
        (self.nanos / NANOS_PER_SEC) as u64
    }

    /// What is left of the span after its whole seconds, in nanoseconds.
    pub fn subsec_nanos(&self) -> (nanos: u32)
        ensures
            nanos == self@ % (NANOS_PER_SEC as nat),
    {
        (self.nanos % NANOS_PER_SEC) as u32
    }

    /// The whole milliseconds in the span.
    pub fn as_millis(&self) -> (millis: u128)
        ensures
            millis == self@ / (NANOS_PER_MILLI as nat),
    {
        self.nanos / NANOS_PER_MILLI
    }
}

/// A point in time, counted from the Unix epoch.
///
/// The view is the number of nanoseconds since the epoch, never more than
/// [`MAX_NANOS`].
#[derive(Clone, Copy, Debug, PartialEq, Eq, PartialOrd, Ord)]
pub struct Timestamp {
    nanos: u128,
}

impl View for Timestamp {
    type V = nat;

    closed spec fn view(&self) -> nat {
        self.nanos as nat
    }
}

impl Timestamp {
    #[verifier::type_invariant]
    pub open spec fn in_range(self) -> bool {
        self@ <= MAX_NANOS
    }

    /// The instant `n` nanoseconds after the epoch. Meaningful for `n` up to
    /// [`MAX_NANOS`].
    pub closed spec fn at(n: nat) -> Timestamp {
        Timestamp { nanos: n as u128 }
    }

    /// The instant that lies `span` after this one.
    pub open spec fn plus(self, span: TimeSpan) -> Timestamp {
        Self::at(self@ + span@)
    }

    /// `at` builds the instant at the given distance from the epoch.
    pub proof fn lemma_at(n: nat)
        requires
            n <= MAX_NANOS,
        ensures
            Self::at(n)@ == n,
            Self::at(n).in_range(),
    {
    }

    /// The instant that lies `since_epoch` after the Unix epoch.
    pub fn from_unix(since_epoch: TimeSpan) -> (instant: Timestamp)
        ensures
            instant@ == since_epoch@,
    {
        proof {
            use_type_invariant(since_epoch);
        }
        Timestamp { nanos: since_epoch.nanos }
    }

    /// The time passed since the Unix epoch.
    pub fn since_unix(&self) -> (span: TimeSpan)
        ensures
            span@ == self@,
    {
        proof {
            use_type_invariant(self);
        }
        TimeSpan { nanos: self.nanos }
    }

    /// The instant `span` later, or `None` where that instant lies beyond
    /// [`MAX_NANOS`].
    pub fn checked_add(&self, span: TimeSpan) -> (later: Option<Timestamp>)
        ensures
            self@ + span@ <= MAX_NANOS ==> later == Some(self.plus(span)),
            self@ + span@ > MAX_NANOS ==> later is None,
            later matches Some(t) ==> t@ == self@ + span@,
    {
        proof {
            use_type_invariant(self);
            use_type_invariant(span);
        }
        let total: u128 = self.nanos + span.nanos;
        if total <= MAX_NANOS {
            Some(Timestamp { nanos: total })
        } else {
            None
        }
    }

    /// The instant `span` later, where that instant lies within
    /// [`MAX_NANOS`].
    pub fn later_by(&self, span: TimeSpan) -> (later: Timestamp)
        requires
            self@ + span@ <= MAX_NANOS,
        ensures
            later == self.plus(span),
            later@ == self@ + span@,
    {
        Timestamp { nanos: self.nanos + span.nanos }
    }

    /// Whether this instant lies strictly after `other`.
    pub fn is_after(&self, other: &Timestamp) -> (after: bool)
        ensures
            after == (self@ > other@),
    {
        self.nanos > other.nanos
    }

    /// The whole seconds since the Unix epoch.
    pub fn as_secs(&self) -> (secs: u64)
        ensures
            secs == self@ / (NANOS_PER_SEC as nat),
    {
        proof {
            use_type_invariant(self);
        }
        (self.nanos / NANOS_PER_SEC) as u64
    }
}

} // verus!

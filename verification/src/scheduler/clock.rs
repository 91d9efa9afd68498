//! Instants and lengths of time as plain integers.

use time::OffsetDateTime;
use vstd::prelude::*;

verus! {

/// An absolute point in time, counted in nanoseconds from the Unix epoch.
///
/// Only the instant is kept: two timestamps taken at the same moment in
/// different time zones are equal.
#[derive(Clone, Copy, Debug, PartialEq, Eq, Structural)]
pub struct Timestamp {
    pub unix_nanos: i128,
}

/// A length of time in nanoseconds.
#[derive(Clone, Copy, Debug, PartialEq, Eq, Structural)]
pub struct Span {
    pub nanos: u128,
}

impl View for Timestamp {
    type V = int;

    open spec fn view(&self) -> int {
        self.unix_nanos as int
    }
}

impl View for Span {
    type V = nat;

    open spec fn view(&self) -> nat {
        self.nanos as nat
    }
}

/// The time that passes from `earlier` to `later`; zero when `later` does not
/// come after `earlier`.
pub open spec fn elapsed(earlier: int, later: int) -> nat {
    if later > earlier {
        (later - earlier) as nat
    } else {
        0
    }
}

/// The smaller of two lengths of time.
pub open spec fn shorter(a: nat, b: nat) -> nat {
    if a <= b {
        a
    } else {
        b
    }
}

impl Timestamp {
    /// The timestamp `unix_nanos` nanoseconds after the Unix epoch.
    pub fn from_unix_nanos(unix_nanos: i128) -> (t: Timestamp)
        ensures
            t@ == unix_nanos,
    {
        Timestamp { unix_nanos }
    }

    /// Whether this instant is not later than `other`.
    pub fn is_at_or_before(self, other: Timestamp) -> (r: bool)
        ensures
            r == (self@ <= other@),
    {
        self.unix_nanos <= other.unix_nanos
    }

    /// The time that has passed since `earlier`, or zero if `earlier` is not
    /// in the past of this instant. The difference of any two timestamps fits.
    pub fn saturating_since(self, earlier: Timestamp) -> (d: Span)
        ensures
            d@ == elapsed(earlier@, self@),
    {
        let later: i128 = self.unix_nanos;
        let earlier: i128 = earlier.unix_nanos;
        if later <= earlier {
            Span { nanos: 0 }
        } else if earlier >= 0 || later < 0 {
            Span { nanos: (later - earlier) as u128 }
        } else {
            let below: u128 = (-(earlier + 1)) as u128;
            Span { nanos: later as u128 + below + 1 }
        }
    }
}

impl Span {
    /// A span of `nanos` nanoseconds.
    pub fn from_nanos(nanos: u128) -> (d: Span)
        ensures
            d@ == nanos,
    {
        Span { nanos }
    }

    /// A span of `secs` whole seconds.
    pub fn from_secs(secs: u64) -> (d: Span)
        ensures
            d@ == secs * 1_000_000_000,
    {
        Span { nanos: secs as u128 * 1_000_000_000 }
    }

    /// The smaller of this span and `other`.
    pub fn min(self, other: Span) -> (d: Span)
        ensures
            d@ == shorter(self@, other@),
    {
        if self.nanos <= other.nanos {
            self
        } else {
            other
        }
    }
}

/// Reads the system clock through `time::OffsetDateTime::now_utc` and keeps
/// the instant as nanoseconds since the Unix epoch
/// (`OffsetDateTime::unix_timestamp_nanos`). Nothing is claimed about the
/// value: it is whatever the clock says at the moment of the call. The outside
/// call panics only when the system clock lies outside the calendar range the
/// `time` crate can represent.
#[verifier::external_body]
pub(crate) fn read_clock() -> (now: Timestamp) {
    Timestamp { unix_nanos: OffsetDateTime::now_utc().unix_timestamp_nanos() }
}

} // verus!

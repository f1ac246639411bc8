//! UTC instants at millisecond precision and non-negative spans of time.

use vstd::prelude::*;

verus! {

/// The first instant `chrono` represents: the start of year -262143, in milliseconds
/// since the Unix epoch.
pub const MIN_CHRONO_MILLIS: i64 = -8_334_601_228_800_000;

/// The last instant `chrono` represents: the last millisecond of year 262142.
pub const MAX_CHRONO_MILLIS: i64 = 8_210_266_876_799_999;

/// Whether `chrono` can represent this many milliseconds since the Unix epoch as a
/// `DateTime<Utc>` (what `DateTime::from_timestamp_millis` decides).
pub open spec fn chrono_millis_representable(millis: int) -> bool {
    MIN_CHRONO_MILLIS <= millis <= MAX_CHRONO_MILLIS
}

/// A UTC instant, held as milliseconds since the Unix epoch.
#[derive(Clone, Copy, Debug, PartialEq, Eq, Structural)]
pub struct Timestamp {
    millis: i64,
}

impl View for Timestamp {
    type V = int;

    closed spec fn view(&self) -> int {
        self.millis as int
    }
}

impl Timestamp {
    #[verifier::type_invariant]
    closed spec fn inv(self) -> bool {
        chrono_millis_representable(self.millis as int)
    }

    /// The instant `millis` milliseconds after the epoch, when `chrono` can represent it.
    pub fn from_millis(millis: i64) -> (t: Option<Timestamp>)
        ensures
            t is Some <==> chrono_millis_representable(millis as int),
            t matches Some(x) ==> x@ == millis as int,
    {
        if chrono_accepts_millis(millis) {
            Some(Timestamp { millis })
        } else {
            None
        }
    }

    /// Milliseconds since the epoch.
    pub fn millis(&self) -> (m: i64)
        ensures
            m as int == self@,
            chrono_millis_representable(m as int),
            -8_400_000_000_000_000 <= m <= 8_400_000_000_000_000,
    {
        proof {
            use_type_invariant(self);
        }
        self.millis
    }

    /// `self < other`.
    pub fn before(&self, other: &Timestamp) -> (b: bool)
        ensures
            b == (self@ < other@),
    {
        self.millis < other.millis
    }
}

/// Calls `chrono::Utc::now`; the instant depends on the clock and is not described.
#[verifier::external_body]
pub(crate) fn utc_now() -> (t: Timestamp) {
    Timestamp { millis: chrono::Utc::now().timestamp_millis() }
}

/// Calls `chrono::DateTime::from_timestamp_millis` and reports whether it gave an instant:
/// it does exactly for the instants from the first day of chrono's first year
/// (`NaiveDate::MIN`, year -262143) through the last millisecond of its last year
/// (`NaiveDate::MAX`, year 262142).
#[verifier::external_body]
fn chrono_accepts_millis(millis: i64) -> (ok: bool)
    ensures
        ok == chrono_millis_representable(millis as int),
{
    chrono::DateTime::from_timestamp_millis(millis).is_some()
}

/// Nanoseconds in one second.
pub const NANOS_PER_SEC: u128 = 1_000_000_000;

/// The longest span a `std::time::Duration` can hold, in nanoseconds.
pub const MAX_DURATION_NANOS: u128 = 18_446_744_073_709_551_615u128 * 1_000_000_000u128 + 999_999_999u128;

/// A non-negative span of time with nanosecond precision, with the range of
/// `std::time::Duration`.
#[derive(Clone, Copy, Debug, PartialEq, Eq, Structural)]
pub struct Duration {
    nanos: u128,
}

impl View for Duration {
    type V = nat;

    closed spec fn view(&self) -> nat {
        self.nanos as nat
    }
}

impl Duration {
    #[verifier::type_invariant]
    closed spec fn inv(self) -> bool {
        self.nanos <= MAX_DURATION_NANOS
    }

    /// A span of whole seconds.
    pub fn from_secs(secs: u64) -> (d: Duration)
        ensures
            d@ == secs as nat * 1_000_000_000,
    {
        Duration { nanos: secs as u128 * NANOS_PER_SEC }
    }

    /// A span of whole milliseconds.
    pub fn from_millis(millis: u64) -> (d: Duration)
        ensures
            d@ == millis as nat * 1_000_000,
    {
        Duration { nanos: millis as u128 * 1_000_000 }
    }

    /// Total nanoseconds.
    pub fn as_nanos(&self) -> (n: u128)
        ensures
            n == self@,
            n <= MAX_DURATION_NANOS,
    {
        proof {
            use_type_invariant(self);
        }
        self.nanos
    }

    /// Whole seconds.
    pub fn secs(&self) -> (s: u64)
        ensures
            s == self@ / 1_000_000_000,
    {
        proof {
            use_type_invariant(self);
        }
        (self.nanos / NANOS_PER_SEC) as u64
    }

    /// Nanoseconds beyond the whole seconds.
    pub fn subsec_nanos(&self) -> (n: u32)
        ensures
            n == self@ % 1_000_000_000,
    {
        (self.nanos % NANOS_PER_SEC) as u32
    }

    /// The longer of two spans.
    pub fn max(self, other: Duration) -> (d: Duration)
        ensures
            d@ == if self@ >= other@ { self@ } else { other@ },
    {
        if self.nanos >= other.nanos {
            self
        } else {
            other
        }
    }

    /// The shorter of two spans.
    pub fn min(self, other: Duration) -> (d: Duration)
        ensures
            d@ == if self@ <= other@ { self@ } else { other@ },
    {
        if self.nanos <= other.nanos {
            self
        } else {
            other
        }
    }

    /// `self * factor`, saturating at the longest representable span.
    pub fn saturating_mul(self, factor: u32) -> (d: Duration)
        ensures
            d@ == if self@ * factor <= MAX_DURATION_NANOS { (self@ * factor) as nat } else {
                MAX_DURATION_NANOS as nat
            },
    {
        proof {
            use_type_invariant(&self);
        }
        let f = factor as u128;
        if f == 0 {
            return Duration { nanos: 0 };
        }
        if self.nanos <= MAX_DURATION_NANOS / f {
            proof {
                assert(self.nanos * f <= MAX_DURATION_NANOS) by (nonlinear_arith)
                    requires
                        self.nanos <= MAX_DURATION_NANOS / f,
                        f > 0,
                ;
            }
            Duration { nanos: self.nanos * f }
        } else {
            proof {
                assert(self.nanos * f > MAX_DURATION_NANOS) by (nonlinear_arith)
                    requires
                        self.nanos > MAX_DURATION_NANOS / f,
                        f > 0,
                ;
            }
            Duration { nanos: MAX_DURATION_NANOS }
        }
    }
}

} // verus!

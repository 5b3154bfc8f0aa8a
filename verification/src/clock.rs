//! Points in time, held as plain numbers, and their text forms.

use chrono::DateTime;
use std::time::UNIX_EPOCH;
use vstd::prelude::*;

verus! {

/// Seconds since the Unix epoch of the first instant that `chrono` can hold,
/// `DateTime::<Utc>::MIN_UTC`: midnight on 1 January of the year -262143.
pub const MIN_SECONDS: i64 = -8_334_601_228_800;

/// Seconds since the Unix epoch of the last second that `chrono` can hold,
/// that of `DateTime::<Utc>::MAX_UTC`: 23:59:59 on 31 December of the year
/// 262142.
pub const MAX_SECONDS: i64 = 8_210_266_876_799;

/// Whether `secs` seconds since the Unix epoch plus `nanos` nanoseconds is an
/// instant that a `chrono::DateTime<Utc>` can hold: the pairs for which
/// `DateTime::from_timestamp` gives an instant. A nanosecond count of a
/// thousand million or more stands for a leap second, and is accepted only in
/// the last second of a minute.
pub open spec fn is_utc_instant(secs: int, nanos: int) -> bool {
    &&& MIN_SECONDS <= secs <= MAX_SECONDS
    &&& 0 <= nanos < 2_000_000_000
    &&& nanos >= 1_000_000_000 ==> secs % 60 == 59
}

/// The RFC 3339 text of an instant, as `chrono` writes it for UTC, such as
/// `2024-05-01T12:30:00+00:00`.
pub uninterp spec fn rfc3339_text(secs: int, nanos: int) -> Seq<char>;

/// The text that `chrono` writes for an instant under a `strftime` pattern.
pub uninterp spec fn formatted_text(secs: int, nanos: int, pattern: Seq<char>) -> Seq<char>;

/// The pattern for date and time of day, to the second.
pub open spec fn display_pattern() -> Seq<char> {
    "%Y-%m-%d %H:%M:%S UTC"@
}

/// The text of an instant in the form `2024-05-01 12:30:00 UTC`.
pub open spec fn display_text(secs: int, nanos: int) -> Seq<char> {
    formatted_text(secs, nanos, display_pattern())
}

/// The current time: the system clock read with `SystemTime::elapsed` on the
/// Unix epoch, and the instant made of the reading with
/// `chrono::DateTime::from_timestamp`, which is how `chrono::Utc::now` makes
/// its instant. `Utc::now` itself panics where the clock stands before the
/// Unix epoch or beyond what `chrono` can hold; here both give `None`.
/// Nothing is claimed of the time but that it is an instant `chrono` can
/// hold: `DateTime::timestamp` and `DateTime::timestamp_subsec_nanos` give
/// back the numbers that `from_timestamp` accepted.
#[verifier::external_body]
fn utc_now() -> (now: Option<(i64, u32)>)
    ensures
        now matches Some(reading) ==> is_utc_instant(reading.0 as int, reading.1 as int),
{
    let elapsed = UNIX_EPOCH.elapsed().ok()?;
    let now = DateTime::from_timestamp(elapsed.as_secs() as i64, elapsed.subsec_nanos())?;
    Some((now.timestamp(), now.timestamp_subsec_nanos()))
}

/// `chrono::DateTime::to_rfc3339` on the instant that
/// `DateTime::from_timestamp` makes of the two numbers. `from_timestamp`
/// gives an instant for every pair that `is_utc_instant` admits, and
/// `to_rfc3339` writes every instant.
#[verifier::external_body]
fn format_rfc3339(secs: i64, nanos: u32) -> (text: String)
    requires
        is_utc_instant(secs as int, nanos as int),
    ensures
        text@ == rfc3339_text(secs as int, nanos as int),
{
    DateTime::from_timestamp(secs, nanos).unwrap().to_rfc3339()
}

/// `chrono::DateTime::format` on the instant that `DateTime::from_timestamp`
/// makes of the two numbers, written out with `to_string`. Writing fails, and
/// `to_string` panics, where the pattern holds an item that `chrono` refuses;
/// the one pattern admitted here holds none.
#[verifier::external_body]
fn format_instant(secs: i64, nanos: u32, pattern: &str) -> (text: String)
    requires
        is_utc_instant(secs as int, nanos as int),
        pattern@ == display_pattern(),
    ensures
        text@ == formatted_text(secs as int, nanos as int, pattern@),
{
    DateTime::from_timestamp(secs, nanos).unwrap().format(pattern).to_string()
}

/// What a `Timestamp` stands for.
pub struct Instant {
    pub secs: int,
    pub nanos: int,
}

/// An instant in UTC: seconds since the Unix epoch and nanoseconds into that
/// second. Every value is an instant that `chrono` can hold.
#[derive(Clone, Copy, Debug, PartialEq, Eq)]
pub struct Timestamp {
    secs: i64,
    nanos: u32,
}

impl View for Timestamp {
    type V = Instant;

    closed spec fn view(&self) -> Instant {
        Instant { secs: self.secs as int, nanos: self.nanos as int }
    }
}

impl Timestamp {
    #[verifier::type_invariant]
    spec fn well_formed(self) -> bool {
        is_utc_instant(self.secs as int, self.nanos as int)
    }

    /// The timestamp for the given numbers, if they make an instant.
    pub fn new(secs: i64, nanos: u32) -> (timestamp: Option<Timestamp>)
        ensures
            timestamp is Some <==> is_utc_instant(secs as int, nanos as int),
            timestamp matches Some(t) ==> t@ == (Instant { secs: secs as int, nanos: nanos as int }),
    {
        if secs < MIN_SECONDS || secs > MAX_SECONDS || nanos >= 2_000_000_000 {
            return None;
        }
        if nanos >= 1_000_000_000 {
            let since_min: u64 = (secs - MIN_SECONDS) as u64;
            assert(secs as int % 60 == since_min as int % 60) by {
                assert(MIN_SECONDS as int == -138_910_020_480 * 60);
                assert(since_min as int == secs as int + 138_910_020_480 * 60);
                vstd::arithmetic::div_mod::lemma_mod_multiples_vanish(
                    138_910_020_480,
                    secs as int,
                    60,
                );
            }
            if since_min % 60 != 59 {
                return None;
            }
        }
        Some(Timestamp { secs, nanos })
    }

    /// The current time, as the system clock gives it; `None` where the
    /// clock gives a time that is no instant `chrono` can hold, such as one
    /// before the Unix epoch.
    pub fn now() -> (timestamp: Option<Timestamp>)
        ensures
            timestamp matches Some(t) ==> is_utc_instant(t@.secs, t@.nanos),
    {
        match utc_now() {
            Some((secs, nanos)) => Some(Timestamp { secs, nanos }),
            None => None,
        }
    }

    /// Seconds since the Unix epoch.
    pub fn secs(&self) -> (secs: i64)
        ensures
            secs as int == self@.secs,
            is_utc_instant(self@.secs, self@.nanos),
    {
        proof {
            use_type_invariant(self);
        }
        self.secs
    }

    /// Nanoseconds into the second.
    pub fn nanos(&self) -> (nanos: u32)
        ensures
            nanos as int == self@.nanos,
            is_utc_instant(self@.secs, self@.nanos),
    {
        proof {
            use_type_invariant(self);
        }
        self.nanos
    }

    /// The timestamp as RFC 3339 text.
    pub fn to_rfc3339(&self) -> (text: String)
        ensures
            text@ == rfc3339_text(self@.secs, self@.nanos),
    {
        proof {
            use_type_invariant(self);
        }
        format_rfc3339(self.secs, self.nanos)
    }

    /// The timestamp as date and time of day in UTC, to the second.
    pub fn to_display(&self) -> (text: String)
        ensures
            text@ == display_text(self@.secs, self@.nanos),
    {
        proof {
            use_type_invariant(self);
        }
        format_instant(self.secs, self.nanos, "%Y-%m-%d %H:%M:%S UTC")
    }
}

} // verus!

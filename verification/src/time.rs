//! Points in time as the library holds them: whole seconds since the Unix epoch and a
//! nanosecond part, within the range of `chrono::DateTime<Utc>`.
use vstd::prelude::*;

verus! {

/// Earliest second that `chrono::DateTime<Utc>` can hold (January 1 of the year -262143).
pub const MIN_TIMESTAMP: i64 = -8334601228800i64;

/// Latest second that `chrono::DateTime<Utc>` can hold (December 31 of the year 262142, 23:59:59).
pub const MAX_TIMESTAMP: i64 = 8210266876799i64;

/// The pattern in which a message's time is shown: day, month, year, hours, minutes, zone.
pub const TIME_FORMAT: &'static str = "%d.%m.%Y %H:%M %Z";

/// A second count and nanosecond part that `chrono::DateTime<Utc>` accepts: the second lies in
/// its range, and the nanosecond part is under one second, or under two seconds on the last
/// second of a minute (a leap second).
pub open spec fn valid_timestamp(secs: int, nanos: int) -> bool {
    &&& MIN_TIMESTAMP <= secs <= MAX_TIMESTAMP
    &&& 0 <= nanos
    &&& (nanos < 1_000_000_000 || (nanos < 2_000_000_000 && secs % 60 == 59))
}

/// What `chrono` writes for the UTC time `secs`, `nanos` with the strftime `pattern`.
pub uninterp spec fn chrono_utc_text(secs: i64, nanos: u32, pattern: Seq<char>) -> Seq<char>;

/// Formats a UTC time with `chrono::DateTime::<Utc>::format`, after turning the seconds and
/// nanoseconds into a `DateTime<Utc>` with `DateTime::from_timestamp` (the conversion of the
/// arguments, which succeeds on the accepted range). Only `TIME_FORMAT` is admitted as the
/// pattern: `chrono` fails on a pattern with an unknown specifier, and `to_string` would then
/// panic. Claimed: the text depends on the arguments alone. What the text holds is left to `chrono` and not stated here.
#[verifier::external_body]
fn chrono_format_utc(secs: i64, nanos: u32, pattern: &str) -> (r: String)
    requires
        valid_timestamp(secs as int, nanos as int),
        pattern@ == TIME_FORMAT@,
    ensures
        r@ == chrono_utc_text(secs, nanos, pattern@),
{
    chrono::DateTime::from_timestamp(secs, nanos).unwrap().format(pattern).to_string()
}

/// Reads the clock with `chrono::Utc::now` and returns its seconds and nanoseconds
/// (`timestamp` and `timestamp_subsec_nanos` of the result).
/// Claimed: the result is a time that `chrono` can hold, not before the Unix epoch (`Utc::now`
/// panics on a clock set before the epoch or past the year 262142). The time itself is not
/// stated: it is whatever the clock says.
#[verifier::external_body]
fn chrono_utc_now() -> (r: (i64, u32))
    ensures
        valid_timestamp(r.0 as int, r.1 as int),
        r.0 >= 0,
{
    let now = chrono::Utc::now();
    (now.timestamp(), now.timestamp_subsec_nanos())
}

/// A point in time, in whole seconds since the Unix epoch and a nanosecond part, with where
/// it came from: read from the clock, or given as numbers.
#[derive(Clone, Copy, Debug)]
pub struct Timestamp {
    secs: i64,
    nanos: u32,
    from_clock: bool,
}

impl Timestamp {
    #[verifier::type_invariant]
    spec fn inv(self) -> bool {
        valid_timestamp(self.secs as int, self.nanos as int)
    }

    /// Seconds since the Unix epoch.
    pub closed spec fn spec_secs(self) -> i64 {
        self.secs
    }

    /// The nanosecond part.
    pub closed spec fn spec_nanos(self) -> u32 {
        self.nanos
    }

    /// Whether the time is a reading of the clock (made by `now`) rather than given as numbers.
    pub closed spec fn spec_from_clock(self) -> bool {
        self.from_clock
    }

    /// The timestamp of `secs` and `nanos`, or `None` where `chrono` would not accept them.
    pub fn new(secs: i64, nanos: u32) -> (r: Option<Timestamp>)
        ensures
            r is Some <==> valid_timestamp(secs as int, nanos as int),
            r matches Some(t) ==> t.spec_secs() == secs && t.spec_nanos() == nanos
                && !t.spec_from_clock(),
    {
        let last_second_of_minute = if secs >= 0 {
            secs % 60 == 59
        } else {
            (secs % 60 + 60) % 60 == 59
        };
        if MIN_TIMESTAMP <= secs && secs <= MAX_TIMESTAMP && (nanos < 1_000_000_000 || (nanos
            < 2_000_000_000 && last_second_of_minute)) {
            Some(Timestamp { secs, nanos, from_clock: false })
        } else {
            None
        }
    }

    /// The current time, read from the clock.
    pub fn now() -> (r: Timestamp)
        ensures
            r.spec_secs() >= 0,
            r.spec_from_clock(),
    {
        let (secs, nanos) = chrono_utc_now();
        Timestamp { secs, nanos, from_clock: true }
    }

    /// Whether the time is a reading of the clock rather than given as numbers.
    pub fn is_clock_reading(&self) -> (r: bool)
        ensures
            r == self.spec_from_clock(),
    {
        self.from_clock
    }

    /// Seconds since the Unix epoch.
    pub fn secs(&self) -> (r: i64)
        ensures
            r == self.spec_secs(),
    {
        self.secs
    }

    /// The nanosecond part.
    pub fn nanos(&self) -> (r: u32)
        ensures
            r == self.spec_nanos(),
    {
        self.nanos
    }

    /// The time as a message shows it: `TIME_FORMAT` applied by `chrono`.
    pub fn display(&self) -> (r: String)
        ensures
            r@ == chrono_utc_text(self.spec_secs(), self.spec_nanos(), TIME_FORMAT@),
    {
        proof {
            use_type_invariant(self);
        }
        chrono_format_utc(self.secs, self.nanos, TIME_FORMAT)
    }
}

} // verus!

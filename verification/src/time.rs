//! Instants and local date-times as plain values, the clock, and calendar
//! arithmetic on them (local day numbers, minutes of the day, weekdays).

use vstd::prelude::*;

verus! {

/// Earliest second since the Unix epoch that a chrono `DateTime` can hold
/// (January 1 of year -262143, 00:00:00 UTC).
pub const MIN_TIMESTAMP_SECS: i64 = -8334601315200i64;

/// Latest second since the Unix epoch that a chrono `DateTime` can hold
/// (December 31 of year 262142, 23:59:59 UTC).
pub const MAX_TIMESTAMP_SECS: i64 = 8210266876799i64;

/// Seconds in a day.
pub const SECONDS_PER_DAY: i64 = 86400i64;

/// Nanoseconds in a second.
pub const NANOS_PER_SECOND: u32 = 1_000_000_000u32;

/// An instant in UTC: whole seconds since the Unix epoch and the nanoseconds
/// within that second.
#[derive(Clone, Copy, Debug, PartialEq, Eq, Structural)]
pub struct Timestamp {
    pub secs: i64,
    pub nanos: u32,
}

/// An instant together with the UTC offset (in seconds east of UTC) of the
/// local time zone in which it is read.
#[derive(Clone, Copy, Debug, PartialEq, Eq, Structural)]
pub struct LocalTime {
    pub secs: i64,
    pub nanos: u32,
    pub offset_seconds: i32,
}

impl Timestamp {
    /// Within the range that chrono can represent, with a sub-second part
    /// below one second.
    pub open spec fn valid(self) -> bool {
        &&& MIN_TIMESTAMP_SECS <= self.secs <= MAX_TIMESTAMP_SECS
        &&& self.nanos < NANOS_PER_SECOND
    }
}

impl LocalTime {
    /// A valid instant and an offset of less than a day.
    pub open spec fn valid(self) -> bool {
        &&& MIN_TIMESTAMP_SECS <= self.secs <= MAX_TIMESTAMP_SECS
        &&& self.nanos < NANOS_PER_SECOND
        &&& -86400 < self.offset_seconds < 86400
    }

    /// Seconds since the epoch of the local wall clock.
    pub open spec fn local_seconds(self) -> int {
        self.secs + self.offset_seconds
    }

    /// Number of the local calendar day, counted from 1970-01-01 (day 0).
    pub open spec fn local_day(self) -> int {
        self.local_seconds() / 86400
    }

    /// Whole minutes since local midnight.
    pub open spec fn minute_of_day(self) -> int {
        (self.local_seconds() % 86400) / 60
    }
}

/// Whether a local date-time is valid (see `LocalTime::valid`).
pub fn local_time_is_valid(t: LocalTime) -> (r: bool)
    ensures
        r == t.valid(),
{
    MIN_TIMESTAMP_SECS <= t.secs && t.secs <= MAX_TIMESTAMP_SECS && t.nanos < NANOS_PER_SECOND
        && -86400 < t.offset_seconds && t.offset_seconds < 86400
}

/// Whether an instant is valid (see `Timestamp::valid`).
pub fn timestamp_is_valid(t: Timestamp) -> (r: bool)
    ensures
        r == t.valid(),
{
    MIN_TIMESTAMP_SECS <= t.secs && t.secs <= MAX_TIMESTAMP_SECS && t.nanos < NANOS_PER_SECOND
}

/// Whole seconds from `start` to `now`, zero when `now` is not after `start`
/// by at least a second (the signed difference truncated toward zero, then
/// clamped at zero).
pub open spec fn whole_seconds_between(start: Timestamp, now: Timestamp) -> int {
    let d = (now.secs - start.secs) * 1_000_000_000 + (now.nanos - start.nanos);
    if d > 0 {
        d / 1_000_000_000
    } else {
        0
    }
}

/// Day of the week of a day number, Monday being 0 and Sunday 6
/// (day 0, 1970-01-01, was a Thursday).
pub open spec fn weekday_of_day(day: int) -> int {
    (day + 3) % 7
}

/// Saturday or Sunday.
pub open spec fn is_weekend_day(day: int) -> bool {
    weekday_of_day(day) >= 5
}

/// Number of days added to a day number to make it non-negative in the
/// exec computations below (a multiple of 7 that exceeds any i64 day number
/// reachable from an i64 second count).
const DAY_SHIFT: i128 = 32_281_802_128_991_715_328i128;

/// Seconds added to a second count for the same purpose; a multiple of 86400.
const SECOND_SHIFT: i128 = 86_400_000_000_000_000_000_000i128;

/// Day number and minute of the day of a local date-time.
pub fn local_day_and_minute(t: LocalTime) -> (res: (i64, u32))
    ensures
        res.0 == t.local_day(),
        res.1 == t.minute_of_day(),
{
    let local: i128 = t.secs as i128 + t.offset_seconds as i128;
    let shifted: i128 = local + SECOND_SHIFT;
    assert(shifted >= 0);
    let shifted_u: u128 = shifted as u128;
    let q: u128 = shifted_u / 86400;
    let r: u128 = shifted_u % 86400;
    proof {
        let k: int = SECOND_SHIFT / 86400;
        assert(SECOND_SHIFT == k * 86400);
        assert(shifted_u == q * 86400 + r);
        assert(local == (q - k) * 86400 + r) by (nonlinear_arith)
            requires
                shifted_u == q * 86400 + r,
                shifted_u == local + SECOND_SHIFT,
                SECOND_SHIFT == k * 86400,
        ;
        vstd::arithmetic::div_mod::lemma_fundamental_div_mod_converse(local as int, 86400, (q - k) as int, r as int);
    }
    let day: i128 = q as i128 - (SECOND_SHIFT / 86400);
    let minute: u128 = r / 60;
    (day as i64, minute as u32)
}

/// Whether a day number falls on a Saturday or Sunday.
pub fn is_weekend(day: i64) -> (res: bool)
    ensures
        res == is_weekend_day(day as int),
{
    let shifted: i128 = day as i128 + 3 + DAY_SHIFT;
    assert(shifted >= 0);
    let shifted_u: u128 = shifted as u128;
    let w: u128 = shifted_u % 7;
    proof {
        let k: int = DAY_SHIFT / 7;
        assert(DAY_SHIFT == k * 7);
        let q: int = (shifted_u / 7) as int;
        assert(shifted_u == q * 7 + w);
        assert(day + 3 == (q - k) * 7 + w) by (nonlinear_arith)
            requires
                shifted_u == q * 7 + w,
                shifted_u == day + 3 + DAY_SHIFT,
                DAY_SHIFT == k * 7,
        ;
        vstd::arithmetic::div_mod::lemma_fundamental_div_mod_converse(day + 3, 7, q - k, w as int);
    }
    w >= 5
}

/// Whole seconds from `start` to `now` (see `whole_seconds_between`).
pub fn seconds_between(start: Timestamp, now: Timestamp) -> (res: u128)
    ensures
        res == whole_seconds_between(start, now),
{
    let d: i128 = (now.secs as i128 - start.secs as i128) * 1_000_000_000 + (now.nanos as i128
        - start.nanos as i128);
    if d > 0 {
        let du: u128 = d as u128;
        du / 1_000_000_000
    } else {
        0
    }
}

/// The current instant: the system clock (`std::time::SystemTime::now`)
/// converted with chrono's `From<SystemTime> for DateTime<Utc>`, which
/// handles readings before 1970 as well as after, splitting them into whole
/// seconds and nanoseconds below one second, and builds the result with
/// `Utc.timestamp_opt`, so the seconds lie in chrono's range (a reading
/// outside chrono's years -262143 to 262142, far from any clock setting in
/// use, would stop the program there). What it returns depends on the time
/// of the call.
#[verifier::external_body]
pub fn utc_now() -> (t: Timestamp)
    ensures
        t.valid(),
{
    let now = chrono::DateTime::<chrono::Utc>::from(std::time::SystemTime::now());
    Timestamp { secs: now.timestamp(), nanos: now.timestamp_subsec_nanos() }
}

/// The current instant with the offset of the machine's local time zone:
/// the system clock converted with chrono's `From<SystemTime> for
/// DateTime<Local>` (the instant of `utc_now`, then `with_timezone(&Local)`).
/// The result depends on the time of the call and on the time zone. The
/// offset is a `FixedOffset`, which chrono keeps strictly within one day of
/// UTC. Chrono reads the offset from the system's time-zone data and stops
/// the program if that data cannot be read at all, a failure of the
/// environment like running out of memory.
#[verifier::external_body]
pub fn local_now() -> (t: LocalTime)
    ensures
        t.valid(),
{
    let now = chrono::DateTime::<chrono::Local>::from(std::time::SystemTime::now());
    LocalTime {
        secs: now.timestamp(),
        nanos: now.timestamp_subsec_nanos(),
        offset_seconds: chrono::Offset::fix(now.offset()).local_minus_utc(),
    }
}

/// The text chrono's `DateTime<FixedOffset>::format(pattern)` renders for the
/// local date-time `(secs, nanos, offset_seconds)`.
pub uninterp spec fn chrono_formatted(secs: i64, nanos: u32, offset_seconds: i32, pattern: Seq<char>) -> Seq<char>;

/// A character of a rendered time: a digit, a sign, a colon or a space.
pub open spec fn is_stamp_char(c: char) -> bool {
    ('0' <= c && c <= '9') || c == '-' || c == '+' || c == ':' || c == ' '
}

/// The `strftime` patterns the library renders times with: year and month
/// (`%Y-%m`), and date, time and UTC offset (`%Y-%m-%d %H:%M:%S %:z`). Both
/// consist of specifiers that chrono supports, so rendering them cannot fail.
pub open spec fn known_pattern(pattern: Seq<char>) -> bool {
    pattern == "%Y-%m"@ || pattern == "%Y-%m-%d %H:%M:%S %:z"@
}

/// Renders a local date-time with one of the library's `strftime` patterns:
/// the instant is rebuilt with `DateTime::from_timestamp` (which yields `Some`
/// for a valid timestamp), moved to `FixedOffset::east_opt(offset)` (which
/// yields `Some` for an offset of less than a day) and formatted. A pattern
/// chrono cannot parse would make `to_string` panic, so only the known
/// patterns are admitted. The text is named by `chrono_formatted`; of its
/// characters it is claimed only that they are digits, signs, colons or
/// spaces: the patterns' own `-`, `:` and space, chrono's numeric fields
/// (a year outside 0 to 9999 gets a `+` or `-` sign) and the offset written
/// as a sign, hours, a colon and minutes.
#[verifier::external_body]
pub fn format_local_time(t: LocalTime, pattern: &str) -> (s: String)
    requires
        t.valid(),
        known_pattern(pattern@),
    ensures
        s@ == chrono_formatted(t.secs, t.nanos, t.offset_seconds, pattern@),
        forall|i: int| 0 <= i < s@.len() ==> is_stamp_char(#[trigger] s@[i]),
{
    let offset = chrono::FixedOffset::east_opt(t.offset_seconds).unwrap();
    let utc = chrono::DateTime::from_timestamp(t.secs, t.nanos).unwrap();
    utc.with_timezone(&offset).format(pattern).to_string()
}

} // verus!

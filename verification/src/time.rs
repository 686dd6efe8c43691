//! Fixed-offset timestamps and the calendar computations that `chrono` performs on them.

use vstd::prelude::*;

use crate::text::{decimal, digit_char};

verus! {

/// Largest number of seconds from the Unix epoch, in either direction, that a timestamp may hold.
pub const MAX_ABS_SECS: i64 = 8_000_000_000_000;

/// When a timestamp's parts can stand for an instant with a fixed UTC offset.
///
/// `secs` counts seconds from the Unix epoch in UTC, `nanos` the fraction of the second
/// (a value of a second or more marks a leap second, which only follows second 59 of a
/// minute), and `offset` the local offset east of UTC in seconds.
pub open spec fn valid_parts(secs: int, nanos: int, offset: int) -> bool {
    &&& -MAX_ABS_SECS <= secs <= MAX_ABS_SECS
    &&& 0 <= nanos < 2_000_000_000
    &&& (nanos >= 1_000_000_000 ==> secs % 60 == 59)
    &&& -86_400 < offset < 86_400
}

/// An instant together with the UTC offset it was observed in.
#[derive(Clone, Copy, Debug, PartialEq, Eq)]
pub struct Timestamp {
    secs: i64,
    nanos: u32,
    offset: i32,
}

impl View for Timestamp {
    type V = (i64, u32, i32);

    closed spec fn view(&self) -> (i64, u32, i32) {
        (self.secs, self.nanos, self.offset)
    }
}

impl Timestamp {
    #[verifier::type_invariant]
    spec fn inv(self) -> bool {
        valid_parts(self.secs as int, self.nanos as int, self.offset as int)
    }

    /// Builds a timestamp from its parts, or `None` where they stand for no instant.
    pub fn new(secs: i64, nanos: u32, offset: i32) -> (r: Option<Timestamp>)
        ensures
            r is Some <==> valid_parts(secs as int, nanos as int, offset as int),
            r matches Some(t) ==> t@ == (secs, nanos, offset),
    {
        if secs < -MAX_ABS_SECS || secs > MAX_ABS_SECS || nanos >= 2_000_000_000 || offset
            <= -86_400 || offset >= 86_400 {
            return None;
        }
        if nanos >= 1_000_000_000 {
            // `secs + 8_000_000_000_040` is non-negative and has the same remainder mod 60.
            let shifted = (secs + 8_000_000_000_040) as u64;
            assert(8_000_000_000_040int % 60 == 0);
            assert((secs + 8_000_000_000_040int) % 60 == secs % 60) by (nonlinear_arith)
                requires
                    8_000_000_000_040int == 60 * 133_333_333_334,
            {
            }
            if shifted % 60 != 59 {
                return None;
            }
        }
        Some(Timestamp { secs, nanos, offset })
    }

    /// Seconds from the Unix epoch, in UTC.
    pub fn secs(&self) -> (r: i64)
        ensures
            r == self@.0,
    {
        self.secs
    }

    /// Fraction of the second in nanoseconds.
    pub fn nanos(&self) -> (r: u32)
        ensures
            r == self@.1,
    {
        self.nanos
    }

    /// Offset east of UTC in seconds.
    pub fn offset(&self) -> (r: i32)
        ensures
            r == self@.2,
    {
        self.offset
    }

    /// The current local time, as the system clock and time zone give it.
    pub fn now() -> (r: Timestamp)
        ensures
            exists|c: ClockReading| r@ == #[trigger] c.reading(),
    {
        now_local().time()
    }
}

/// The text that `chrono` writes for an instant with `DateTime::to_rfc3339`.
pub uninterp spec fn rfc3339_text(secs: i64, nanos: u32, offset: i32) -> Seq<char>;

/// What `chrono`'s `DateTime::parse_from_rfc3339` reads from a text: the parts of the
/// instant, or `None` where it refuses the text.
pub uninterp spec fn rfc3339_parsed(text: Seq<char>) -> Option<(i64, u32, i32)>;

/// The whole seconds from `earlier` to `later` as `chrono` counts them with
/// `signed_duration_since` and `TimeDelta::num_seconds`: the difference in nanoseconds,
/// truncated toward zero. A leap second (a fraction of a second or more) of one instant counts
/// one second more, or less, when the other instant's UTC time of day lies past it, or before it.
pub open spec fn whole_seconds_between(later: (i64, u32, i32), earlier: (i64, u32, i32)) -> int {
    let later_tod = later.0 % 86_400;
    let earlier_tod = earlier.0 % 86_400;
    let leap: int = if later_tod > earlier_tod && earlier.1 >= 1_000_000_000 {
        1
    } else if later_tod < earlier_tod && later.1 >= 1_000_000_000 {
        -1
    } else {
        0
    };
    let nanos: int = (later.0 - earlier.0 + leap) * 1_000_000_000 + (later.1 - earlier.1);
    if nanos >= 0 {
        nanos / 1_000_000_000
    } else {
        -((-nanos) / 1_000_000_000)
    }
}

/// Whether `y` is a leap year of the proleptic Gregorian calendar.
pub open spec fn is_leap_year(y: int) -> bool {
    y % 4 == 0 && (y % 100 != 0 || y % 400 == 0)
}

/// Days in year `y`.
pub open spec fn days_in_year(y: int) -> int {
    if is_leap_year(y) {
        366
    } else {
        365
    }
}

/// Days in month `m` (1 to 12) of year `y`.
pub open spec fn days_in_month(y: int, m: int) -> int {
    if m == 2 {
        if is_leap_year(y) {
            29
        } else {
            28
        }
    } else if m == 4 || m == 6 || m == 9 || m == 11 {
        30
    } else {
        31
    }
}

/// Days from 1970-01-01 to the first of January of year `y`.
pub open spec fn year_start_day(y: int) -> int
    decreases (if y < 1970 {
        1970 - y
    } else {
        y - 1970
    }),
{
    if y == 1970 {
        0
    } else if y > 1970 {
        year_start_day(y - 1) + days_in_year(y - 1)
    } else {
        year_start_day(y + 1) - days_in_year(y)
    }
}

/// Days from the first of January of year `y` to the first day of month `m`.
pub open spec fn month_start_day(y: int, m: int) -> int
    decreases m,
{
    if m <= 1 {
        0
    } else {
        month_start_day(y, m - 1) + days_in_month(y, m - 1)
    }
}

/// Whether year `y`, month `m` and day `d` name a day of the calendar that is `n` days after
/// 1970-01-01.
pub open spec fn is_civil_day(y: int, m: int, d: int, n: int) -> bool {
    &&& 1 <= m <= 12
    &&& 1 <= d <= days_in_month(y, m)
    &&& year_start_day(y) + month_start_day(y, m) + d - 1 == n
}

/// The (year, month, day) of the proleptic Gregorian calendar `n` days after 1970-01-01.
pub open spec fn civil_date(n: int) -> (int, int, int) {
    choose|y: int, m: int, d: int| is_civil_day(y, m, d, n)
}

/// The local time of a timestamp, in seconds from 1970-01-01T00:00:00 of its own offset.
pub open spec fn local_secs(t: (i64, u32, i32)) -> int {
    t.0 + t.2
}

/// Two decimal digits of a number from 0 to 99.
pub open spec fn two_digits(v: int) -> Seq<char> {
    seq![digit_char(((v / 10) % 10) as nat), digit_char((v % 10) as nat)]
}

/// A year as `chrono` writes it for `%Y`: four digits from 0 to 9999, otherwise a sign and
/// at least four digits.
pub open spec fn year_text(y: int) -> Seq<char> {
    if 0 <= y < 10_000 {
        two_digits(y / 100) + two_digits(y % 100)
    } else {
        let digits = decimal((if y < 0 {
            -y
        } else {
            y
        }) as nat);
        let padding = Seq::new(
            (if digits.len() < 4 {
                4 - digits.len()
            } else {
                0
            }) as nat,
            |i: int| '0',
        );
        seq![
            if y < 0 {
                '-'
            } else {
                '+'
            },
        ] + padding + digits
    }
}

/// The local date of a timestamp as `%Y`, `%m` and `%d` write it, with `sep` between them.
pub open spec fn date_text(t: (i64, u32, i32), sep: Seq<char>) -> Seq<char> {
    let (y, m, d) = civil_date(local_secs(t) / 86_400);
    year_text(y) + sep + two_digits(m) + sep + two_digits(d)
}

/// The local time of day of a timestamp as `%H`, `%M` and `%S` write it, with `sep` between
/// them; a leap second is written as second 60.
pub open spec fn clock_text(t: (i64, u32, i32), sep: Seq<char>) -> Seq<char> {
    let s = local_secs(t) % 86_400;
    let leap: int = if t.1 >= 1_000_000_000 {
        1
    } else {
        0
    };
    two_digits(s / 3600) + sep + two_digits((s % 3600) / 60) + sep + two_digits(s % 60 + leap)
}

/// An offset as `%:z` writes it: a sign, hours and minutes, rounded to the nearest minute.
pub open spec fn offset_text(offset: int) -> Seq<char> {
    let minutes = ((if offset < 0 {
        -offset
    } else {
        offset
    }) + 30) / 60;
    seq![
        if offset < 0 {
            '-'
        } else {
            '+'
        },
    ] + two_digits(minutes / 60) + seq![':'] + two_digits(minutes % 60)
}

/// The `strftime` format of default snapshot ids.
pub open spec fn default_id_format() -> Seq<char> {
    "%Y%m%d-%H%M%S"@
}

/// The `strftime` format of creation times in the snapshot table.
pub open spec fn created_format() -> Seq<char> {
    "%Y-%m-%d %H:%M:%S %:z"@
}

/// What `chrono` writes for `default_id_format()`: `YYYYMMDD-HHMMSS` in local time.
pub open spec fn default_id_text(t: (i64, u32, i32)) -> Seq<char> {
    date_text(t, Seq::empty()) + seq!['-'] + clock_text(t, Seq::empty())
}

/// What `chrono` writes for `created_format()`: `YYYY-MM-DD HH:MM:SS +HH:MM` in local time.
pub open spec fn created_text(t: (i64, u32, i32)) -> Seq<char> {
    date_text(t, seq!['-']) + seq![' '] + clock_text(t, seq![':']) + seq![' '] + offset_text(
        t.2 as int,
    )
}

/// Local-time seconds from the epoch to 0000-01-01T00:00:00.
pub const FIRST_FOUR_DIGIT_YEAR_SECS: i64 = -62_167_219_200;

/// Local-time seconds from the epoch to 10000-01-01T00:00:00.
pub const FIRST_FIVE_DIGIT_YEAR_SECS: i64 = 253_402_300_800;

/// Timestamps whose RFC 3339 text reads back as the same parts: the offset is a whole
/// number of minutes and the local year has four digits.
pub open spec fn rfc3339_round_trips(t: (i64, u32, i32)) -> bool {
    &&& t.2 % 60 == 0
    &&& FIRST_FOUR_DIGIT_YEAR_SECS <= t.0 + t.2 < FIRST_FIVE_DIGIT_YEAR_SECS
}

/// Characters that RFC 3339 texts from `chrono` are made of.
pub open spec fn rfc3339_char(c: char) -> bool {
    ('0' <= c && c <= '9') || c == '-' || c == ':' || c == '.' || c == '+' || c == 'T'
}

/// The `strftime` formats that this crate hands to `chrono`.
pub open spec fn known_format(format: Seq<char>) -> bool {
    format == default_id_format() || format == created_format()
}

/// Calls `chrono::DateTime::to_rfc3339` on the timestamp. Trusted: the result is the named
/// text, and where the offset is in whole minutes and the local year has four digits,
/// `DateTime::parse_from_rfc3339` reads that text back as the same parts (chrono writes the
/// offset rounded to minutes, years outside 0..=9999 with a sign that the parser refuses,
/// and a leap second as second 60, which the parser maps back). The text is made of digits,
/// `-`, `:`, `.`, `+` and `T` (chrono writes the date and time with digits and separators,
/// a sign only before a year outside 0..=9999, and the offset as a sign, digits and a colon).
#[verifier::external_body]
pub(crate) fn to_rfc3339(t: &Timestamp) -> (r: String)
    ensures
        r@ == rfc3339_text(t@.0, t@.1, t@.2),
        forall|i: int| 0 <= i < r@.len() ==> rfc3339_char(#[trigger] r@[i]),
        rfc3339_round_trips(t@) ==> rfc3339_parsed(r@) == Some(t@),
{
    let offset = chrono::FixedOffset::east_opt(t.offset).unwrap();
    chrono::DateTime::from_timestamp(t.secs, t.nanos).unwrap().with_timezone(&offset).to_rfc3339()
}

/// Calls `chrono::DateTime::parse_from_rfc3339`. Trusted: the result holds the named parts,
/// and `None` exactly where the parser refuses the text.
#[verifier::external_body]
pub(crate) fn parse_rfc3339(text: &str) -> (r: Option<Timestamp>)
    ensures
        r is None <==> rfc3339_parsed(text@) is None,
        r matches Some(t) ==> rfc3339_parsed(text@) == Some(t@),
{
    chrono::DateTime::parse_from_rfc3339(text).ok().map(
        |dt| Timestamp {
            secs: dt.timestamp(),
            nanos: dt.timestamp_subsec_nanos(),
            offset: dt.offset().local_minus_utc(),
        },
    )
}

/// Calls `chrono::DateTime::format` with a format string and renders it with `to_string`.
/// Trusted: the result is the local date and time written field by field as chrono's
/// `%Y`, `%m`, `%d`, `%H`, `%M`, `%S` and `%:z` write them. Only the two formats of this crate
/// are admitted; both render without error, where `to_string` would panic on one.
#[verifier::external_body]
pub(crate) fn strftime(t: &Timestamp, format: &str) -> (r: String)
    requires
        known_format(format@),
    ensures
        format@ == default_id_format() ==> r@ == default_id_text(t@),
        format@ == created_format() ==> r@ == created_text(t@),
{
    let offset = chrono::FixedOffset::east_opt(t.offset).unwrap();
    chrono::DateTime::from_timestamp(t.secs, t.nanos).unwrap().with_timezone(&offset).format(
        format,
    ).to_string()
}

/// Calls `chrono::DateTime::signed_duration_since` and `TimeDelta::num_seconds`. Trusted: the
/// result is `whole_seconds_between` of the two instants.
#[verifier::external_body]
pub(crate) fn seconds_between(later: &Timestamp, earlier: &Timestamp) -> (r: i64)
    ensures
        r == whole_seconds_between(later@, earlier@),
{
    let later = chrono::DateTime::from_timestamp(later.secs, later.nanos).unwrap();
    let earlier = chrono::DateTime::from_timestamp(earlier.secs, earlier.nanos).unwrap();
    later.signed_duration_since(earlier).num_seconds()
}

/// A reading of the system clock. Only `now_local` makes one, so a contract that speaks of
/// "some reading" speaks of a time the clock gave, not of a timestamp chosen otherwise.
pub struct ClockReading {
    time: Timestamp,
}

impl ClockReading {
    /// The timestamp that the clock gave.
    pub closed spec fn reading(self) -> (i64, u32, i32) {
        self.time@
    }

    /// The timestamp that the clock gave.
    pub fn time(&self) -> (r: Timestamp)
        ensures
            r@ == self.reading(),
    {
        self.time
    }
}

/// Calls `chrono::Local::now`. Trusted for nothing beyond the timestamp's own validity; the
/// clock decides the value.
#[verifier::external_body]
pub(crate) fn now_local() -> (r: ClockReading) {
    let now = chrono::Local::now();
    ClockReading {
        time: Timestamp {
            secs: now.timestamp(),
            nanos: now.timestamp_subsec_nanos(),
            offset: now.offset().local_minus_utc(),
        },
    }
}

} // verus!

//! Instants on the UTC time line, their RFC 3339 texts, and the clock.
use chrono::{DateTime, SecondsFormat, Utc};
use vstd::prelude::*;

verus! {

/// First second of the calendar: the start of the year -262143.
pub const CALENDAR_FIRST_SECOND: i64 = -8_334_601_228_800;

/// Last second of the calendar: the end of the year 262142.
pub const CALENDAR_LAST_SECOND: i64 = 8_210_266_876_799;

/// A point in time: whole seconds since the Unix epoch and nanoseconds within
/// that second. The nanoseconds reach a second or more only inside a leap second.
#[derive(Debug, Clone, Copy, PartialEq, Eq, Structural)]
pub struct UtcInstant {
    pub seconds: i64,
    pub nanos: u32,
}

impl UtcInstant {
    /// Whether the calendar holds the instant.
    pub open spec fn in_calendar(self) -> bool {
        &&& CALENDAR_FIRST_SECOND <= self.seconds <= CALENDAR_LAST_SECOND
        &&& self.nanos < 2_000_000_000
        &&& self.nanos >= 1_000_000_000 ==> self.seconds % 60 == 59
    }

    /// What the clock may read: an instant of the calendar, on or after the
    /// Unix epoch and outside of leap seconds.
    pub open spec fn clock_reading(self) -> bool {
        &&& 0 <= self.seconds <= CALENDAR_LAST_SECOND
        &&& self.nanos < 1_000_000_000
    }

    /// Earlier than, or the same as, another instant.
    pub open spec fn not_after(self, other: UtcInstant) -> bool {
        self.seconds < other.seconds || (self.seconds == other.seconds && self.nanos <= other.nanos)
    }

    pub fn at_or_before(&self, other: &UtcInstant) -> (r: bool)
        ensures
            r == self.not_after(*other),
    {
        self.seconds < other.seconds || (self.seconds == other.seconds && self.nanos <= other.nanos)
    }
}

/// Seconds since midnight.
pub open spec fn time_of_day(seconds: int) -> int {
    seconds % 86_400
}

/// The nanoseconds from `start` to `end`. A leap second counts once it has
/// passed within the time of day.
pub open spec fn nanoseconds_between(start: UtcInstant, end: UtcInstant) -> int {
    let leap: int = if time_of_day(end.seconds as int) > time_of_day(start.seconds as int)
        && start.nanos >= 1_000_000_000 {
        1
    } else if time_of_day(end.seconds as int) < time_of_day(start.seconds as int) && end.nanos
        >= 1_000_000_000 {
        -1
    } else {
        0
    };
    (end.seconds - start.seconds + leap) * 1_000_000_000 + end.nanos - start.nanos
}

/// Whole milliseconds in a signed number of nanoseconds, rounded toward zero.
pub open spec fn whole_milliseconds(nanoseconds: int) -> int {
    if nanoseconds >= 0 {
        nanoseconds / 1_000_000
    } else {
        -((-nanoseconds) / 1_000_000)
    }
}

/// What `chrono::DateTime::parse_from_rfc3339` reads from a text: seconds and
/// nanoseconds of the instant, or the parse error's message.
pub uninterp spec fn parsed_rfc3339(text: Seq<char>) -> Result<(i64, u32), Seq<char>>;

/// What `chrono::DateTime::to_rfc3339_opts` writes, with whole seconds and a
/// `Z`, for the instant that many seconds after the Unix epoch.
pub uninterp spec fn rfc3339(seconds: int) -> Seq<char>;

/// Whether a four-digit year, 0000 to 9999, holds the second.
pub open spec fn in_four_digit_year(seconds: int) -> bool {
    -62_167_219_200 <= seconds <= 253_402_300_799
}

/// The text parses as exactly that second.
pub open spec fn reads_as(text: Seq<char>, seconds: i64) -> bool {
    parsed_rfc3339(text) == Ok::<(i64, u32), Seq<char>>((seconds, 0u32))
}

/// The text does not parse.
pub open spec fn unreadable(text: Seq<char>) -> bool {
    parsed_rfc3339(text) is Err
}

/// `chrono::Utc::now`: the clock's reading, on or after the Unix epoch and
/// never inside a leap second. Which instant it is rests on the clock alone.
#[verifier::external_body]
pub(crate) fn utc_now() -> (r: UtcInstant)
    ensures
        r.clock_reading(),
{
    let now = Utc::now();
    UtcInstant { seconds: now.timestamp(), nanos: now.timestamp_subsec_nanos() }
}

/// `chrono::DateTime::parse_from_rfc3339`: what it reads has a name, and an
/// instant that it reads is one that the calendar holds.
#[verifier::external_body]
pub(crate) fn parse_rfc3339(text: &str) -> (r: Result<UtcInstant, String>)
    ensures
        match r {
            Ok(instant) => instant.in_calendar() && (parsed_rfc3339(text@) matches Ok(at) && at == (
                instant.seconds,
                instant.nanos,
            )),
            Err(message) => parsed_rfc3339(text@) matches Err(m) && m == message@,
        },
{
    match DateTime::parse_from_rfc3339(text) {
        Ok(at) => Ok(UtcInstant { seconds: at.timestamp(), nanos: at.timestamp_subsec_nanos() }),
        Err(error) => Err(error.to_string()),
    }
}

/// `chrono::DateTime::to_rfc3339_opts` with `SecondsFormat::Secs` and a `Z`:
/// the text has a name. Within the four-digit years parsing it gives the second
/// back; outside of them it starts with a sign, and does not parse.
#[verifier::external_body]
pub(crate) fn format_rfc3339(seconds: i64) -> (r: String)
    requires
        CALENDAR_FIRST_SECOND <= seconds <= CALENDAR_LAST_SECOND,
    ensures
        r@ == rfc3339(seconds as int),
        in_four_digit_year(seconds as int) ==> reads_as(r@, seconds),
        !in_four_digit_year(seconds as int) ==> unreadable(r@),
{
    let at = DateTime::<Utc>::from_timestamp(seconds, 0).expect("second within the calendar");
    at.to_rfc3339_opts(SecondsFormat::Secs, true)
}

/// `chrono::DateTime::signed_duration_since`, then
/// `chrono::TimeDelta::num_milliseconds`: the whole milliseconds from `start`
/// to `end`, rounded toward zero.
#[verifier::external_body]
pub(crate) fn milliseconds_between(start: &UtcInstant, end: &UtcInstant) -> (r: i64)
    requires
        start.in_calendar(),
        end.in_calendar(),
    ensures
        r == whole_milliseconds(nanoseconds_between(*start, *end)),
{
    let first = DateTime::<Utc>::from_timestamp(start.seconds, start.nanos).expect("in calendar");
    let last = DateTime::<Utc>::from_timestamp(end.seconds, end.nanos).expect("in calendar");
    last.signed_duration_since(first).num_milliseconds()
}

/// Whole seconds in a signed number of nanoseconds, rounded toward zero.
pub open spec fn whole_seconds(nanoseconds: int) -> int {
    if nanoseconds >= 0 {
        nanoseconds / 1_000_000_000
    } else {
        -((-nanoseconds) / 1_000_000_000)
    }
}

/// `chrono::DateTime::signed_duration_since`, then
/// `chrono::TimeDelta::num_seconds`: the whole seconds from `start` to `end`,
/// rounded toward zero.
#[verifier::external_body]
pub(crate) fn seconds_between(start: &UtcInstant, end: &UtcInstant) -> (r: i64)
    requires
        start.in_calendar(),
        end.in_calendar(),
    ensures
        r == whole_seconds(nanoseconds_between(*start, *end)),
{
    let first = DateTime::<Utc>::from_timestamp(start.seconds, start.nanos).expect("in calendar");
    let last = DateTime::<Utc>::from_timestamp(end.seconds, end.nanos).expect("in calendar");
    last.signed_duration_since(first).num_seconds()
}

/// The current second as RFC 3339 text.
pub fn now_rfc3339() -> (r: String)
    ensures
        exists|seconds: i64|
            0 <= seconds <= CALENDAR_LAST_SECOND && r@ == #[trigger] rfc3339(seconds as int),
{
    let now = utc_now();
    format_rfc3339(now.seconds)
}

/// How long it took from one RFC 3339 text to another, in milliseconds:
/// nothing when there is no end, when a text does not parse, or when the end
/// lies a millisecond or more before the start.
pub open spec fn duration_ms(started_at: Seq<char>, finished_at: Option<Seq<char>>) -> Option<u64> {
    match finished_at {
        None => None,
        Some(finished_at) => match (parsed_rfc3339(started_at), parsed_rfc3339(finished_at)) {
            (Ok(start), Ok(end)) => {
                let elapsed = whole_milliseconds(
                    nanoseconds_between(
                        UtcInstant { seconds: start.0, nanos: start.1 },
                        UtcInstant { seconds: end.0, nanos: end.1 },
                    ),
                );
                if elapsed >= 0 {
                    Some(elapsed as u64)
                } else {
                    None
                }
            },
            _ => None,
        },
    }
}

pub open spec fn text_view(text: Option<&str>) -> Option<Seq<char>> {
    match text {
        Some(t) => Some(t@),
        None => None,
    }
}

pub fn calculate_duration_ms(started_at: &str, finished_at: Option<&str>) -> (r: Option<u64>)
    ensures
        r == duration_ms(started_at@, text_view(finished_at)),
{
    let Some(finished_at) = finished_at else {
        return None;
    };
    match (parse_rfc3339(started_at), parse_rfc3339(finished_at)) {
        (Ok(start), Ok(end)) => {
            let elapsed = milliseconds_between(&start, &end);
            if elapsed >= 0 {
                Some(elapsed as u64)
            } else {
                None
            }
        },
        _ => None,
    }
}

} // verus!

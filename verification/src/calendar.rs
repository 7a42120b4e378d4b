//! Calendar rules under the fixed offset of nine hours east of UTC.
use vstd::prelude::*;
use chrono::{DateTime, Datelike, FixedOffset};

verus! {

/// Seconds that local time is ahead of UTC.
pub const LOCAL_OFFSET_SECONDS: i32 = 32400;

pub const SECONDS_PER_DAY: i64 = 86400;

/// The start of the year 3000 in UTC. Every instant from the epoch up to
/// this one has a local date.
pub const LATEST_TIMESTAMP: i64 = 32503680000;

/// Why a calendar question has no answer.
#[derive(Clone, Copy, Debug, PartialEq, Eq, Structural)]
pub enum CalendarError {
    /// The instant lies outside the range of dates that can be represented.
    OutOfRange,
}

/// What chrono prints for the instant `timestamp` (seconds since the epoch),
/// seen `offset_seconds` east of UTC, under the format `pattern`; `None` where
/// chrono has no date for the instant or no such offset.
pub uninterp spec fn local_text(timestamp: int, offset_seconds: int, pattern: Seq<char>) -> Option<
    Seq<char>,
>;

/// The number of the day that holds `timestamp` for a clock that runs
/// `offset_seconds` ahead of UTC, day 0 being 1970-01-01.
pub open spec fn day_at(timestamp: int, offset_seconds: int) -> int {
    (timestamp + offset_seconds) / 86400
}

/// The day of the week that holds `timestamp` for such a clock: 0 for Monday
/// up to 6 for Sunday. Day 0 was a Thursday.
pub open spec fn weekday_at(timestamp: int, offset_seconds: int) -> int {
    (day_at(timestamp, offset_seconds) + 3) % 7
}

/// The number of the local day that holds `timestamp`.
pub open spec fn local_day(timestamp: int) -> int {
    day_at(timestamp, LOCAL_OFFSET_SECONDS as int)
}

/// The local day of the week that holds `timestamp`.
pub open spec fn weekday_index(timestamp: int) -> int {
    weekday_at(timestamp, LOCAL_OFFSET_SECONDS as int)
}

/// The instant one business day before `now`: three days back from a Monday,
/// one day back from any other day.
pub open spec fn previous_business_instant(now: int) -> int {
    if weekday_index(now) == 0 {
        now - 3 * 86400
    } else {
        now - 86400
    }
}

/// The signed number that a timestamp stands for when its 64 bits are read
/// in two's complement.
pub open spec fn signed_seconds(timestamp: u64) -> int {
    if timestamp <= i64::MAX as u64 {
        timestamp as int
    } else {
        timestamp as int - 0x1_0000_0000_0000_0000
    }
}

/// Trusted: chrono's `DateTime::from_timestamp`, `FixedOffset::east_opt`,
/// `DateTime::with_timezone`, `Datelike::weekday` and
/// `Weekday::num_days_from_monday`. Whenever chrono has a date for the
/// instant, the day it reports is the one that counting days from Thursday
/// 1970-01-01 gives in the proleptic Gregorian calendar, and it has a date
/// for exactly the instants and offsets for which it can print one.
#[verifier::external_body]
fn local_weekday(timestamp: i64, offset_seconds: i32) -> (day: Option<u8>)
    ensures
        day matches Some(index) ==> index as int == weekday_at(
            timestamp as int,
            offset_seconds as int,
        ),
        day is None <==> local_text(timestamp as int, offset_seconds as int, "%Y-%m-%d"@) is None,
        0 <= timestamp <= LATEST_TIMESTAMP && -86400 < offset_seconds < 86400 ==> day is Some,
{
    let utc = DateTime::from_timestamp(timestamp, 0)?;
    let offset = FixedOffset::east_opt(offset_seconds)?;
    Some(utc.with_timezone(&offset).weekday().num_days_from_monday() as u8)
}

/// Trusted: chrono's `DateTime::from_timestamp`, `FixedOffset::east_opt`,
/// `DateTime::with_timezone` and `DateTime::format`, printed with
/// `to_string`. The text depends on the instant, the offset and the pattern
/// alone, and chrono has a date for every instant from the epoch to the year
/// 3000 at any offset of less than a day. The two patterns admitted are ones
/// that chrono can print.
#[verifier::external_body]
fn local_format(timestamp: i64, offset_seconds: i32, pattern: &str) -> (text: Option<String>)
    requires
        pattern@ == "%Y-%m-%d"@ || pattern@ == "%Y-%m"@,
    ensures
        match text {
            Some(printed) => local_text(timestamp as int, offset_seconds as int, pattern@) == Some(
                printed@,
            ),
            None => local_text(timestamp as int, offset_seconds as int, pattern@) is None,
        },
        0 <= timestamp <= LATEST_TIMESTAMP && -86400 < offset_seconds < 86400 ==> text is Some,
{
    let utc = DateTime::from_timestamp(timestamp, 0)?;
    let offset = FixedOffset::east_opt(offset_seconds)?;
    Some(utc.with_timezone(&offset).format(pattern).to_string())
}

/// The local date of `timestamp`, if it has one.
pub open spec fn local_date(timestamp: int) -> Option<Seq<char>> {
    local_text(timestamp, LOCAL_OFFSET_SECONDS as int, "%Y-%m-%d"@)
}

/// The local month of `timestamp`, if it has one.
pub open spec fn local_month(timestamp: int) -> Option<Seq<char>> {
    local_text(timestamp, LOCAL_OFFSET_SECONDS as int, "%Y-%m"@)
}

/// Reads the 64 bits of `timestamp` as a signed number of seconds.
pub fn to_signed_seconds(timestamp: u64) -> (seconds: i64)
    ensures
        seconds as int == signed_seconds(timestamp),
{
    if timestamp <= 0x7fff_ffff_ffff_ffff {
        timestamp as i64
    } else {
        let low: u64 = timestamp - 0x8000_0000_0000_0000;
        (low as i64) + i64::MIN
    }
}

/// The local date (`2024-10-13`) and month (`2024-10`) of an event's
/// timestamp. Fails exactly when the instant has no local date or month; it
/// has both from the epoch to the year 3000.
pub fn get_date_month(timestamp: u64) -> (outcome: Result<(String, String), CalendarError>)
    ensures
        match outcome {
            Ok((date, month)) => local_date(signed_seconds(timestamp)) == Some(date@)
                && local_month(signed_seconds(timestamp)) == Some(month@),
            Err(error) => error == CalendarError::OutOfRange && (local_date(
                signed_seconds(timestamp),
            ) is None || local_month(signed_seconds(timestamp)) is None),
        },
        timestamp <= LATEST_TIMESTAMP ==> outcome is Ok,
{
    let seconds = to_signed_seconds(timestamp);
    let date = match local_format(seconds, LOCAL_OFFSET_SECONDS, "%Y-%m-%d") {
        Some(date) => date,
        None => {
            return Err(CalendarError::OutOfRange);
        },
    };
    match local_format(seconds, LOCAL_OFFSET_SECONDS, "%Y-%m") {
        Some(month) => Ok((date, month)),
        None => Err(CalendarError::OutOfRange),
    }
}

/// The local date of the business day before the instant `now`: Friday's
/// date on a Monday, yesterday's date on any other day. Fails exactly when
/// `now` or the earlier instant has no local date; both have one for every
/// `now` from three days after the epoch to the year 3000.
pub fn get_previous_weekday(now: i64) -> (outcome: Result<String, CalendarError>)
    ensures
        match outcome {
            Ok(date) => local_date(previous_business_instant(now as int)) == Some(date@),
            Err(error) => error == CalendarError::OutOfRange && (local_date(now as int) is None
                || previous_business_instant(now as int) < i64::MIN || local_date(
                previous_business_instant(now as int),
            ) is None),
        },
        3 * 86400 <= now <= LATEST_TIMESTAMP ==> outcome is Ok,
{
    let day = match local_weekday(now, LOCAL_OFFSET_SECONDS) {
        Some(day) => day,
        None => {
            return Err(CalendarError::OutOfRange);
        },
    };
    let back: i64 = if day == 0 {
        3 * SECONDS_PER_DAY
    } else {
        SECONDS_PER_DAY
    };
    if now < i64::MIN + back {
        return Err(CalendarError::OutOfRange);
    }
    match local_format(now - back, LOCAL_OFFSET_SECONDS, "%Y-%m-%d") {
        Some(date) => Ok(date),
        None => Err(CalendarError::OutOfRange),
    }
}

/// The previous business day of a Monday is the Friday three days earlier;
/// the previous business day of any other day of the week is the day before
/// it.
pub proof fn previous_business_day_rule(now: int)
    ensures
        weekday_index(now) == 0 ==> local_day(previous_business_instant(now)) == local_day(now) - 3
            && weekday_index(previous_business_instant(now)) == 4,
        weekday_index(now) != 0 ==> local_day(previous_business_instant(now)) == local_day(now) - 1
            && weekday_index(previous_business_instant(now)) == weekday_index(now) - 1,
        0 <= weekday_index(now) < 7,
{
}

} // verus!

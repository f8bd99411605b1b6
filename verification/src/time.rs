//! Calendar time and durations of the host, as the `chrono` crate represents them.
use chrono::{NaiveDate, NaiveDateTime, TimeDelta};
use vstd::prelude::*;

verus! {

/// `chrono::NaiveDateTime`, a calendar date with a time of day and no time zone. The
/// library reads every such value as a time in UTC. Nothing of its inside is known here.
#[verifier::external_type_specification]
#[verifier::external_body]
pub struct ExNaiveDateTime(NaiveDateTime);

/// `chrono::TimeDelta`, a signed span of time. Nothing of its inside is known here.
#[verifier::external_type_specification]
#[verifier::external_body]
pub struct ExTimeDelta(TimeDelta);

/// Whether `year` is a leap year of the proleptic Gregorian calendar.
pub open spec fn is_leap_year(year: int) -> bool {
    year % 4 == 0 && (year % 100 != 0 || year % 400 == 0)
}

/// The number of days of `month` in `year`; zero where `month` is no month.
pub open spec fn days_in_month(year: int, month: int) -> int {
    if month == 2 {
        if is_leap_year(year) {
            29
        } else {
            28
        }
    } else if month == 4 || month == 6 || month == 9 || month == 11 {
        30
    } else if 1 <= month <= 12 {
        31
    } else {
        0
    }
}

/// Whether the fields name a day of the calendar and a time of that day. The count of
/// nanoseconds may stand for a leap second, from one thousand million on, in the last
/// second of a minute only.
pub open spec fn is_civil_time(
    year: int,
    month: int,
    day: int,
    hour: int,
    minute: int,
    second: int,
    nano: int,
) -> bool {
    &&& 1 <= month <= 12
    &&& 1 <= day <= days_in_month(year, month)
    &&& 0 <= hour < 24
    &&& 0 <= minute < 60
    &&& 0 <= second < 60
    &&& 0 <= nano < 2_000_000_000
    &&& (nano >= 1_000_000_000 ==> second == 59)
}

/// The date and time that `chrono` makes of a calendar date and a time of day; `None`
/// where it makes none.
pub uninterp spec fn datetime_from_civil(
    year: int,
    month: int,
    day: int,
    hour: int,
    minute: int,
    second: int,
    nano: int,
) -> Option<NaiveDateTime>;

/// The span of time that `chrono` makes of whole seconds and a count of nanoseconds;
/// `None` where it makes none.
pub uninterp spec fn delta_from_parts(secs: int, nanos: int) -> Option<TimeDelta>;

/// Calls `NaiveDate::from_ymd_opt` and, on the date it gives,
/// `NaiveDate::and_hms_nano_opt`. The contract claims that the result is a function of
/// the seven fields, and that there is a result exactly where the fields name a day of
/// the proleptic Gregorian calendar and a time of that day.
#[verifier::external_body]
pub(crate) fn civil_datetime(
    year: i16,
    month: u8,
    day: u8,
    hour: u8,
    minute: u8,
    second: u8,
    nano: u32,
) -> (r: Option<NaiveDateTime>)
    ensures
        r == datetime_from_civil(
            year as int,
            month as int,
            day as int,
            hour as int,
            minute as int,
            second as int,
            nano as int,
        ),
        r.is_some() <==> is_civil_time(
            year as int,
            month as int,
            day as int,
            hour as int,
            minute as int,
            second as int,
            nano as int,
        ),
{
    let date = NaiveDate::from_ymd_opt(year as i32, month as u32, day as u32)?;
    date.and_hms_nano_opt(hour as u32, minute as u32, second as u32, nano)
}

/// Calls `TimeDelta::new`. The contract claims that the result is a function of the two
/// arguments, and that there is a result where the seconds lie strictly between the
/// bounds of `TimeDelta` and the nanoseconds below one thousand million.
#[verifier::external_body]
pub(crate) fn delta_new(secs: i64, nanos: u32) -> (r: Option<TimeDelta>)
    ensures
        r == delta_from_parts(secs as int, nanos as int),
        -9_223_372_036_854_775 <= secs < 9_223_372_036_854_775 && nanos < 1_000_000_000
            ==> r.is_some(),
{
    TimeDelta::new(secs, nanos)
}

} // verus!

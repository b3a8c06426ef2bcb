//! Calendar dates and times of day as the service writes them, with the
//! calendar arithmetic taken from `chrono`.

use crate::codec::Decode;
use crate::json::{Json, JsonValue};
use vstd::prelude::*;

verus! {

pub open spec fn is_leap_year(year: int) -> bool {
    year % 4 == 0 && (year % 100 != 0 || year % 400 == 0)
}

pub open spec fn days_in_month(year: int, month: int) -> int {
    if month == 2 {
        if is_leap_year(year) {
            29
        } else {
            28
        }
    } else if month == 4 || month == 6 || month == 9 || month == 11 {
        30
    } else {
        31
    }
}

/// The first year that a [`Date`] can lie in: the first that `chrono` holds.
pub const MIN_YEAR: i32 = -262143;

/// The last year that a [`Date`] can lie in: the last that `chrono` holds.
pub const MAX_YEAR: i32 = 262142;

/// Whether year, month and day name a day of the Gregorian calendar,
/// extended backwards, in the years from [`MIN_YEAR`] to [`MAX_YEAR`].
pub open spec fn is_date(year: int, month: int, day: int) -> bool {
    &&& MIN_YEAR <= year <= MAX_YEAR
    &&& 1 <= month <= 12
    &&& 1 <= day <= days_in_month(year, month)
}

/// The number that stands for a date on the wire: ten thousand times the
/// year, plus a hundred times the month, plus the day. For the years 0 to
/// 9999 its digits read `YYYYMMDD`.
pub open spec fn date_number(year: int, month: int, day: int) -> int {
    year * 10000 + month * 100 + day
}

/// A calendar date: any day that `chrono` holds. On the wire it is the
/// number `YYYYMMDD`.
#[derive(Debug, Clone, Copy, PartialEq, Eq, Structural, PartialOrd, Ord, Hash)]
pub struct Date {
    year: i32,
    month: u32,
    day: u32,
}

/// The day of the week of a date as `chrono` counts it from Monday (Monday
/// is 0, Sunday is 6); `None` where `chrono` has no such date.
pub uninterp spec fn weekday_index(year: int, month: int, day: int) -> Option<int>;

/// The date that lies `days` days after a date (before it, for a negative
/// number), as `chrono` computes it: year, month and day; `None` where
/// `chrono` has no such date or the result leaves its range.
pub uninterp spec fn date_plus(year: int, month: int, day: int, days: int) -> Option<(int, int, int)>;

/// `NaiveDate::from_ymd_opt`, then `Datelike::weekday` and
/// `Weekday::num_days_from_monday`. `from_ymd_opt` has a date exactly for a
/// day of the calendar in the years that `chrono` holds, and the number of
/// days from Monday is at most 6.
#[verifier::external_body]
fn weekday_from_monday(year: i32, month: u32, day: u32) -> (r: Option<u32>)
    ensures
        weekday_index(year as int, month as int, day as int) == match r {
            Some(w) => Some(w as int),
            None => None,
        },
        r is Some <==> is_date(year as int, month as int, day as int),
        r matches Some(w) ==> w <= 6,
{
    let date = chrono::NaiveDate::from_ymd_opt(year, month, day)?;
    Some(chrono::Datelike::weekday(&date).num_days_from_monday())
}

/// `NaiveDate::from_ymd_opt`, then `NaiveDate::checked_add_signed` with
/// `TimeDelta::try_days(days)`, and the year, month and day of the result.
#[verifier::external_body]
fn plus_days(year: i32, month: u32, day: u32, days: i64) -> (r: Option<(i32, u32, u32)>)
    ensures
        date_plus(year as int, month as int, day as int, days as int) == match r {
            Some(moved) => Some((moved.0 as int, moved.1 as int, moved.2 as int)),
            None => None,
        },
{
    let start = chrono::NaiveDate::from_ymd_opt(year, month, day)?;
    let moved = start.checked_add_signed(chrono::TimeDelta::try_days(days)?)?;
    Some((chrono::Datelike::year(&moved), chrono::Datelike::month(&moved), chrono::Datelike::day(&moved)))
}

/// The date named by year, month and day, where there is one.
pub open spec fn date_of(year: int, month: int, day: int) -> Option<(int, int, int)> {
    if is_date(year, month, day) {
        Some((year, month, day))
    } else {
        None
    }
}

/// The date `(year, month, day)` where `moved` is one.
pub open spec fn date_of_parts(moved: Option<(int, int, int)>) -> Option<(int, int, int)> {
    match moved {
        Some(parts) => date_of(parts.0, parts.1, parts.2),
        None => None,
    }
}

/// Whether a date has a day of the week, from Monday as 0 to Sunday as 6.
pub open spec fn has_weekday(date: (int, int, int)) -> bool {
    weekday_index(date.0, date.1, date.2) matches Some(w) && 0 <= w <= 6
}

/// The Monday of the week of a date.
pub open spec fn week_begin(date: (int, int, int)) -> Option<(int, int, int)> {
    match weekday_index(date.0, date.1, date.2) {
        Some(w) => date_of_parts(date_plus(date.0, date.1, date.2, -w)),
        None => None,
    }
}

/// The Sunday of the week of a date.
pub open spec fn week_end(date: (int, int, int)) -> Option<(int, int, int)> {
    match weekday_index(date.0, date.1, date.2) {
        Some(w) => date_of_parts(date_plus(date.0, date.1, date.2, 6 - w)),
        None => None,
    }
}

/// The date with the wire number `n`: the number is split by division that
/// rounds down, so that the month and the day come out of a negative number
/// as they went in.
pub open spec fn date_of_number(n: int) -> Option<(int, int, int)> {
    date_of(n / 10000, (n / 100) % 100, n % 100)
}

impl View for Date {
    type V = (int, int, int);

    closed spec fn view(&self) -> (int, int, int) {
        (self.year as int, self.month as int, self.day as int)
    }
}

impl Date {
    #[verifier::type_invariant]
    spec fn valid(self) -> bool {
        is_date(self.year as int, self.month as int, self.day as int)
    }

    /// The date named by year, month and day; `None` where the calendar has
    /// no such day or the year is not one that `chrono` holds.
    pub fn from_ymd(year: i32, month: u32, day: u32) -> (r: Option<Date>)
        ensures
            match r {
                Some(date) => date_of(year as int, month as int, day as int) == Some(date@),
                None => date_of(year as int, month as int, day as int) is None,
            },
    {
        if year < MIN_YEAR || year > MAX_YEAR || month < 1 || month > 12 || day < 1 {
            return None;
        }
        // The calendar repeats every 400 years: count from a year that is
        // not negative.
        let cycle: i32 = year + 262400;
        let leap = cycle % 4 == 0 && (cycle % 100 != 0 || cycle % 400 == 0);
        assert(leap == is_leap_year(year as int));
        let last: u32 = if month == 2 {
            if leap {
                29
            } else {
                28
            }
        } else if month == 4 || month == 6 || month == 9 || month == 11 {
            30
        } else {
            31
        };
        if day > last {
            return None;
        }
        Some(Date { year, month, day })
    }

    /// The date that a moved date names, where it is one this type holds.
    pub fn from_parts(moved: Option<(i32, u32, u32)>) -> (r: Option<Date>)
        ensures
            match r {
                Some(date) => moved matches Some(parts) && date_of(parts.0 as int, parts.1 as int, parts.2 as int)
                    == Some(date@),
                None => moved matches Some(parts) ==> date_of(parts.0 as int, parts.1 as int, parts.2 as int)
                    is None,
            },
    {
        match moved {
            Some(parts) => Date::from_ymd(parts.0, parts.1, parts.2),
            None => None,
        }
    }

    /// The date with the wire number `n`.
    pub fn from_number(n: i64) -> (r: Option<Date>)
        ensures
            match r {
                Some(date) => date_of_number(n as int) == Some(date@),
                None => date_of_number(n as int) is None,
            },
    {
        if n < -2621430000 || n > 2621430000 {
            return None;
        }
        // Split a number that is not negative: 262144 years more.
        let shifted: i64 = n + 2621440000;
        let year: i64 = shifted / 10000 - 262144;
        let month: i64 = (shifted / 100) % 100;
        let day: i64 = shifted % 100;
        assert(year == (n as int) / 10000 && month == ((n as int) / 100) % 100 && day == (n as int) % 100);
        Date::from_ymd(year as i32, month as u32, day as u32)
    }

    pub fn year(&self) -> (r: i32)
        ensures
            r == self@.0,
            is_date(self@.0, self@.1, self@.2),
    {
        proof {
            use_type_invariant(self);
        }
        self.year
    }

    pub fn month(&self) -> (r: u32)
        ensures
            r == self@.1,
    {
        self.month
    }

    pub fn day(&self) -> (r: u32)
        ensures
            r == self@.2,
    {
        self.day
    }

    /// The number that stands for the date on the wire.
    pub fn number(&self) -> (r: i64)
        ensures
            r == date_number(self@.0, self@.1, self@.2),
            date_of_number(r as int) == Some(self@),
    {
        proof {
            use_type_invariant(self);
        }
        let year: i64 = self.year as i64;
        let month: i64 = self.month as i64;
        let day: i64 = self.day as i64;
        year * 10000 + month * 100 + day
    }

    /// The Monday of the week that the date is in: the day that `chrono`
    /// finds as many days back as the date is from Monday, at most 6.
    /// `None` where that day lies before the first that `chrono` holds.
    pub fn relative_week_begin(&self) -> (r: Option<Date>)
        ensures
            has_weekday(self@),
            match r {
                Some(date) => week_begin(self@) == Some(date@),
                None => week_begin(self@) is None,
            },
    {
        proof {
            use_type_invariant(self);
        }
        match weekday_from_monday(self.year, self.month, self.day) {
            Some(w) => Date::from_parts(plus_days(self.year, self.month, self.day, -(w as i64))),
            None => None,
        }
    }

    /// The Sunday of the week that the date is in: the day that `chrono`
    /// finds as many days on as the date is from Sunday, at most 6. `None`
    /// where that day lies after the last that `chrono` holds.
    pub fn relative_week_end(&self) -> (r: Option<Date>)
        ensures
            has_weekday(self@),
            match r {
                Some(date) => week_end(self@) == Some(date@),
                None => week_end(self@) is None,
            },
    {
        proof {
            use_type_invariant(self);
        }
        match weekday_from_monday(self.year, self.month, self.day) {
            Some(w) => Date::from_parts(plus_days(self.year, self.month, self.day, 6 - (w as i64))),
            None => None,
        }
    }
}

impl Decode for Date {
    open spec fn fits(j: JsonValue) -> bool {
        j.as_int() matches Some(n) && date_of_number(n as int) is Some
    }

    open spec fn holds(&self, j: JsonValue) -> bool {
        j.as_int() matches Some(n) && date_of_number(n as int) == Some(self@)
    }

    fn decode(j: &Json) -> (r: Option<Self>) {
        match j {
            Json::Number(Some(n)) => {
                if -2621430000 <= *n && *n <= 2621430000 {
                    Date::from_number(*n as i64)
                } else {
                    None
                }
            },
            _ => None,
        }
    }
}

/// Whether hour and minute name a time of day.
pub open spec fn is_time(hour: int, minute: int) -> bool {
    0 <= hour < 24 && 0 <= minute < 60
}

/// The time of day with the wire number `n`, whose digits are `HHMM`.
pub open spec fn time_of_number(n: int) -> Option<(int, int)> {
    if 0 <= n && is_time(n / 100, n % 100) {
        Some((n / 100, n % 100))
    } else {
        None
    }
}

/// A time of day, to the minute. On the wire it is the number `HHMM`.
#[derive(Debug, Clone, Copy, PartialEq, Eq, Structural, PartialOrd, Ord, Hash)]
pub struct Time {
    hour: u32,
    minute: u32,
}

impl View for Time {
    type V = (int, int);

    closed spec fn view(&self) -> (int, int) {
        (self.hour as int, self.minute as int)
    }
}

impl Time {
    #[verifier::type_invariant]
    spec fn valid(self) -> bool {
        is_time(self.hour as int, self.minute as int)
    }

    /// The time of day with the wire number `n`.
    pub fn from_number(n: i64) -> (r: Option<Time>)
        ensures
            match r {
                Some(time) => time_of_number(n as int) == Some(time@),
                None => time_of_number(n as int) is None,
            },
    {
        if n < 0 || n >= 2400 || n % 100 >= 60 {
            return None;
        }
        Some(Time { hour: (n / 100) as u32, minute: (n % 100) as u32 })
    }

    pub fn hour(&self) -> (r: u32)
        ensures
            r == self@.0,
            is_time(self@.0, self@.1),
    {
        proof {
            use_type_invariant(self);
        }
        self.hour
    }

    pub fn minute(&self) -> (r: u32)
        ensures
            r == self@.1,
    {
        self.minute
    }

    /// The number that stands for the time on the wire.
    pub fn number(&self) -> (r: i64)
        ensures
            r == self@.0 * 100 + self@.1,
            time_of_number(r as int) == Some(self@),
    {
        proof {
            use_type_invariant(self);
        }
        (self.hour as i64) * 100 + (self.minute as i64)
    }
}

impl Decode for Time {
    open spec fn fits(j: JsonValue) -> bool {
        j.as_int() matches Some(n) && time_of_number(n as int) is Some
    }

    open spec fn holds(&self, j: JsonValue) -> bool {
        j.as_int() matches Some(n) && time_of_number(n as int) == Some(self@)
    }

    fn decode(j: &Json) -> (r: Option<Self>) {
        match j {
            Json::Number(Some(n)) => {
                if 0 <= *n && *n < 2400 {
                    Time::from_number(*n as i64)
                } else {
                    None
                }
            },
            _ => None,
        }
    }
}


/// The fields of the moment that lies a number of milliseconds after the
/// start of 1970 in UTC, as `chrono` computes them: year, month, day, hour,
/// minute, second and millisecond; `None` where `chrono` has no such moment.
pub uninterp spec fn utc_fields(millis: int) -> Option<(int, int, int, int, int, int, int)>;

/// `TimeZone::timestamp_millis_opt` of `Utc`, then `MappedLocalTime::single`
/// and the fields of the `DateTime` through `Datelike`, `Timelike` and
/// `DateTime::timestamp_subsec_millis`.
#[verifier::external_body]
fn utc_parts(millis: i64) -> (r: Option<(i32, u32, u32, u32, u32, u32, u32)>)
    ensures
        utc_fields(millis as int) == match r {
            Some(p) => Some((p.0 as int, p.1 as int, p.2 as int, p.3 as int, p.4 as int, p.5 as int, p.6 as int)),
            None => None,
        },
{
    let t = chrono::TimeZone::timestamp_millis_opt(&chrono::Utc, millis).single()?;
    let date = (chrono::Datelike::year(&t), chrono::Datelike::month(&t), chrono::Datelike::day(&t));
    let time = (chrono::Timelike::hour(&t), chrono::Timelike::minute(&t), chrono::Timelike::second(&t));
    Some((date.0, date.1, date.2, time.0, time.1, time.2, t.timestamp_subsec_millis()))
}

/// A moment in UTC, to the millisecond: any that `chrono` holds.
#[derive(Debug, Clone, Copy, PartialEq, Eq, PartialOrd, Ord, Hash)]
pub struct UtcDateTime {
    /// Milliseconds since the start of 1970.
    pub millis: i64,
    pub year: i32,
    pub month: u32,
    pub day: u32,
    pub hour: u32,
    pub minute: u32,
    pub second: u32,
    pub millisecond: u32,
}

impl UtcDateTime {
    /// Whether the moment has the given fields.
    pub open spec fn has_fields(&self, millis: int, fields: (int, int, int, int, int, int, int)) -> bool {
        &&& self.millis == millis
        &&& self.year == fields.0
        &&& self.month == fields.1
        &&& self.day == fields.2
        &&& self.hour == fields.3
        &&& self.minute == fields.4
        &&& self.second == fields.5
        &&& self.millisecond == fields.6
    }

    /// The moment with the fields that were computed for `millis`; `None`
    /// where none were.
    pub fn from_parts(millis: i64, parts: Option<(i32, u32, u32, u32, u32, u32, u32)>) -> (r: Option<UtcDateTime>)
        ensures
            r is Some <==> parts is Some,
            r matches Some(moment) ==> parts matches Some(p) && moment.has_fields(
                millis as int,
                (p.0 as int, p.1 as int, p.2 as int, p.3 as int, p.4 as int, p.5 as int, p.6 as int),
            ),
    {
        let p = parts?;
        Some(
            UtcDateTime {
                millis,
                year: p.0,
                month: p.1,
                day: p.2,
                hour: p.3,
                minute: p.4,
                second: p.5,
                millisecond: p.6,
            },
        )
    }

    /// The moment that lies `millis` milliseconds after the start of 1970;
    /// `None` where `chrono` has no such moment.
    pub fn from_millis(millis: i64) -> (r: Option<UtcDateTime>)
        ensures
            r is Some <==> utc_fields(millis as int) is Some,
            r matches Some(moment) ==> utc_fields(millis as int) matches Some(fields) && moment.has_fields(
                millis as int,
                fields,
            ),
    {
        UtcDateTime::from_parts(millis, utc_parts(millis))
    }

    /// The day of the moment; `None` where it is no day that a [`Date`]
    /// holds.
    pub fn date(&self) -> (r: Option<Date>)
        ensures
            match r {
                Some(date) => date_of(self.year as int, self.month as int, self.day as int) == Some(date@),
                None => date_of(self.year as int, self.month as int, self.day as int) is None,
            },
    {
        Date::from_ymd(self.year, self.month, self.day)
    }
}

/// On the wire a moment is the number of its milliseconds.
impl Decode for UtcDateTime {
    open spec fn fits(j: JsonValue) -> bool {
        j.as_int() matches Some(n) && i64::MIN <= n <= i64::MAX && utc_fields(n as int) is Some
    }

    open spec fn holds(&self, j: JsonValue) -> bool {
        j.as_int() matches Some(n) && utc_fields(n as int) matches Some(fields) && self.has_fields(n as int, fields)
    }

    fn decode(j: &Json) -> (r: Option<Self>) {
        let millis = i64::decode(j)?;
        UtcDateTime::from_millis(millis)
    }
}

} // verus!

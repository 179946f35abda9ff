//! Dates and times of day as plain numbers, valid by the rules of the `chrono` crate.

use vstd::prelude::*;

verus! {

#[verifier::external_type_specification]
#[verifier::external_body]
pub struct ExNaiveDate(chrono::NaiveDate);

#[verifier::external_type_specification]
#[verifier::external_body]
pub struct ExNaiveTime(chrono::NaiveTime);

/// The earliest year of a date.
pub const MIN_YEAR: i32 = -262143;

/// The latest year of a date.
pub const MAX_YEAR: i32 = 262142;

/// Whether `year` has a 29th of February in the Gregorian calendar, which is here
/// carried back before its introduction and before the year 1.
pub open spec fn is_leap_year(year: int) -> bool {
    year % 4 == 0 && (year % 100 != 0 || year % 400 == 0)
}

/// The number of days of the month `month` of `year`; 0 where there is no such month.
pub open spec fn days_in_month(year: int, month: int) -> int {
    if month == 2 {
        if is_leap_year(year) {
            29
        } else {
            28
        }
    } else if month == 4 || month == 6 || month == 9 || month == 11 {
        30
    } else if 1 <= month <= 12 {
        31
    } else {
        0
    }
}

/// Whether there is a day `day` of the month `month` of `year`, in a year from
/// [`MIN_YEAR`] to [`MAX_YEAR`].
pub open spec fn is_calendar_date(year: int, month: int, day: int) -> bool {
    &&& MIN_YEAR <= year <= MAX_YEAR
    &&& 1 <= month <= 12
    &&& 1 <= day <= days_in_month(year, month)
}

/// Whether a clock can show `hour`, `minute` and `second`.
pub open spec fn is_time_of_day(hour: int, minute: int, second: int) -> bool {
    0 <= hour < 24 && 0 <= minute < 60 && 0 <= second < 60
}

/// `chrono::NaiveDate::from_ymd_opt` makes a date exactly of a year within the
/// crate's range, a month from 1 to 12 and a day that this month has in this year.
pub assume_specification[ chrono::NaiveDate::from_ymd_opt ](year: i32, month: u32, day: u32) -> (date: Option<
    chrono::NaiveDate,
>)
    ensures
        date.is_some() == is_calendar_date(year as int, month as int, day as int),
;

/// `chrono::NaiveTime::from_hms_opt` makes a time of day exactly of an hour below 24,
/// a minute below 60 and a second below 60.
pub assume_specification[ chrono::NaiveTime::from_hms_opt ](hour: u32, min: u32, sec: u32) -> (time: Option<
    chrono::NaiveTime,
>)
    ensures
        time.is_some() == is_time_of_day(hour as int, min as int, sec as int),
;

/// A minute of some day on the calendar, with no time zone about it.
#[derive(Debug, Clone, Copy, PartialEq, Eq)]
pub struct CivilDateTime {
    pub year: i32,
    pub month: u32,
    pub day: u32,
    pub hour: u32,
    pub minute: u32,
}

impl CivilDateTime {
    /// Whether the day is on the calendar and the minute on the clock.
    pub open spec fn is_valid(&self) -> bool {
        &&& is_calendar_date(self.year as int, self.month as int, self.day as int)
        &&& is_time_of_day(self.hour as int, self.minute as int, 0)
    }

    /// The minute `hour:minute` of the given day, where both exist.
    pub fn new(year: i32, month: u32, day: u32, hour: u32, minute: u32) -> (made: Option<Self>)
        ensures
            made == (if is_calendar_date(year as int, month as int, day as int) && is_time_of_day(
                hour as int,
                minute as int,
                0,
            ) {
                Some(CivilDateTime { year, month, day, hour, minute })
            } else {
                None
            }),
    {
        let date = chrono::NaiveDate::from_ymd_opt(year, month, day);
        let time = chrono::NaiveTime::from_hms_opt(hour, minute, 0);
        if date.is_some() && time.is_some() {
            Some(CivilDateTime { year, month, day, hour, minute })
        } else {
            None
        }
    }
}

} // verus!

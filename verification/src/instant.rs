//! A decoded instant: a count of seconds together with its UTC calendar fields.

use crate::calendar::{
    civil_from_seconds, days_from_epoch, lemma_civil_from_seconds, lemma_day_number_within_year,
    lemma_days_before_year_closed_form, lemma_days_before_year_monotone, month_length,
    weekday_of_day, CivilTime, Weekday,
};
use crate::chrono_bridge::{civil_fields_at, in_calendar_range, MAX_YEAR, MIN_YEAR};
use vstd::prelude::*;

verus! {

/// The first instant of the calendar's range, 00:00:00 on the first day of
/// `MIN_YEAR`, in seconds from the epoch.
pub const MIN_TIMESTAMP: i64 = -8_334_601_228_800;

/// The last instant of the calendar's range, 23:59:59 on the last day of
/// `MAX_YEAR`, in seconds from the epoch.
pub const MAX_TIMESTAMP: i64 = 8_210_266_876_799;

/// The calendar's range of years, counted out in seconds.
pub proof fn lemma_calendar_range_bounds(seconds: int)
    ensures
        in_calendar_range(seconds) <==> MIN_TIMESTAMP <= seconds <= MAX_TIMESTAMP,
{
    lemma_days_before_year_closed_form(MIN_YEAR as int);
    lemma_days_before_year_closed_form(MAX_YEAR + 1);
}

/// A date and time lies within the range of instants exactly when its year
/// lies within the range of years.
pub proof fn lemma_year_in_range(civil: CivilTime)
    requires
        civil.is_valid(),
    ensures
        in_calendar_range(civil.seconds()) <==> MIN_YEAR <= civil.year <= MAX_YEAR,
{
    lemma_day_number_within_year(civil.year, civil.month, civil.day);
    if civil.year < MIN_YEAR {
        lemma_days_before_year_monotone(civil.year + 1, MIN_YEAR as int);
    } else if civil.year > MAX_YEAR {
        lemma_days_before_year_monotone(MAX_YEAR + 1, civil.year);
    } else {
        lemma_days_before_year_monotone(MIN_YEAR as int, civil.year);
        lemma_days_before_year_monotone(civil.year + 1, MAX_YEAR + 1);
    }
}

/// The date and time that six numbers name.
pub open spec fn civil_time(
    year: i32,
    month: u32,
    day: u32,
    hour: u32,
    minute: u32,
    second: u32,
) -> CivilTime {
    CivilTime {
        year: year as int,
        month: month as int,
        day: day as int,
        hour: hour as int,
        minute: minute as int,
        second: second as int,
    }
}

/// An instant of the calendar's range with its date, time of day and weekday
/// in UTC. The fields always agree with each other and name an existing date.
#[derive(Clone, Copy, Debug, PartialEq, Eq)]
pub struct CalendarInstant {
    year: i32,
    month: u32,
    day: u32,
    hour: u32,
    minute: u32,
    second: u32,
    weekday: Weekday,
}

impl View for CalendarInstant {
    type V = CivilTime;

    closed spec fn view(&self) -> CivilTime {
        civil_time(self.year, self.month, self.day, self.hour, self.minute, self.second)
    }
}

impl CalendarInstant {
    #[verifier::type_invariant]
    spec fn well_formed(&self) -> bool {
        &&& self@.is_valid()
        &&& in_calendar_range(self@.seconds())
        &&& self.weekday == self@.weekday()
    }

    /// The instant at which a clock in UTC shows the given date and time, if
    /// the calendar has that date and the day has that time.
    pub fn new(year: i32, month: u32, day: u32, hour: u32, minute: u32, second: u32) -> (instant:
        Option<CalendarInstant>)
        ensures
            instant is Some <==> civil_time(year, month, day, hour, minute, second).is_valid()
                && MIN_YEAR <= year <= MAX_YEAR,
            instant matches Some(found) ==> found@ == civil_time(
                year,
                month,
                day,
                hour,
                minute,
                second,
            ),
    {
        if year < MIN_YEAR || year > MAX_YEAR || month < 1 || month > 12 {
            return None;
        }
        if day < 1 || day > month_length(year, month) || hour > 23 || minute > 59 || second > 59 {
            return None;
        }
        proof {
            let civil = civil_time(year, month, day, hour, minute, second);
            lemma_year_in_range(civil);
            lemma_calendar_range_bounds(civil.seconds());
        }
        let weekday = weekday_of_day(days_from_epoch(year, month, day));
        Some(CalendarInstant { year, month, day, hour, minute, second, weekday })
    }

    /// The instant `seconds` after 1970-01-01 00:00:00 UTC, if the calendar
    /// reaches that far.
    pub fn from_epoch_seconds(seconds: i64) -> (instant: Option<CalendarInstant>)
        ensures
            instant is Some <==> MIN_TIMESTAMP <= seconds <= MAX_TIMESTAMP,
            instant matches Some(found) ==> found@.is_valid() && found@.seconds() == seconds
                && found@ == civil_from_seconds(seconds as int),
    {
        proof {
            lemma_calendar_range_bounds(seconds as int);
        }
        match civil_fields_at(seconds, 0) {
            Some(fields) => {
                proof {
                    lemma_civil_from_seconds(fields@, seconds as int);
                }
                Some(
                    CalendarInstant {
                        year: fields.year,
                        month: fields.month,
                        day: fields.day,
                        hour: fields.hour,
                        minute: fields.minute,
                        second: fields.second,
                        weekday: Weekday::from_index(fields.weekday),
                    },
                )
            },
            None => None,
        }
    }

    /// Seconds from 1970-01-01 00:00:00 UTC to this instant.
    pub fn epoch_seconds(&self) -> (seconds: i64)
        ensures
            seconds == self@.seconds(),
            MIN_TIMESTAMP <= seconds <= MAX_TIMESTAMP,
            self@.is_valid(),
    {
        proof {
            use_type_invariant(self);
            lemma_calendar_range_bounds(self@.seconds());
            lemma_year_in_range(self@);
        }
        let days = days_from_epoch(self.year, self.month, self.day);
        days * 86_400 + self.hour as i64 * 3600 + self.minute as i64 * 60 + self.second as i64
    }

    pub fn year(&self) -> (year: i32)
        ensures
            year == self@.year,
    {
        self.year
    }

    pub fn month(&self) -> (month: u32)
        ensures
            month == self@.month,
    {
        self.month
    }

    pub fn day(&self) -> (day: u32)
        ensures
            day == self@.day,
    {
        self.day
    }

    pub fn hour(&self) -> (hour: u32)
        ensures
            hour == self@.hour,
    {
        self.hour
    }

    pub fn minute(&self) -> (minute: u32)
        ensures
            minute == self@.minute,
    {
        self.minute
    }

    pub fn second(&self) -> (second: u32)
        ensures
            second == self@.second,
    {
        self.second
    }

    pub fn weekday(&self) -> (weekday: Weekday)
        ensures
            weekday == self@.weekday(),
    {
        proof {
            use_type_invariant(self);
        }
        self.weekday
    }
}

} // verus!

//! The proleptic Gregorian calendar as integer arithmetic.
//!
//! Days are counted from 1970-01-01, which is day 0; seconds are counted from
//! midnight of that day. Every day has 86 400 seconds: leap seconds are not
//! modelled. Years are astronomical, so year 0 exists and is a leap year.

use vstd::math::abs;
use vstd::prelude::*;

verus! {

/// A day of the week, Monday first.
#[derive(Clone, Copy, Debug, PartialEq, Eq, Structural)]
pub enum Weekday {
    Mon,
    Tue,
    Wed,
    Thu,
    Fri,
    Sat,
    Sun,
}

/// Every fourth year has a 29th of February, but of the years that end a
/// century only every fourth.
pub open spec fn is_leap_year(year: int) -> bool {
    year % 4 == 0 && (year % 100 != 0 || year % 400 == 0)
}

/// Days in `year`.
pub open spec fn year_length(year: int) -> int {
    if is_leap_year(year) {
        366
    } else {
        365
    }
}

/// Days in the month `month` of `year`, January being month 1.
pub open spec fn days_in_month(year: int, month: int) -> int {
    if month == 2 {
        if is_leap_year(year) {
            29
        } else {
            28
        }
    } else if month == 4 || month == 6 || month == 9 || month == 11 {
        30
    } else {
        31
    }
}

/// Days between 1970-01-01 and the first day of `year`; negative before 1970.
pub open spec fn days_before_year(year: int) -> int
    decreases abs(year - 1970),
{
    if year == 1970 {
        0
    } else if year > 1970 {
        days_before_year(year - 1) + year_length(year - 1)
    } else {
        days_before_year(year + 1) - year_length(year)
    }
}

/// Days of `year` that lie before the first day of `month`.
pub open spec fn days_before_month(year: int, month: int) -> int
    decreases month,
{
    if month <= 1 {
        0
    } else {
        days_before_month(year, month - 1) + days_in_month(year, month - 1)
    }
}

/// The calendar has a day `day` in the month `month` of `year`.
pub open spec fn is_valid_date(year: int, month: int, day: int) -> bool {
    1 <= month <= 12 && 1 <= day <= days_in_month(year, month)
}

/// The number of the day `year`-`month`-`day`, with 1970-01-01 as day 0.
pub open spec fn day_number(year: int, month: int, day: int) -> int {
    days_before_year(year) + days_before_month(year, month) + day - 1
}

/// Position of a day in its week, Monday being 0. Day 0 was a Thursday.
pub open spec fn weekday_index(day_number: int) -> int {
    (day_number + 3) % 7
}

/// The weekday that lies `index` days after a Monday.
pub open spec fn weekday_from_index(index: int) -> Weekday {
    if index == 0 {
        Weekday::Mon
    } else if index == 1 {
        Weekday::Tue
    } else if index == 2 {
        Weekday::Wed
    } else if index == 3 {
        Weekday::Thu
    } else if index == 4 {
        Weekday::Fri
    } else if index == 5 {
        Weekday::Sat
    } else {
        Weekday::Sun
    }
}

/// Multiples of 4 that are not multiples of 100, or are multiples of 400,
/// counted from year 1 through `year`; for `year < 1` the count is negative.
pub open spec fn leap_years_through(year: int) -> int {
    year / 4 - year / 100 + year / 400
}

/// Each year starts where the one before it ends.
pub proof fn lemma_days_before_year_step(year: int)
    ensures
        days_before_year(year + 1) == days_before_year(year) + year_length(year),
{
}

proof fn lemma_quotient_step_4(x: int)
    ensures
        x / 4 - (x - 1) / 4 == (if x % 4 == 0 {
            1int
        } else {
            0
        }),
{
}

proof fn lemma_quotient_step_100(x: int)
    ensures
        x / 100 - (x - 1) / 100 == (if x % 100 == 0 {
            1int
        } else {
            0
        }),
{
}

proof fn lemma_quotient_step_400(x: int)
    ensures
        x / 400 - (x - 1) / 400 == (if x % 400 == 0 {
            1int
        } else {
            0
        }),
{
}

proof fn lemma_century_divisibility(x: int)
    ensures
        x % 100 == 0 ==> x % 4 == 0,
        x % 400 == 0 ==> x % 100 == 0,
{
}

/// One more leap year is counted exactly when `year` is one.
pub proof fn lemma_leap_years_through_step(year: int)
    ensures
        leap_years_through(year) == leap_years_through(year - 1) + (if is_leap_year(year) {
            1int
        } else {
            0
        }),
{
    lemma_quotient_step_4(year);
    lemma_quotient_step_100(year);
    lemma_quotient_step_400(year);
    lemma_century_divisibility(year);
}

/// The start of a year in closed form: 365 days for every year since 1970,
/// and one more for every leap year in between.
pub proof fn lemma_days_before_year_closed_form(year: int)
    ensures
        days_before_year(year) == 365 * (year - 1970) + leap_years_through(year - 1) - 477,
    decreases abs(year - 1970),
{
    if year > 1970 {
        lemma_days_before_year_closed_form(year - 1);
        lemma_leap_years_through_step(year - 1);
    } else if year < 1970 {
        lemma_days_before_year_closed_form(year + 1);
        lemma_leap_years_through_step(year);
    }
}

/// Days of a common year that lie before the first day of `month`.
pub open spec fn common_days_before_month(month: int) -> int {
    if month <= 1 {
        0
    } else if month == 2 {
        31
    } else if month == 3 {
        59
    } else if month == 4 {
        90
    } else if month == 5 {
        120
    } else if month == 6 {
        151
    } else if month == 7 {
        181
    } else if month == 8 {
        212
    } else if month == 9 {
        243
    } else if month == 10 {
        273
    } else if month == 11 {
        304
    } else if month == 12 {
        334
    } else {
        365
    }
}

/// The start of each month within its year: the common-year table, moved by
/// one day after February of a leap year. Month 13 stands for the year's end.
pub proof fn lemma_days_before_month_table(year: int, month: int)
    requires
        1 <= month <= 13,
    ensures
        days_before_month(year, month) == common_days_before_month(month) + (if month > 2
            && is_leap_year(year) {
            1int
        } else {
            0
        }),
        days_before_month(year, 13) == year_length(year),
{
    reveal_with_fuel(days_before_month, 14);
}

/// Later years start later, by at least 365 days for each year in between.
pub proof fn lemma_days_before_year_monotone(earlier: int, later: int)
    requires
        earlier <= later,
    ensures
        days_before_year(earlier) + 365 * (later - earlier) <= days_before_year(later),
    decreases later - earlier,
{
    if earlier < later {
        lemma_days_before_year_monotone(earlier, later - 1);
        lemma_days_before_year_step(later - 1);
    }
}

/// A valid date lies within its year.
pub proof fn lemma_day_number_within_year(year: int, month: int, day: int)
    requires
        is_valid_date(year, month, day),
    ensures
        days_before_year(year) <= day_number(year, month, day) < days_before_year(year + 1),
{
    lemma_days_before_month_table(year, month);
    lemma_days_before_year_step(year);
}

/// No two valid dates share a day number.
pub proof fn lemma_date_unique(
    year1: int,
    month1: int,
    day1: int,
    year2: int,
    month2: int,
    day2: int,
)
    requires
        is_valid_date(year1, month1, day1),
        is_valid_date(year2, month2, day2),
        day_number(year1, month1, day1) == day_number(year2, month2, day2),
    ensures
        year1 == year2,
        month1 == month2,
        day1 == day2,
{
    lemma_day_number_within_year(year1, month1, day1);
    lemma_day_number_within_year(year2, month2, day2);
    if year1 < year2 {
        lemma_days_before_year_monotone(year1 + 1, year2);
    } else if year2 < year1 {
        lemma_days_before_year_monotone(year2 + 1, year1);
    }
    lemma_days_before_month_table(year1, month1);
    lemma_days_before_month_table(year1, month1 + 1);
    lemma_days_before_month_table(year2, month2);
    lemma_days_before_month_table(year2, month2 + 1);
}

/// Every day has a date: the days of the calendar follow one another without
/// a gap, in both directions from 1970-01-01.
pub proof fn lemma_every_day_has_a_date(number: int) -> (date: (int, int, int))
    ensures
        is_valid_date(date.0, date.1, date.2),
        day_number(date.0, date.1, date.2) == number,
    decreases abs(number),
{
    if number == 0 {
        lemma_days_before_month_table(1970, 1);
        (1970, 1, 1)
    } else if number > 0 {
        let (year, month, day) = lemma_every_day_has_a_date(number - 1);
        lemma_days_before_month_table(year, month);
        lemma_days_before_month_table(year, month + 1);
        if day < days_in_month(year, month) {
            (year, month, day + 1)
        } else if month < 12 {
            (year, month + 1, 1)
        } else {
            lemma_days_before_year_step(year);
            lemma_days_before_month_table(year + 1, 1);
            (year + 1, 1, 1)
        }
    } else {
        let (year, month, day) = lemma_every_day_has_a_date(number + 1);
        lemma_days_before_month_table(year, month);
        if day > 1 {
            (year, month, day - 1)
        } else if month > 1 {
            lemma_days_before_month_table(year, month - 1);
            (year, month - 1, days_in_month(year, month - 1))
        } else {
            lemma_days_before_year_step(year - 1);
            lemma_days_before_month_table(year - 1, 12);
            lemma_days_before_month_table(year - 1, 13);
            (year - 1, 12, 31)
        }
    }
}

/// A date and a time of day on the proleptic Gregorian calendar.
pub struct CivilTime {
    pub year: int,
    pub month: int,
    pub day: int,
    pub hour: int,
    pub minute: int,
    pub second: int,
}

impl CivilTime {
    /// The date exists and the time of day is one of the 86 400 seconds of a day.
    pub open spec fn is_valid(self) -> bool {
        &&& is_valid_date(self.year, self.month, self.day)
        &&& 0 <= self.hour < 24
        &&& 0 <= self.minute < 60
        &&& 0 <= self.second < 60
    }

    /// The number of the day, with 1970-01-01 as day 0.
    pub open spec fn day_number(self) -> int {
        day_number(self.year, self.month, self.day)
    }

    /// Seconds from midnight to the time of day.
    pub open spec fn second_of_day(self) -> int {
        self.hour * 3600 + self.minute * 60 + self.second
    }

    /// Seconds from 1970-01-01 00:00:00 to this date and time.
    pub open spec fn seconds(self) -> int {
        self.day_number() * 86_400 + self.second_of_day()
    }

    /// The day of the week on which the date falls.
    pub open spec fn weekday(self) -> Weekday {
        weekday_from_index(weekday_index(self.day_number()))
    }
}

/// The date and time of day that lie `seconds` after 1970-01-01 00:00:00.
pub open spec fn civil_from_seconds(seconds: int) -> CivilTime {
    choose|civil: CivilTime| civil.is_valid() && civil.seconds() == seconds
}

/// A valid date and time is fixed by its distance from 1970-01-01 00:00:00.
pub proof fn lemma_civil_time_unique(a: CivilTime, b: CivilTime)
    requires
        a.is_valid(),
        b.is_valid(),
        a.seconds() == b.seconds(),
    ensures
        a == b,
{
    lemma_date_unique(a.year, a.month, a.day, b.year, b.month, b.day);
}

/// Whatever valid date and time lies `seconds` after the epoch is the one
/// that `civil_from_seconds` names.
pub proof fn lemma_civil_from_seconds(civil: CivilTime, seconds: int)
    requires
        civil.is_valid(),
        civil.seconds() == seconds,
    ensures
        civil_from_seconds(seconds) == civil,
{
    lemma_civil_time_unique(civil, civil_from_seconds(seconds));
}

/// Every count of seconds is the distance of exactly one valid date and time
/// from the epoch: its day is the count divided by 86 400, rounded down, and
/// its time of day is the remainder.
pub proof fn lemma_civil_from_seconds_total(seconds: int)
    ensures
        civil_from_seconds(seconds).is_valid(),
        civil_from_seconds(seconds).seconds() == seconds,
        civil_from_seconds(seconds).day_number() == seconds / 86_400,
        civil_from_seconds(seconds).second_of_day() == seconds % 86_400,
{
    let (year, month, day) = lemma_every_day_has_a_date(seconds / 86_400);
    let rest = seconds % 86_400;
    let civil = CivilTime {
        year,
        month,
        day,
        hour: rest / 3600,
        minute: (rest % 3600) / 60,
        second: rest % 60,
    };
    lemma_civil_from_seconds(civil, seconds);
}

proof fn lemma_quotients_of_shifted_year(year: int)
    ensures
        (year + 2_147_484_000) / 4 == year / 4 + 536_871_000,
        (year + 2_147_484_000) / 100 == year / 100 + 21_474_840,
        (year + 2_147_484_000) / 400 == year / 400 + 5_368_710,
        (year + 2_147_484_000) % 4 == year % 4,
        (year + 2_147_484_000) % 100 == year % 100,
        (year + 2_147_484_000) % 400 == year % 400,
{
}

impl Weekday {
    /// The weekday that lies `index` days after a Monday.
    pub(crate) fn from_index(index: u32) -> (weekday: Weekday)
        requires
            index < 7,
        ensures
            weekday == weekday_from_index(index as int),
    {
        match index {
            0 => Weekday::Mon,
            1 => Weekday::Tue,
            2 => Weekday::Wed,
            3 => Weekday::Thu,
            4 => Weekday::Fri,
            5 => Weekday::Sat,
            _ => Weekday::Sun,
        }
    }
}

/// Whether `year` has a 29th of February.
pub fn leap_year(year: i32) -> (leap: bool)
    ensures
        leap == is_leap_year(year as int),
{
    proof {
        lemma_quotients_of_shifted_year(year as int);
    }
    // A multiple of 400 is added so that the remainders are taken of a
    // positive number.
    let shifted: i64 = year as i64 + 2_147_484_000;
    shifted % 4 == 0 && (shifted % 100 != 0 || shifted % 400 == 0)
}

/// Days in the month `month` of `year`.
pub(crate) fn month_length(year: i32, month: u32) -> (length: u32)
    requires
        1 <= month <= 12,
    ensures
        length == days_in_month(year as int, month as int),
{
    if month == 2 {
        if leap_year(year) {
            29
        } else {
            28
        }
    } else if month == 4 || month == 6 || month == 9 || month == 11 {
        30
    } else {
        31
    }
}

/// The day of the week on which the day `days` after 1970-01-01 falls.
pub(crate) fn weekday_of_day(days: i64) -> (weekday: Weekday)
    requires
        -1_000_000_000_000 <= days <= 1_000_000_000_000,
    ensures
        weekday == weekday_from_index(weekday_index(days as int)),
{
    // A multiple of 7 is added so that the remainder is taken of a positive
    // number.
    let shifted: i64 = days + 3 + 1_000_000_000_006;
    Weekday::from_index((shifted % 7) as u32)
}

/// The number of the day `year`-`month`-`day`, counted from 1970-01-01.
pub(crate) fn days_from_epoch(year: i32, month: u32, day: u32) -> (days: i64)
    requires
        is_valid_date(year as int, month as int, day as int),
    ensures
        days == day_number(year as int, month as int, day as int),
{
    proof {
        lemma_days_before_year_closed_form(year as int);
        lemma_days_before_month_table(year as int, month as int);
        lemma_quotients_of_shifted_year(year - 1);
    }
    let shifted: i64 = year as i64 - 1 + 2_147_484_000;
    let leap_years: i64 = shifted / 4 - shifted / 100 + shifted / 400 - 520_764_870;
    let year_start: i64 = 365 * (year as i64 - 1970) + leap_years - 477;
    let common_month_start: i64 = match month {
        1 => 0,
        2 => 31,
        3 => 59,
        4 => 90,
        5 => 120,
        6 => 151,
        7 => 181,
        8 => 212,
        9 => 243,
        10 => 273,
        11 => 304,
        _ => 334,
    };
    let leap_day: i64 = if month > 2 && leap_year(year) {
        1
    } else {
        0
    };
    year_start + common_month_start + leap_day + day as i64 - 1
}

} // verus!

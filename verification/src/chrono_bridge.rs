//! The one place where this library calls chrono.
//!
//! chrono turns a count of seconds into calendar fields. Nothing here is
//! proved of it: the contract below is what the rest of the library relies on.

use crate::calendar::{days_before_year, weekday_index, CivilTime};
use chrono::{DateTime, Datelike, FixedOffset, Timelike};
use vstd::prelude::*;

verus! {

/// First year of the dates that chrono's `NaiveDate` holds.
pub const MIN_YEAR: i32 = -262_143;

/// Last year of the dates that chrono's `NaiveDate` holds.
pub const MAX_YEAR: i32 = 262_142;

/// The instants that chrono's `DateTime` holds: from the first second of
/// `MIN_YEAR` to the last second of `MAX_YEAR`.
pub open spec fn in_calendar_range(seconds: int) -> bool {
    days_before_year(MIN_YEAR as int) * 86_400 <= seconds < days_before_year(MAX_YEAR + 1) * 86_400
}

/// Calendar fields as chrono reports them: plain numbers, the weekday as its
/// distance from Monday.
pub struct CivilFields {
    pub year: i32,
    pub month: u32,
    pub day: u32,
    pub hour: u32,
    pub minute: u32,
    pub second: u32,
    pub weekday: u32,
}

impl View for CivilFields {
    type V = CivilTime;

    open spec fn view(&self) -> CivilTime {
        CivilTime {
            year: self.year as int,
            month: self.month as int,
            day: self.day as int,
            hour: self.hour as int,
            minute: self.minute as int,
            second: self.second as int,
        }
    }
}

impl CivilFields {
    /// These fields are the date, time of day and weekday that lie `seconds`
    /// after 1970-01-01 00:00:00.
    pub open spec fn shows(&self, seconds: int) -> bool {
        &&& self@.is_valid()
        &&& self@.seconds() == seconds
        &&& self.weekday == weekday_index(self@.day_number())
    }
}

/// The offsets from UTC that chrono's `FixedOffset` holds: less than a day
/// either way.
pub open spec fn is_zone_offset(offset: int) -> bool {
    -86_400 < offset && offset < 86_400
}

/// The calendar fields of the instant `seconds` after the epoch, read on a
/// clock that runs `offset` seconds ahead of UTC.
///
/// Calls `DateTime::from_timestamp`, `FixedOffset::east_opt` and
/// `DateTime::with_timezone`, then the accessors of `Datelike` and `Timelike`
/// and `Weekday::num_days_from_monday`.
///
/// Trusted, not proved: chrono answers exactly when the instant lies in the
/// years `MIN_YEAR` to `MAX_YEAR` and the offset is shorter than a day; the
/// fields it gives are a date and time of the proleptic Gregorian calendar
/// without leap seconds, `seconds + offset` after 1970-01-01 00:00:00; and
/// its weekday counts from Monday, with 1970-01-01 a Thursday.
#[verifier::external_body]
pub(crate) fn civil_fields_at(seconds: i64, offset: i32) -> (fields: Option<CivilFields>)
    ensures
        fields.is_some() == (in_calendar_range(seconds as int) && is_zone_offset(offset as int)),
        fields matches Some(found) ==> found.shows(seconds + offset),
{
    let zone = FixedOffset::east_opt(offset)?;
    let local = DateTime::from_timestamp(seconds, 0)?.with_timezone(&zone);
    Some(CivilFields {
        year: local.year(),
        month: local.month(),
        day: local.day(),
        hour: local.hour(),
        minute: local.minute(),
        second: local.second(),
        weekday: local.weekday().num_days_from_monday(),
    })
}

} // verus!

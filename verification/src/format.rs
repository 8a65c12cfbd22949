//! Rendering an instant as text in a time zone.

use crate::calendar::{
    civil_from_seconds, lemma_civil_from_seconds, lemma_civil_from_seconds_total,
    lemma_civil_time_unique, CivilTime, Weekday,
};
use crate::chrono_bridge::{civil_fields_at, CivilFields};
use crate::instant::{lemma_calendar_range_bounds, CalendarInstant};
use crate::numeral::{append_decimal, append_two_digits, decimal_text, two_digit_text};
use vstd::pervasive::unreached;
use vstd::prelude::*;
use vstd::string::StringExecFns;

verus! {

/// A time zone with a fixed offset from UTC and the language of its weekday
/// names.
#[derive(Clone, Copy, Debug, PartialEq, Eq, Structural)]
pub enum TimeZone {
    /// Coordinated Universal Time; weekdays in English.
    UTC,
    /// Japan Standard Time, nine hours ahead of UTC; weekdays in Japanese.
    JST,
}

/// How much of a weekday's name is written.
#[derive(Clone, Copy, Debug, PartialEq, Eq, Structural)]
pub enum WeekdayStyle {
    Short,
    Long,
}

/// How much of an instant is written.
#[derive(Clone, Copy, Debug, PartialEq, Eq, Structural)]
pub enum OutputShape {
    /// Date, weekday and time of day.
    Full,
    /// Date and weekday.
    DateOnly,
}

impl TimeZone {
    /// Seconds that a clock in this zone is ahead of UTC.
    pub open spec fn utc_offset(self) -> int {
        match self {
            TimeZone::UTC => 0,
            TimeZone::JST => 32_400,
        }
    }

    /// Seconds that a clock in this zone is ahead of UTC.
    pub fn offset_seconds(&self) -> (offset: i32)
        ensures
            offset == self.utc_offset(),
    {
        match self {
            TimeZone::UTC => 0,
            TimeZone::JST => 9 * 3600,
        }
    }
}

/// English weekday names. They come in one length only.
pub open spec fn english_label(weekday: Weekday) -> Seq<char> {
    match weekday {
        Weekday::Mon => "Mon"@,
        Weekday::Tue => "Tue"@,
        Weekday::Wed => "Wed"@,
        Weekday::Thu => "Thu"@,
        Weekday::Fri => "Fri"@,
        Weekday::Sat => "Sat"@,
        Weekday::Sun => "Sun"@,
    }
}

/// Japanese weekday names: one character, or the full three.
pub open spec fn japanese_label(weekday: Weekday, style: WeekdayStyle) -> Seq<char> {
    match style {
        WeekdayStyle::Short => match weekday {
            Weekday::Mon => "月"@,
            Weekday::Tue => "火"@,
            Weekday::Wed => "水"@,
            Weekday::Thu => "木"@,
            Weekday::Fri => "金"@,
            Weekday::Sat => "土"@,
            Weekday::Sun => "日"@,
        },
        WeekdayStyle::Long => match weekday {
            Weekday::Mon => "月曜日"@,
            Weekday::Tue => "火曜日"@,
            Weekday::Wed => "水曜日"@,
            Weekday::Thu => "木曜日"@,
            Weekday::Fri => "金曜日"@,
            Weekday::Sat => "土曜日"@,
            Weekday::Sun => "日曜日"@,
        },
    }
}

/// The name of `weekday` as `timezone` writes it.
pub open spec fn weekday_label(weekday: Weekday, timezone: TimeZone, style: WeekdayStyle) -> Seq<
    char,
> {
    match timezone {
        TimeZone::UTC => english_label(weekday),
        TimeZone::JST => japanese_label(weekday, style),
    }
}

/// `year/month/day(weekday)`: the numbers as they are, without padding.
pub open spec fn date_text(local: CivilTime, label: Seq<char>) -> Seq<char> {
    decimal_text(local.year) + seq!['/'] + decimal_text(local.month) + seq!['/'] + decimal_text(
        local.day,
    ) + seq!['('] + label + seq![')']
}

/// `hour:minute:second`, each in two digits.
pub open spec fn time_text(local: CivilTime) -> Seq<char> {
    two_digit_text(local.hour) + seq![':'] + two_digit_text(local.minute) + seq![':']
        + two_digit_text(local.second)
}

/// The text for a date and time as a clock in `timezone` shows it.
pub open spec fn datetime_text(
    local: CivilTime,
    timezone: TimeZone,
    style: WeekdayStyle,
    shape: OutputShape,
) -> Seq<char> {
    let date = date_text(local, weekday_label(local.weekday(), timezone, style));
    match shape {
        OutputShape::Full => date + seq![' '] + time_text(local),
        OutputShape::DateOnly => date,
    }
}

/// What a clock in `timezone` shows at the instant at which a clock in UTC
/// shows `utc`.
pub open spec fn local_time(utc: CivilTime, timezone: TimeZone) -> CivilTime {
    civil_from_seconds(utc.seconds() + timezone.utc_offset())
}

/// The same timestamp always gives the same text: a count of seconds has
/// one date and time, and the text is a function of it, the zone, the style
/// and the shape.
pub proof fn lemma_same_timestamp_same_text(
    seconds: int,
    first: CivilTime,
    second: CivilTime,
    timezone: TimeZone,
    style: WeekdayStyle,
    shape: OutputShape,
)
    requires
        first.is_valid(),
        first.seconds() == seconds,
        second.is_valid(),
        second.seconds() == seconds,
    ensures
        first == second,
        datetime_text(local_time(first, timezone), timezone, style, shape) == datetime_text(
            local_time(second, timezone),
            timezone,
            style,
            shape,
        ),
{
    lemma_civil_time_unique(first, second);
}

/// Moving to a time zone adds its offset to the time of day and carries
/// into the date: the local date and time is a valid one, and it is the
/// offset later than the date and time in UTC.
pub proof fn lemma_local_time_carries(utc: CivilTime, timezone: TimeZone)
    requires
        utc.is_valid(),
    ensures
        local_time(utc, timezone).is_valid(),
        local_time(utc, timezone).seconds() == utc.seconds() + timezone.utc_offset(),
        local_time(utc, timezone).day_number() == utc.day_number() + (utc.second_of_day()
            + timezone.utc_offset()) / 86_400,
        local_time(utc, timezone).second_of_day() == (utc.second_of_day() + timezone.utc_offset())
            % 86_400,
{
    lemma_civil_from_seconds_total(utc.seconds() + timezone.utc_offset());
}

/// 23:30:00 in UTC is 08:30:00 of the next day in Japan, whatever the date:
/// the nine hours carry into the day, and where the day is the last of its
/// month or year, into those.
pub proof fn lemma_utc_2330_is_jst_0830_next_day(utc: CivilTime)
    requires
        utc.is_valid(),
        utc.hour == 23,
        utc.minute == 30,
        utc.second == 0,
    ensures
        local_time(utc, TimeZone::JST).is_valid(),
        local_time(utc, TimeZone::JST).day_number() == utc.day_number() + 1,
        local_time(utc, TimeZone::JST).hour == 8,
        local_time(utc, TimeZone::JST).minute == 30,
        local_time(utc, TimeZone::JST).second == 0,
{
    lemma_local_time_carries(utc, TimeZone::JST);
}

fn weekday_str(weekday: Weekday, timezone: &TimeZone, style: WeekdayStyle) -> (label: &'static str)
    ensures
        label@ == weekday_label(weekday, *timezone, style),
{
    match timezone {
        TimeZone::UTC => match weekday {
            Weekday::Mon => "Mon",
            Weekday::Tue => "Tue",
            Weekday::Wed => "Wed",
            Weekday::Thu => "Thu",
            Weekday::Fri => "Fri",
            Weekday::Sat => "Sat",
            Weekday::Sun => "Sun",
        },
        TimeZone::JST => match style {
            WeekdayStyle::Short => match weekday {
                Weekday::Mon => "月",
                Weekday::Tue => "火",
                Weekday::Wed => "水",
                Weekday::Thu => "木",
                Weekday::Fri => "金",
                Weekday::Sat => "土",
                Weekday::Sun => "日",
            },
            WeekdayStyle::Long => match weekday {
                Weekday::Mon => "月曜日",
                Weekday::Tue => "火曜日",
                Weekday::Wed => "水曜日",
                Weekday::Thu => "木曜日",
                Weekday::Fri => "金曜日",
                Weekday::Sat => "土曜日",
                Weekday::Sun => "日曜日",
            },
        },
    }
}

/// The name of `weekday` as `timezone` writes it.
pub fn format_weekday(weekday: Weekday, timezone: &TimeZone, style: WeekdayStyle) -> (label: String)
    ensures
        label@ == weekday_label(weekday, *timezone, style),
{
    weekday_str(weekday, timezone, style).to_owned()
}

fn render(local: &CivilFields, timezone: &TimeZone, style: WeekdayStyle, shape: OutputShape) -> (text:
    String)
    requires
        local.shows(local@.seconds()),
    ensures
        text@ == datetime_text(local@, *timezone, style, shape),
{
    proof {
        reveal_strlit("/");
        reveal_strlit("(");
        reveal_strlit(")");
        reveal_strlit(" ");
        reveal_strlit(":");
    }
    let label = weekday_str(Weekday::from_index(local.weekday), timezone, style);
    let mut text = String::new();
    append_decimal(&mut text, local.year);
    text.append("/");
    append_decimal(&mut text, local.month as i32);
    text.append("/");
    append_decimal(&mut text, local.day as i32);
    text.append("(");
    text.append(label);
    text.append(")");
    match shape {
        OutputShape::Full => {
            text.append(" ");
            append_two_digits(&mut text, local.hour);
            text.append(":");
            append_two_digits(&mut text, local.minute);
            text.append(":");
            append_two_digits(&mut text, local.second);
        },
        OutputShape::DateOnly => {},
    }
    text
}

/// Writes `instant` as a clock in `timezone` shows it:
/// `year/month/day(weekday) hour:minute:second`, or the date part alone.
pub fn format_datetime(
    instant: CalendarInstant,
    timezone: TimeZone,
    style: WeekdayStyle,
    shape: OutputShape,
) -> (text: String)
    ensures
        text@ == datetime_text(local_time(instant@, timezone), timezone, style, shape),
{
    let seconds = instant.epoch_seconds();
    proof {
        lemma_calendar_range_bounds(seconds as int);
    }
    match civil_fields_at(seconds, timezone.offset_seconds()) {
        Some(local) => {
            proof {
                lemma_civil_from_seconds(local@, seconds + timezone.utc_offset());
            }
            render(&local, &timezone, style, shape)
        },
        None => unreached(),
    }
}

} // verus!

//! Decoding the text of a Unix timestamp into an instant.

use crate::calendar::{civil_from_seconds, CivilTime};
use crate::instant::{CalendarInstant, MAX_TIMESTAMP, MIN_TIMESTAMP};
use crate::numeral::{integer_value, is_integer_text, parse_integer, ParsedInteger};
use vstd::prelude::*;

verus! {

/// Why a text is not the timestamp of an instant.
#[derive(Clone, Copy, Debug, PartialEq, Eq, Structural)]
pub enum DecodeError {
    /// The text is not a base-10 integer.
    NotANumber,
    /// The text is a base-10 integer, but the calendar does not reach that far.
    OutOfRange,
}

/// What `raw` decodes to: the date and time in UTC that lie as many seconds
/// after 1970-01-01 00:00:00 as `raw` writes, or the reason why there is none.
pub open spec fn decoded(raw: Seq<char>) -> Result<CivilTime, DecodeError> {
    if !is_integer_text(raw) {
        Err(DecodeError::NotANumber)
    } else if !(MIN_TIMESTAMP <= integer_value(raw) <= MAX_TIMESTAMP) {
        Err(DecodeError::OutOfRange)
    } else {
        Ok(civil_from_seconds(integer_value(raw)))
    }
}

/// The calendar fields of a decoding result.
pub open spec fn decoded_view(result: Result<CalendarInstant, DecodeError>) -> Result<
    CivilTime,
    DecodeError,
> {
    match result {
        Ok(instant) => Ok(instant@),
        Err(error) => Err(error),
    }
}

/// Decodes a Unix timestamp written in base 10, with `-` in front of a
/// negative one, into the instant that it counts the seconds to.
pub fn decode(raw: &str) -> (result: Result<CalendarInstant, DecodeError>)
    ensures
        decoded_view(result) == decoded(raw@),
        result == Err::<CalendarInstant, DecodeError>(DecodeError::NotANumber) <==> !is_integer_text(
            raw@,
        ),
        result == Err::<CalendarInstant, DecodeError>(DecodeError::OutOfRange) <==> is_integer_text(
            raw@,
        ) && !(MIN_TIMESTAMP <= integer_value(raw@) <= MAX_TIMESTAMP),
        result matches Ok(instant) ==> instant@.is_valid() && instant@.seconds() == integer_value(
            raw@,
        ),
{
    match parse_integer(raw) {
        ParsedInteger::Malformed => Err(DecodeError::NotANumber),
        ParsedInteger::TooLarge => Err(DecodeError::OutOfRange),
        ParsedInteger::Value(seconds) => match CalendarInstant::from_epoch_seconds(seconds) {
            Some(instant) => Ok(instant),
            None => Err(DecodeError::OutOfRange),
        },
    }
}

} // verus!

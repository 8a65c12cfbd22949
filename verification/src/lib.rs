//! Unix timestamps rendered as calendar strings in a fixed-offset time zone.
//!
//! [`decode`] reads a timestamp from text and gives the instant it names,
//! [`format_datetime`] writes an instant as a clock in a time zone shows it,
//! and [`Endpoint::respond`] does both for the path of a request.
//!
//! The contracts are stated over the calendar of [`calendar`], which is
//! arithmetic on integers. Turning seconds into calendar fields is left to
//! chrono; what is taken on trust of it stands in [`chrono_bridge`]. Reading
//! and writing numbers, the carry from seconds into days, and the way back
//! from calendar fields to seconds are verified.

pub mod calendar;
pub mod chrono_bridge;
pub mod decode;
pub mod endpoint;
pub mod format;
pub mod instant;
pub mod numeral;

pub use crate::calendar::Weekday;
pub use crate::decode::{decode, DecodeError};
pub use crate::endpoint::{Endpoint, Method, Reply, UnixTimePayload};
pub use crate::format::{format_datetime, format_weekday, OutputShape, TimeZone, WeekdayStyle};
pub use crate::instant::{CalendarInstant, MAX_TIMESTAMP, MIN_TIMESTAMP};

//! The endpoint: from a request's method and path to the body of the response.

use crate::decode::{decode, decoded, DecodeError};
use crate::format::{
    datetime_text, format_datetime, local_time, OutputShape, TimeZone, WeekdayStyle,
};
use vstd::prelude::*;
use vstd::string::StrSliceExecFns;

verus! {

/// The method of an HTTP request.
#[derive(Clone, Copy, Debug, PartialEq, Eq, Structural)]
pub enum Method {
    Head,
    Get,
    Post,
    Put,
    Patch,
    Delete,
    Options,
    Connect,
    Trace,
    Report,
}

/// A timestamp sent as a number rather than as text.
#[derive(Clone, Copy, Debug, PartialEq, Eq)]
pub struct UnixTimePayload {
    unixtime: i64,
}

impl View for UnixTimePayload {
    type V = int;

    closed spec fn view(&self) -> int {
        self.unixtime as int
    }
}

impl UnixTimePayload {
    pub fn new(unixtime: i64) -> (payload: UnixTimePayload)
        ensures
            payload@ == unixtime,
    {
        UnixTimePayload { unixtime }
    }

    pub fn unixtime(&self) -> (unixtime: i64)
        ensures
            unixtime == self@,
    {
        self.unixtime
    }
}

/// How one deployment of the endpoint answers: the method it serves, and the
/// time zone, weekday names and shape of what it writes.
#[derive(Clone, Copy, Debug, PartialEq, Eq, Structural)]
pub struct Endpoint {
    pub method: Method,
    pub timezone: TimeZone,
    pub style: WeekdayStyle,
    pub shape: OutputShape,
}

/// The body that reports a request with another method than the endpoint's.
pub open spec fn method_not_allowed_body() -> Seq<char> {
    "{\"error\": \"Method Not Allowed\"}"@
}

/// The body that reports a decoding error.
pub open spec fn error_body(error: DecodeError) -> Seq<char> {
    match error {
        DecodeError::NotANumber => "{\"error\": \"Invalid unixtime\"}"@,
        DecodeError::OutOfRange => "{\"error\": \"Invalid timestamp\"}"@,
    }
}

/// The timestamp in a request path: the path without the one `/` it starts with.
pub open spec fn path_token(path: Seq<char>) -> Seq<char> {
    if path.len() > 0 && path[0] == '/' {
        path.skip(1)
    } else {
        path
    }
}

/// The answer to a request: the status of the response, the type of its
/// body and the body.
#[derive(Debug, PartialEq, Eq)]
pub struct Reply {
    pub status: u16,
    pub content_type: &'static str,
    pub body: String,
}

/// The type of every body: plain text, also where the text reports an error.
pub open spec fn plain_text() -> Seq<char> {
    "text/plain; charset=utf-8"@
}

/// The body with which `endpoint` answers a request.
pub open spec fn response_body(endpoint: Endpoint, method: Method, path: Seq<char>) -> Seq<char> {
    if method != endpoint.method {
        method_not_allowed_body()
    } else {
        match decoded(path_token(path)) {
            Ok(utc) => datetime_text(
                local_time(utc, endpoint.timezone),
                endpoint.timezone,
                endpoint.style,
                endpoint.shape,
            ),
            Err(error) => error_body(error),
        }
    }
}

impl DecodeError {
    /// The body that reports this error.
    pub fn body(&self) -> (body: String)
        ensures
            body@ == error_body(*self),
    {
        match self {
            DecodeError::NotANumber => "{\"error\": \"Invalid unixtime\"}".to_owned(),
            DecodeError::OutOfRange => "{\"error\": \"Invalid timestamp\"}".to_owned(),
        }
    }
}

impl Endpoint {
    /// Answers a request. Every request is answered with status 200 and
    /// plain text: a wrong method, or a path that holds no timestamp of the
    /// calendar, is reported in the body and not by the status.
    pub fn respond(&self, method: Method, path: &str) -> (reply: Reply)
        ensures
            reply.status == 200,
            reply.content_type@ == plain_text(),
            reply.body@ == response_body(*self, method, path@),
            method != self.method ==> reply.body@ == method_not_allowed_body(),
    {
        let content_type = "text/plain; charset=utf-8";
        if method != self.method {
            let body = "{\"error\": \"Method Not Allowed\"}".to_owned();
            return Reply { status: 200, content_type, body };
        }
        let length = path.unicode_len();
        let token = if length > 0 && path.get_char(0) == '/' {
            path.substring_char(1, length)
        } else {
            path
        };
        let body = match decode(token) {
            Ok(instant) => format_datetime(instant, self.timezone, self.style, self.shape),
            Err(error) => error.body(),
        };
        Reply { status: 200, content_type, body }
    }
}

} // verus!

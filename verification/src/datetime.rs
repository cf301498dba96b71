use vstd::prelude::*;
use crate::error::Reason;
use crate::json::{Json, JsonView};

verus! {

/// `chrono::ParseError`: carried to the caller as it came.
#[verifier::external_type_specification]
#[verifier::external_body]
pub struct ExParseError(chrono::ParseError);

/// An instant on the UTC time line: the whole seconds since the start of
/// 1970, not counting leap seconds, and the nanoseconds past that second.
/// Within a leap second the nanoseconds run on past a thousand million, as
/// chrono counts them.
#[derive(Clone, Copy, Debug, PartialEq, Eq, Structural)]
pub struct Timestamp {
    pub seconds: i64,
    pub nanos: u32,
}

/// The pattern tried on a text that is no RFC 3339 date and time.
pub const FALLBACK_FORMAT: &'static str = "%Y-%m-%dT%H:%M:%S%.f%:z";

/// What chrono makes of `text` read as an RFC 3339 date and time.
pub uninterp spec fn rfc3339_instant(text: Seq<char>) -> Result<Timestamp, chrono::ParseError>;

/// What chrono makes of `text` read by the strftime pattern `format`.
pub uninterp spec fn format_instant(text: Seq<char>, format: Seq<char>) -> Result<
    Timestamp,
    chrono::ParseError,
>;

/// `chrono::DateTime::parse_from_rfc3339`, the result moved to UTC with
/// `DateTime::with_timezone` and handed out as `DateTime::timestamp` and
/// `DateTime::timestamp_subsec_nanos`.
#[verifier::external_body]
fn parse_rfc3339(text: &str) -> (r: Result<Timestamp, chrono::ParseError>)
    ensures
        r == rfc3339_instant(text@),
{
    chrono::DateTime::parse_from_rfc3339(text).map(|at| at.with_timezone(&chrono::Utc)).map(
        |at| Timestamp { seconds: at.timestamp(), nanos: at.timestamp_subsec_nanos() },
    )
}

/// `chrono::DateTime::parse_from_str`, the result moved to UTC with
/// `DateTime::with_timezone` and handed out as `DateTime::timestamp` and
/// `DateTime::timestamp_subsec_nanos`.
#[verifier::external_body]
fn parse_by_format(text: &str, format: &str) -> (r: Result<Timestamp, chrono::ParseError>)
    ensures
        r == format_instant(text@, format@),
{
    chrono::DateTime::parse_from_str(text, format).map(|at| at.with_timezone(&chrono::Utc)).map(
        |at| Timestamp { seconds: at.timestamp(), nanos: at.timestamp_subsec_nanos() },
    )
}

/// The first reading where it succeeded, else the second, with the second's
/// error where both failed.
pub open spec fn first_reading(
    primary: Result<Timestamp, chrono::ParseError>,
    fallback: Result<Timestamp, chrono::ParseError>,
) -> Result<Timestamp, chrono::ParseError> {
    match primary {
        Ok(at) => Ok(at),
        Err(_) => fallback,
    }
}

/// Settles on one of two readings of a text.
pub fn settle(
    primary: Result<Timestamp, chrono::ParseError>,
    fallback: Result<Timestamp, chrono::ParseError>,
) -> (r: Result<Timestamp, chrono::ParseError>)
    ensures
        r == first_reading(primary, fallback),
{
    match primary {
        Ok(at) => Ok(at),
        Err(_) => fallback,
    }
}

/// The instant that `text` denotes.
pub open spec fn parse_spec(text: Seq<char>) -> Result<Timestamp, chrono::ParseError> {
    first_reading(rfc3339_instant(text), format_instant(text, FALLBACK_FORMAT@))
}

/// Reads `text` as RFC 3339, and by the fallback pattern where that fails.
pub fn parse(text: &str) -> (r: Result<Timestamp, chrono::ParseError>)
    ensures
        r == parse_spec(text@),
{
    settle(parse_rfc3339(text), parse_by_format(text, FALLBACK_FORMAT))
}

/// A timestamp field: a string that denotes an instant.
pub open spec fn instant_of(value: JsonView) -> Result<Timestamp, Reason> {
    match value {
        JsonView::Text(s) => match parse_spec(s) {
            Ok(at) => Ok(at),
            Err(e) => Err(Reason::Timestamp(e)),
        },
        _ => Err(Reason::NotText),
    }
}

/// Decodes a timestamp field.
pub fn deserialize(value: &Json) -> (r: Result<Timestamp, Reason>)
    ensures
        r == instant_of(value@),
{
    match value {
        Json::Text(s) => match parse(s.as_str()) {
            Ok(at) => Ok(at),
            Err(e) => Err(Reason::Timestamp(e)),
        },
        _ => Err(Reason::NotText),
    }
}

/// An optional timestamp field: null is no timestamp and is not parsed; a
/// string must denote an instant.
pub open spec fn optional_instant_of(value: JsonView) -> Result<Option<Timestamp>, Reason> {
    match value {
        JsonView::Null => Ok(None),
        _ => match instant_of(value) {
            Ok(at) => Ok(Some(at)),
            Err(reason) => Err(reason),
        },
    }
}

/// Decodes a timestamp field that may be null.
pub fn deserialize_opt(value: &Json) -> (r: Result<Option<Timestamp>, Reason>)
    ensures
        r == optional_instant_of(value@),
{
    match value {
        Json::Null => Ok(None),
        _ => match deserialize(value) {
            Ok(at) => Ok(Some(at)),
            Err(reason) => Err(reason),
        },
    }
}

} // verus!

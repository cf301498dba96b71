use vstd::prelude::*;
use crate::error::Reason;
use crate::json::{Float, Json, JsonNumber, JsonView};
use crate::text::{blank, is_blank};

verus! {

/// A result with its success taken by its model.
pub open spec fn deep<T: DeepView, E>(r: Result<T, E>) -> Result<T::V, E> {
    match r {
        Ok(value) => Ok(value.deep_view()),
        Err(e) => Err(e),
    }
}

/// The finite number that `text` spells as a binary64 literal, if it spells
/// one.
pub uninterp spec fn float_of_text(text: Seq<char>) -> Option<Float>;

/// `str::parse` at the binary64 type, then `serde_json::Number::from_f64`,
/// which keeps a number only if it is finite, and `Number::as_f64` to read it
/// back; the number leaves as its bit pattern.
#[verifier::external_body]
fn parse_float(text: &str) -> (r: Option<Float>)
    ensures
        r == float_of_text(text@),
{
    text.parse().ok().and_then(serde_json::Number::from_f64).and_then(|n| n.as_f64()).map(
        |x| Float { bits: x.to_bits() },
    )
}

/// An optional text field: null and blank strings are absent, any other
/// string is present as it stands.
pub open spec fn blank_as_none(value: JsonView) -> Result<Option<Seq<char>>, Reason> {
    match value {
        JsonView::Null => Ok(None),
        JsonView::Text(s) => if blank(s) {
            Ok(None)
        } else {
            Ok(Some(s))
        },
        _ => Err(Reason::NotText),
    }
}

/// Decodes an optional text field under the rule that blank means absent.
pub fn empty_string_as_none(value: &Json) -> (r: Result<Option<String>, Reason>)
    ensures
        deep(r) == blank_as_none(value@),
{
    match value {
        Json::Null => Ok(None),
        Json::Text(s) => {
            if is_blank(s.as_str()) {
                Ok(None)
            } else {
                Ok(Some(s.clone()))
            }
        },
        _ => Err(Reason::NotText),
    }
}

/// The number that a JSON number stands for, which must be finite.
pub open spec fn float_of_number(number: JsonNumber) -> Result<Float, Reason> {
    match number.float {
        Some(x) => if x.finite() {
            Ok(x)
        } else {
            Err(Reason::InvalidNumber)
        },
        None => Err(Reason::InvalidNumber),
    }
}

/// Takes a JSON number as a binary64 number.
pub fn float_from_number(number: &JsonNumber) -> (r: Result<Float, Reason>)
    ensures
        r == float_of_number(*number),
{
    match number.float {
        Some(x) => {
            if x.is_finite() {
                Ok(x)
            } else {
                Err(Reason::InvalidNumber)
            }
        },
        None => Err(Reason::InvalidNumber),
    }
}

/// What a string is worth as a number, given what reading it gave: only a
/// finite number counts.
pub open spec fn float_of_reading(reading: Option<Float>) -> Result<Float, Reason> {
    match reading {
        Some(x) => if x.finite() {
            Ok(x)
        } else {
            Err(Reason::NotNumericText)
        },
        None => Err(Reason::NotNumericText),
    }
}

/// Judges what reading a string as a number gave.
pub fn float_from_reading(reading: Option<Float>) -> (r: Result<Float, Reason>)
    ensures
        r == float_of_reading(reading),
{
    match reading {
        Some(x) => {
            if x.is_finite() {
                Ok(x)
            } else {
                Err(Reason::NotNumericText)
            }
        },
        None => Err(Reason::NotNumericText),
    }
}

/// A numeric field: a JSON number, or a string that spells a finite number.
pub open spec fn coerced_float(value: JsonView) -> Result<Float, Reason> {
    match value {
        JsonView::Number(n) => float_of_number(n),
        JsonView::Text(s) => float_of_reading(float_of_text(s)),
        _ => Err(Reason::NotFloatOrText),
    }
}

/// Decodes a numeric field.
pub fn de_float(value: &Json) -> (r: Result<Float, Reason>)
    ensures
        r == coerced_float(value@),
{
    match value {
        Json::Number(n) => float_from_number(n),
        Json::Text(s) => float_from_reading(parse_float(s.as_str())),
        _ => Err(Reason::NotFloatOrText),
    }
}

} // verus!

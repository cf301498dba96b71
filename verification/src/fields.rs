use vstd::prelude::*;
use crate::datetime::{deserialize, deserialize_opt, instant_of, optional_instant_of, Timestamp};
use crate::deser::{
    blank_as_none, coerced_float, de_float, deep, empty_string_as_none, float_from_number,
    float_of_number,
};
use crate::error::{FieldError, Reason};
use crate::json::{
    items_view, lemma_array_view, member, member_of, members_view, Float, Json, JsonView, Members,
};

verus! {

/// The refusal of an object that lacks the member `key`.
pub open spec fn missing(key: &'static str) -> FieldError {
    FieldError::here(Reason::Missing).under_key(key)
}

/// What reading the member `key` gave, seen from the object.
pub open spec fn keyed<T>(r: Result<T, Reason>, key: &'static str) -> Result<T, FieldError> {
    match r {
        Ok(value) => Ok(value),
        Err(reason) => Err(FieldError::here(reason).under_key(key)),
    }
}

/// What reading below the member `key` gave, seen from the object.
pub open spec fn nested<T>(r: Result<T, FieldError>, key: &'static str) -> Result<T, FieldError> {
    match r {
        Ok(value) => Ok(value),
        Err(e) => Err(e.under_key(key)),
    }
}

/// Names the member in the refusal of its value.
pub fn lift<T>(r: Result<T, Reason>, key: &'static str) -> (out: Result<T, FieldError>)
    ensures
        out == keyed(r, key),
{
    match r {
        Ok(value) => Ok(value),
        Err(reason) => Err(FieldError::at(reason).in_key(key)),
    }
}

/// Names the member in a refusal from below it.
pub fn nest<T>(r: Result<T, FieldError>, key: &'static str) -> (out: Result<T, FieldError>)
    ensures
        out == nested(r, key),
{
    match r {
        Ok(value) => Ok(value),
        Err(e) => Err(e.in_key(key)),
    }
}

/// A string.
pub open spec fn text_of(value: JsonView) -> Result<Seq<char>, Reason> {
    match value {
        JsonView::Text(s) => Ok(s),
        _ => Err(Reason::NotText),
    }
}

pub fn text_from(value: &Json) -> (r: Result<String, Reason>)
    ensures
        deep(r) == text_of(value@),
{
    match value {
        Json::Text(s) => Ok(s.clone()),
        _ => Err(Reason::NotText),
    }
}

/// An integer that fits 64 signed bits.
pub open spec fn integer_of(value: JsonView) -> Result<i64, Reason> {
    match value {
        JsonView::Number(n) => match n.signed {
            Some(i) => Ok(i),
            None => Err(Reason::NotInteger),
        },
        _ => Err(Reason::NotInteger),
    }
}

pub fn integer_from(value: &Json) -> (r: Result<i64, Reason>)
    ensures
        r == integer_of(value@),
{
    match value {
        Json::Number(n) => match n.signed {
            Some(i) => Ok(i),
            None => Err(Reason::NotInteger),
        },
        _ => Err(Reason::NotInteger),
    }
}

/// A number, taken as a binary64 number.
pub open spec fn number_of(value: JsonView) -> Result<Float, Reason> {
    match value {
        JsonView::Number(n) => float_of_number(n),
        _ => Err(Reason::NotNumber),
    }
}

pub fn number_from(value: &Json) -> (r: Result<Float, Reason>)
    ensures
        r == number_of(value@),
{
    match value {
        Json::Number(n) => float_from_number(n),
        _ => Err(Reason::NotNumber),
    }
}

/// A required string member.
pub open spec fn required_text(members: Members, key: &'static str) -> Result<
    Seq<char>,
    FieldError,
> {
    match member_of(members, key@) {
        Some(value) => keyed(text_of(value), key),
        None => Err(missing(key)),
    }
}

pub fn read_text(members: &Vec<(String, Json)>, key: &'static str) -> (r: Result<
    String,
    FieldError,
>)
    ensures
        deep(r) == required_text(members_view(members@), key),
{
    match member(members, key) {
        Some(value) => lift(text_from(value), key),
        None => Err(FieldError::at(Reason::Missing).in_key(key)),
    }
}

/// A string member that may be absent or null.
pub open spec fn optional_text(members: Members, key: &'static str) -> Result<
    Option<Seq<char>>,
    FieldError,
> {
    match member_of(members, key@) {
        None => Ok(None),
        Some(JsonView::Null) => Ok(None),
        Some(value) => match text_of(value) {
            Ok(s) => Ok(Some(s)),
            Err(reason) => Err(FieldError::here(reason).under_key(key)),
        },
    }
}

pub fn read_optional_text(members: &Vec<(String, Json)>, key: &'static str) -> (r: Result<
    Option<String>,
    FieldError,
>)
    ensures
        deep(r) == optional_text(members_view(members@), key),
{
    match member(members, key) {
        None => Ok(None),
        Some(Json::Null) => Ok(None),
        Some(value) => match text_from(value) {
            Ok(s) => Ok(Some(s)),
            Err(reason) => Err(FieldError::at(reason).in_key(key)),
        },
    }
}

/// A string member that must be there, where null and blank strings stand
/// for no value.
pub open spec fn blankable_text(members: Members, key: &'static str) -> Result<
    Option<Seq<char>>,
    FieldError,
> {
    match member_of(members, key@) {
        Some(value) => keyed(blank_as_none(value), key),
        None => Err(missing(key)),
    }
}

pub fn read_blankable_text(members: &Vec<(String, Json)>, key: &'static str) -> (r: Result<
    Option<String>,
    FieldError,
>)
    ensures
        deep(r) == blankable_text(members_view(members@), key),
{
    match member(members, key) {
        Some(value) => lift(empty_string_as_none(value), key),
        None => Err(FieldError::at(Reason::Missing).in_key(key)),
    }
}

/// A required integer member.
pub open spec fn required_integer(members: Members, key: &'static str) -> Result<i64, FieldError> {
    match member_of(members, key@) {
        Some(value) => keyed(integer_of(value), key),
        None => Err(missing(key)),
    }
}

pub fn read_integer(members: &Vec<(String, Json)>, key: &'static str) -> (r: Result<
    i64,
    FieldError,
>)
    ensures
        r == required_integer(members_view(members@), key),
{
    match member(members, key) {
        Some(value) => lift(integer_from(value), key),
        None => Err(FieldError::at(Reason::Missing).in_key(key)),
    }
}

/// An integer member that may be absent or null.
pub open spec fn optional_integer(members: Members, key: &'static str) -> Result<
    Option<i64>,
    FieldError,
> {
    match member_of(members, key@) {
        None => Ok(None),
        Some(JsonView::Null) => Ok(None),
        Some(value) => match integer_of(value) {
            Ok(i) => Ok(Some(i)),
            Err(reason) => Err(FieldError::here(reason).under_key(key)),
        },
    }
}

pub fn read_optional_integer(members: &Vec<(String, Json)>, key: &'static str) -> (r: Result<
    Option<i64>,
    FieldError,
>)
    ensures
        r == optional_integer(members_view(members@), key),
{
    match member(members, key) {
        None => Ok(None),
        Some(Json::Null) => Ok(None),
        Some(value) => match integer_from(value) {
            Ok(i) => Ok(Some(i)),
            Err(reason) => Err(FieldError::at(reason).in_key(key)),
        },
    }
}

/// A required numeric member: a number, or a string that spells one.
pub open spec fn required_float(members: Members, key: &'static str) -> Result<Float, FieldError> {
    match member_of(members, key@) {
        Some(value) => keyed(coerced_float(value), key),
        None => Err(missing(key)),
    }
}

pub fn read_float(members: &Vec<(String, Json)>, key: &'static str) -> (r: Result<
    Float,
    FieldError,
>)
    ensures
        r == required_float(members_view(members@), key),
{
    match member(members, key) {
        Some(value) => lift(de_float(value), key),
        None => Err(FieldError::at(Reason::Missing).in_key(key)),
    }
}

/// A number member that may be absent or null; a string is not accepted.
pub open spec fn optional_float(members: Members, key: &'static str) -> Result<
    Option<Float>,
    FieldError,
> {
    match member_of(members, key@) {
        None => Ok(None),
        Some(JsonView::Null) => Ok(None),
        Some(value) => match number_of(value) {
            Ok(x) => Ok(Some(x)),
            Err(reason) => Err(FieldError::here(reason).under_key(key)),
        },
    }
}

pub fn read_optional_float(members: &Vec<(String, Json)>, key: &'static str) -> (r: Result<
    Option<Float>,
    FieldError,
>)
    ensures
        r == optional_float(members_view(members@), key),
{
    match member(members, key) {
        None => Ok(None),
        Some(Json::Null) => Ok(None),
        Some(value) => match number_from(value) {
            Ok(x) => Ok(Some(x)),
            Err(reason) => Err(FieldError::at(reason).in_key(key)),
        },
    }
}

/// A required timestamp member.
pub open spec fn required_timestamp(members: Members, key: &'static str) -> Result<
    Timestamp,
    FieldError,
> {
    match member_of(members, key@) {
        Some(value) => keyed(instant_of(value), key),
        None => Err(missing(key)),
    }
}

pub fn read_timestamp(members: &Vec<(String, Json)>, key: &'static str) -> (r: Result<
    Timestamp,
    FieldError,
>)
    ensures
        r == required_timestamp(members_view(members@), key),
{
    match member(members, key) {
        Some(value) => lift(deserialize(value), key),
        None => Err(FieldError::at(Reason::Missing).in_key(key)),
    }
}

/// A timestamp member that may be absent or null.
pub open spec fn optional_timestamp(members: Members, key: &'static str) -> Result<
    Option<Timestamp>,
    FieldError,
> {
    match member_of(members, key@) {
        Some(value) => keyed(optional_instant_of(value), key),
        None => Ok(None),
    }
}

pub fn read_optional_timestamp(members: &Vec<(String, Json)>, key: &'static str) -> (r: Result<
    Option<Timestamp>,
    FieldError,
>)
    ensures
        r == optional_timestamp(members_view(members@), key),
{
    match member(members, key) {
        Some(value) => lift(deserialize_opt(value), key),
        None => Ok(None),
    }
}

/// A required member of any shape, kept as it is.
pub open spec fn required_json(members: Members, key: &'static str) -> Result<
    JsonView,
    FieldError,
> {
    match member_of(members, key@) {
        Some(value) => Ok(value),
        None => Err(missing(key)),
    }
}

pub fn read_json(members: &Vec<(String, Json)>, key: &'static str) -> (r: Result<Json, FieldError>)
    ensures
        deep(r) == required_json(members_view(members@), key),
{
    match member(members, key) {
        Some(value) => Ok(value.duplicate()),
        None => Err(FieldError::at(Reason::Missing).in_key(key)),
    }
}

/// The first `count` elements of an array of strings.
pub open spec fn texts_up_to(items: Seq<JsonView>, count: nat) -> Result<
    Seq<Seq<char>>,
    FieldError,
>
    decreases count,
{
    if count == 0 {
        Ok(Seq::empty())
    } else {
        match texts_up_to(items, (count - 1) as nat) {
            Err(e) => Err(e),
            Ok(done) => match text_of(items[count - 1]) {
                Ok(s) => Ok(done.push(s)),
                Err(reason) => Err(FieldError::here(reason).under_index((count - 1) as usize)),
            },
        }
    }
}

/// A failure among the first elements is the failure of every longer run.
pub proof fn lemma_texts_failure_stays(items: Seq<JsonView>, failed: nat, count: nat)
    requires
        texts_up_to(items, failed) is Err,
        failed <= count,
    ensures
        texts_up_to(items, count) == texts_up_to(items, failed),
    decreases count,
{
    if failed < count {
        lemma_texts_failure_stays(items, failed, (count - 1) as nat);
    }
}

/// An array of strings.
pub open spec fn texts_of(value: JsonView) -> Result<Seq<Seq<char>>, FieldError> {
    match value {
        JsonView::Array(items) => texts_up_to(items, items.len()),
        _ => Err(FieldError::here(Reason::NotArray)),
    }
}

pub fn texts_from(value: &Json) -> (r: Result<Vec<String>, FieldError>)
    ensures
        deep(r) == texts_of(value@),
{
    match value {
        Json::Array(items) => {
            proof {
                lemma_array_view(*value);
            }
            let mut out: Vec<String> = Vec::new();
            let mut i: usize = 0;
            assert(out.deep_view() =~= Seq::<Seq<char>>::empty());
            while i < items.len()
                invariant
                    i <= items.len(),
                    value@ == JsonView::Array(items_view(items@)),
                    texts_up_to(items_view(items@), i as nat) == Ok::<_, FieldError>(
                        out.deep_view(),
                    ),
                decreases items.len() - i,
            {
                let ghost before = out.deep_view();
                match text_from(&items[i]) {
                    Ok(s) => {
                        out.push(s);
                        assert(out.deep_view() =~= before.push(s@));
                    },
                    Err(reason) => {
                        proof {
                            lemma_texts_failure_stays(
                                items_view(items@),
                                (i + 1) as nat,
                                items@.len(),
                            );
                        }
                        return Err(FieldError::at(reason).in_index(i));
                    },
                }
                i += 1;
            }
            Ok(out)
        },
        _ => Err(FieldError::at(Reason::NotArray)),
    }
}

/// A required member that is an array of strings.
pub open spec fn required_texts(members: Members, key: &'static str) -> Result<
    Seq<Seq<char>>,
    FieldError,
> {
    match member_of(members, key@) {
        Some(value) => nested(texts_of(value), key),
        None => Err(missing(key)),
    }
}

pub fn read_texts(members: &Vec<(String, Json)>, key: &'static str) -> (r: Result<
    Vec<String>,
    FieldError,
>)
    ensures
        deep(r) == required_texts(members_view(members@), key),
{
    match member(members, key) {
        Some(value) => nest(texts_from(value), key),
        None => Err(FieldError::at(Reason::Missing).in_key(key)),
    }
}

} // verus!

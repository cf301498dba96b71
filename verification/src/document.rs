use vstd::prelude::*;
use crate::json::{Float, Json, JsonNumber, JsonView};

verus! {

/// `serde_json::Value`: nothing is known of one but through `peel`.
#[verifier::external_type_specification]
#[verifier::external_body]
pub struct ExValue(serde_json::Value);

/// `serde_json::Error`: carried to the caller as it came.
#[verifier::external_type_specification]
#[verifier::external_body]
pub struct ExError(serde_json::Error);

/// The document that a `serde_json::Value` holds.
pub uninterp spec fn value_json(value: serde_json::Value) -> JsonView;

/// The document that `text` spells, where it spells one.
pub uninterp spec fn text_json(text: Seq<char>) -> Option<JsonView>;

/// The outermost layer of a `serde_json::Value`, with what lies below still
/// in serde_json's hands.
pub enum Layer<'a> {
    Null,
    Bool(bool),
    Number(JsonNumber),
    Text(&'a str),
    Array(&'a Vec<serde_json::Value>),
    Object(Vec<(&'a String, &'a serde_json::Value)>),
}

impl<'a> Layer<'a> {
    /// The document that a layer stands for.
    pub open spec fn json(self) -> JsonView {
        match self {
            Layer::Null => JsonView::Null,
            Layer::Bool(b) => JsonView::Bool(b),
            Layer::Number(n) => JsonView::Number(n),
            Layer::Text(s) => JsonView::Text(s@),
            Layer::Array(items) => JsonView::Array(
                Seq::new(items@.len(), |i: int| value_json(items@[i])),
            ),
            Layer::Object(members) => JsonView::Object(
                Seq::new(members@.len(), |i: int| (members@[i].0@, value_json(*members@[i].1))),
            ),
        }
    }
}

/// Takes the outermost layer off a `serde_json::Value`, one arm for each of
/// its variants. A number is read through `Number::as_u64`, `Number::as_i64`
/// and `Number::as_f64`; the members of an object come as `Map::iter` walks
/// them. The document of the value is the document of its layer.
#[verifier::external_body]
fn peel<'a>(value: &'a serde_json::Value) -> (layer: Layer<'a>)
    ensures
        layer.json() == value_json(*value),
{
    match value {
        serde_json::Value::Null => Layer::Null,
        serde_json::Value::Bool(b) => Layer::Bool(*b),
        serde_json::Value::Number(n) => Layer::Number(
            JsonNumber {
                unsigned: n.as_u64(),
                signed: n.as_i64(),
                float: n.as_f64().map(|x| Float { bits: x.to_bits() }),
            },
        ),
        serde_json::Value::String(s) => Layer::Text(s),
        serde_json::Value::Array(items) => Layer::Array(items),
        serde_json::Value::Object(members) => Layer::Object(members.iter().collect()),
    }
}

/// `serde_json::from_str` at `serde_json::Value`: the value that the text
/// spells, or serde_json's error where it spells none.
#[verifier::external_body]
fn read_value(text: &str) -> (r: Result<serde_json::Value, serde_json::Error>)
    ensures
        match r {
            Ok(value) => text_json(text@) == Some(value_json(value)),
            Err(_) => text_json(text@) is None,
        },
{
    serde_json::from_str(text)
}

/// The document that `value` holds.
#[verifier::loop_isolation(false)]
pub fn json_from_value(value: &serde_json::Value) -> (json: Json)
    ensures
        json@ == value_json(*value),
    decreases value_json(*value),
{
    match peel(value) {
        Layer::Null => Json::Null,
        Layer::Bool(b) => Json::Bool(b),
        Layer::Number(n) => Json::Number(n),
        Layer::Text(s) => Json::Text(s.to_owned()),
        Layer::Array(items) => {
            let ghost below = value_json(*value)->Array_0;
            let mut out: Vec<Json> = Vec::new();
            let mut i: usize = 0;
            while i < items.len()
                invariant
                    i <= items.len(),
                    out@.len() == i,
                    forall|k: int| 0 <= k < i ==> out@[k]@ == below[k],
                decreases items.len() - i,
            {
                assert(below[i as int] == value_json(items@[i as int]));
                out.push(json_from_value(&items[i]));
                i += 1;
            }
            let json = Json::Array(out);
            assert(json@->Array_0 =~= below);
            json
        },
        Layer::Object(members) => {
            let ghost below = value_json(*value)->Object_0;
            let mut out: Vec<(String, Json)> = Vec::new();
            let mut i: usize = 0;
            while i < members.len()
                invariant
                    i <= members.len(),
                    out@.len() == i,
                    forall|k: int| 0 <= k < i ==> (out@[k].0@, out@[k].1@) == below[k],
                decreases members.len() - i,
            {
                assert(below[i as int].0 == members@[i as int].0@);
                assert(below[i as int].1 == value_json(*members@[i as int].1));
                let name = members[i].0.clone();
                let held = json_from_value(members[i].1);
                out.push((name, held));
                i += 1;
            }
            let json = Json::Object(out);
            assert(json@->Object_0 =~= below);
            json
        },
    }
}

/// Reads `text` as a JSON document.
pub fn parse_document(text: &str) -> (r: Result<Json, serde_json::Error>)
    ensures
        match r {
            Ok(json) => text_json(text@) == Some(json@),
            Err(_) => text_json(text@) is None,
        },
{
    match read_value(text) {
        Ok(value) => Ok(json_from_value(&value)),
        Err(e) => Err(e),
    }
}

} // verus!

//! JSON documents as the translator sees them.
//!
//! Parsing and printing are done by `serde_json`; the functions here give its
//! `Value` a mathematical model and a contract for each operation that the
//! translator performs on one.

use vstd::prelude::*;

verus! {

/// `serde_json::Value`: a JSON document, known here by its model alone.
#[verifier::external_type_specification]
#[verifier::external_body]
pub struct ExValue(serde_json::Value);

/// `serde_json::Number`: a JSON number. The translator hands numbers on and
/// never looks into one.
#[verifier::external_type_specification]
#[verifier::external_body]
pub struct ExNumber(serde_json::Number);

/// The mathematical model of a JSON document.
pub enum JsonValue {
    Null,
    Bool(bool),
    Number(serde_json::Number),
    Text(Seq<char>),
    Array(Seq<JsonValue>),
    Object(Map<Seq<char>, JsonValue>),
}

impl JsonValue {
    /// The member stored under `key`, if this is an object that has one.
    pub open spec fn field(self, key: Seq<char>) -> Option<JsonValue> {
        match self {
            JsonValue::Object(members) => if members.contains_key(key) {
                Some(members[key])
            } else {
                None
            },
            _ => None,
        }
    }
}

/// The document that a `serde_json::Value` holds.
pub uninterp spec fn json_model(v: serde_json::Value) -> JsonValue;

/// The document that `serde_json::from_slice` reads from `bytes`, or `None`
/// where it reports an error.
pub uninterp spec fn parsed_json(bytes: Seq<u8>) -> Option<JsonValue>;

/// The bytes that `serde_json::to_vec` prints for `doc`, or `None` where it
/// reports an error.
///
/// The bytes depend on the document alone because a `Value` keeps the members
/// of an object sorted by key, and prints them so. That holds while
/// `serde_json` is built without its `preserve_order` feature, as it is here;
/// with the feature the order of insertion would show in the bytes.
pub uninterp spec fn rendered_json(doc: JsonValue) -> Option<Seq<u8>>;

/// The models of a vector of values, in order.
pub open spec fn models(items: Seq<serde_json::Value>) -> Seq<JsonValue> {
    Seq::new(items.len(), |i: int| json_model(items[i]))
}

/// `serde_json::from_slice` at type `Value`: the result is the parse of the
/// bytes, and an error becomes `None`.
#[verifier::external_body]
pub(crate) fn parse_value(body: &[u8]) -> (r: Option<serde_json::Value>)
    ensures
        match r {
            Some(v) => parsed_json(body@) == Some(json_model(v)),
            None => parsed_json(body@) is None,
        },
{
    serde_json::from_slice::<serde_json::Value>(body).ok()
}

/// `serde_json::to_vec` on a `Value`: the result is the printed form of the
/// document, and an error becomes `None`.
#[verifier::external_body]
pub(crate) fn render_value(v: &serde_json::Value) -> (r: Option<Vec<u8>>)
    ensures
        match r {
            Some(bytes) => rendered_json(json_model(*v)) == Some(bytes@),
            None => rendered_json(json_model(*v)) is None,
        },
{
    serde_json::to_vec(v).ok()
}

/// `Value::get` with a string key: the member under `key` where the value is
/// an object that has one, else `None`.
#[verifier::external_body]
pub(crate) fn member<'a>(v: &'a serde_json::Value, key: &str) -> (r: Option<&'a serde_json::Value>)
    ensures
        match r {
            Some(x) => json_model(*v).field(key@) == Some(json_model(*x)),
            None => json_model(*v).field(key@) is None,
        },
{
    v.get(key)
}

/// `Value::as_str`: the text where the value is a string, else `None`.
#[verifier::external_body]
pub(crate) fn text_of<'a>(v: &'a serde_json::Value) -> (r: Option<&'a str>)
    ensures
        match r {
            Some(s) => json_model(*v) == JsonValue::Text(s@),
            None => !(json_model(*v) is Text),
        },
{
    v.as_str()
}

/// `Value::as_array`: the elements where the value is an array, else `None`.
#[verifier::external_body]
pub(crate) fn items_of<'a>(v: &'a serde_json::Value) -> (r: Option<&'a Vec<serde_json::Value>>)
    ensures
        match r {
            Some(items) => json_model(*v) == JsonValue::Array(models(items@)),
            None => !(json_model(*v) is Array),
        },
{
    v.as_array()
}

/// `Value::clone`: a value that holds the same document.
#[verifier::external_body]
pub(crate) fn copy_value(v: &serde_json::Value) -> (r: serde_json::Value)
    ensures
        json_model(r) == json_model(*v),
{
    v.clone()
}

/// The variant `Value::String`, holding `text`.
#[verifier::external_body]
pub(crate) fn text_value(text: String) -> (r: serde_json::Value)
    ensures
        json_model(r) == JsonValue::Text(text@),
{
    serde_json::Value::String(text)
}

/// The variant `Value::Array`, holding `items` in order.
#[verifier::external_body]
pub(crate) fn array_value(items: Vec<serde_json::Value>) -> (r: serde_json::Value)
    ensures
        json_model(r) == JsonValue::Array(models(items@)),
{
    serde_json::Value::Array(items)
}

/// The variant `Value::Object` around `serde_json::Map::new`: an object
/// without members.
#[verifier::external_body]
pub(crate) fn empty_object() -> (r: serde_json::Value)
    ensures
        json_model(r) == JsonValue::Object(Map::empty()),
{
    serde_json::Value::Object(serde_json::Map::new())
}

/// Assignment through `Value`'s `IndexMut` with a string key: on an object,
/// the member under `key` becomes `val` and the others stay.
#[verifier::external_body]
pub(crate) fn set_member(obj: &mut serde_json::Value, key: &str, val: serde_json::Value)
    requires
        json_model(*old(obj)) is Object,
    ensures
        json_model(*final(obj)) == JsonValue::Object(
            json_model(*old(obj))->Object_0.insert(key@, json_model(val)),
        ),
{
    obj[key] = val;
}

} // verus!

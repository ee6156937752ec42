//! The boundary with `serde_json`.
//!
//! A `serde_json::Value` is opaque to the verifier. This module gives it a
//! mathematical model, [`Json`], and states for each `serde_json` function the
//! library calls what that function does in terms of the model. Those
//! statements are trusted, not proved: they repeat what the `serde_json`
//! sources show.

use vstd::prelude::*;

verus! {

/// Declares `serde_json::Value` to the verifier, as a type it cannot look
/// into.
#[verifier::external_type_specification]
#[verifier::external_body]
pub struct ExValue(serde_json::Value);

/// Declares `serde_json::Error` to the verifier, as a type it cannot look
/// into.
#[verifier::external_type_specification]
#[verifier::external_body]
pub struct ExError(serde_json::Error);

/// A JSON number as the model sees it.
pub enum Numeral {
    /// An integer, with its value.
    Whole(int),
    /// Any number that is not stored as an integer. The model keeps nothing
    /// of it.
    Fractional,
}

/// The mathematical model of a JSON document.
pub enum Json {
    Null,
    Bool(bool),
    Number(Numeral),
    /// A string, as its characters.
    Text(Seq<char>),
    /// An array, as its elements in order.
    List(Seq<Json>),
    /// An object, as its members by key.
    Object(Map<Seq<char>, Json>),
}

impl Json {
    /// The member stored under `key`, if this is an object that has one.
    pub open spec fn lookup(self, key: Seq<char>) -> Option<Json> {
        match self {
            Json::Object(members) => if members.contains_key(key) {
                Some(members[key])
            } else {
                None
            },
            _ => None,
        }
    }

    /// The characters of this document if it is a string.
    pub open spec fn text(self) -> Option<Seq<char>> {
        match self {
            Json::Text(s) => Some(s),
            _ => None,
        }
    }

    /// The number of elements if this is an array.
    pub open spec fn count(self) -> Option<nat> {
        match self {
            Json::List(items) => Some(items.len()),
            _ => None,
        }
    }
}

/// The document that a `serde_json::Value` holds: `Value::Null`, `Bool`,
/// `String`, `Array` and `Object` are modelled by the variant of the same
/// kind, element by element and member by member, and a `Value::Number` by
/// [`Numeral::Whole`] where it stores an integer.
pub uninterp spec fn json_model(v: serde_json::Value) -> Json;

/// What parsing `text` as JSON yields: the document, or `None` where
/// `text` is not one JSON document.
pub uninterp spec fn json_parse(text: Seq<char>) -> Option<Json>;

/// The models of a run of values, element by element.
pub open spec fn json_models(values: Seq<serde_json::Value>) -> Seq<Json> {
    values.map_values(|v: serde_json::Value| json_model(v))
}

/// `serde_json::from_str` at type `Value`. The contract only names the
/// outcome: the same text always parses to the same document, or always
/// fails.
#[verifier::external_body]
pub(crate) fn parse(text: &str) -> (r: Result<serde_json::Value, serde_json::Error>)
    ensures
        match r {
            Ok(v) => json_parse(text@) == Some(json_model(v)),
            Err(_) => json_parse(text@) is None,
        },
{
    serde_json::from_str::<serde_json::Value>(text)
}

/// `Value::get` with a string index: the member under `key` where the value
/// is an object that has it, `None` for a missing key and for every value
/// that is not an object.
#[verifier::external_body]
pub(crate) fn member<'a>(v: &'a serde_json::Value, key: &str) -> (r: Option<&'a serde_json::Value>)
    ensures
        match r {
            Some(m) => json_model(*v).lookup(key@) == Some(json_model(*m)),
            None => json_model(*v).lookup(key@) is None,
        },
{
    v.get(key)
}

/// `Value::as_str`: the string slice of a string value, `None` for every
/// other kind of value.
#[verifier::external_body]
pub(crate) fn as_text<'a>(v: &'a serde_json::Value) -> (r: Option<&'a str>)
    ensures
        match r {
            Some(s) => json_model(*v).text() == Some(s@),
            None => json_model(*v).text() is None,
        },
{
    v.as_str()
}

/// `Value::as_array`: the vector of an array value, `None` for every other
/// kind of value.
#[verifier::external_body]
pub(crate) fn as_list<'a>(v: &'a serde_json::Value) -> (r: Option<&'a Vec<serde_json::Value>>)
    ensures
        match r {
            Some(items) => json_model(*v) == Json::List(json_models(items@)),
            None => !(json_model(*v) is List),
        },
{
    v.as_array()
}

/// `Value::from(&str)`: a string value with the same characters.
#[verifier::external_body]
pub(crate) fn text_value(s: &str) -> (r: serde_json::Value)
    ensures
        json_model(r) == Json::Text(s@),
{
    serde_json::Value::from(s)
}

/// `Value::from(bool)`.
#[verifier::external_body]
pub(crate) fn bool_value(b: bool) -> (r: serde_json::Value)
    ensures
        json_model(r) == Json::Bool(b),
{
    serde_json::Value::from(b)
}

/// `Value::from(u64)`: an integer number of that value.
#[verifier::external_body]
pub(crate) fn whole_value(n: u64) -> (r: serde_json::Value)
    ensures
        json_model(r) == Json::Number(Numeral::Whole(n as int)),
{
    serde_json::Value::from(n)
}

/// `Value::Object` around `Map::new()`: an object without members.
#[verifier::external_body]
pub(crate) fn empty_object() -> (r: serde_json::Value)
    ensures
        json_model(r) == Json::Object(Map::empty()),
{
    serde_json::Value::Object(serde_json::Map::new())
}

/// Assignment through `IndexMut<&str>` of `Value`: on an object it stores
/// `val` under `key`, replacing what was there. It panics on values that are
/// neither an object nor null, which `requires` leaves out.
#[verifier::external_body]
pub(crate) fn set_member(obj: &mut serde_json::Value, key: &str, val: serde_json::Value)
    requires
        json_model(*old(obj)) is Object,
    ensures
        json_model(*final(obj)) == Json::Object(
            json_model(*old(obj))->Object_0.insert(key@, json_model(val)),
        ),
{
    obj[key] = val;
}

} // verus!

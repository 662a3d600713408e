//! JSON documents: the mathematical value a document stands for, and the
//! operations of `serde_json` that read, build and write one.
//!
//! A `serde_json::Value` is opaque to the verifier. Everything the crate
//! knows about one is said over [`json_of`], and every statement about
//! `serde_json` in this file is taken on trust from its source.

use serde_json::Value;
use vstd::prelude::*;

verus! {

/// A JSON value as a mathematical object.
pub enum Json {
    Null,
    Bool(bool),
    /// A number, by the characters that `serde_json` writes for it.
    Number(Seq<char>),
    Text(Seq<char>),
    Array(Seq<Json>),
    Object(Map<Seq<char>, Json>),
}

impl Json {
    /// The member called `name`, where this is an object that has one.
    pub open spec fn member(self, name: Seq<char>) -> Option<Json> {
        match self {
            Json::Object(members) => if members.dom().contains(name) {
                Some(members[name])
            } else {
                None
            },
            _ => None,
        }
    }

    /// Whether there is no member called `name`.
    pub open spec fn lacks(self, name: Seq<char>) -> bool {
        self.member(name) is None
    }

    /// The member called `name`, or null where there is none.
    pub open spec fn part(self, name: Seq<char>) -> Json {
        match self.member(name) {
            Some(m) => m,
            None => Json::Null,
        }
    }

    /// The array that holds the given texts, in their order.
    pub open spec fn texts(items: Seq<Seq<char>>) -> Json {
        Json::Array(items.map_values(|s: Seq<char>| Json::Text(s)))
    }

    /// The object whose only member is `value`, under `name`.
    pub open spec fn single(name: Seq<char>, value: Json) -> Json {
        Json::Object(Map::<Seq<char>, Json>::empty().insert(name, value))
    }
}

/// Whether `serde_json` writes a character of a string as it stands: it
/// escapes the double quote, the backslash and the control characters.
pub open spec fn written_as_is(c: char) -> bool {
    c != '"' && c != '\\' && c as u32 >= 0x20
}

/// Whether a text holds no character that `serde_json` escapes.
pub open spec fn needs_no_escape(s: Seq<char>) -> bool {
    forall|i: int| 0 <= i < s.len() ==> written_as_is(#[trigger] s[i])
}

/// A text between double quotes.
pub open spec fn quoted(s: Seq<char>) -> Seq<char> {
    seq!['"'] + s + seq!['"']
}

/// Makes `serde_json::Value` known to the verifier, as a type whose inside
/// it cannot see.
#[verifier::external_type_specification]
#[verifier::external_body]
pub struct ExValue(serde_json::Value);

/// The JSON value that a `serde_json::Value` holds.
pub uninterp spec fn json_of(v: Value) -> Json;

/// What `serde_json::from_str` makes of a text: the value it reads, or the
/// message of the error it reports.
pub uninterp spec fn json_parse(text: Seq<char>) -> Result<Json, Seq<char>>;

/// The compact text that `serde_json` writes for a value.
pub uninterp spec fn json_text(j: Json) -> Seq<char>;

/// The bit pattern of the double that `serde_json` reads a number as, where
/// it can represent the number so.
pub uninterp spec fn number_bits(digits: Seq<char>) -> Option<u64>;

/// The values held by a vector, one by one.
pub open spec fn jsons_of(items: Seq<Value>) -> Seq<Json> {
    items.map_values(|v: Value| json_of(v))
}

/// Wraps `serde_json::from_str`, read as a `Value`. The outcome depends on
/// the text alone; an error is handed on as the message it displays.
#[verifier::external_body]
pub(crate) fn parse(text: &str) -> (r: Result<Value, String>)
    ensures
        match r {
            Ok(v) => json_parse(text@) == Ok::<Json, Seq<char>>(json_of(v)),
            Err(message) => json_parse(text@) == Err::<Json, Seq<char>>(message@),
        },
{
    match serde_json::from_str::<Value>(text) {
        Ok(v) => Ok(v),
        Err(e) => Err(e.to_string()),
    }
}

/// Wraps `Value::get` with a string key. It hands out the member of that
/// name when the value is an object that has one, and nothing otherwise.
#[verifier::external_body]
pub(crate) fn member<'a>(v: &'a Value, name: &str) -> (r: Option<&'a Value>)
    ensures
        match r {
            Some(m) => json_of(*v).member(name@) == Some(json_of(*m)),
            None => json_of(*v).member(name@) is None,
        },
{
    v.get(name)
}

/// `Value::is_null` tells whether the value is the JSON null.
pub assume_specification[ Value::is_null ](v: &Value) -> (r: bool)
    ensures
        r == (json_of(*v) is Null),
;

/// `Value::as_str` hands out the text of a JSON string, and nothing for any
/// other value.
pub assume_specification<'a>[ Value::as_str ](v: &'a Value) -> (r: Option<&'a str>)
    ensures
        match r {
            Some(s) => json_of(*v) == Json::Text(s@),
            None => !(json_of(*v) is Text),
        },
;

/// `Value::as_bool` hands out a JSON boolean, and nothing for any other
/// value.
pub assume_specification[ Value::as_bool ](v: &Value) -> (r: Option<bool>)
    ensures
        match r {
            Some(b) => json_of(*v) == Json::Bool(b),
            None => !(json_of(*v) is Bool),
        },
;

/// `Value::as_array` hands out the elements of a JSON array in their order,
/// and nothing for any other value.
pub assume_specification<'a>[ Value::as_array ](v: &'a Value) -> (r: Option<&'a Vec<Value>>)
    ensures
        match r {
            Some(items) => json_of(*v) == Json::Array(jsons_of(items@)),
            None => !(json_of(*v) is Array),
        },
;

/// Wraps `Value::as_f64`, whose double is handed on by its bit pattern.
/// Only a number can have one, and which one depends on the number alone.
#[verifier::external_body]
pub(crate) fn double_bits(v: &Value) -> (r: Option<u64>)
    ensures
        r == match json_of(*v) {
            Json::Number(digits) => number_bits(digits),
            _ => None,
        },
{
    match v.as_f64() {
        Some(x) => Some(x.to_bits()),
        None => None,
    }
}

/// Wraps the `Display` of a `Value`, which writes it as compact JSON. The
/// text depends on the value alone. A null is written as the word `null`,
/// and a string without characters to escape as itself between quotes.
#[verifier::external_body]
pub(crate) fn compact_text(v: &Value) -> (r: String)
    ensures
        r@ == json_text(json_of(*v)),
        json_of(*v) is Null ==> r@ == "null"@,
        json_of(*v) matches Json::Text(s) ==> needs_no_escape(s) ==> r@ == quoted(s),
{
    v.to_string()
}

/// Wraps `Value::from` on a vector of string slices: the array of those
/// strings.
#[verifier::external_body]
pub(crate) fn array_of_texts(items: &Vec<&str>) -> (r: Value)
    ensures
        json_of(r) == Json::texts(items@.map_values(|s: &str| s@)),
{
    Value::from(items.clone())
}

/// Wraps `Value::from_iter` on one pair of a name and a value: the object
/// with that one member.
#[verifier::external_body]
pub(crate) fn object_of(name: &str, value: Value) -> (r: Value)
    ensures
        json_of(r) == Json::single(name@, json_of(value)),
{
    Value::from_iter([(name, value)])
}

} // verus!

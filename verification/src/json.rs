//! JSON documents as the adapter sees them.
//!
//! Payloads are `serde_json::Value` trees. Verification cannot look inside
//! one, so contracts speak of [`Json`], a mathematical picture of the tree,
//! and [`json`] names the picture of a given value. The functions of this
//! module are the only place where `serde_json` is called; each states, over
//! that picture, what the called function does.

use serde_json::Value;
use vstd::prelude::*;

verus! {

/// The mathematical reading of a JSON document.
pub enum Json {
    Null,
    Bool(bool),
    /// A number: its value when it is stored as an integer, `None` otherwise.
    Number(Option<int>),
    Str(Seq<char>),
    Array(Seq<Json>),
    Object(Map<Seq<char>, Json>),
}

/// Makes `serde_json::Value` known as a type whose inside is out of sight.
#[verifier::external_type_specification]
#[verifier::external_body]
pub struct ExValue(serde_json::Value);

/// The document that a `serde_json::Value` holds.
pub uninterp spec fn json(v: Value) -> Json;

/// The documents held by a sequence of values, in order.
pub open spec fn json_seq(vs: Seq<Value>) -> Seq<Json> {
    vs.map_values(|v: Value| json(v))
}

impl Json {
    /// The member `key` of an object; `None` for a missing key and for
    /// anything that is not an object.
    pub open spec fn member(self, key: Seq<char>) -> Option<Json> {
        match self {
            Json::Object(fields) => if fields.contains_key(key) {
                Some(fields[key])
            } else {
                None
            },
            _ => None,
        }
    }

    /// The text of a string document.
    pub open spec fn text(self) -> Option<Seq<char>> {
        match self {
            Json::Str(s) => Some(s),
            _ => None,
        }
    }

    /// The elements of an array document.
    pub open spec fn elements(self) -> Option<Seq<Json>> {
        match self {
            Json::Array(items) => Some(items),
            _ => None,
        }
    }

    /// The value of a number that is a non-negative integer.
    pub open spec fn count(self) -> Option<int> {
        match self {
            Json::Number(Some(n)) => if n >= 0 {
                Some(n)
            } else {
                None
            },
            _ => None,
        }
    }

    /// The string member `key` of an object.
    pub open spec fn text_member(self, key: Seq<char>) -> Option<Seq<char>> {
        match self.member(key) {
            Some(j) => j.text(),
            None => None,
        }
    }

    /// An object extended, or overwritten, at `key`.
    pub open spec fn with(self, key: Seq<char>, value: Json) -> Json {
        match self {
            Json::Object(fields) => Json::Object(fields.insert(key, value)),
            other => other,
        }
    }

    /// The object without members.
    pub open spec fn empty_object() -> Json {
        Json::Object(Map::empty())
    }
}

/// Calls `serde_json::Value::get` with a string index. The source looks the
/// key up in the map of an `Object` and answers `None` for every other
/// variant; the contract says the same of the document.
#[verifier::external_body]
pub(crate) fn get<'a>(v: &'a Value, key: &str) -> (r: Option<&'a Value>)
    ensures
        match r {
            Some(found) => json(*v).member(key@) == Some(json(*found)),
            None => json(*v).member(key@).is_none(),
        },
{
    v.get(key)
}

/// `serde_json::Value::as_array` hands out the vector of an `Array` and
/// `None` for every other variant.
pub assume_specification[ Value::as_array ](v: &Value) -> (r: Option<&Vec<Value>>)
    ensures
        match r {
            Some(items) => json(*v) == Json::Array(json_seq(items@)),
            None => json(*v).elements().is_none(),
        },
;

/// `serde_json::Value::as_str` hands out the text of a `String` and `None`
/// for every other variant.
pub assume_specification[ Value::as_str ](v: &Value) -> (r: Option<&str>)
    ensures
        match r {
            Some(s) => json(*v) == Json::Str(s@),
            None => json(*v).text().is_none(),
        },
;

/// `serde_json::Value::as_u64` answers with the number where it is stored as
/// a non-negative integer, which always fits, and with `None` for negative
/// integers, other numbers and every other variant.
pub assume_specification[ Value::as_u64 ](v: &Value) -> (r: Option<u64>)
    ensures
        match r {
            Some(n) => json(*v) == Json::Number(Some(n as int)),
            None => json(*v).count().is_none(),
        },
;

/// `serde_json::Value::is_object` tells whether the value is the `Object`
/// variant.
pub assume_specification[ Value::is_object ](v: &Value) -> (r: bool)
    ensures
        r == (json(*v) is Object),
;

/// `Clone` for `serde_json::Value` is derived: the copy holds the same
/// document.
pub assume_specification[ <Value as Clone>::clone ](v: &Value) -> (r: Value)
    ensures
        json(r) == json(*v),
;

/// Builds `Value::String` through `From<&str>`, which copies the text.
#[verifier::external_body]
pub(crate) fn string(s: &str) -> (r: Value)
    ensures
        json(r) == Json::Str(s@),
{
    Value::from(s)
}

/// Builds a number through `From<u64>`, which stores it as a non-negative
/// integer.
#[verifier::external_body]
pub(crate) fn number(n: u64) -> (r: Value)
    ensures
        json(r) == Json::Number(Some(n as int)),
{
    Value::from(n)
}

/// Builds `Value::Array` around the given elements, kept in order.
#[verifier::external_body]
pub(crate) fn array(items: Vec<Value>) -> (r: Value)
    ensures
        json(r) == Json::Array(json_seq(items@)),
{
    Value::Array(items)
}

/// Builds `Value::Object` around `serde_json::Map::new`, the empty map.
#[verifier::external_body]
pub(crate) fn object() -> (r: Value)
    ensures
        json(r) == Json::empty_object(),
{
    Value::Object(serde_json::Map::new())
}

/// Calls `serde_json::Map::insert` on the map of an object: the key is
/// added, or its member replaced, and every other member stays.
#[verifier::external_body]
pub(crate) fn insert(target: &mut Value, key: &str, value: Value)
    requires
        json(*old(target)) is Object,
    ensures
        json(*final(target)) == json(*old(target)).with(key@, json(value)),
{
    if let Value::Object(fields) = target {
        fields.insert(String::from(key), value);
    }
}

} // verus!

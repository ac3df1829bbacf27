//! JSON documents: the mathematical model that every contract of this crate
//! speaks of, and the calls into `serde_json` that read a document.

use vstd::prelude::*;

verus! {

/// What a JSON document says.
///
/// A number is an `Integer` where `serde_json` holds it as a `u64` or an
/// `i64`, and `Real` where it holds it as a float. An object maps each of its
/// keys to one value; of a key that a text repeats, `serde_json` keeps the
/// last.
pub enum JsonValue {
    Null,
    Bool(bool),
    Integer(int),
    Real,
    Text(Seq<char>),
    Array(Seq<JsonValue>),
    Object(Map<Seq<char>, JsonValue>),
}

impl JsonValue {
    /// The member of an object under `key`, if `self` is an object that has one.
    pub open spec fn member(self, key: Seq<char>) -> Option<JsonValue> {
        match self {
            JsonValue::Object(members) => if members.dom().contains(key) {
                Some(members[key])
            } else {
                None
            },
            _ => None,
        }
    }
}

/// `serde_json::Value`, a parsed JSON document. Verus sees nothing inside it.
#[verifier::external_type_specification]
#[verifier::external_body]
pub struct ExValue(serde_json::Value);

/// What a `serde_json::Value` says.
pub uninterp spec fn json_of(value: serde_json::Value) -> JsonValue;

/// What `serde_json::from_str` makes of a text: the document, or nothing where
/// it reports an error.
pub uninterp spec fn parsed_json(text: Seq<char>) -> Option<JsonValue>;

/// `serde_json::from_str` at type `serde_json::Value`. The result depends on
/// the text alone; an error of any kind comes back as `None`.
#[verifier::external_body]
pub(crate) fn parse(text: &str) -> (r: Option<serde_json::Value>)
    ensures
        match r {
            Some(value) => parsed_json(text@) == Some(json_of(value)),
            None => parsed_json(text@) is None,
        },
{
    serde_json::from_str::<serde_json::Value>(text).ok()
}

/// `serde_json::Value::get` with a string index: the member under `key` where
/// the value is an object that has that key, `None` on any other value.
#[verifier::external_body]
pub(crate) fn member<'a>(value: &'a serde_json::Value, key: &str) -> (r: Option<
    &'a serde_json::Value,
>)
    ensures
        match r {
            Some(child) => json_of(*value).member(key@) == Some(json_of(*child)),
            None => json_of(*value).member(key@) is None,
        },
{
    value.get(key)
}

/// `serde_json::Value::as_u64`: the number, where the value is an integer that
/// is not negative.
pub assume_specification[ serde_json::Value::as_u64 ](value: &serde_json::Value) -> (r: Option<
    u64,
>)
    ensures
        match r {
            Some(n) => json_of(*value) == JsonValue::Integer(n as int),
            None => !(json_of(*value) matches JsonValue::Integer(n) && n >= 0),
        },
;

/// `serde_json::Value::as_str`: the text, where the value is a string.
pub assume_specification<'a>[ serde_json::Value::as_str ](value: &'a serde_json::Value) -> (r:
    Option<&'a str>)
    ensures
        match r {
            Some(text) => json_of(*value) == JsonValue::Text(text@),
            None => !(json_of(*value) is Text),
        },
;

/// `serde_json::Value::as_array`: the elements in order, where the value is an
/// array.
pub assume_specification<'a>[ serde_json::Value::as_array ](value: &'a serde_json::Value) -> (r:
    Option<&'a Vec<serde_json::Value>>)
    ensures
        match r {
            Some(items) => json_of(*value) == JsonValue::Array(
                items@.map_values(|item: serde_json::Value| json_of(item)),
            ),
            None => !(json_of(*value) is Array),
        },
;

/// `serde_json::Value::is_null`.
pub assume_specification[ serde_json::Value::is_null ](value: &serde_json::Value) -> (r: bool)
    ensures
        r == (json_of(*value) is Null),
;

/// `serde_json::Value::from` at `u64`: the number as an integer.
#[verifier::external_body]
pub(crate) fn integer_value(n: u64) -> (r: serde_json::Value)
    ensures
        json_of(r) == JsonValue::Integer(n as int),
{
    serde_json::Value::from(n)
}

/// `serde_json::Value::String`.
#[verifier::external_body]
pub(crate) fn text_value(text: String) -> (r: serde_json::Value)
    ensures
        json_of(r) == JsonValue::Text(text@),
{
    serde_json::Value::String(text)
}

/// `serde_json::Value::Array`: an array of the given elements, in their order.
#[verifier::external_body]
pub(crate) fn array_value(items: Vec<serde_json::Value>) -> (r: serde_json::Value)
    ensures
        json_of(r) == JsonValue::Array(items@.map_values(|item: serde_json::Value| json_of(item))),
{
    serde_json::Value::Array(items)
}

/// `serde_json::Value::Object` over `serde_json::Map::new`: an object without
/// members.
#[verifier::external_body]
pub(crate) fn empty_object() -> (r: serde_json::Value)
    ensures
        json_of(r) == JsonValue::Object(Map::<Seq<char>, JsonValue>::empty()),
{
    serde_json::Value::Object(serde_json::Map::new())
}

/// `serde_json::Map::insert` on the members of an object: afterwards `key`
/// stands for `child`, whether or not the key was there before, and every
/// other member is as it was.
#[verifier::external_body]
pub(crate) fn insert_member(object: &mut serde_json::Value, key: String, child: serde_json::Value)
    requires
        json_of(*old(object)) is Object,
    ensures
        json_of(*final(object)) == JsonValue::Object(
            json_of(*old(object))->Object_0.insert(key@, json_of(child)),
        ),
{
    match object {
        serde_json::Value::Object(members) => {
            members.insert(key, child);
        },
        _ => {},
    }
}

} // verus!

//! The contract that every entity meets, and its instances for the leaves of
//! the schemas: counts, texts and sequences.
//!
//! A schema reads an object by its keys. The order of the keys does not
//! matter, keys that the schema does not name are passed over, and every key
//! that it names has to be there with a value of its type, but for a member
//! that may be absent. Anything else is refused: there is one outcome for every
//! document that does not fit, and no reason is given.

use vstd::prelude::*;
use crate::json::{
    array_value, insert_member, integer_value, json_of, member, text_value, JsonValue,
};

verus! {

/// A type that is read from a JSON document against one fixed schema, and
/// written as one.
///
/// `Self::V` is the value as mathematics; `decoded` is the schema: it says
/// which documents are accepted and what each of them means.
pub trait Entity: DeepView + Sized {
    /// The value that a document stands for, or `None` where the document does
    /// not have the shape of this type.
    spec fn decoded(doc: JsonValue) -> Option<Self::V>;

    /// The document that a value is written as.
    spec fn encoded(v: Self::V) -> JsonValue;

    /// Writing a value and reading the document back gives the value again.
    proof fn lemma_round_trip(v: Self::V)
        ensures
            Self::decoded(Self::encoded(v)) == Some(v),
    ;

    /// Reads a value of this type from a parsed document.
    fn decode(value: &serde_json::Value) -> (r: Option<Self>)
        ensures
            r.deep_view() == Self::decoded(json_of(*value)),
    ;

    /// Writes the value as a document.
    fn encode(&self) -> (r: serde_json::Value)
        ensures
            json_of(r) == Self::encoded(self.deep_view()),
    ;

    /// An independent copy.
    fn duplicate(&self) -> (r: Self)
        ensures
            r.deep_view() == self.deep_view(),
    ;
}

/// An entity that is written as an object.
pub trait Record: Entity {
    /// The keys without which no document is accepted.
    spec fn required_keys() -> Set<Seq<char>>;

    /// A document that lacks a required key is refused, and so is a document
    /// that is no object, which has no keys at all.
    proof fn lemma_missing_key(doc: JsonValue, key: Seq<char>)
        requires
            Self::required_keys().contains(key),
            doc.member(key) is None,
        ensures
            Self::decoded(doc) is None,
    ;
}

impl Entity for usize {
    open spec fn decoded(doc: JsonValue) -> Option<usize> {
        match doc {
            JsonValue::Integer(n) => if 0 <= n <= usize::MAX {
                Some(n as usize)
            } else {
                None
            },
            _ => None,
        }
    }

    open spec fn encoded(v: usize) -> JsonValue {
        JsonValue::Integer(v as int)
    }

    proof fn lemma_round_trip(v: usize) {
    }

    fn encode(&self) -> (r: serde_json::Value) {
        integer_value(*self as u64)
    }

    fn decode(value: &serde_json::Value) -> (r: Option<usize>) {
        match value.as_u64() {
            Some(n) => if n <= usize::MAX as u64 {
                Some(n as usize)
            } else {
                None
            },
            None => None,
        }
    }

    fn duplicate(&self) -> (r: usize) {
        *self
    }
}

impl Entity for String {
    open spec fn decoded(doc: JsonValue) -> Option<Seq<char>> {
        match doc {
            JsonValue::Text(text) => Some(text),
            _ => None,
        }
    }

    open spec fn encoded(v: Seq<char>) -> JsonValue {
        JsonValue::Text(v)
    }

    proof fn lemma_round_trip(v: Seq<char>) {
    }

    fn encode(&self) -> (r: serde_json::Value) {
        text_value(self.clone())
    }

    fn decode(value: &serde_json::Value) -> (r: Option<String>) {
        match value.as_str() {
            Some(text) => Some(String::from_str(text)),
            None => None,
        }
    }

    fn duplicate(&self) -> (r: String) {
        self.clone()
    }
}

/// The values that the elements of an array stand for, where every one of
/// them is accepted.
pub open spec fn decoded_items<T: Entity>(items: Seq<JsonValue>) -> Option<Seq<T::V>> {
    if forall|i: int| 0 <= i < items.len() ==> (#[trigger] T::decoded(items[i])) is Some {
        Some(Seq::new(items.len(), |i: int| T::decoded(items[i])->0))
    } else {
        None
    }
}

impl<T: Entity> Entity for Vec<T> {
    open spec fn decoded(doc: JsonValue) -> Option<Seq<T::V>> {
        match doc {
            JsonValue::Array(items) => decoded_items::<T>(items),
            _ => None,
        }
    }

    open spec fn encoded(v: Seq<T::V>) -> JsonValue {
        JsonValue::Array(Seq::new(v.len(), |i: int| T::encoded(v[i])))
    }

    proof fn lemma_round_trip(v: Seq<T::V>) {
        let items = Seq::new(v.len(), |i: int| T::encoded(v[i]));
        assert forall|i: int| 0 <= i < items.len() implies (#[trigger] T::decoded(items[i]))
            == Some(v[i]) by {
            T::lemma_round_trip(v[i]);
        }
        assert(decoded_items::<T>(items)->0 =~= v);
    }

    fn encode(&self) -> (r: serde_json::Value) {
        let mut out: Vec<serde_json::Value> = Vec::new();
        let mut i: usize = 0;
        while i < self.len()
            invariant
                i <= self.len(),
                out.len() == i,
                forall|k: int|
                    0 <= k < i ==> json_of(#[trigger] out[k]) == T::encoded(self[k].deep_view()),
            decreases self.len() - i,
        {
            out.push(self[i].encode());
            i += 1;
        }
        assert(out@.map_values(|item: serde_json::Value| json_of(item)) =~= Seq::new(
            self.deep_view().len(),
            |i: int| T::encoded(self.deep_view()[i]),
        ));
        array_value(out)
    }

    fn decode(value: &serde_json::Value) -> (r: Option<Vec<T>>) {
        match value.as_array() {
            None => None,
            Some(items) => {
                let ghost docs = items@.map_values(|item: serde_json::Value| json_of(item));
                let mut out: Vec<T> = Vec::new();
                let mut i: usize = 0;
                while i < items.len()
                    invariant
                        i <= items.len(),
                        docs == items@.map_values(|item: serde_json::Value| json_of(item)),
                        json_of(*value) == JsonValue::Array(docs),
                        out.len() == i,
                        forall|k: int|
                            0 <= k < i ==> (#[trigger] T::decoded(docs[k])) == Some(
                                out[k].deep_view(),
                            ),
                    decreases items.len() - i,
                {
                    match T::decode(&items[i]) {
                        None => {
                            assert(T::decoded(docs[i as int]) is None);
                            return None;
                        },
                        Some(item) => {
                            out.push(item);
                        },
                    }
                    i += 1;
                }
                assert(out.deep_view() =~= decoded_items::<T>(docs)->0);
                Some(out)
            },
        }
    }

    fn duplicate(&self) -> (r: Vec<T>) {
        let mut out: Vec<T> = Vec::new();
        let mut i: usize = 0;
        while i < self.len()
            invariant
                i <= self.len(),
                out.len() == i,
                forall|k: int| 0 <= k < i ==> #[trigger] out[k].deep_view() == self[k].deep_view(),
            decreases self.len() - i,
        {
            out.push(self[i].duplicate());
            i += 1;
        }
        assert(out.deep_view() =~= self.deep_view());
        out
    }
}

/// The value under `key` of an object, where the key is there and its value is
/// accepted. A document that is no object has no keys.
pub open spec fn required<T: Entity>(doc: JsonValue, key: Seq<char>) -> Option<T::V> {
    match doc.member(key) {
        Some(child) => T::decoded(child),
        None => None,
    }
}

/// The value under `key` of an object for a member that may be left out: a
/// missing key and `null` both stand for "absent"; anything else has to be
/// accepted. The outer `None` means that the document is refused.
pub open spec fn optional<T: Entity>(doc: JsonValue, key: Seq<char>) -> Option<Option<T::V>> {
    match doc.member(key) {
        None => Some(None),
        Some(JsonValue::Null) => Some(None),
        Some(child) => match T::decoded(child) {
            Some(v) => Some(Some(v)),
            None => None,
        },
    }
}

/// Reads a member that has to be there.
pub fn read_required<T: Entity>(value: &serde_json::Value, key: &str) -> (r: Option<T>)
    ensures
        r.deep_view() == required::<T>(json_of(*value), key@),
{
    match member(value, key) {
        Some(child) => T::decode(child),
        None => None,
    }
}

/// Reads a member that may be left out or `null`.
pub fn read_optional<T: Entity>(value: &serde_json::Value, key: &str) -> (r: Option<Option<T>>)
    ensures
        r.deep_view() == optional::<T>(json_of(*value), key@),
{
    match member(value, key) {
        None => Some(None),
        Some(child) => {
            if child.is_null() {
                Some(None)
            } else {
                match T::decode(child) {
                    Some(v) => Some(Some(v)),
                    None => None,
                }
            }
        },
    }
}

/// The members of an object with one more that may be absent: where it is, the
/// key is left out.
pub open spec fn with_optional<T: Entity>(
    members: Map<Seq<char>, JsonValue>,
    key: Seq<char>,
    v: Option<T::V>,
) -> Map<Seq<char>, JsonValue> {
    match v {
        Some(x) => members.insert(key, T::encoded(x)),
        None => members,
    }
}

/// Writes a member that may be absent.
pub(crate) fn write_optional<T: Entity>(object: &mut serde_json::Value, key: &str, v: &Option<T>)
    requires
        json_of(*old(object)) is Object,
    ensures
        json_of(*final(object)) == JsonValue::Object(
            with_optional::<T>(json_of(*old(object))->Object_0, key@, v.deep_view()),
        ),
{
    match v {
        Some(x) => {
            insert_member(object, String::from_str(key), x.encode());
        },
        None => {
            assert(json_of(*object)->Object_0 =~= with_optional::<T>(
                json_of(*object)->Object_0,
                key@,
                v.deep_view(),
            ));
        },
    }
}

/// An independent copy of a text that may be absent.
pub fn duplicate_optional(v: &Option<String>) -> (r: Option<String>)
    ensures
        r.deep_view() == v.deep_view(),
{
    match v {
        Some(text) => Some(text.clone()),
        None => None,
    }
}

} // verus!

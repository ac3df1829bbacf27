//! The pair of a displayed text and the link that it leads to, which the
//! service uses for titles, artists, groups, types, languages, series,
//! characters and tags alike.

use vstd::prelude::*;
use crate::codec::{read_required, required, Entity, Record};
use crate::json::{empty_object, insert_member, JsonValue};

verus! {

/// A displayed text with its link. Either may be empty.
pub struct LabeledValue {
    pub value: Seq<char>,
    pub url: Seq<char>,
}

/// A displayed text with its link, as read from a reply.
pub struct TagsOrTitleOrArtistOrGroupOrTypeOrLanguageOrSeriesOrCharacters {
    value: String,
    url: String,
}

/// The short name of the pair.
pub type Label = TagsOrTitleOrArtistOrGroupOrTypeOrLanguageOrSeriesOrCharacters;

impl DeepView for Label {
    type V = LabeledValue;

    closed spec fn deep_view(&self) -> LabeledValue {
        LabeledValue { value: self.value@, url: self.url@ }
    }
}

impl View for Label {
    type V = LabeledValue;

    open spec fn view(&self) -> LabeledValue {
        self.deep_view()
    }
}

impl Label {
    pub fn value(&self) -> (r: String)
        ensures
            r@ == self@.value,
    {
        self.value.clone()
    }

    pub fn url(&self) -> (r: String)
        ensures
            r@ == self@.url,
    {
        self.url.clone()
    }
}

impl Entity for Label {
    open spec fn decoded(doc: JsonValue) -> Option<LabeledValue> {
        if required::<String>(doc, "value"@) is Some && required::<String>(doc, "url"@) is Some {
            Some(
                LabeledValue {
                    value: required::<String>(doc, "value"@)->0,
                    url: required::<String>(doc, "url"@)->0,
                },
            )
        } else {
            None
        }
    }

    open spec fn encoded(v: LabeledValue) -> JsonValue {
        JsonValue::Object(
            Map::<Seq<char>, JsonValue>::empty().insert("value"@, String::encoded(v.value)).insert(
                "url"@,
                String::encoded(v.url),
            ),
        )
    }

    proof fn lemma_round_trip(v: LabeledValue) {
        reveal_strlit("value");
        reveal_strlit("url");
        let doc = Self::encoded(v);
        assert("value"@.len() != "url"@.len());
        assert(doc.member("value"@) == Some(JsonValue::Text(v.value)));
        assert(doc.member("url"@) == Some(JsonValue::Text(v.url)));
    }

    fn decode(value: &serde_json::Value) -> (r: Option<Self>) {
        let text = match read_required::<String>(value, "value") {
            Some(x) => x,
            None => return None,
        };
        let url = match read_required::<String>(value, "url") {
            Some(x) => x,
            None => return None,
        };
        Some(Label { value: text, url })
    }

    fn encode(&self) -> (r: serde_json::Value) {
        let mut object = empty_object();
        insert_member(&mut object, String::from_str("value"), self.value.encode());
        insert_member(&mut object, String::from_str("url"), self.url.encode());
        object
    }

    fn duplicate(&self) -> (r: Self) {
        Label { value: self.value.clone(), url: self.url.clone() }
    }
}

impl Record for Label {
    open spec fn required_keys() -> Set<Seq<char>> {
        set!["value"@, "url"@]
    }

    proof fn lemma_missing_key(doc: JsonValue, key: Seq<char>) {
    }
}

impl Clone for Label {
    fn clone(&self) -> (r: Self)
        ensures
            r@ == self@,
    {
        self.duplicate()
    }
}

} // verus!

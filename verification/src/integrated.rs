//! The combined view: gallery records and listing rows in one reply.

use vstd::prelude::*;
use crate::codec::{read_required, required, Entity, Record};
use crate::gallery::{GalleryInfoIntegrated, GalleryRecord};
use crate::json::{empty_object, insert_member, JsonValue};
use crate::listing::{InfoListOrIntegrated, ListEntry};

verus! {

/// The records of one gallery, one for each language, beside a listing of
/// its tags.
pub struct IntegratedData {
    pub galleryinfo: Seq<GalleryRecord>,
    pub tags: Seq<ListEntry>,
}

/// The content of a combined reply.
pub struct GalleryInfoAndTags {
    galleryinfo: Vec<GalleryInfoIntegrated>,
    tags: Vec<InfoListOrIntegrated>,
}

impl DeepView for GalleryInfoAndTags {
    type V = IntegratedData;

    closed spec fn deep_view(&self) -> IntegratedData {
        IntegratedData {
            galleryinfo: self.galleryinfo.deep_view(),
            tags: self.tags.deep_view(),
        }
    }
}

impl View for GalleryInfoAndTags {
    type V = IntegratedData;

    open spec fn view(&self) -> IntegratedData {
        self.deep_view()
    }
}

impl GalleryInfoAndTags {
    pub fn galleryinfo(&self) -> (r: Vec<GalleryInfoIntegrated>)
        ensures
            r.deep_view() == self@.galleryinfo,
    {
        self.galleryinfo.duplicate()
    }

    pub fn tags(&self) -> (r: Vec<InfoListOrIntegrated>)
        ensures
            r.deep_view() == self@.tags,
    {
        self.tags.duplicate()
    }
}

impl Entity for GalleryInfoAndTags {
    open spec fn decoded(doc: JsonValue) -> Option<IntegratedData> {
        if required::<Vec<GalleryInfoIntegrated>>(doc, "galleryinfo"@) is Some
            && required::<Vec<InfoListOrIntegrated>>(doc, "tags"@) is Some {
            Some(
                IntegratedData {
                    galleryinfo: required::<Vec<GalleryInfoIntegrated>>(doc, "galleryinfo"@)->0,
                    tags: required::<Vec<InfoListOrIntegrated>>(doc, "tags"@)->0,
                },
            )
        } else {
            None
        }
    }

    open spec fn encoded(v: IntegratedData) -> JsonValue {
        JsonValue::Object(
            Map::<Seq<char>, JsonValue>::empty()
                .insert("galleryinfo"@, Vec::<GalleryInfoIntegrated>::encoded(v.galleryinfo))
                .insert("tags"@, Vec::<InfoListOrIntegrated>::encoded(v.tags)),
        )
    }

    proof fn lemma_round_trip(v: IntegratedData) {
        // The keys differ from one another: in length, or in the character named here.
        reveal_strlit("galleryinfo");
        assert("galleryinfo"@.len() == 11);
        reveal_strlit("tags");
        assert("tags"@.len() == 4);
        let doc = Self::encoded(v);
        assert(doc.member("galleryinfo"@) == Some(
            Vec::<GalleryInfoIntegrated>::encoded(v.galleryinfo),
        ));
        Vec::<GalleryInfoIntegrated>::lemma_round_trip(v.galleryinfo);
        assert(doc.member("tags"@) == Some(Vec::<InfoListOrIntegrated>::encoded(v.tags)));
        Vec::<InfoListOrIntegrated>::lemma_round_trip(v.tags);
    }

    fn decode(value: &serde_json::Value) -> (r: Option<Self>) {
        let galleryinfo = match read_required::<Vec<GalleryInfoIntegrated>>(value, "galleryinfo") {
            Some(x) => x,
            None => return None,
        };
        let tags = match read_required::<Vec<InfoListOrIntegrated>>(value, "tags") {
            Some(x) => x,
            None => return None,
        };
        Some(GalleryInfoAndTags { galleryinfo, tags })
    }

    fn encode(&self) -> (r: serde_json::Value) {
        let mut object = empty_object();
        insert_member(&mut object, String::from_str("galleryinfo"), self.galleryinfo.encode());
        insert_member(&mut object, String::from_str("tags"), self.tags.encode());
        object
    }

    fn duplicate(&self) -> (r: Self) {
        GalleryInfoAndTags {
            galleryinfo: self.galleryinfo.duplicate(),
            tags: self.tags.duplicate(),
        }
    }
}

impl Record for GalleryInfoAndTags {
    open spec fn required_keys() -> Set<Seq<char>> {
        set!["galleryinfo"@, "tags"@]
    }

    proof fn lemma_missing_key(doc: JsonValue, key: Seq<char>) {
    }
}

impl Clone for GalleryInfoAndTags {
    fn clone(&self) -> (r: Self)
        ensures
            r@ == self@,
    {
        self.duplicate()
    }
}

/// The combined reply for one gallery.
pub struct IntegratedReply {
    pub data: IntegratedData,
}

/// The reply to a request for the combined view of one gallery.
pub struct Integrated {
    data: GalleryInfoAndTags,
}

impl DeepView for Integrated {
    type V = IntegratedReply;

    closed spec fn deep_view(&self) -> IntegratedReply {
        IntegratedReply {
            data: self.data.deep_view(),
        }
    }
}

impl View for Integrated {
    type V = IntegratedReply;

    open spec fn view(&self) -> IntegratedReply {
        self.deep_view()
    }
}

impl Integrated {
    pub fn data(&self) -> (r: GalleryInfoAndTags)
        ensures
            r@ == self@.data,
    {
        self.data.duplicate()
    }
}

impl Entity for Integrated {
    open spec fn decoded(doc: JsonValue) -> Option<IntegratedReply> {
        if required::<GalleryInfoAndTags>(doc, "data"@) is Some {
            Some(
                IntegratedReply {
                    data: required::<GalleryInfoAndTags>(doc, "data"@)->0,
                },
            )
        } else {
            None
        }
    }

    open spec fn encoded(v: IntegratedReply) -> JsonValue {
        JsonValue::Object(
            Map::<Seq<char>, JsonValue>::empty()
                .insert("data"@, GalleryInfoAndTags::encoded(v.data)),
        )
    }

    proof fn lemma_round_trip(v: IntegratedReply) {
        // The keys differ from one another: in length, or in the character named here.
        reveal_strlit("data");
        assert("data"@.len() == 4);
        let doc = Self::encoded(v);
        assert(doc.member("data"@) == Some(GalleryInfoAndTags::encoded(v.data)));
        GalleryInfoAndTags::lemma_round_trip(v.data);
    }

    fn decode(value: &serde_json::Value) -> (r: Option<Self>) {
        let data = match read_required::<GalleryInfoAndTags>(value, "data") {
            Some(x) => x,
            None => return None,
        };
        Some(Integrated { data })
    }

    fn encode(&self) -> (r: serde_json::Value) {
        let mut object = empty_object();
        insert_member(&mut object, String::from_str("data"), self.data.encode());
        object
    }

    fn duplicate(&self) -> (r: Self) {
        Integrated {
            data: self.data.duplicate(),
        }
    }
}

impl Record for Integrated {
    open spec fn required_keys() -> Set<Seq<char>> {
        set!["data"@]
    }

    proof fn lemma_missing_key(doc: JsonValue, key: Seq<char>) {
    }
}

} // verus!

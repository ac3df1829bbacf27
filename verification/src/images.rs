//! Images: the resolved addresses of the pages of one gallery.

use vstd::prelude::*;
use crate::codec::{read_required, required, Entity, Record};
use crate::json::{empty_object, insert_member, JsonValue};

verus! {

/// The address of one image.
pub struct ImageUrl {
    pub url: Seq<char>,
}

/// The address of one image, as read from a reply.
pub struct Urls {
    url: String,
}

impl DeepView for Urls {
    type V = ImageUrl;

    closed spec fn deep_view(&self) -> ImageUrl {
        ImageUrl {
            url: self.url@,
        }
    }
}

impl View for Urls {
    type V = ImageUrl;

    open spec fn view(&self) -> ImageUrl {
        self.deep_view()
    }
}

impl Urls {
    pub fn url(&self) -> (r: String)
        ensures
            r@ == self@.url,
    {
        self.url.clone()
    }
}

impl Entity for Urls {
    open spec fn decoded(doc: JsonValue) -> Option<ImageUrl> {
        if required::<String>(doc, "url"@) is Some {
            Some(
                ImageUrl {
                    url: required::<String>(doc, "url"@)->0,
                },
            )
        } else {
            None
        }
    }

    open spec fn encoded(v: ImageUrl) -> JsonValue {
        JsonValue::Object(
            Map::<Seq<char>, JsonValue>::empty()
                .insert("url"@, String::encoded(v.url)),
        )
    }

    proof fn lemma_round_trip(v: ImageUrl) {
        // The keys differ from one another: in length, or in the character named here.
        reveal_strlit("url");
        assert("url"@.len() == 3);
        let doc = Self::encoded(v);
        assert(doc.member("url"@) == Some(String::encoded(v.url)));
    }

    fn decode(value: &serde_json::Value) -> (r: Option<Self>) {
        let url = match read_required::<String>(value, "url") {
            Some(x) => x,
            None => return None,
        };
        Some(Urls { url })
    }

    fn encode(&self) -> (r: serde_json::Value) {
        let mut object = empty_object();
        insert_member(&mut object, String::from_str("url"), self.url.encode());
        object
    }

    fn duplicate(&self) -> (r: Self) {
        Urls {
            url: self.url.clone(),
        }
    }
}

impl Record for Urls {
    open spec fn required_keys() -> Set<Seq<char>> {
        set!["url"@]
    }

    proof fn lemma_missing_key(doc: JsonValue, key: Seq<char>) {
    }
}

/// The images of one gallery, in page order.
pub struct ImageList {
    pub status: usize,
    pub images: Seq<ImageUrl>,
}

/// The reply to a request for the images of one gallery.
pub struct Images {
    status: usize,
    images: Vec<Urls>,
}

impl DeepView for Images {
    type V = ImageList;

    closed spec fn deep_view(&self) -> ImageList {
        ImageList {
            status: self.status,
            images: self.images.deep_view(),
        }
    }
}

impl View for Images {
    type V = ImageList;

    open spec fn view(&self) -> ImageList {
        self.deep_view()
    }
}

impl Images {
    pub fn status(&self) -> (r: usize)
        ensures
            r == self@.status,
    {
        self.status
    }

    pub fn images(&self) -> (r: Vec<Urls>)
        ensures
            r.deep_view() == self@.images,
    {
        self.images.duplicate()
    }
}

impl Entity for Images {
    open spec fn decoded(doc: JsonValue) -> Option<ImageList> {
        if required::<usize>(doc, "status"@) is Some
            && required::<Vec<Urls>>(doc, "images"@) is Some {
            Some(
                ImageList {
                    status: required::<usize>(doc, "status"@)->0,
                    images: required::<Vec<Urls>>(doc, "images"@)->0,
                },
            )
        } else {
            None
        }
    }

    open spec fn encoded(v: ImageList) -> JsonValue {
        JsonValue::Object(
            Map::<Seq<char>, JsonValue>::empty()
                .insert("status"@, usize::encoded(v.status))
                .insert("images"@, Vec::<Urls>::encoded(v.images)),
        )
    }

    proof fn lemma_round_trip(v: ImageList) {
        // The keys differ from one another: in length, or in the character named here.
        reveal_strlit("status");
        assert("status"@.len() == 6 && "status"@[0] == 's');
        reveal_strlit("images");
        assert("images"@.len() == 6 && "images"@[0] == 'i');
        let doc = Self::encoded(v);
        assert(doc.member("status"@) == Some(usize::encoded(v.status)));
        assert(doc.member("images"@) == Some(Vec::<Urls>::encoded(v.images)));
        Vec::<Urls>::lemma_round_trip(v.images);
    }

    fn decode(value: &serde_json::Value) -> (r: Option<Self>) {
        let status = match read_required::<usize>(value, "status") {
            Some(x) => x,
            None => return None,
        };
        let images = match read_required::<Vec<Urls>>(value, "images") {
            Some(x) => x,
            None => return None,
        };
        Some(Images { status, images })
    }

    fn encode(&self) -> (r: serde_json::Value) {
        let mut object = empty_object();
        insert_member(&mut object, String::from_str("status"), self.status.encode());
        insert_member(&mut object, String::from_str("images"), self.images.encode());
        object
    }

    fn duplicate(&self) -> (r: Self) {
        Images {
            status: self.status,
            images: self.images.duplicate(),
        }
    }
}

impl Record for Images {
    open spec fn required_keys() -> Set<Seq<char>> {
        set!["status"@, "images"@]
    }

    proof fn lemma_missing_key(doc: JsonValue, key: Seq<char>) {
    }
}

} // verus!

//! Listings: the rows that the service lists galleries by.

use vstd::prelude::*;
use crate::codec::{read_required, required, Entity, Record};
use crate::json::{empty_object, insert_member, JsonValue};
use crate::labeled::{Label, LabeledValue};

verus! {

/// One row of a listing. The title may come in several parts.
pub struct ListEntry {
    pub title: Seq<LabeledValue>,
    pub galleryid: Seq<char>,
    pub thumbnail: Seq<char>,
    pub artist: Seq<LabeledValue>,
    pub group: Seq<LabeledValue>,
    pub type_: LabeledValue,
    pub language: LabeledValue,
    pub series: Seq<LabeledValue>,
    pub characters: Seq<LabeledValue>,
    pub tags: Seq<LabeledValue>,
}

/// One row of a listing, as read from a reply.
pub struct InfoListOrIntegrated {
    title: Vec<Label>,
    galleryid: String,
    thumbnail: String,
    artist: Vec<Label>,
    group: Vec<Label>,
    type_: Label,
    language: Label,
    series: Vec<Label>,
    characters: Vec<Label>,
    tags: Vec<Label>,
}

impl DeepView for InfoListOrIntegrated {
    type V = ListEntry;

    closed spec fn deep_view(&self) -> ListEntry {
        ListEntry {
            title: self.title.deep_view(),
            galleryid: self.galleryid@,
            thumbnail: self.thumbnail@,
            artist: self.artist.deep_view(),
            group: self.group.deep_view(),
            type_: self.type_.deep_view(),
            language: self.language.deep_view(),
            series: self.series.deep_view(),
            characters: self.characters.deep_view(),
            tags: self.tags.deep_view(),
        }
    }
}

impl View for InfoListOrIntegrated {
    type V = ListEntry;

    open spec fn view(&self) -> ListEntry {
        self.deep_view()
    }
}

impl InfoListOrIntegrated {
    pub fn title(&self) -> (r: Vec<Label>)
        ensures
            r.deep_view() == self@.title,
    {
        self.title.duplicate()
    }

    pub fn galleryid(&self) -> (r: String)
        ensures
            r@ == self@.galleryid,
    {
        self.galleryid.clone()
    }

    pub fn thumbnail(&self) -> (r: String)
        ensures
            r@ == self@.thumbnail,
    {
        self.thumbnail.clone()
    }

    pub fn artist(&self) -> (r: Vec<Label>)
        ensures
            r.deep_view() == self@.artist,
    {
        self.artist.duplicate()
    }

    pub fn group(&self) -> (r: Vec<Label>)
        ensures
            r.deep_view() == self@.group,
    {
        self.group.duplicate()
    }

    pub fn type_(&self) -> (r: Label)
        ensures
            r@ == self@.type_,
    {
        self.type_.duplicate()
    }

    pub fn language(&self) -> (r: Label)
        ensures
            r@ == self@.language,
    {
        self.language.duplicate()
    }

    pub fn series(&self) -> (r: Vec<Label>)
        ensures
            r.deep_view() == self@.series,
    {
        self.series.duplicate()
    }

    pub fn characters(&self) -> (r: Vec<Label>)
        ensures
            r.deep_view() == self@.characters,
    {
        self.characters.duplicate()
    }

    pub fn tags(&self) -> (r: Vec<Label>)
        ensures
            r.deep_view() == self@.tags,
    {
        self.tags.duplicate()
    }
}

impl Entity for InfoListOrIntegrated {
    open spec fn decoded(doc: JsonValue) -> Option<ListEntry> {
        if required::<Vec<Label>>(doc, "title"@) is Some
            && required::<String>(doc, "galleryid"@) is Some
            && required::<String>(doc, "thumbnail"@) is Some
            && required::<Vec<Label>>(doc, "artist"@) is Some
            && required::<Vec<Label>>(doc, "group"@) is Some
            && required::<Label>(doc, "type"@) is Some
            && required::<Label>(doc, "language"@) is Some
            && required::<Vec<Label>>(doc, "series"@) is Some
            && required::<Vec<Label>>(doc, "characters"@) is Some
            && required::<Vec<Label>>(doc, "tags"@) is Some {
            Some(
                ListEntry {
                    title: required::<Vec<Label>>(doc, "title"@)->0,
                    galleryid: required::<String>(doc, "galleryid"@)->0,
                    thumbnail: required::<String>(doc, "thumbnail"@)->0,
                    artist: required::<Vec<Label>>(doc, "artist"@)->0,
                    group: required::<Vec<Label>>(doc, "group"@)->0,
                    type_: required::<Label>(doc, "type"@)->0,
                    language: required::<Label>(doc, "language"@)->0,
                    series: required::<Vec<Label>>(doc, "series"@)->0,
                    characters: required::<Vec<Label>>(doc, "characters"@)->0,
                    tags: required::<Vec<Label>>(doc, "tags"@)->0,
                },
            )
        } else {
            None
        }
    }

    open spec fn encoded(v: ListEntry) -> JsonValue {
        JsonValue::Object(
            Map::<Seq<char>, JsonValue>::empty()
                .insert("title"@, Vec::<Label>::encoded(v.title))
                .insert("galleryid"@, String::encoded(v.galleryid))
                .insert("thumbnail"@, String::encoded(v.thumbnail))
                .insert("artist"@, Vec::<Label>::encoded(v.artist))
                .insert("group"@, Vec::<Label>::encoded(v.group))
                .insert("type"@, Label::encoded(v.type_))
                .insert("language"@, Label::encoded(v.language))
                .insert("series"@, Vec::<Label>::encoded(v.series))
                .insert("characters"@, Vec::<Label>::encoded(v.characters))
                .insert("tags"@, Vec::<Label>::encoded(v.tags)),
        )
    }

    proof fn lemma_round_trip(v: ListEntry) {
        // The keys differ from one another: in length, or in the character named here.
        reveal_strlit("title");
        assert("title"@.len() == 5 && "title"@[0] == 't');
        reveal_strlit("galleryid");
        assert("galleryid"@.len() == 9 && "galleryid"@[0] == 'g');
        reveal_strlit("thumbnail");
        assert("thumbnail"@.len() == 9 && "thumbnail"@[0] == 't');
        reveal_strlit("artist");
        assert("artist"@.len() == 6 && "artist"@[0] == 'a');
        reveal_strlit("group");
        assert("group"@.len() == 5 && "group"@[0] == 'g');
        reveal_strlit("type");
        assert("type"@.len() == 4 && "type"@[1] == 'y');
        reveal_strlit("language");
        assert("language"@.len() == 8);
        reveal_strlit("series");
        assert("series"@.len() == 6 && "series"@[0] == 's');
        reveal_strlit("characters");
        assert("characters"@.len() == 10);
        reveal_strlit("tags");
        assert("tags"@.len() == 4 && "tags"@[1] == 'a');
        let doc = Self::encoded(v);
        assert(doc.member("title"@) == Some(Vec::<Label>::encoded(v.title)));
        Vec::<Label>::lemma_round_trip(v.title);
        assert(doc.member("galleryid"@) == Some(String::encoded(v.galleryid)));
        assert(doc.member("thumbnail"@) == Some(String::encoded(v.thumbnail)));
        assert(doc.member("artist"@) == Some(Vec::<Label>::encoded(v.artist)));
        Vec::<Label>::lemma_round_trip(v.artist);
        assert(doc.member("group"@) == Some(Vec::<Label>::encoded(v.group)));
        Vec::<Label>::lemma_round_trip(v.group);
        assert(doc.member("type"@) == Some(Label::encoded(v.type_)));
        Label::lemma_round_trip(v.type_);
        assert(doc.member("language"@) == Some(Label::encoded(v.language)));
        Label::lemma_round_trip(v.language);
        assert(doc.member("series"@) == Some(Vec::<Label>::encoded(v.series)));
        Vec::<Label>::lemma_round_trip(v.series);
        assert(doc.member("characters"@) == Some(Vec::<Label>::encoded(v.characters)));
        Vec::<Label>::lemma_round_trip(v.characters);
        assert(doc.member("tags"@) == Some(Vec::<Label>::encoded(v.tags)));
        Vec::<Label>::lemma_round_trip(v.tags);
    }

    fn decode(value: &serde_json::Value) -> (r: Option<Self>) {
        let title = match read_required::<Vec<Label>>(value, "title") {
            Some(x) => x,
            None => return None,
        };
        let galleryid = match read_required::<String>(value, "galleryid") {
            Some(x) => x,
            None => return None,
        };
        let thumbnail = match read_required::<String>(value, "thumbnail") {
            Some(x) => x,
            None => return None,
        };
        let artist = match read_required::<Vec<Label>>(value, "artist") {
            Some(x) => x,
            None => return None,
        };
        let group = match read_required::<Vec<Label>>(value, "group") {
            Some(x) => x,
            None => return None,
        };
        let type_ = match read_required::<Label>(value, "type") {
            Some(x) => x,
            None => return None,
        };
        let language = match read_required::<Label>(value, "language") {
            Some(x) => x,
            None => return None,
        };
        let series = match read_required::<Vec<Label>>(value, "series") {
            Some(x) => x,
            None => return None,
        };
        let characters = match read_required::<Vec<Label>>(value, "characters") {
            Some(x) => x,
            None => return None,
        };
        let tags = match read_required::<Vec<Label>>(value, "tags") {
            Some(x) => x,
            None => return None,
        };
        Some(
            InfoListOrIntegrated {
                title,
                galleryid,
                thumbnail,
                artist,
                group,
                type_,
                language,
                series,
                characters,
                tags,
            },
        )
    }

    fn encode(&self) -> (r: serde_json::Value) {
        let mut object = empty_object();
        insert_member(&mut object, String::from_str("title"), self.title.encode());
        insert_member(&mut object, String::from_str("galleryid"), self.galleryid.encode());
        insert_member(&mut object, String::from_str("thumbnail"), self.thumbnail.encode());
        insert_member(&mut object, String::from_str("artist"), self.artist.encode());
        insert_member(&mut object, String::from_str("group"), self.group.encode());
        insert_member(&mut object, String::from_str("type"), self.type_.encode());
        insert_member(&mut object, String::from_str("language"), self.language.encode());
        insert_member(&mut object, String::from_str("series"), self.series.encode());
        insert_member(&mut object, String::from_str("characters"), self.characters.encode());
        insert_member(&mut object, String::from_str("tags"), self.tags.encode());
        object
    }

    fn duplicate(&self) -> (r: Self) {
        InfoListOrIntegrated {
            title: self.title.duplicate(),
            galleryid: self.galleryid.clone(),
            thumbnail: self.thumbnail.clone(),
            artist: self.artist.duplicate(),
            group: self.group.duplicate(),
            type_: self.type_.duplicate(),
            language: self.language.duplicate(),
            series: self.series.duplicate(),
            characters: self.characters.duplicate(),
            tags: self.tags.duplicate(),
        }
    }
}

impl Record for InfoListOrIntegrated {
    open spec fn required_keys() -> Set<Seq<char>> {
        set![
            "title"@, "galleryid"@, "thumbnail"@, "artist"@, "group"@, "type"@, "language"@,
            "series"@, "characters"@, "tags"@,
        ]
    }

    proof fn lemma_missing_key(doc: JsonValue, key: Seq<char>) {
    }
}

impl Clone for InfoListOrIntegrated {
    fn clone(&self) -> (r: Self)
        ensures
            r@ == self@,
    {
        self.duplicate()
    }
}

/// The listing view of one gallery: what a row of a listing holds, with a
/// single title and a status.
pub struct InfoReply {
    pub status: usize,
    pub title: LabeledValue,
    pub galleryid: Seq<char>,
    pub thumbnail: Seq<char>,
    pub artist: Seq<LabeledValue>,
    pub group: Seq<LabeledValue>,
    pub type_: LabeledValue,
    pub language: LabeledValue,
    pub series: Seq<LabeledValue>,
    pub characters: Seq<LabeledValue>,
    pub tags: Seq<LabeledValue>,
}

/// The reply to a request for the listing view of one gallery.
pub struct Info {
    status: usize,
    title: Label,
    galleryid: String,
    thumbnail: String,
    artist: Vec<Label>,
    group: Vec<Label>,
    type_: Label,
    language: Label,
    series: Vec<Label>,
    characters: Vec<Label>,
    tags: Vec<Label>,
}

impl DeepView for Info {
    type V = InfoReply;

    closed spec fn deep_view(&self) -> InfoReply {
        InfoReply {
            status: self.status,
            title: self.title.deep_view(),
            galleryid: self.galleryid@,
            thumbnail: self.thumbnail@,
            artist: self.artist.deep_view(),
            group: self.group.deep_view(),
            type_: self.type_.deep_view(),
            language: self.language.deep_view(),
            series: self.series.deep_view(),
            characters: self.characters.deep_view(),
            tags: self.tags.deep_view(),
        }
    }
}

impl View for Info {
    type V = InfoReply;

    open spec fn view(&self) -> InfoReply {
        self.deep_view()
    }
}

impl Info {
    pub fn status(&self) -> (r: usize)
        ensures
            r == self@.status,
    {
        self.status
    }

    pub fn title(&self) -> (r: Label)
        ensures
            r@ == self@.title,
    {
        self.title.duplicate()
    }

    pub fn galleryid(&self) -> (r: String)
        ensures
            r@ == self@.galleryid,
    {
        self.galleryid.clone()
    }

    pub fn thumbnail(&self) -> (r: String)
        ensures
            r@ == self@.thumbnail,
    {
        self.thumbnail.clone()
    }

    pub fn artist(&self) -> (r: Vec<Label>)
        ensures
            r.deep_view() == self@.artist,
    {
        self.artist.duplicate()
    }

    pub fn group(&self) -> (r: Vec<Label>)
        ensures
            r.deep_view() == self@.group,
    {
        self.group.duplicate()
    }

    pub fn type_(&self) -> (r: Label)
        ensures
            r@ == self@.type_,
    {
        self.type_.duplicate()
    }

    pub fn language(&self) -> (r: Label)
        ensures
            r@ == self@.language,
    {
        self.language.duplicate()
    }

    pub fn series(&self) -> (r: Vec<Label>)
        ensures
            r.deep_view() == self@.series,
    {
        self.series.duplicate()
    }

    pub fn characters(&self) -> (r: Vec<Label>)
        ensures
            r.deep_view() == self@.characters,
    {
        self.characters.duplicate()
    }

    pub fn tags(&self) -> (r: Vec<Label>)
        ensures
            r.deep_view() == self@.tags,
    {
        self.tags.duplicate()
    }
}

impl Entity for Info {
    open spec fn decoded(doc: JsonValue) -> Option<InfoReply> {
        if required::<usize>(doc, "status"@) is Some
            && required::<Label>(doc, "title"@) is Some
            && required::<String>(doc, "galleryid"@) is Some
            && required::<String>(doc, "thumbnail"@) is Some
            && required::<Vec<Label>>(doc, "artist"@) is Some
            && required::<Vec<Label>>(doc, "group"@) is Some
            && required::<Label>(doc, "type"@) is Some
            && required::<Label>(doc, "language"@) is Some
            && required::<Vec<Label>>(doc, "series"@) is Some
            && required::<Vec<Label>>(doc, "characters"@) is Some
            && required::<Vec<Label>>(doc, "tags"@) is Some {
            Some(
                InfoReply {
                    status: required::<usize>(doc, "status"@)->0,
                    title: required::<Label>(doc, "title"@)->0,
                    galleryid: required::<String>(doc, "galleryid"@)->0,
                    thumbnail: required::<String>(doc, "thumbnail"@)->0,
                    artist: required::<Vec<Label>>(doc, "artist"@)->0,
                    group: required::<Vec<Label>>(doc, "group"@)->0,
                    type_: required::<Label>(doc, "type"@)->0,
                    language: required::<Label>(doc, "language"@)->0,
                    series: required::<Vec<Label>>(doc, "series"@)->0,
                    characters: required::<Vec<Label>>(doc, "characters"@)->0,
                    tags: required::<Vec<Label>>(doc, "tags"@)->0,
                },
            )
        } else {
            None
        }
    }

    open spec fn encoded(v: InfoReply) -> JsonValue {
        JsonValue::Object(
            Map::<Seq<char>, JsonValue>::empty()
                .insert("status"@, usize::encoded(v.status))
                .insert("title"@, Label::encoded(v.title))
                .insert("galleryid"@, String::encoded(v.galleryid))
                .insert("thumbnail"@, String::encoded(v.thumbnail))
                .insert("artist"@, Vec::<Label>::encoded(v.artist))
                .insert("group"@, Vec::<Label>::encoded(v.group))
                .insert("type"@, Label::encoded(v.type_))
                .insert("language"@, Label::encoded(v.language))
                .insert("series"@, Vec::<Label>::encoded(v.series))
                .insert("characters"@, Vec::<Label>::encoded(v.characters))
                .insert("tags"@, Vec::<Label>::encoded(v.tags)),
        )
    }

    proof fn lemma_round_trip(v: InfoReply) {
        // The keys differ from one another: in length, or in the character named here.
        reveal_strlit("status");
        assert("status"@.len() == 6 && "status"@[0] == 's' && "status"@[1] == 't');
        reveal_strlit("title");
        assert("title"@.len() == 5 && "title"@[0] == 't');
        reveal_strlit("galleryid");
        assert("galleryid"@.len() == 9 && "galleryid"@[0] == 'g');
        reveal_strlit("thumbnail");
        assert("thumbnail"@.len() == 9 && "thumbnail"@[0] == 't');
        reveal_strlit("artist");
        assert("artist"@.len() == 6 && "artist"@[0] == 'a');
        reveal_strlit("group");
        assert("group"@.len() == 5 && "group"@[0] == 'g');
        reveal_strlit("type");
        assert("type"@.len() == 4 && "type"@[1] == 'y');
        reveal_strlit("language");
        assert("language"@.len() == 8);
        reveal_strlit("series");
        assert("series"@.len() == 6 && "series"@[0] == 's' && "series"@[1] == 'e');
        reveal_strlit("characters");
        assert("characters"@.len() == 10);
        reveal_strlit("tags");
        assert("tags"@.len() == 4 && "tags"@[1] == 'a');
        let doc = Self::encoded(v);
        assert(doc.member("status"@) == Some(usize::encoded(v.status)));
        assert(doc.member("title"@) == Some(Label::encoded(v.title)));
        Label::lemma_round_trip(v.title);
        assert(doc.member("galleryid"@) == Some(String::encoded(v.galleryid)));
        assert(doc.member("thumbnail"@) == Some(String::encoded(v.thumbnail)));
        assert(doc.member("artist"@) == Some(Vec::<Label>::encoded(v.artist)));
        Vec::<Label>::lemma_round_trip(v.artist);
        assert(doc.member("group"@) == Some(Vec::<Label>::encoded(v.group)));
        Vec::<Label>::lemma_round_trip(v.group);
        assert(doc.member("type"@) == Some(Label::encoded(v.type_)));
        Label::lemma_round_trip(v.type_);
        assert(doc.member("language"@) == Some(Label::encoded(v.language)));
        Label::lemma_round_trip(v.language);
        assert(doc.member("series"@) == Some(Vec::<Label>::encoded(v.series)));
        Vec::<Label>::lemma_round_trip(v.series);
        assert(doc.member("characters"@) == Some(Vec::<Label>::encoded(v.characters)));
        Vec::<Label>::lemma_round_trip(v.characters);
        assert(doc.member("tags"@) == Some(Vec::<Label>::encoded(v.tags)));
        Vec::<Label>::lemma_round_trip(v.tags);
    }

    fn decode(value: &serde_json::Value) -> (r: Option<Self>) {
        let status = match read_required::<usize>(value, "status") {
            Some(x) => x,
            None => return None,
        };
        let title = match read_required::<Label>(value, "title") {
            Some(x) => x,
            None => return None,
        };
        let galleryid = match read_required::<String>(value, "galleryid") {
            Some(x) => x,
            None => return None,
        };
        let thumbnail = match read_required::<String>(value, "thumbnail") {
            Some(x) => x,
            None => return None,
        };
        let artist = match read_required::<Vec<Label>>(value, "artist") {
            Some(x) => x,
            None => return None,
        };
        let group = match read_required::<Vec<Label>>(value, "group") {
            Some(x) => x,
            None => return None,
        };
        let type_ = match read_required::<Label>(value, "type") {
            Some(x) => x,
            None => return None,
        };
        let language = match read_required::<Label>(value, "language") {
            Some(x) => x,
            None => return None,
        };
        let series = match read_required::<Vec<Label>>(value, "series") {
            Some(x) => x,
            None => return None,
        };
        let characters = match read_required::<Vec<Label>>(value, "characters") {
            Some(x) => x,
            None => return None,
        };
        let tags = match read_required::<Vec<Label>>(value, "tags") {
            Some(x) => x,
            None => return None,
        };
        Some(
            Info {
                status,
                title,
                galleryid,
                thumbnail,
                artist,
                group,
                type_,
                language,
                series,
                characters,
                tags,
            },
        )
    }

    fn encode(&self) -> (r: serde_json::Value) {
        let mut object = empty_object();
        insert_member(&mut object, String::from_str("status"), self.status.encode());
        insert_member(&mut object, String::from_str("title"), self.title.encode());
        insert_member(&mut object, String::from_str("galleryid"), self.galleryid.encode());
        insert_member(&mut object, String::from_str("thumbnail"), self.thumbnail.encode());
        insert_member(&mut object, String::from_str("artist"), self.artist.encode());
        insert_member(&mut object, String::from_str("group"), self.group.encode());
        insert_member(&mut object, String::from_str("type"), self.type_.encode());
        insert_member(&mut object, String::from_str("language"), self.language.encode());
        insert_member(&mut object, String::from_str("series"), self.series.encode());
        insert_member(&mut object, String::from_str("characters"), self.characters.encode());
        insert_member(&mut object, String::from_str("tags"), self.tags.encode());
        object
    }

    fn duplicate(&self) -> (r: Self) {
        Info {
            status: self.status,
            title: self.title.duplicate(),
            galleryid: self.galleryid.clone(),
            thumbnail: self.thumbnail.clone(),
            artist: self.artist.duplicate(),
            group: self.group.duplicate(),
            type_: self.type_.duplicate(),
            language: self.language.duplicate(),
            series: self.series.duplicate(),
            characters: self.characters.duplicate(),
            tags: self.tags.duplicate(),
        }
    }
}

impl Record for Info {
    open spec fn required_keys() -> Set<Seq<char>> {
        set![
            "status"@, "title"@, "galleryid"@, "thumbnail"@, "artist"@, "group"@, "type"@,
            "language"@, "series"@, "characters"@, "tags"@,
        ]
    }

    proof fn lemma_missing_key(doc: JsonValue, key: Seq<char>) {
    }
}

/// One page of the listing.
pub struct ListReply {
    pub status: usize,
    pub list: Seq<ListEntry>,
}

/// The reply to a request for a page of the listing.
pub struct List {
    status: usize,
    list: Vec<InfoListOrIntegrated>,
}

impl DeepView for List {
    type V = ListReply;

    closed spec fn deep_view(&self) -> ListReply {
        ListReply {
            status: self.status,
            list: self.list.deep_view(),
        }
    }
}

impl View for List {
    type V = ListReply;

    open spec fn view(&self) -> ListReply {
        self.deep_view()
    }
}

impl List {
    pub fn status(&self) -> (r: usize)
        ensures
            r == self@.status,
    {
        self.status
    }

    pub fn list(&self) -> (r: Vec<InfoListOrIntegrated>)
        ensures
            r.deep_view() == self@.list,
    {
        self.list.duplicate()
    }
}

impl Entity for List {
    open spec fn decoded(doc: JsonValue) -> Option<ListReply> {
        if required::<usize>(doc, "status"@) is Some
            && required::<Vec<InfoListOrIntegrated>>(doc, "list"@) is Some {
            Some(
                ListReply {
                    status: required::<usize>(doc, "status"@)->0,
                    list: required::<Vec<InfoListOrIntegrated>>(doc, "list"@)->0,
                },
            )
        } else {
            None
        }
    }

    open spec fn encoded(v: ListReply) -> JsonValue {
        JsonValue::Object(
            Map::<Seq<char>, JsonValue>::empty()
                .insert("status"@, usize::encoded(v.status))
                .insert("list"@, Vec::<InfoListOrIntegrated>::encoded(v.list)),
        )
    }

    proof fn lemma_round_trip(v: ListReply) {
        // The keys differ from one another: in length, or in the character named here.
        reveal_strlit("status");
        assert("status"@.len() == 6);
        reveal_strlit("list");
        assert("list"@.len() == 4);
        let doc = Self::encoded(v);
        assert(doc.member("status"@) == Some(usize::encoded(v.status)));
        assert(doc.member("list"@) == Some(Vec::<InfoListOrIntegrated>::encoded(v.list)));
        Vec::<InfoListOrIntegrated>::lemma_round_trip(v.list);
    }

    fn decode(value: &serde_json::Value) -> (r: Option<Self>) {
        let status = match read_required::<usize>(value, "status") {
            Some(x) => x,
            None => return None,
        };
        let list = match read_required::<Vec<InfoListOrIntegrated>>(value, "list") {
            Some(x) => x,
            None => return None,
        };
        Some(List { status, list })
    }

    fn encode(&self) -> (r: serde_json::Value) {
        let mut object = empty_object();
        insert_member(&mut object, String::from_str("status"), self.status.encode());
        insert_member(&mut object, String::from_str("list"), self.list.encode());
        object
    }

    fn duplicate(&self) -> (r: Self) {
        List {
            status: self.status,
            list: self.list.duplicate(),
        }
    }
}

impl Record for List {
    open spec fn required_keys() -> Set<Seq<char>> {
        set!["status"@, "list"@]
    }

    proof fn lemma_missing_key(doc: JsonValue, key: Seq<char>) {
    }
}

} // verus!

//! Galleries: the metadata of one gallery and the pages it is made of.

use vstd::prelude::*;
use crate::codec::{
    duplicate_optional, optional, read_optional, read_required, required, with_optional,
    write_optional, Entity, Record,
};
use crate::json::{empty_object, insert_member, JsonValue};
use crate::labeled::{Label, LabeledValue};

verus! {

/// One page of a gallery: the image file, its size in pixels, and which
/// other encodings of it the service holds. The three flags are kept as the
/// numbers that the service sends; `0` means no, anything else means yes.
pub struct FileEntry {
    pub width: usize,
    pub hash: Seq<char>,
    pub haswebp: usize,
    pub hasavifsmalltn: usize,
    pub name: Seq<char>,
    pub height: usize,
    pub hasavif: usize,
}

impl FileEntry {
    /// Whether a WebP encoding exists.
    pub open spec fn has_webp(self) -> bool {
        self.haswebp != 0
    }

    /// Whether a small AVIF thumbnail exists.
    pub open spec fn has_avif_small_thumbnail(self) -> bool {
        self.hasavifsmalltn != 0
    }

    /// Whether an AVIF encoding exists.
    pub open spec fn has_avif(self) -> bool {
        self.hasavif != 0
    }
}

/// One page of a gallery, as read from a reply.
pub struct Files {
    width: usize,
    hash: String,
    haswebp: usize,
    hasavifsmalltn: usize,
    name: String,
    height: usize,
    hasavif: usize,
}

impl DeepView for Files {
    type V = FileEntry;

    closed spec fn deep_view(&self) -> FileEntry {
        FileEntry {
            width: self.width,
            hash: self.hash@,
            haswebp: self.haswebp,
            hasavifsmalltn: self.hasavifsmalltn,
            name: self.name@,
            height: self.height,
            hasavif: self.hasavif,
        }
    }
}

impl View for Files {
    type V = FileEntry;

    open spec fn view(&self) -> FileEntry {
        self.deep_view()
    }
}

impl Files {
    pub fn width(&self) -> (r: usize)
        ensures
            r == self@.width,
    {
        self.width
    }

    pub fn hash(&self) -> (r: String)
        ensures
            r@ == self@.hash,
    {
        self.hash.clone()
    }

    pub fn haswebp(&self) -> (r: bool)
        ensures
            r == self@.has_webp(),
    {
        self.haswebp != 0
    }

    pub fn hasavifsmalltn(&self) -> (r: bool)
        ensures
            r == self@.has_avif_small_thumbnail(),
    {
        self.hasavifsmalltn != 0
    }

    pub fn name(&self) -> (r: String)
        ensures
            r@ == self@.name,
    {
        self.name.clone()
    }

    pub fn height(&self) -> (r: usize)
        ensures
            r == self@.height,
    {
        self.height
    }

    pub fn hasavif(&self) -> (r: bool)
        ensures
            r == self@.has_avif(),
    {
        self.hasavif != 0
    }
}

impl Entity for Files {
    open spec fn decoded(doc: JsonValue) -> Option<FileEntry> {
        if required::<usize>(doc, "width"@) is Some
            && required::<String>(doc, "hash"@) is Some
            && required::<usize>(doc, "haswebp"@) is Some
            && required::<usize>(doc, "hasavifsmalltn"@) is Some
            && required::<String>(doc, "name"@) is Some
            && required::<usize>(doc, "height"@) is Some
            && required::<usize>(doc, "hasavif"@) is Some {
            Some(
                FileEntry {
                    width: required::<usize>(doc, "width"@)->0,
                    hash: required::<String>(doc, "hash"@)->0,
                    haswebp: required::<usize>(doc, "haswebp"@)->0,
                    hasavifsmalltn: required::<usize>(doc, "hasavifsmalltn"@)->0,
                    name: required::<String>(doc, "name"@)->0,
                    height: required::<usize>(doc, "height"@)->0,
                    hasavif: required::<usize>(doc, "hasavif"@)->0,
                },
            )
        } else {
            None
        }
    }

    open spec fn encoded(v: FileEntry) -> JsonValue {
        JsonValue::Object(
            Map::<Seq<char>, JsonValue>::empty()
                .insert("width"@, usize::encoded(v.width))
                .insert("hash"@, String::encoded(v.hash))
                .insert("haswebp"@, usize::encoded(v.haswebp))
                .insert("hasavifsmalltn"@, usize::encoded(v.hasavifsmalltn))
                .insert("name"@, String::encoded(v.name))
                .insert("height"@, usize::encoded(v.height))
                .insert("hasavif"@, usize::encoded(v.hasavif)),
        )
    }

    proof fn lemma_round_trip(v: FileEntry) {
        // The keys differ from one another: in length, or in the character named here.
        reveal_strlit("width");
        assert("width"@.len() == 5);
        reveal_strlit("hash");
        assert("hash"@.len() == 4 && "hash"@[0] == 'h');
        reveal_strlit("haswebp");
        assert("haswebp"@.len() == 7 && "haswebp"@[3] == 'w');
        reveal_strlit("hasavifsmalltn");
        assert("hasavifsmalltn"@.len() == 14);
        reveal_strlit("name");
        assert("name"@.len() == 4 && "name"@[0] == 'n');
        reveal_strlit("height");
        assert("height"@.len() == 6);
        reveal_strlit("hasavif");
        assert("hasavif"@.len() == 7 && "hasavif"@[3] == 'a');
        let doc = Self::encoded(v);
        assert(doc.member("width"@) == Some(usize::encoded(v.width)));
        assert(doc.member("hash"@) == Some(String::encoded(v.hash)));
        assert(doc.member("haswebp"@) == Some(usize::encoded(v.haswebp)));
        assert(doc.member("hasavifsmalltn"@) == Some(usize::encoded(v.hasavifsmalltn)));
        assert(doc.member("name"@) == Some(String::encoded(v.name)));
        assert(doc.member("height"@) == Some(usize::encoded(v.height)));
        assert(doc.member("hasavif"@) == Some(usize::encoded(v.hasavif)));
    }

    fn decode(value: &serde_json::Value) -> (r: Option<Self>) {
        let width = match read_required::<usize>(value, "width") {
            Some(x) => x,
            None => return None,
        };
        let hash = match read_required::<String>(value, "hash") {
            Some(x) => x,
            None => return None,
        };
        let haswebp = match read_required::<usize>(value, "haswebp") {
            Some(x) => x,
            None => return None,
        };
        let hasavifsmalltn = match read_required::<usize>(value, "hasavifsmalltn") {
            Some(x) => x,
            None => return None,
        };
        let name = match read_required::<String>(value, "name") {
            Some(x) => x,
            None => return None,
        };
        let height = match read_required::<usize>(value, "height") {
            Some(x) => x,
            None => return None,
        };
        let hasavif = match read_required::<usize>(value, "hasavif") {
            Some(x) => x,
            None => return None,
        };
        Some(Files { width, hash, haswebp, hasavifsmalltn, name, height, hasavif })
    }

    fn encode(&self) -> (r: serde_json::Value) {
        let mut object = empty_object();
        insert_member(&mut object, String::from_str("width"), self.width.encode());
        insert_member(&mut object, String::from_str("hash"), self.hash.encode());
        insert_member(&mut object, String::from_str("haswebp"), self.haswebp.encode());
        insert_member(
            &mut object,
            String::from_str("hasavifsmalltn"),
            self.hasavifsmalltn.encode(),
        );
        insert_member(&mut object, String::from_str("name"), self.name.encode());
        insert_member(&mut object, String::from_str("height"), self.height.encode());
        insert_member(&mut object, String::from_str("hasavif"), self.hasavif.encode());
        object
    }

    fn duplicate(&self) -> (r: Self) {
        Files {
            width: self.width,
            hash: self.hash.clone(),
            haswebp: self.haswebp,
            hasavifsmalltn: self.hasavifsmalltn,
            name: self.name.clone(),
            height: self.height,
            hasavif: self.hasavif,
        }
    }
}

impl Record for Files {
    open spec fn required_keys() -> Set<Seq<char>> {
        set!["width"@, "hash"@, "haswebp"@, "hasavifsmalltn"@, "name"@, "height"@, "hasavif"@]
    }

    proof fn lemma_missing_key(doc: JsonValue, key: Seq<char>) {
    }
}

impl Clone for Files {
    fn clone(&self) -> (r: Self)
        ensures
            r@ == self@,
    {
        self.duplicate()
    }
}

/// The metadata of one gallery. `files` is the gallery page by page;
/// `japanese_title` is absent for a gallery that has none.
pub struct GalleryReply {
    pub status: usize,
    pub language_localname: Seq<char>,
    pub language: Seq<char>,
    pub date: Seq<char>,
    pub files: Seq<FileEntry>,
    pub tags: Seq<LabeledValue>,
    pub japanese_title: Option<Seq<char>>,
    pub title: Seq<char>,
    pub id: Seq<char>,
    pub type_: Seq<char>,
}

/// The reply to a request for one gallery.
pub struct GalleryInfo {
    status: usize,
    language_localname: String,
    language: String,
    date: String,
    files: Vec<Files>,
    tags: Vec<Label>,
    japanese_title: Option<String>,
    title: String,
    id: String,
    type_: String,
}

impl DeepView for GalleryInfo {
    type V = GalleryReply;

    closed spec fn deep_view(&self) -> GalleryReply {
        GalleryReply {
            status: self.status,
            language_localname: self.language_localname@,
            language: self.language@,
            date: self.date@,
            files: self.files.deep_view(),
            tags: self.tags.deep_view(),
            japanese_title: self.japanese_title.deep_view(),
            title: self.title@,
            id: self.id@,
            type_: self.type_@,
        }
    }
}

impl View for GalleryInfo {
    type V = GalleryReply;

    open spec fn view(&self) -> GalleryReply {
        self.deep_view()
    }
}

impl GalleryInfo {
    pub fn status(&self) -> (r: usize)
        ensures
            r == self@.status,
    {
        self.status
    }

    pub fn language_localname(&self) -> (r: String)
        ensures
            r@ == self@.language_localname,
    {
        self.language_localname.clone()
    }

    pub fn language(&self) -> (r: String)
        ensures
            r@ == self@.language,
    {
        self.language.clone()
    }

    pub fn date(&self) -> (r: String)
        ensures
            r@ == self@.date,
    {
        self.date.clone()
    }

    pub fn files(&self) -> (r: Vec<Files>)
        ensures
            r.deep_view() == self@.files,
    {
        self.files.duplicate()
    }

    pub fn tags(&self) -> (r: Vec<Label>)
        ensures
            r.deep_view() == self@.tags,
    {
        self.tags.duplicate()
    }

    /// The Japanese title, where the gallery has one.
    pub fn japanese_title(&self) -> (r: Option<String>)
        ensures
            r.deep_view() == self@.japanese_title,
    {
        duplicate_optional(&self.japanese_title)
    }

    pub fn title(&self) -> (r: String)
        ensures
            r@ == self@.title,
    {
        self.title.clone()
    }

    pub fn id(&self) -> (r: String)
        ensures
            r@ == self@.id,
    {
        self.id.clone()
    }

    pub fn type_(&self) -> (r: String)
        ensures
            r@ == self@.type_,
    {
        self.type_.clone()
    }
}

impl Entity for GalleryInfo {
    open spec fn decoded(doc: JsonValue) -> Option<GalleryReply> {
        if required::<usize>(doc, "status"@) is Some
            && required::<String>(doc, "language_localname"@) is Some
            && required::<String>(doc, "language"@) is Some
            && required::<String>(doc, "date"@) is Some
            && required::<Vec<Files>>(doc, "files"@) is Some
            && required::<Vec<Label>>(doc, "tags"@) is Some
            && optional::<String>(doc, "japanese_title"@) is Some
            && required::<String>(doc, "title"@) is Some
            && required::<String>(doc, "id"@) is Some
            && required::<String>(doc, "type"@) is Some {
            Some(
                GalleryReply {
                    status: required::<usize>(doc, "status"@)->0,
                    language_localname: required::<String>(doc, "language_localname"@)->0,
                    language: required::<String>(doc, "language"@)->0,
                    date: required::<String>(doc, "date"@)->0,
                    files: required::<Vec<Files>>(doc, "files"@)->0,
                    tags: required::<Vec<Label>>(doc, "tags"@)->0,
                    japanese_title: optional::<String>(doc, "japanese_title"@)->0,
                    title: required::<String>(doc, "title"@)->0,
                    id: required::<String>(doc, "id"@)->0,
                    type_: required::<String>(doc, "type"@)->0,
                },
            )
        } else {
            None
        }
    }

    open spec fn encoded(v: GalleryReply) -> JsonValue {
        let members = Map::<Seq<char>, JsonValue>::empty()
            .insert("status"@, usize::encoded(v.status))
            .insert("language_localname"@, String::encoded(v.language_localname))
            .insert("language"@, String::encoded(v.language))
            .insert("date"@, String::encoded(v.date))
            .insert("files"@, Vec::<Files>::encoded(v.files))
            .insert("tags"@, Vec::<Label>::encoded(v.tags))
            .insert("title"@, String::encoded(v.title))
            .insert("id"@, String::encoded(v.id))
            .insert("type"@, String::encoded(v.type_));
        JsonValue::Object(with_optional::<String>(members, "japanese_title"@, v.japanese_title))
    }

    proof fn lemma_round_trip(v: GalleryReply) {
        // The keys differ from one another: in length, or in the character named here.
        reveal_strlit("status");
        assert("status"@.len() == 6);
        reveal_strlit("language_localname");
        assert("language_localname"@.len() == 18);
        reveal_strlit("language");
        assert("language"@.len() == 8);
        reveal_strlit("date");
        assert("date"@.len() == 4 && "date"@[0] == 'd');
        reveal_strlit("files");
        assert("files"@.len() == 5 && "files"@[0] == 'f');
        reveal_strlit("tags");
        assert("tags"@.len() == 4 && "tags"@[0] == 't' && "tags"@[1] == 'a');
        reveal_strlit("japanese_title");
        assert("japanese_title"@.len() == 14);
        reveal_strlit("title");
        assert("title"@.len() == 5 && "title"@[0] == 't');
        reveal_strlit("id");
        assert("id"@.len() == 2);
        reveal_strlit("type");
        assert("type"@.len() == 4 && "type"@[0] == 't' && "type"@[1] == 'y');
        let doc = Self::encoded(v);
        assert(doc.member("status"@) == Some(usize::encoded(v.status)));
        assert(doc.member("language_localname"@) == Some(String::encoded(v.language_localname)));
        assert(doc.member("language"@) == Some(String::encoded(v.language)));
        assert(doc.member("date"@) == Some(String::encoded(v.date)));
        assert(doc.member("files"@) == Some(Vec::<Files>::encoded(v.files)));
        Vec::<Files>::lemma_round_trip(v.files);
        assert(doc.member("tags"@) == Some(Vec::<Label>::encoded(v.tags)));
        Vec::<Label>::lemma_round_trip(v.tags);
        assert(doc.member("japanese_title"@) == match v.japanese_title {
            Some(text) => Some(JsonValue::Text(text)),
            None => None,
        });
        assert(doc.member("title"@) == Some(String::encoded(v.title)));
        assert(doc.member("id"@) == Some(String::encoded(v.id)));
        assert(doc.member("type"@) == Some(String::encoded(v.type_)));
    }

    fn decode(value: &serde_json::Value) -> (r: Option<Self>) {
        let status = match read_required::<usize>(value, "status") {
            Some(x) => x,
            None => return None,
        };
        let language_localname = match read_required::<String>(value, "language_localname") {
            Some(x) => x,
            None => return None,
        };
        let language = match read_required::<String>(value, "language") {
            Some(x) => x,
            None => return None,
        };
        let date = match read_required::<String>(value, "date") {
            Some(x) => x,
            None => return None,
        };
        let files = match read_required::<Vec<Files>>(value, "files") {
            Some(x) => x,
            None => return None,
        };
        let tags = match read_required::<Vec<Label>>(value, "tags") {
            Some(x) => x,
            None => return None,
        };
        let japanese_title = match read_optional::<String>(value, "japanese_title") {
            Some(x) => x,
            None => return None,
        };
        let title = match read_required::<String>(value, "title") {
            Some(x) => x,
            None => return None,
        };
        let id = match read_required::<String>(value, "id") {
            Some(x) => x,
            None => return None,
        };
        let type_ = match read_required::<String>(value, "type") {
            Some(x) => x,
            None => return None,
        };
        Some(
            GalleryInfo {
                status,
                language_localname,
                language,
                date,
                files,
                tags,
                japanese_title,
                title,
                id,
                type_,
            },
        )
    }

    fn encode(&self) -> (r: serde_json::Value) {
        let mut object = empty_object();
        insert_member(&mut object, String::from_str("status"), self.status.encode());
        insert_member(
            &mut object,
            String::from_str("language_localname"),
            self.language_localname.encode(),
        );
        insert_member(&mut object, String::from_str("language"), self.language.encode());
        insert_member(&mut object, String::from_str("date"), self.date.encode());
        insert_member(&mut object, String::from_str("files"), self.files.encode());
        insert_member(&mut object, String::from_str("tags"), self.tags.encode());
        insert_member(&mut object, String::from_str("title"), self.title.encode());
        insert_member(&mut object, String::from_str("id"), self.id.encode());
        insert_member(&mut object, String::from_str("type"), self.type_.encode());
        write_optional::<String>(&mut object, "japanese_title", &self.japanese_title);
        object
    }

    fn duplicate(&self) -> (r: Self) {
        GalleryInfo {
            status: self.status,
            language_localname: self.language_localname.clone(),
            language: self.language.clone(),
            date: self.date.clone(),
            files: self.files.duplicate(),
            tags: self.tags.duplicate(),
            japanese_title: duplicate_optional(&self.japanese_title),
            title: self.title.clone(),
            id: self.id.clone(),
            type_: self.type_.clone(),
        }
    }
}

impl Record for GalleryInfo {
    open spec fn required_keys() -> Set<Seq<char>> {
        set![
            "status"@, "language_localname"@, "language"@, "date"@, "files"@, "tags"@, "title"@,
            "id"@, "type"@,
        ]
    }

    proof fn lemma_missing_key(doc: JsonValue, key: Seq<char>) {
    }
}

/// The metadata of one gallery as the combined reply carries it: as
/// `GalleryReply`, without a status.
pub struct GalleryRecord {
    pub language_localname: Seq<char>,
    pub language: Seq<char>,
    pub date: Seq<char>,
    pub files: Seq<FileEntry>,
    pub tags: Seq<LabeledValue>,
    pub japanese_title: Option<Seq<char>>,
    pub title: Seq<char>,
    pub id: Seq<char>,
    pub type_: Seq<char>,
}

/// One gallery record of a combined reply.
pub struct GalleryInfoIntegrated {
    language_localname: String,
    language: String,
    date: String,
    files: Vec<Files>,
    tags: Vec<Label>,
    japanese_title: Option<String>,
    title: String,
    id: String,
    type_: String,
}

impl DeepView for GalleryInfoIntegrated {
    type V = GalleryRecord;

    closed spec fn deep_view(&self) -> GalleryRecord {
        GalleryRecord {
            language_localname: self.language_localname@,
            language: self.language@,
            date: self.date@,
            files: self.files.deep_view(),
            tags: self.tags.deep_view(),
            japanese_title: self.japanese_title.deep_view(),
            title: self.title@,
            id: self.id@,
            type_: self.type_@,
        }
    }
}

impl View for GalleryInfoIntegrated {
    type V = GalleryRecord;

    open spec fn view(&self) -> GalleryRecord {
        self.deep_view()
    }
}

impl GalleryInfoIntegrated {
    pub fn language_localname(&self) -> (r: String)
        ensures
            r@ == self@.language_localname,
    {
        self.language_localname.clone()
    }

    pub fn language(&self) -> (r: String)
        ensures
            r@ == self@.language,
    {
        self.language.clone()
    }

    pub fn date(&self) -> (r: String)
        ensures
            r@ == self@.date,
    {
        self.date.clone()
    }

    pub fn files(&self) -> (r: Vec<Files>)
        ensures
            r.deep_view() == self@.files,
    {
        self.files.duplicate()
    }

    pub fn tags(&self) -> (r: Vec<Label>)
        ensures
            r.deep_view() == self@.tags,
    {
        self.tags.duplicate()
    }

    /// The Japanese title, where the gallery has one.
    pub fn japanese_title(&self) -> (r: Option<String>)
        ensures
            r.deep_view() == self@.japanese_title,
    {
        duplicate_optional(&self.japanese_title)
    }

    pub fn title(&self) -> (r: String)
        ensures
            r@ == self@.title,
    {
        self.title.clone()
    }

    pub fn id(&self) -> (r: String)
        ensures
            r@ == self@.id,
    {
        self.id.clone()
    }

    pub fn type_(&self) -> (r: String)
        ensures
            r@ == self@.type_,
    {
        self.type_.clone()
    }
}

impl Entity for GalleryInfoIntegrated {
    open spec fn decoded(doc: JsonValue) -> Option<GalleryRecord> {
        if required::<String>(doc, "language_localname"@) is Some
            && required::<String>(doc, "language"@) is Some
            && required::<String>(doc, "date"@) is Some
            && required::<Vec<Files>>(doc, "files"@) is Some
            && required::<Vec<Label>>(doc, "tags"@) is Some
            && optional::<String>(doc, "japanese_title"@) is Some
            && required::<String>(doc, "title"@) is Some
            && required::<String>(doc, "id"@) is Some
            && required::<String>(doc, "type"@) is Some {
            Some(
                GalleryRecord {
                    language_localname: required::<String>(doc, "language_localname"@)->0,
                    language: required::<String>(doc, "language"@)->0,
                    date: required::<String>(doc, "date"@)->0,
                    files: required::<Vec<Files>>(doc, "files"@)->0,
                    tags: required::<Vec<Label>>(doc, "tags"@)->0,
                    japanese_title: optional::<String>(doc, "japanese_title"@)->0,
                    title: required::<String>(doc, "title"@)->0,
                    id: required::<String>(doc, "id"@)->0,
                    type_: required::<String>(doc, "type"@)->0,
                },
            )
        } else {
            None
        }
    }

    open spec fn encoded(v: GalleryRecord) -> JsonValue {
        let members = Map::<Seq<char>, JsonValue>::empty()
            .insert("language_localname"@, String::encoded(v.language_localname))
            .insert("language"@, String::encoded(v.language))
            .insert("date"@, String::encoded(v.date))
            .insert("files"@, Vec::<Files>::encoded(v.files))
            .insert("tags"@, Vec::<Label>::encoded(v.tags))
            .insert("title"@, String::encoded(v.title))
            .insert("id"@, String::encoded(v.id))
            .insert("type"@, String::encoded(v.type_));
        JsonValue::Object(with_optional::<String>(members, "japanese_title"@, v.japanese_title))
    }

    proof fn lemma_round_trip(v: GalleryRecord) {
        // The keys differ from one another: in length, or in the character named here.
        reveal_strlit("language_localname");
        assert("language_localname"@.len() == 18);
        reveal_strlit("language");
        assert("language"@.len() == 8);
        reveal_strlit("date");
        assert("date"@.len() == 4 && "date"@[0] == 'd');
        reveal_strlit("files");
        assert("files"@.len() == 5 && "files"@[0] == 'f');
        reveal_strlit("tags");
        assert("tags"@.len() == 4 && "tags"@[0] == 't' && "tags"@[1] == 'a');
        reveal_strlit("japanese_title");
        assert("japanese_title"@.len() == 14);
        reveal_strlit("title");
        assert("title"@.len() == 5 && "title"@[0] == 't');
        reveal_strlit("id");
        assert("id"@.len() == 2);
        reveal_strlit("type");
        assert("type"@.len() == 4 && "type"@[0] == 't' && "type"@[1] == 'y');
        let doc = Self::encoded(v);
        assert(doc.member("language_localname"@) == Some(String::encoded(v.language_localname)));
        assert(doc.member("language"@) == Some(String::encoded(v.language)));
        assert(doc.member("date"@) == Some(String::encoded(v.date)));
        assert(doc.member("files"@) == Some(Vec::<Files>::encoded(v.files)));
        Vec::<Files>::lemma_round_trip(v.files);
        assert(doc.member("tags"@) == Some(Vec::<Label>::encoded(v.tags)));
        Vec::<Label>::lemma_round_trip(v.tags);
        assert(doc.member("japanese_title"@) == match v.japanese_title {
            Some(text) => Some(JsonValue::Text(text)),
            None => None,
        });
        assert(doc.member("title"@) == Some(String::encoded(v.title)));
        assert(doc.member("id"@) == Some(String::encoded(v.id)));
        assert(doc.member("type"@) == Some(String::encoded(v.type_)));
    }

    fn decode(value: &serde_json::Value) -> (r: Option<Self>) {
        let language_localname = match read_required::<String>(value, "language_localname") {
            Some(x) => x,
            None => return None,
        };
        let language = match read_required::<String>(value, "language") {
            Some(x) => x,
            None => return None,
        };
        let date = match read_required::<String>(value, "date") {
            Some(x) => x,
            None => return None,
        };
        let files = match read_required::<Vec<Files>>(value, "files") {
            Some(x) => x,
            None => return None,
        };
        let tags = match read_required::<Vec<Label>>(value, "tags") {
            Some(x) => x,
            None => return None,
        };
        let japanese_title = match read_optional::<String>(value, "japanese_title") {
            Some(x) => x,
            None => return None,
        };
        let title = match read_required::<String>(value, "title") {
            Some(x) => x,
            None => return None,
        };
        let id = match read_required::<String>(value, "id") {
            Some(x) => x,
            None => return None,
        };
        let type_ = match read_required::<String>(value, "type") {
            Some(x) => x,
            None => return None,
        };
        Some(
            GalleryInfoIntegrated {
                language_localname,
                language,
                date,
                files,
                tags,
                japanese_title,
                title,
                id,
                type_,
            },
        )
    }

    fn encode(&self) -> (r: serde_json::Value) {
        let mut object = empty_object();
        insert_member(
            &mut object,
            String::from_str("language_localname"),
            self.language_localname.encode(),
        );
        insert_member(&mut object, String::from_str("language"), self.language.encode());
        insert_member(&mut object, String::from_str("date"), self.date.encode());
        insert_member(&mut object, String::from_str("files"), self.files.encode());
        insert_member(&mut object, String::from_str("tags"), self.tags.encode());
        insert_member(&mut object, String::from_str("title"), self.title.encode());
        insert_member(&mut object, String::from_str("id"), self.id.encode());
        insert_member(&mut object, String::from_str("type"), self.type_.encode());
        write_optional::<String>(&mut object, "japanese_title", &self.japanese_title);
        object
    }

    fn duplicate(&self) -> (r: Self) {
        GalleryInfoIntegrated {
            language_localname: self.language_localname.clone(),
            language: self.language.clone(),
            date: self.date.clone(),
            files: self.files.duplicate(),
            tags: self.tags.duplicate(),
            japanese_title: duplicate_optional(&self.japanese_title),
            title: self.title.clone(),
            id: self.id.clone(),
            type_: self.type_.clone(),
        }
    }
}

impl Record for GalleryInfoIntegrated {
    open spec fn required_keys() -> Set<Seq<char>> {
        set![
            "language_localname"@, "language"@, "date"@, "files"@, "tags"@, "title"@, "id"@,
            "type"@,
        ]
    }

    proof fn lemma_missing_key(doc: JsonValue, key: Seq<char>) {
    }
}

impl Clone for GalleryInfoIntegrated {
    fn clone(&self) -> (r: Self)
        ensures
            r@ == self@,
    {
        self.duplicate()
    }
}

} // verus!

//! What holds of every reply, stated over the schemas.

use vstd::prelude::*;
use crate::client::decoded_text;
use crate::codec::{decoded_items, Entity, Record};
use crate::endpoint::Endpoint;
use crate::gallery::{Files, GalleryInfo, GalleryReply};
use crate::integrated::{Integrated, IntegratedReply};
use crate::json::{parsed_json, JsonValue};
use crate::listing::{List, ListReply};

verus! {

/// Each flag of a page is the number that the document gives under the flag's
/// key, and it reads as true exactly where that number is not zero.
pub proof fn lemma_flags_follow_the_numbers(doc: JsonValue)
    requires
        Files::decoded(doc) is Some,
    ensures
        ({
            let page = Files::decoded(doc)->0;
            &&& doc.member("haswebp"@) == Some(JsonValue::Integer(page.haswebp as int))
            &&& doc.member("hasavifsmalltn"@) == Some(
                JsonValue::Integer(page.hasavifsmalltn as int),
            )
            &&& doc.member("hasavif"@) == Some(JsonValue::Integer(page.hasavif as int))
            &&& page.has_webp() <==> doc.member("haswebp"@) != Some(JsonValue::Integer(0))
            &&& page.has_avif_small_thumbnail() <==> doc.member("hasavifsmalltn"@) != Some(
                JsonValue::Integer(0),
            )
            &&& page.has_avif() <==> doc.member("hasavif"@) != Some(JsonValue::Integer(0))
        }),
{
}

/// The pages of a gallery are the elements of the document's `files`, each
/// read as a page, in their order.
pub proof fn lemma_gallery_pages(doc: JsonValue, i: int)
    requires
        GalleryInfo::decoded(doc) is Some,
        0 <= i < GalleryInfo::decoded(doc)->0.files.len(),
    ensures
        doc.member("files"@) matches Some(JsonValue::Array(pages)) && pages.len()
            == GalleryInfo::decoded(doc)->0.files.len() && Files::decoded(pages[i]) == Some(
            GalleryInfo::decoded(doc)->0.files[i],
        ),
{
    let pages = doc.member("files"@)->0->Array_0;
    assert(decoded_items::<Files>(pages) is Some);
}

/// In a gallery, a page's AVIF flag is false where the document gives `0` for
/// it and true where it gives any other number; so it is for the other two
/// flags.
pub proof fn lemma_gallery_flags(doc: JsonValue, i: int)
    requires
        GalleryInfo::decoded(doc) is Some,
        0 <= i < GalleryInfo::decoded(doc)->0.files.len(),
    ensures
        ({
            let page = GalleryInfo::decoded(doc)->0.files[i];
            let page_doc = doc.member("files"@)->0->Array_0[i];
            &&& page.has_avif() <==> page_doc.member("hasavif"@) != Some(JsonValue::Integer(0))
            &&& page.has_webp() <==> page_doc.member("haswebp"@) != Some(JsonValue::Integer(0))
            &&& page.has_avif_small_thumbnail() <==> page_doc.member("hasavifsmalltn"@) != Some(
                JsonValue::Integer(0),
            )
        }),
{
    lemma_gallery_pages(doc, i);
    lemma_flags_follow_the_numbers(doc.member("files"@)->0->Array_0[i]);
}

/// A body whose document lacks a key that the schema requires is absent.
pub proof fn lemma_body_without_required_key_is_absent<T: Record>(
    body: Seq<char>,
    key: Seq<char>,
)
    requires
        T::required_keys().contains(key),
        parsed_json(body) matches Some(doc) && doc.member(key) is None,
    ensures
        decoded_text::<T>(body) is None,
{
    T::lemma_missing_key(parsed_json(body)->0, key);
}

/// A gallery without a `status` is absent.
pub proof fn lemma_gallery_needs_status(doc: JsonValue)
    requires
        doc.member("status"@) is None,
    ensures
        GalleryInfo::decoded(doc) is None,
{
    GalleryInfo::lemma_missing_key(doc, "status"@);
}

/// A body that is not JSON is absent, whatever the schema.
pub proof fn lemma_unparsable_body_is_absent<T: Entity>(body: Seq<char>)
    requires
        parsed_json(body) is None,
    ensures
        decoded_text::<T>(body) is None,
{
}

/// A gallery that is written and read back is the gallery it was: every field
/// is as before, and a Japanese title that was absent is absent again.
pub proof fn lemma_written_gallery_reads_back(gallery: GalleryReply)
    ensures
        GalleryInfo::decoded(GalleryInfo::encoded(gallery)) == Some(gallery),
        GalleryInfo::decoded(GalleryInfo::encoded(gallery))->0.japanese_title is None
            <==> gallery.japanese_title is None,
{
    GalleryInfo::lemma_round_trip(gallery);
}

/// A gallery without a Japanese title is written without the key, not with
/// `null` or an empty text under it; a gallery with one is written with the
/// title as a text.
pub proof fn lemma_title_is_written_only_where_present(gallery: GalleryReply)
    ensures
        GalleryInfo::encoded(gallery).member("japanese_title"@) == match gallery.japanese_title {
            Some(title) => Some(JsonValue::Text(title)),
            None => None,
        },
{
    reveal_strlit("status");
    reveal_strlit("language_localname");
    reveal_strlit("language");
    reveal_strlit("date");
    reveal_strlit("files");
    reveal_strlit("tags");
    reveal_strlit("japanese_title");
    reveal_strlit("title");
    reveal_strlit("id");
    reveal_strlit("type");
    assert("japanese_title"@.len() == 14 && "status"@.len() == 6 && "language_localname"@.len()
        == 18 && "language"@.len() == 8 && "date"@.len() == 4 && "files"@.len() == 5
        && "tags"@.len() == 4 && "title"@.len() == 5 && "id"@.len() == 2 && "type"@.len() == 4);
}

/// A page of the listing is asked for under the path of the combined view.
pub proof fn lemma_listing_shares_the_combined_path(number: usize)
    ensures
        Endpoint::List(number).route() == Endpoint::Integrated(number).route(),
{
}

/// What the combined view is written as is no page of the listing: it has no
/// `status` and no `list`.
pub proof fn lemma_combined_reply_is_no_listing(reply: IntegratedReply)
    ensures
        List::decoded(Integrated::encoded(reply)) is None,
{
    reveal_strlit("data");
    reveal_strlit("status");
    assert("data"@.len() == 4 && "status"@.len() == 6);
    List::lemma_missing_key(Integrated::encoded(reply), "status"@);
}

/// What a page of the listing is written as is no combined view: it has no
/// `data`.
pub proof fn lemma_listing_is_no_combined_reply(page: ListReply)
    ensures
        Integrated::decoded(List::encoded(page)) is None,
{
    reveal_strlit("data");
    reveal_strlit("status");
    reveal_strlit("list");
    assert("data"@.len() == 4 && "status"@.len() == 6 && "list"@.len() == 4 && "data"@[0] == 'd'
        && "list"@[0] == 'l');
    Integrated::lemma_missing_key(List::encoded(page), "data"@);
}

/// No document is both a page of the listing and a combined view unless it
/// has the keys of both.
pub proof fn lemma_both_schemas_need_both_shapes(doc: JsonValue)
    requires
        List::decoded(doc) is Some,
        Integrated::decoded(doc) is Some,
    ensures
        doc.member("status"@) is Some,
        doc.member("list"@) is Some,
        doc.member("data"@) is Some,
{
}

} // verus!

//! Reading replies: one function for each request of the service, each
//! against its own schema.

use vstd::prelude::*;
use crate::blob::{base64_decoded, proxy, readable, ProxyBlob};
use crate::codec::Entity;
use crate::gallery::GalleryInfo;
use crate::images::Images;
use crate::integrated::Integrated;
use crate::json::{parse, parsed_json};
use crate::listing::{Info, List};

verus! {

/// What a reply body stands for under the schema of `T`: nothing where the
/// body is not JSON, and nothing where the document is not of that schema.
pub open spec fn decoded_text<T: Entity>(body: Seq<char>) -> Option<T::V> {
    match parsed_json(body) {
        Some(doc) => T::decoded(doc),
        None => None,
    }
}

/// Reads a reply body against the schema of `T`. A body that cannot be read
/// gives `None`, whatever is wrong with it.
pub fn from_text<T: Entity>(body: &str) -> (r: Option<T>)
    ensures
        r.deep_view() == decoded_text::<T>(body@),
{
    match parse(body) {
        Some(value) => T::decode(&value),
        None => None,
    }
}

/// Reads the reply to a request for one gallery.
pub fn galleryinfo(body: &str) -> (r: Option<GalleryInfo>)
    ensures
        r.deep_view() == decoded_text::<GalleryInfo>(body@),
{
    from_text::<GalleryInfo>(body)
}

/// Reads the reply to a request for the images of one gallery.
pub fn images(body: &str) -> (r: Option<Images>)
    ensures
        r.deep_view() == decoded_text::<Images>(body@),
{
    from_text::<Images>(body)
}

/// Reads the reply to a request for the index: the identifiers of the
/// galleries, latest first.
pub fn index(body: &str) -> (r: Option<Vec<usize>>)
    ensures
        r.deep_view() == decoded_text::<Vec<usize>>(body@),
{
    from_text::<Vec<usize>>(body)
}

/// Reads the reply to a request for the listing view of one gallery.
pub fn info(body: &str) -> (r: Option<Info>)
    ensures
        r.deep_view() == decoded_text::<Info>(body@),
{
    from_text::<Info>(body)
}

/// Reads the reply to a request for the combined view of one gallery.
pub fn integrated(body: &str) -> (r: Option<Integrated>)
    ensures
        r.deep_view() == decoded_text::<Integrated>(body@),
{
    from_text::<Integrated>(body)
}

/// Reads the reply to a request for a page of the listing. The service is
/// asked for a page under the path of the combined view; where it answers with
/// a combined view, which has another shape, this is `None`.
pub fn list(body: &str) -> (r: Option<List>)
    ensures
        r.deep_view() == decoded_text::<List>(body@),
{
    from_text::<List>(body)
}

/// The request did not bring a reply body.
pub struct TransportError {
    pub message: String,
}

/// Why a request to the proxy brought no image.
pub enum ProxyError {
    /// The request did not bring a reply body.
    Transport(TransportError),
    /// The reply body is not an image in base64.
    Undecodable,
}

/// What a caller gets for a request whose reply is JSON. A request that
/// failed stays a failure; a body that cannot be read is `Ok(None)`.
pub fn reply<T: Entity>(fetched: Result<String, TransportError>) -> (r: Result<
    Option<T>,
    TransportError,
>)
    ensures
        match fetched {
            Ok(body) => r matches Ok(value) && value.deep_view() == decoded_text::<T>(body@),
            Err(error) => r == Err::<Option<T>, TransportError>(error),
        },
{
    match fetched {
        Ok(body) => Ok(from_text::<T>(body.as_str())),
        Err(error) => Err(error),
    }
}

/// What a caller gets for a request to the proxy. Here a body that cannot be
/// read is a failure too.
pub fn proxy_reply(fetched: Result<String, TransportError>) -> (r: Result<ProxyBlob, ProxyError>)
    ensures
        match fetched {
            Ok(body) => if readable(body@) {
                r matches Ok(blob) && Some(blob@) == base64_decoded(body@)
            } else {
                r == Err::<ProxyBlob, ProxyError>(ProxyError::Undecodable)
            },
            Err(error) => r == Err::<ProxyBlob, ProxyError>(ProxyError::Transport(error)),
        },
{
    match fetched {
        Ok(body) => match proxy(body.as_str()) {
            Ok(blob) => Ok(blob),
            Err(_) => Err(ProxyError::Undecodable),
        },
        Err(error) => Err(ProxyError::Transport(error)),
    }
}

} // verus!

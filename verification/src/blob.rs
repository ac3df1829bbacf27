//! The image proxy: its reply is the image as base64 text.

use vstd::prelude::*;

verus! {

/// The bytes that `blob::Blob::from_str` reads from a text in the standard
/// base64 alphabet with padding, or nothing where it reports an error.
pub uninterp spec fn base64_decoded(text: Seq<char>) -> Option<Seq<u8>>;

/// `<blob::Blob as std::str::FromStr>::from_str`, then `blob::Blob::into_vec`.
/// The result depends on the text alone. The bound keeps the decoder's first
/// estimate of the output, four times the length of the text in bytes, inside
/// `usize`.
#[verifier::external_body]
pub(crate) fn decode_base64(text: &str) -> (r: Option<Vec<u8>>)
    requires
        text.len() <= usize::MAX / 4,
    ensures
        match r {
            Some(bytes) => base64_decoded(text@) == Some(bytes@),
            None => base64_decoded(text@) is None,
        },
{
    match <blob::Blob as std::str::FromStr>::from_str(text) {
        Ok(bytes) => Some(bytes.into_vec()),
        Err(_) => None,
    }
}

/// An image as the proxy delivered it.
pub struct ProxyBlob {
    bytes: Vec<u8>,
}

impl View for ProxyBlob {
    type V = Seq<u8>;

    closed spec fn view(&self) -> Seq<u8> {
        self.bytes@
    }
}

impl ProxyBlob {
    /// The blob that holds the given bytes.
    pub fn from_vec(bytes: Vec<u8>) -> (r: ProxyBlob)
        ensures
            r@ == bytes@,
    {
        ProxyBlob { bytes }
    }

    /// The number of bytes.
    pub fn len(&self) -> (r: usize)
        ensures
            r == self@.len(),
    {
        self.bytes.len()
    }

    /// A copy of the bytes.
    pub fn bytes(&self) -> (r: Vec<u8>)
        ensures
            r@ == self@,
    {
        let mut out: Vec<u8> = Vec::new();
        let mut i: usize = 0;
        while i < self.bytes.len()
            invariant
                i <= self.bytes.len(),
                out@ == self.bytes@.subrange(0, i as int),
            decreases self.bytes.len() - i,
        {
            out.push(self.bytes[i]);
            assert(out@ =~= self.bytes@.subrange(0, i + 1));
            i += 1;
        }
        assert(out@ =~= self.bytes@);
        out
    }

    /// The bytes themselves.
    pub fn into_vec(self) -> (r: Vec<u8>)
        ensures
            r@ == self@,
    {
        self.bytes
    }
}

/// Whether the proxy's reply can be read: in bytes it is no longer than the
/// decoder can take, and it is base64 text.
pub open spec fn readable(body: Seq<char>) -> bool {
    byte_len(body) <= usize::MAX / 4 && base64_decoded(body) is Some
}

/// The length of a text in bytes, as `str::len` gives it.
pub open spec fn byte_len(text: Seq<char>) -> usize {
    vstd::utf8::encode_utf8(text).len() as usize
}

/// The reply of the proxy could not be read as an image.
pub struct Undecodable;

/// Reads the image out of a decoding of the proxy's reply: `None` stands for a
/// reply that the decoder refused.
pub fn blob_of(decoded: Option<Vec<u8>>) -> (r: Result<ProxyBlob, Undecodable>)
    ensures
        match decoded {
            Some(bytes) => r matches Ok(blob) && blob@ == bytes@,
            None => r is Err,
        },
{
    match decoded {
        Some(bytes) => Ok(ProxyBlob::from_vec(bytes)),
        None => Err(Undecodable),
    }
}

/// Reads the image out of the proxy's reply.
pub fn proxy(body: &str) -> (r: Result<ProxyBlob, Undecodable>)
    ensures
        r is Ok <==> readable(body@),
        r matches Ok(blob) ==> Some(blob@) == base64_decoded(body@),
{
    if body.len() > usize::MAX / 4 {
        return Err(Undecodable);
    }
    blob_of(decode_base64(body))
}

} // verus!

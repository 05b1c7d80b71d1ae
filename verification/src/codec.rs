//! Base64, and the size of an image from its bytes. Both are the work of
//! other crates. The three functions that call them are not verified: each is
//! one call, with a contract that gives the call's result a name.

use vstd::prelude::*;

verus! {

/// The bytes that a text encodes in base64 with the standard alphabet and
/// padding, or `None` where the text is no such encoding.
pub uninterp spec fn base64_decoded(text: Seq<char>) -> Option<Seq<u8>>;

/// The base64 encoding of bytes with the standard alphabet and padding.
pub uninterp spec fn base64_encoded(data: Seq<u8>) -> Seq<char>;

/// Width and height in pixels that the header of image data declares, or
/// `None` where no supported header is found.
pub uninterp spec fn blob_dimensions(data: Seq<u8>) -> Option<(usize, usize)>;

/// Calls `base64::decode` and drops the error. Not proved: the result is
/// taken to depend on the text alone, and is given the name `base64_decoded`.
#[verifier::external_body]
#[allow(deprecated)]
pub(crate) fn decode_base64(text: &str) -> (r: Option<Vec<u8>>)
    ensures
        match r {
            Some(data) => base64_decoded(text@) == Some(data@),
            None => base64_decoded(text@) is None,
        },
{
    base64::decode(text).ok()
}

/// Calls `Engine::encode` of base64's `STANDARD` engine. Not proved: the
/// result is taken to depend on the bytes alone, and is given the name
/// `base64_encoded`. The call fails where the length of the encoding exceeds
/// `usize`, so such data is left out.
#[verifier::external_body]
pub(crate) fn encode_base64(data: &[u8]) -> (r: String)
    requires
        (data@.len() / 3 + 1) * 4 <= usize::MAX,
    ensures
        r@ == base64_encoded(data@),
{
    base64::Engine::encode(&base64::engine::general_purpose::STANDARD, data)
}

/// Calls `imagesize::blob_size` and drops the error. Not proved: the result
/// is taken to depend on the bytes alone, and is given the name
/// `blob_dimensions`.
#[verifier::external_body]
pub(crate) fn probe_blob(data: &[u8]) -> (r: Option<(usize, usize)>)
    ensures
        r == blob_dimensions(data@),
{
    match imagesize::blob_size(data) {
        Ok(size) => Some((size.width, size.height)),
        Err(_) => None,
    }
}

/// Width and height of an image whose data could not be read.
pub const FALLBACK_IMAGE_EXTENT: i32 = 100;

/// The size that an image is given from what a probe of its data found: the
/// probed width and height, each cut to 32 bits, or 100 by 100 where the probe
/// found nothing.
pub open spec fn size_of_probe(probe: Option<(usize, usize)>) -> (i32, i32) {
    match probe {
        Some((width, height)) => (width as i32, height as i32),
        None => (FALLBACK_IMAGE_EXTENT, FALLBACK_IMAGE_EXTENT),
    }
}

/// The size that an image with the given data gets.
pub open spec fn image_size(data: Seq<u8>) -> (i32, i32) {
    size_of_probe(blob_dimensions(data))
}

/// The bytes that a base64 text stands for: none where it cannot be decoded.
pub open spec fn decoded_or_empty(text: Seq<char>) -> Seq<u8> {
    match base64_decoded(text) {
        Some(data) => data,
        None => Seq::empty(),
    }
}

/// The size that an image is given from what a probe of its data found, and
/// whether the probe failed, so that the caller can report it.
pub fn size_from_probe(probe: Option<(usize, usize)>) -> (r: ((i32, i32), bool))
    ensures
        r.0 == size_of_probe(probe),
        r.1 == probe is None,
{
    match probe {
        Some((width, height)) => {
            let w: i32 = #[verifier::truncate]
            (width as i32);
            let h: i32 = #[verifier::truncate]
            (height as i32);
            ((w, h), false)
        },
        None => ((FALLBACK_IMAGE_EXTENT, FALLBACK_IMAGE_EXTENT), true),
    }
}

/// Probes image data for its size. Data without a supported header gets 100
/// by 100, and the flag says so.
pub fn probe_image_size(data: &[u8]) -> (r: ((i32, i32), bool))
    ensures
        r.0 == image_size(data@),
        r.1 == blob_dimensions(data@) is None,
{
    size_from_probe(probe_blob(data))
}

/// The bytes of a decoding: none where there was nothing to decode.
pub fn bytes_or_empty(decoded: Option<Vec<u8>>) -> (data: Vec<u8>)
    ensures
        data@ == match decoded {
            Some(d) => d@,
            None => Seq::<u8>::empty(),
        },
{
    match decoded {
        Some(data) => data,
        None => Vec::new(),
    }
}

/// Decodes base64 text; text that is no base64 gives no bytes.
pub fn decode_or_empty(text: &str) -> (data: Vec<u8>)
    ensures
        data@ == decoded_or_empty(text@),
{
    bytes_or_empty(decode_base64(text))
}

} // verus!

//! Base64 handling for inline image payloads: encoding fetched bytes before
//! they enter a request, and decoding the payload recovered from a response.
//! The byte-level alphabet lives in the base64 crate; this module pins down
//! how the library uses it and proves the encode/decode round trip.

use vstd::prelude::*;
use vstd::string::*;

use base64::Engine;

use crate::error::{McpError, McpResult};

verus! {

/// The canonical padded base64 text of a byte sequence, as base64's
/// standard engine produces it.
pub uninterp spec fn base64_encoding(bytes: Seq<u8>) -> Seq<char>;

/// Any image, fetched or local, is refused above this many bytes.
pub const MAX_IMAGE_BYTES: usize = 20 * 1024 * 1024;

/// Relies on base64's standard engine `encode`: the canonical padded base64
/// rendering of the bytes, a function of the bytes alone.
#[verifier::external_body]
fn b64_encode(bytes: &[u8]) -> (r: String)
    ensures
        r@ == base64_encoding(bytes@),
{
    base64::engine::general_purpose::STANDARD.encode(bytes)
}

/// Relies on base64's standard engine `decode`, which requires canonical
/// padding: decoding the encoding of any byte sequence yields exactly those
/// bytes; text that decodes improperly is reported as `None`.
#[verifier::external_body]
fn b64_decode(text: &str) -> (r: Option<Vec<u8>>)
    ensures
        match r {
            Some(v) => forall|orig: Seq<u8>| text@ == #[trigger] base64_encoding(orig) ==> v@
                == orig,
            None => forall|orig: Seq<u8>| text@ != #[trigger] base64_encoding(orig),
        },
{
    match base64::engine::general_purpose::STANDARD.decode(text) {
        Ok(v) => Some(v),
        Err(_) => None,
    }
}

/// Encoding raw bytes to base64 and decoding the result reproduces the
/// original bytes exactly.
pub fn base64_round_trip(bytes: &Vec<u8>) -> (r: Vec<u8>)
    ensures
        r@ == bytes@,
{
    let text: String = b64_encode(bytes.as_slice());
    let decoded: Option<Vec<u8>> = b64_decode(text.as_str());
    match decoded {
        Some(v) => v,
        None => {
            proof {
                assert(text@ == base64_encoding(bytes@));
                assert(false);
            }
            Vec::new()
        },
    }
}

/// Pairs fetched image bytes with their MIME type as an inline payload:
/// refuses empty and oversized images, and otherwise hands back the MIME
/// type unchanged together with the base64 text of the bytes.
pub fn encode_image_bytes(mime_type: String, bytes: &Vec<u8>) -> (r: McpResult<(String, String)>)
    ensures
        match r {
            Ok(p) => 0 < bytes@.len() <= MAX_IMAGE_BYTES && p.0 == mime_type && p.1@
                == base64_encoding(bytes@),
            Err(e) => e matches McpError::InvalidInput(m) && ((bytes@.len() == 0 && m@
                == "Image file is empty"@) || (bytes@.len() > MAX_IMAGE_BYTES && m@
                == "Image file too large (max 20MB)"@)),
        },
{
    if bytes.len() == 0 {
        return Err(McpError::InvalidInput("Image file is empty".to_owned()));
    }
    if bytes.len() > MAX_IMAGE_BYTES {
        return Err(McpError::InvalidInput("Image file too large (max 20MB)".to_owned()));
    }
    let encoded: String = b64_encode(bytes.as_slice());
    Ok((mime_type, encoded))
}

/// Decodes a base64 image payload recovered from a response. On the
/// encoding of any byte sequence this returns exactly those bytes; corrupt
/// text is reported as a distinct decoding error, never truncated.
pub fn decode_image_data(data: &str) -> (r: McpResult<Vec<u8>>)
    ensures
        forall|orig: Seq<u8>| data@ == #[trigger] base64_encoding(orig) ==> (r matches Ok(v) && v@
            == orig),
        r matches Err(e) ==> e matches McpError::Base64Error(m) && m@
            == "Invalid base64 image data"@,
{
    match b64_decode(data) {
        Some(v) => Ok(v),
        None => Err(McpError::Base64Error("Invalid base64 image data".to_owned())),
    }
}

} // verus!

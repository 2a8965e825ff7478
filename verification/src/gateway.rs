//! Decisions around the transfer layer, on plain values: classifying an
//! HTTP status, choosing a MIME type from a probe's content-type header,
//! enforcing the size ceiling before and after a download, and admitting a
//! local file from its metadata. The transfers themselves stay outside the
//! library and hand these functions what they saw.

use vstd::prelude::*;
use vstd::string::*;

use crate::codec::MAX_IMAGE_BYTES;
use crate::error::{McpError, McpResult};
use crate::text::{is_blank, starts_with, str_is_blank, str_starts_with};
use crate::validation::{get_mime_type_from_extension, mime_for};

verus! {

pub open spec fn status_success(status: u16) -> bool {
    200 <= status < 300
}

/// Whether an HTTP status is a success, as the 2xx class.
pub fn is_success_status(status: u16) -> (r: bool)
    ensures
        r == status_success(status),
{
    200 <= status && status < 300
}

/// Classifies a non-success HTTP status, in priority order: 401 is an
/// authentication failure, 429 a rate limit, and any other status carries
/// its code and the response body upstream unchanged.
pub fn classify_http_failure(status: u16, body: String) -> (r: McpError)
    ensures
        status == 401 ==> (r matches McpError::AuthenticationError(m) && m@
            == "Invalid API key"@),
        status == 429 ==> (r matches McpError::RateLimitError(m) && m@
            == "Gemini API rate limit exceeded"@),
        status != 401 && status != 429 ==> (r matches McpError::GeminiApiError {
            code,
            message,
        } && code == status as i64 && message == body),
{
    if status == 401 {
        McpError::AuthenticationError("Invalid API key".to_owned())
    } else if status == 429 {
        McpError::RateLimitError("Gemini API rate limit exceeded".to_owned())
    } else {
        McpError::GeminiApiError { code: status as i64, message: body }
    }
}

/// The MIME type to use for a fetched URL: a declared content-type that is
/// an image type wins; anything else falls back to guessing from the URL's
/// extension.
pub open spec fn mime_choice(content_type: Option<String>, url: Seq<char>) -> Seq<char> {
    match content_type {
        Some(h) => if starts_with(h@, "image/"@) {
            h@
        } else {
            mime_for(url)
        },
        None => mime_for(url),
    }
}

pub fn choose_mime_type(content_type: &Option<String>, url: &str) -> (r: String)
    ensures
        r@ == mime_choice(*content_type, url@),
{
    match content_type {
        Some(h) => {
            if str_starts_with(h.as_str(), "image/") {
                h.clone()
            } else {
                get_mime_type_from_extension(url)
            }
        },
        None => get_mime_type_from_extension(url),
    }
}

/// Enforces the size ceiling on a server-declared content length before
/// the body is downloaded.
pub fn check_content_length(length: u64) -> (r: McpResult<()>)
    ensures
        match r {
            Ok(_) => length <= MAX_IMAGE_BYTES as u64,
            Err(e) => length > MAX_IMAGE_BYTES as u64 && (e matches McpError::InvalidInput(m)
                && m@ == "Image too large (max 20MB)"@),
        },
{
    if length > (MAX_IMAGE_BYTES as u64) {
        return Err(McpError::InvalidInput("Image too large (max 20MB)".to_owned()));
    }
    Ok(())
}

/// Admits a local image file from its observed metadata: it must exist, be
/// a regular file and fit the size ceiling; on success the MIME type is
/// derived from the path's extension alone.
pub fn check_local_file(path: &String, exists: bool, regular: bool, size: u64) -> (r: McpResult<
    String,
>)
    ensures
        match r {
            Ok(m) => exists && regular && size <= MAX_IMAGE_BYTES as u64 && m@ == mime_for(path@),
            Err(e) => match e {
                McpError::FileSystemError(msg) => (!exists && msg@ == "File not found: "@ + path@)
                    || (exists && !regular && msg@ == "Path is not a file: "@ + path@),
                McpError::InvalidInput(msg) => exists && regular && size > MAX_IMAGE_BYTES as u64
                    && msg@ == "Image file too large (max 20MB)"@,
                _ => false,
            },
        },
{
    if !exists {
        return Err(
            McpError::FileSystemError(String::from_str("File not found: ").concat(path.as_str())),
        );
    }
    if !regular {
        return Err(
            McpError::FileSystemError(
                String::from_str("Path is not a file: ").concat(path.as_str()),
            ),
        );
    }
    if size > (MAX_IMAGE_BYTES as u64) {
        return Err(McpError::InvalidInput("Image file too large (max 20MB)".to_owned()));
    }
    Ok(get_mime_type_from_extension(path.as_str()))
}

/// Classifies a failure of the transport itself, before any status was
/// read: a timeout is kept distinct from every other network failure.
pub fn classify_transport_error(timed_out: bool, detail: String) -> (r: McpError)
    ensures
        timed_out ==> (r matches McpError::Timeout(m) && m@ == "Request timeout: "@ + detail@),
        !timed_out ==> r == McpError::NetworkError(detail),
{
    if timed_out {
        McpError::Timeout(String::from_str("Request timeout: ").concat(detail.as_str()))
    } else {
        McpError::NetworkError(detail)
    }
}

/// Admits the configured credential: a blank key is refused at client
/// construction, before any request is attempted.
pub fn check_api_key(key: &String) -> (r: McpResult<()>)
    ensures
        match r {
            Ok(_) => !is_blank(key@),
            Err(e) => is_blank(key@) && (e matches McpError::AuthenticationError(m) && m@
                == "API key is empty"@),
        },
{
    if str_is_blank(key.as_str()) {
        return Err(McpError::AuthenticationError("API key is empty".to_owned()));
    }
    Ok(())
}

} // verus!

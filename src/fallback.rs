//! Answer for a request that no route matched: a static file of the site, or not found.
use vstd::prelude::*;

verus! {

/// HTTP status of a successful response.
pub const STATUS_OK: u16 = 200;

/// HTTP status of a not-found response.
pub const STATUS_NOT_FOUND: u16 = 404;

/// How an unmatched request is answered.
#[derive(Copy, Clone, Debug, PartialEq, Eq, Structural)]
pub enum FallbackResponse {
    /// Send the static file that was found.
    StaticFile,
    /// Answer with this status and the text "Not found".
    NotFound(u16),
}

/// Answers an unmatched request from the status the static file service gave to a plain fetch of
/// the path: the file only when it answered with success (200); any other answer, or none,
/// means not found (404).
pub fn fallback_response(static_status: Option<u16>) -> (r: FallbackResponse)
    ensures
        static_status == Some(STATUS_OK) ==> r == FallbackResponse::StaticFile,
        static_status != Some(STATUS_OK) ==> r == FallbackResponse::NotFound(STATUS_NOT_FOUND),
{
    match static_status {
        Some(s) => if s == STATUS_OK {
            FallbackResponse::StaticFile
        } else {
            FallbackResponse::NotFound(STATUS_NOT_FOUND)
        },
        None => FallbackResponse::NotFound(STATUS_NOT_FOUND),
    }
}

} // verus!

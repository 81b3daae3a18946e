//! HTTP status codes.
use vstd::prelude::*;

verus! {

/// The reason phrase that `hyper::StatusCode::canonical_reason` gives for a
/// status code, where the code has one.
pub uninterp spec fn reason_phrase(code: u16) -> Option<Seq<char>>;

/// A status code that `hyper::StatusCode` can hold.
pub open spec fn is_status(code: u16) -> bool {
    100 <= code <= 999
}

/// Calls `hyper::StatusCode::canonical_reason` on the status `code`; the
/// result is named `reason_phrase`.
#[verifier::external_body]
pub fn canonical_reason(code: u16) -> (r: Option<&'static str>)
    requires
        is_status(code),
    ensures
        r matches Some(s) ==> reason_phrase(code) == Some(s@),
        r is None ==> reason_phrase(code) is None,
{
    hyper::StatusCode::from_u16(code).ok().and_then(|c| c.canonical_reason())
}

pub const OK: u16 = 200;
pub const BAD_REQUEST: u16 = 400;
pub const FORBIDDEN: u16 = 403;
pub const NOT_FOUND: u16 = 404;
pub const CONFLICT: u16 = 409;
pub const INTERNAL_SERVER_ERROR: u16 = 500;

} // verus!

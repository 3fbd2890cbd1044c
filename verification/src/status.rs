use vstd::prelude::*;

verus! {

/// 200 OK
pub const OK: u16 = 200;
/// 400 Bad Request
pub const BAD_REQUEST: u16 = 400;
/// 401 Unauthorized
pub const UNAUTHORIZED: u16 = 401;
/// 403 Forbidden
pub const FORBIDDEN: u16 = 403;
/// 404 Not Found
pub const NOT_FOUND: u16 = 404;
/// 422 Unprocessable Entity
pub const UNPROCESSABLE_ENTITY: u16 = 422;
/// 500 Internal Server Error
pub const INTERNAL_SERVER_ERROR: u16 = 500;
/// 501 Not Implemented
pub const NOT_IMPLEMENTED: u16 = 501;

/// The reason phrase that the `httpstatus` crate attaches to the numeric
/// status code `code` (its table of registered codes; the empty text for a
/// code that it does not know).
pub uninterp spec fn reason_phrase_of(code: u16) -> Seq<char>;

/// The phrases that `httpstatus` gives the codes that this library answers
/// with; `None` for every other code.
pub open spec fn known_reason(code: u16) -> Option<Seq<char>> {
    if code == OK {
        Some("OK"@)
    } else if code == BAD_REQUEST {
        Some("Bad Request"@)
    } else if code == UNAUTHORIZED {
        Some("Unauthorized"@)
    } else if code == FORBIDDEN {
        Some("Forbidden"@)
    } else if code == NOT_FOUND {
        Some("Not Found"@)
    } else if code == UNPROCESSABLE_ENTITY {
        Some("Unprocessable Entity"@)
    } else if code == INTERNAL_SERVER_ERROR {
        Some("Internal Server Error"@)
    } else if code == NOT_IMPLEMENTED {
        Some("Not Implemented"@)
    } else {
        None
    }
}

/// Calls `httpstatus::StatusCode::from(code).reason_phrase()`.
/// Claimed: the result is the crate's phrase for `code`; for the codes of
/// `known_reason` it is the phrase listed there (the crate's source holds
/// these literals in its `reason_phrase` table).
#[verifier::external_body]
pub(crate) fn reason_phrase(code: u16) -> (r: String)
    ensures
        r@ == reason_phrase_of(code),
        known_reason(code) matches Some(p) ==> r@ == p,
{
    httpstatus::StatusCode::from(code).reason_phrase().to_string()
}

} // verus!

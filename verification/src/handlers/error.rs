//! The bodies of the responses for requests that no endpoint serves.

use vstd::prelude::*;

verus! {

/// The body answered to a malformed request (status 400).
pub fn bad_request() -> (r: &'static str)
    ensures
        r@ == "bad request"@,
{
    "bad request"
}

/// The body answered to a request without valid credentials (status 401).
pub fn unauthorised() -> (r: &'static str)
    ensures
        r@ == "unauthorised"@,
{
    "unauthorised"
}

/// The body answered to a request for an unknown path (status 404).
pub fn not_found() -> (r: &'static str)
    ensures
        r@ == "not found"@,
{
    "not found"
}

/// The body answered when serving a request failed (status 500).
pub fn internal_error() -> (r: &'static str)
    ensures
        r@ == "server error, check console"@,
{
    "server error, check console"
}

} // verus!

//! Requests authorised by a signature of their method and path.

use vstd::prelude::*;
use crate::config::Config;
use crate::text::{push_char, push_str};
use super::lib::{check_sig, signature_accepted};

verus! {

/// Proof that a request was signed by the administrator.
pub struct Auth {}

/// The text a request's signature covers: its method and its path.
pub open spec fn request_text(method: Seq<char>, path: Seq<char>) -> Seq<char> {
    method + seq![' '] + path
}

/// The text a request's signature covers.
pub fn request_to_sign(method: &str, path: &str) -> (r: String)
    ensures
        r@ == request_text(method@, path@),
{
    let mut s = String::new();
    push_str(&mut s, method);
    push_char(&mut s, ' ');
    push_str(&mut s, path);
    assert(s@ =~= request_text(method@, path@));
    s
}

impl Auth {
    /// Authorises the request with the method `method` and the path `path`
    /// that carries `api_key` in its `x-api-key` header, if any: it is
    /// authorised exactly when the key is the administrator's signature of
    /// the method and path; otherwise it is refused as unauthorised.
    pub fn from_request(config: &Config, method: &str, path: &str, api_key: Option<&str>) -> (r: Option<Auth>)
        ensures
            r is Some <==> (api_key matches Some(k)
                && signature_accepted(config.admin@, k@, request_text(method@, path@))),
    {
        let text = request_to_sign(method, path);
        match api_key {
            None => None,
            Some(key) => if check_sig(&config.admin, key, text.as_str()) {
                Some(Auth {})
            } else {
                None
            },
        }
    }
}

} // verus!

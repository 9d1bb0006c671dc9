//! Request bodies authorised by a signature of the request and the body's
//! SHA-256 digest.

use vstd::prelude::*;
use vstd::utf8::encode_utf8;
use crate::config::Config;
use crate::text::{push_char, push_str};
use super::lib::{check_sig, signature_accepted};

verus! {

/// The lowercase hexadecimal SHA-256 digest of `data`.
pub uninterp spec fn sha256_hex(data: Seq<u8>) -> Seq<char>;

/// The SHA-256 digest of `data`, in lowercase hexadecimal.
///
/// Calls `sha256::digest`; the contract names the result (`sha256_hex`).
#[verifier::external_body]
fn sha256_digest(data: &[u8]) -> (r: String)
    ensures
        r@ == sha256_hex(data@),
{
    sha256::digest(data)
}

/// A request body whose signature was checked.
pub struct SignedPayload<T> {
    pub inner: T,
}

/// The text the signature of a request with a body covers: the method, the
/// path and the digest of the body.
pub open spec fn payload_text(method: Seq<char>, path: Seq<char>, payload: Seq<char>) -> Seq<char> {
    method + seq![' '] + path + seq![' '] + sha256_hex(encode_utf8(payload))
}

/// The text the signature of a request with a body covers.
pub fn payload_to_sign(method: &str, path: &str, payload: &str) -> (r: String)
    ensures
        r@ == payload_text(method@, path@, payload@),
{
    let digest = sha256_digest(payload.as_bytes());
    let mut s = String::new();
    push_str(&mut s, method);
    push_char(&mut s, ' ');
    push_str(&mut s, path);
    push_char(&mut s, ' ');
    push_str(&mut s, digest.as_str());
    assert(s@ =~= payload_text(method@, path@, payload@));
    s
}

impl<T> SignedPayload<T> {
    /// Whether the request with the method `method`, the path `path` and the
    /// body `payload` that carries `api_key` in its `x-api-key` header, if
    /// any, is signed by the administrator.
    pub fn accepted(config: &Config, method: &str, path: &str, payload: &str, api_key: Option<&str>) -> (r: bool)
        ensures
            r <==> (api_key matches Some(k)
                && signature_accepted(config.admin@, k@, payload_text(method@, path@, payload@))),
    {
        let text = payload_to_sign(method, path, payload);
        match api_key {
            None => false,
            Some(key) => check_sig(&config.admin, key, text.as_str()),
        }
    }

    /// The body, once its signature was accepted.
    pub fn new(inner: T) -> (r: Self)
        ensures
            r.inner == inner,
    {
        SignedPayload { inner }
    }
}

} // verus!

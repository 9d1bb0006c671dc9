//! Checking an Ed25519 signature given in base58.

use vstd::prelude::*;
use vstd::utf8::encode_utf8;

verus! {

/// The 64 bytes of the signature that the base58 text `s` denotes, when it
/// denotes one.
pub uninterp spec fn signature_from_base58(s: Seq<char>) -> Option<Seq<u8>>;

/// The signature `sig` of `message` verifies against the public key
/// `pubkey` under Ed25519.
pub uninterp spec fn ed25519_verifies(sig: Seq<u8>, pubkey: Seq<u8>, message: Seq<u8>) -> bool;

/// Reads a signature from its base58 text.
///
/// Calls `solana_signature::Signature::from_str` and takes the signature's
/// bytes; the contract names the result (`signature_from_base58`): `None`
/// exactly when the text is rejected.
#[verifier::external_body]
fn parse_signature(s: &str) -> (r: Option<[u8; 64]>)
    ensures
        match r {
            Some(b) => signature_from_base58(s@) == Some(b@),
            None => signature_from_base58(s@) is None,
        },
{
    match <solana_signature::Signature as std::str::FromStr>::from_str(s) {
        Ok(sig) => Some(*sig.as_array()),
        Err(_) => None,
    }
}

/// Verifies a signature.
///
/// Calls `solana_signature::Signature::verify`, which is false when the key
/// is not a valid Ed25519 key or the signature does not verify; the contract
/// names the result (`ed25519_verifies`).
#[verifier::external_body]
fn verify_signature(sig: &[u8; 64], pubkey: &[u8; 32], message: &[u8]) -> (r: bool)
    ensures
        r == ed25519_verifies(sig@, pubkey@, message@),
{
    solana_signature::Signature::from(*sig).verify(pubkey, message)
}

/// The base58 text `sig` is a signature of the UTF-8 bytes of `message` by
/// the key `pubkey`.
pub open spec fn signature_accepted(pubkey: Seq<u8>, sig: Seq<char>, message: Seq<char>) -> bool {
    match signature_from_base58(sig) {
        Some(b) => ed25519_verifies(b, pubkey, encode_utf8(message)),
        None => false,
    }
}

/// Whether `sig` is a valid signature of `str_to_sign` by `pubkey`.
pub fn check_sig(pubkey: &[u8; 32], sig: &str, str_to_sign: &str) -> (r: bool)
    ensures
        r == signature_accepted(pubkey@, sig@, str_to_sign@),
{
    match parse_signature(sig) {
        Some(b) => verify_signature(&b, pubkey, str_to_sign.as_bytes()),
        None => false,
    }
}

} // verus!

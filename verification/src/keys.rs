//! Solana public keys in their text form (base58).

use vstd::prelude::*;

verus! {

/// The key that the base58 text `s` denotes, when it denotes one.
pub uninterp spec fn pubkey_from_base58(s: Seq<char>) -> Option<Seq<u8>>;

/// The base58 text of the key `k`.
pub uninterp spec fn pubkey_base58(k: Seq<u8>) -> Seq<char>;

/// Reads a public key from its base58 text.
///
/// Calls `solana_pubkey::Pubkey::from_str` and takes the key's bytes; the
/// contract names the result (`pubkey_from_base58`): `None` exactly when the
/// text is rejected, and otherwise the 32 bytes of the key.
#[verifier::external_body]
pub(crate) fn parse_pubkey(s: &str) -> (r: Option<[u8; 32]>)
    ensures
        match r {
            Some(k) => pubkey_from_base58(s@) == Some(k@),
            None => pubkey_from_base58(s@) is None,
        },
{
    match <solana_pubkey::Pubkey as std::str::FromStr>::from_str(s) {
        Ok(k) => Some(k.to_bytes()),
        Err(_) => None,
    }
}

/// The base58 text of a public key.
///
/// Calls the `Display` of `solana_pubkey::Pubkey`; the contract names the
/// result (`pubkey_base58`).
#[verifier::external_body]
pub(crate) fn pubkey_to_string(k: &[u8; 32]) -> (r: String)
    ensures
        r@ == pubkey_base58(k@),
{
    solana_pubkey::Pubkey::new_from_array(*k).to_string()
}

/// Whether two keys are the same.
pub fn same_key(a: &[u8; 32], b: &[u8; 32]) -> (r: bool)
    ensures
        r == (a@ == b@),
{
    let mut i: usize = 0;
    while i < 32
        invariant
            i <= 32,
            a@.len() == 32,
            b@.len() == 32,
            forall|k: int| 0 <= k < i ==> a@[k] == b@[k],
        decreases 32 - i,
    {
        if a[i] != b[i] {
            return false;
        }
        i = i + 1;
    }
    assert(a@ =~= b@);
    true
}

} // verus!

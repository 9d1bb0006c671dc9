//! The monitor's settings.

use vstd::prelude::*;
use crate::keys::{parse_pubkey, pubkey_from_base58};
use crate::text::push_str;

verus! {

/// The key files of the validator's two identities.
pub struct KeysConfig {
    pub primary: String,
    pub secondary: String,
}

/// How to reach a Firedancer validator: its `fdctl` program and its
/// configuration file.
pub struct FiredancerConfig {
    pub fdctl: String,
    pub config_path: String,
}

/// The monitor's configuration file.
pub struct ValidatorConfigInner {
    pub vote_account: String,
    pub ledger_dir: String,
    pub keys: KeysConfig,
    pub firedancer: Option<FiredancerConfig>,
}

/// The monitor's settings: the validator's primary identity and vote
/// account, its ledger, its key files, and how to reach Firedancer when the
/// validator is one.
pub struct ValidatorConfig {
    pub primary_id: [u8; 32],
    pub vote_id: [u8; 32],
    pub ledger_dir: String,
    pub keys: KeysConfig,
    pub firedancer: Option<FiredancerConfig>,
}

impl ValidatorConfig {
    /// The settings of the configuration file `inner` for the validator whose
    /// primary identity is `primary_id`; `None` when the vote account is not
    /// a valid key.
    pub fn new(inner: ValidatorConfigInner, primary_id: [u8; 32]) -> (r: Option<ValidatorConfig>)
        ensures
            r is Some <==> pubkey_from_base58(inner.vote_account@) is Some,
            r matches Some(c) ==> {
                &&& c.primary_id == primary_id
                &&& pubkey_from_base58(inner.vote_account@) == Some(c.vote_id@)
                &&& c.ledger_dir == inner.ledger_dir
                &&& c.keys == inner.keys
                &&& c.firedancer == inner.firedancer
            },
    {
        match parse_pubkey(inner.vote_account.as_str()) {
            Some(vote_id) => Some(ValidatorConfig {
                primary_id,
                vote_id,
                ledger_dir: inner.ledger_dir,
                keys: inner.keys,
                firedancer: inner.firedancer,
            }),
            None => None,
        }
    }
}

/// The URL of the validator's RPC service at the address `addr`.
pub fn rpc_url(addr: &str) -> (r: String)
    ensures
        r@ == "http://"@ + addr@,
{
    let mut url = "http://".to_owned();
    push_str(&mut url, addr);
    url
}

} // verus!

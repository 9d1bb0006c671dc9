//! The settings of the monitor's HTTP service.

use vstd::prelude::*;
use crate::keys::{parse_pubkey, pubkey_from_base58};
use crate::text::{push_dec, dec};

verus! {

/// The key files of the validator's two identities.
pub struct KeysConfig {
    pub primary: String,
    pub secondary: String,
}

/// The service's configuration file: the port of the validator's RPC
/// service, the vote account, the ledger, the key files and the key of the
/// administrator whose signatures the service accepts.
pub struct ConfigInner {
    pub rpc_port: u16,
    pub vote_account: String,
    pub ledger_dir: String,
    pub keys: KeysConfig,
    pub admin: String,
}

/// The service's settings.
pub struct Config {
    pub primary_id: [u8; 32],
    pub vote_id: [u8; 32],
    pub admin: [u8; 32],
    pub ledger_dir: String,
    pub keys: KeysConfig,
}

/// The URL of the validator's RPC service on this machine at `port`.
pub open spec fn local_rpc_url(port: u16) -> Seq<char> {
    "http://127.0.0.1:"@ + dec(port as nat)
}

/// The URL of the validator's RPC service on this machine at `port`.
pub fn rpc_url(port: u16) -> (r: String)
    ensures
        r@ == local_rpc_url(port),
{
    let mut url = "http://127.0.0.1:".to_owned();
    push_dec(&mut url, port as u128);
    url
}

impl Config {
    /// The settings of the configuration file `inner` for the validator whose
    /// primary identity is `primary_id`; `None` when the vote account or the
    /// administrator's key is not a valid key.
    pub fn new(inner: ConfigInner, primary_id: [u8; 32]) -> (r: Option<Config>)
        ensures
            r is Some <==> (pubkey_from_base58(inner.vote_account@) is Some
                && pubkey_from_base58(inner.admin@) is Some),
            r matches Some(c) ==> {
                &&& c.primary_id == primary_id
                &&& pubkey_from_base58(inner.vote_account@) == Some(c.vote_id@)
                &&& pubkey_from_base58(inner.admin@) == Some(c.admin@)
                &&& c.ledger_dir == inner.ledger_dir
                &&& c.keys == inner.keys
            },
    {
        let vote = parse_pubkey(inner.vote_account.as_str());
        let admin = parse_pubkey(inner.admin.as_str());
        match (vote, admin) {
            (Some(vote_id), Some(admin)) => Some(Config {
                primary_id,
                vote_id,
                admin,
                ledger_dir: inner.ledger_dir,
                keys: inner.keys,
            }),
            _ => None,
        }
    }
}

} // verus!

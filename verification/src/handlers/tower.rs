//! The `/tower` endpoints: handing the validator's vote tower from the node
//! that votes to the node that takes over.

use vstd::prelude::*;
use crate::config::Config;
use crate::json::{JsonObject, Member, insert_member, object_text, json_quoted};
use crate::keys::{pubkey_to_string, pubkey_base58, same_key};
use crate::responder::{ApiResponder, is_error_reply, is_empty_success};
use crate::text::push_str;

verus! {

/// The base64 text of `data` (standard alphabet, no padding).
pub uninterp spec fn base64_encoded(data: Seq<u8>) -> Seq<char>;

/// The bytes the base64 text `text` decodes to (standard alphabet, no
/// padding), when it is valid.
pub uninterp spec fn base64_decoded(text: Seq<char>) -> Option<Seq<u8>>;

/// Encodes bytes in base64.
///
/// Calls `base64::prelude::BASE64_STANDARD_NO_PAD.encode`; the contract names
/// the result (`base64_encoded`) and states that decoding gives the bytes
/// back, as the crate's round-trip tests check.
#[verifier::external_body]
fn encode_base64(data: &[u8]) -> (r: String)
    requires
        data@.len() <= usize::MAX / 2,
    ensures
        r@ == base64_encoded(data@),
        base64_decoded(r@) == Some(data@),
{
    base64::Engine::encode(&base64::prelude::BASE64_STANDARD_NO_PAD, data)
}

/// Decodes base64 text.
///
/// Calls `base64::prelude::BASE64_STANDARD_NO_PAD.decode`; the contract
/// names the result (`base64_decoded`): `None` exactly when the text is
/// rejected.
#[verifier::external_body]
fn decode_base64(text: &str) -> (r: Option<Vec<u8>>)
    ensures
        match r {
            Some(b) => base64_decoded(text@) == Some(b@),
            None => base64_decoded(text@) is None,
        },
{
    match base64::Engine::decode(&base64::prelude::BASE64_STANDARD_NO_PAD, text) {
        Ok(b) => Some(b),
        Err(_) => None,
    }
}

/// The body of a request to post a tower: the tower file in base64.
pub struct PostTower {
    tower: String,
}

impl View for PostTower {
    type V = Seq<char>;

    /// The tower file in base64.
    closed spec fn view(&self) -> Seq<char> {
        self.tower@
    }
}

impl PostTower {
    /// The body carrying `tower`.
    pub fn new(tower: String) -> (r: Self)
        ensures
            r@ == tower@,
    {
        PostTower { tower }
    }

    /// The tower file in base64.
    pub fn tower(&self) -> (r: &String)
        ensures
            r@ == self@,
    {
        &self.tower
    }

    /// The JSON text of the body: `{"tower":...}`.
    pub fn to_json(&self) -> (r: String)
        ensures
            r@ == object_text(insert_member(Seq::empty(), "tower"@, json_quoted(self@))),
    {
        let mut o = JsonObject::new();
        o.insert_str("tower", self.tower.as_str());
        o.render()
    }
}

/// The path of the tower file of the identity `id` in the ledger `ledger_dir`.
pub open spec fn tower_file(ledger_dir: Seq<char>, id: Seq<u8>) -> Seq<char> {
    ledger_dir + "/tower-1_9-"@ + pubkey_base58(id) + ".bin"@
}

/// The path of the tower file of the validator's primary identity.
pub fn tower_path(config: &Config) -> (r: String)
    ensures
        r@ == tower_file(config.ledger_dir@, config.primary_id@),
{
    let mut p = config.ledger_dir.clone();
    push_str(&mut p, "/tower-1_9-");
    let id = pubkey_to_string(&config.primary_id);
    push_str(&mut p, id.as_str());
    push_str(&mut p, ".bin");
    p
}

/// The answer to `GET /tower` given the tower file's bytes: a success
/// carrying `{"tower": ...}` with the bytes in base64, under `tower`.
pub fn get(tower: &Vec<u8>) -> (r: ApiResponder)
    requires
        tower@.len() <= usize::MAX / 2,
    ensures
        r.success,
        r.message is None,
        r.field_name@ == "tower"@,
        r.inner matches Some(t)
            && t@ == insert_member(Seq::empty(), "tower"@, json_quoted(base64_encoded(tower@))),
        base64_decoded(base64_encoded(tower@)) == Some(tower@),
{
    let text = encode_base64(tower.as_slice());
    let mut o = JsonObject::new();
    o.insert_str("tower", text.as_str());
    ApiResponder::success(Some(o), "tower".to_owned())
}

/// A tower to write: the file and its bytes, and the answer once written.
pub struct TowerWrite {
    pub path: String,
    pub bytes: Vec<u8>,
    pub reply: ApiResponder,
}

/// What `POST /tower` does on the node whose running identity is `node_id`:
/// it refuses to overwrite the tower of the identity it votes with, and
/// refuses text that is not base64; otherwise it writes the decoded bytes to
/// the primary identity's tower file and answers with a success.
pub fn post(config: &Config, node_id: &[u8; 32], tower: &PostTower) -> (r: Result<TowerWrite, ApiResponder>)
    ensures
        node_id@ == config.primary_id@ ==> (r matches Err(a)
            && is_error_reply(a, "Refused to override my own tower"@)),
        r matches Ok(w) ==> tower_written(*config, node_id@, tower@) == Some(w.bytes@),
        node_id@ != config.primary_id@ ==> match base64_decoded(tower@) {
            None => r matches Err(a) && is_error_reply(a, "Invalid base64"@),
            Some(b) => r matches Ok(w) && w.bytes@ == b
                && w.path@ == tower_file(config.ledger_dir@, config.primary_id@)
                && is_empty_success(w.reply),
        },
{
    if same_key(node_id, &config.primary_id) {
        return Err(ApiResponder::error("Refused to override my own tower".to_owned()));
    }
    let path = tower_path(config);
    match decode_base64(tower.tower.as_str()) {
        None => Err(ApiResponder::error("Invalid base64".to_owned())),
        Some(bytes) => Ok(TowerWrite { path, bytes, reply: ApiResponder::success_empty() }),
    }
}

/// What posting the tower text `text` writes on the node whose running
/// identity is `node_id`: the decoded bytes, or nothing when the node votes
/// with its primary identity or the text is not base64.
pub open spec fn tower_written(config: Config, node_id: Seq<u8>, text: Seq<char>) -> Option<Seq<u8>> {
    if node_id == config.primary_id@ {
        None
    } else {
        base64_decoded(text)
    }
}

/// The tower that one node serves is what another node writes when it is
/// posted there: when `get` has served the bytes `bytes` (which establishes
/// that their base64 text decodes back to them), posting that text to a node
/// that does not vote with its primary identity writes exactly those bytes.
pub proof fn law_tower_round_trip(bytes: Seq<u8>, config: Config, node_id: Seq<u8>)
    requires
        base64_decoded(base64_encoded(bytes)) == Some(bytes),
        node_id != config.primary_id@,
    ensures
        tower_written(config, node_id, base64_encoded(bytes)) == Some(bytes),
{
}

} // verus!

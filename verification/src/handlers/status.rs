//! The `/status` endpoint: what a validator node reports about itself.

use vstd::prelude::*;
use crate::json::{JsonObject, Member, insert_member, object_text, json_quoted, number_text};
use crate::responder::ApiResponder;

verus! {

/// What a node reports: where it runs, how far its ledger has got, which
/// identity it votes with and how long it has been up.
pub struct Status {
    pub hostname: String,
    pub slot: u64,
    pub identity: String,
    pub version: String,
    pub identity_balance: u64,
    pub genesis_hash: String,
    pub uptime_ms: u64,
}

/// The name of the machine this program runs on.
///
/// Calls `hostname::get` and converts the name to a `String`; `None` when
/// the system gives no name or the name is not valid Unicode. Nothing is
/// stated of the name itself: it comes from the system.
#[verifier::external_body]
fn local_hostname() -> (r: Option<String>)
{
    match hostname::get() {
        Ok(name) => name.into_string().ok(),
        Err(_) => None,
    }
}

/// `s` is the placeholder status of a node at `hostname` whose identity is
/// the marker `marker`: no slot, version, balance, genesis hash or uptime.
pub open spec fn is_placeholder(s: Status, hostname: Seq<char>, marker: Seq<char>) -> bool {
    &&& s.hostname@ == hostname
    &&& s.slot == 0
    &&& s.identity@ == marker
    &&& s.version@ == Seq::<char>::empty()
    &&& s.identity_balance == 0
    &&& s.genesis_hash@ == Seq::<char>::empty()
    &&& s.uptime_ms == 0
}

/// The members of the JSON object of a status with the given fields,
/// ordered by key.
pub open spec fn fields_members(
    hostname: Seq<char>,
    slot: nat,
    identity: Seq<char>,
    version: Seq<char>,
    identity_balance: nat,
    genesis_hash: Seq<char>,
    uptime_ms: nat,
) -> Seq<Member> {
    let m = insert_member(Seq::empty(), "hostname"@, json_quoted(hostname));
    let m = insert_member(m, "slot"@, number_text(slot));
    let m = insert_member(m, "identity"@, json_quoted(identity));
    let m = insert_member(m, "version"@, json_quoted(version));
    let m = insert_member(m, "identity_balance"@, number_text(identity_balance));
    let m = insert_member(m, "genesis_hash"@, json_quoted(genesis_hash));
    insert_member(m, "uptime_ms"@, number_text(uptime_ms))
}

/// The members of the JSON object of a status, ordered by key.
pub open spec fn status_members(s: Status) -> Seq<Member> {
    fields_members(
        s.hostname@,
        s.slot as nat,
        s.identity@,
        s.version@,
        s.identity_balance as nat,
        s.genesis_hash@,
        s.uptime_ms as nat,
    )
}

impl Status {
    /// The status of an unreachable node, reported from the machine `hostname`.
    pub fn unreachable_for(hostname: String) -> (s: Status)
        ensures
            is_placeholder(s, hostname@, "(unreachable)"@),
    {
        Status {
            hostname,
            slot: 0,
            identity: "(unreachable)".to_owned(),
            version: String::new(),
            identity_balance: 0,
            genesis_hash: String::new(),
            uptime_ms: 0,
        }
    }

    /// The status of a node whose validator is not running, reported from
    /// the machine `hostname`.
    pub fn not_running_for(hostname: String) -> (s: Status)
        ensures
            is_placeholder(s, hostname@, "(not running)"@),
    {
        Status {
            hostname,
            slot: 0,
            identity: "(not running)".to_owned(),
            version: String::new(),
            identity_balance: 0,
            genesis_hash: String::new(),
            uptime_ms: 0,
        }
    }

    /// The status of an unreachable node, reported from this machine; `None`
    /// when this machine's name cannot be had.
    pub fn unreachable() -> (r: Option<Status>)
        ensures
            r matches Some(s) ==> s.slot == 0 && s.identity@ == "(unreachable)"@
                && s.version@ == Seq::<char>::empty() && s.identity_balance == 0
                && s.genesis_hash@ == Seq::<char>::empty() && s.uptime_ms == 0,
    {
        match local_hostname() {
            Some(h) => Some(Status::unreachable_for(h)),
            None => None,
        }
    }

    /// The status of a node whose validator is not running, reported from
    /// this machine; `None` when this machine's name cannot be had.
    pub fn not_running() -> (r: Option<Status>)
        ensures
            r matches Some(s) ==> s.slot == 0 && s.identity@ == "(not running)"@
                && s.version@ == Seq::<char>::empty() && s.identity_balance == 0
                && s.genesis_hash@ == Seq::<char>::empty() && s.uptime_ms == 0,
    {
        match local_hostname() {
            Some(h) => Some(Status::not_running_for(h)),
            None => None,
        }
    }

    /// The JSON text of the status: an object with a member per field.
    pub fn to_json(&self) -> (r: String)
        ensures
            r@ == object_text(status_members(*self)),
    {
        self.to_object().render()
    }

    /// The status as a JSON object with a member per field.
    pub fn to_object(&self) -> (o: JsonObject)
        ensures
            o@ == status_members(*self),
    {
        let mut o = JsonObject::new();
        o.insert_str("hostname", self.hostname.as_str());
        o.insert_number("slot", self.slot);
        o.insert_str("identity", self.identity.as_str());
        o.insert_str("version", self.version.as_str());
        o.insert_number("identity_balance", self.identity_balance);
        o.insert_str("genesis_hash", self.genesis_hash.as_str());
        o.insert_number("uptime_ms", self.uptime_ms);
        o
    }
}

/// What the node's RPC service answered, each `None` when its request failed:
/// the slot, the identity, the software version and the genesis hash as text,
/// and the identity's balance in lamports.
pub struct NodeReadings {
    pub slot: Option<u64>,
    pub identity: Option<String>,
    pub version: Option<String>,
    pub identity_balance: Option<u64>,
    pub genesis_hash: Option<String>,
}

/// All of the node's RPC requests succeeded.
pub open spec fn readings_complete(r: NodeReadings) -> bool {
    &&& r.slot is Some
    &&& r.identity is Some
    &&& r.version is Some
    &&& r.identity_balance is Some
    &&& r.genesis_hash is Some
}

/// The JSON members of the status that `/status` reports from the machine
/// `hostname`: the readings when all of them came, else those of an
/// unreachable node.
pub open spec fn reported_members(hostname: Seq<char>, r: NodeReadings, uptime_ms: u64) -> Seq<Member> {
    if readings_complete(r) {
        fields_members(
            hostname,
            r.slot->0 as nat,
            r.identity->0@,
            r.version->0@,
            r.identity_balance->0 as nat,
            r.genesis_hash->0@,
            uptime_ms as nat,
        )
    } else {
        fields_members(hostname, 0, "(unreachable)"@, Seq::empty(), 0, Seq::empty(), 0)
    }
}

/// The answer to `/status` on the machine `hostname`: a success carrying the
/// reported status under `status`.
pub fn respond(hostname: String, readings: NodeReadings, uptime_ms: u64) -> (r: ApiResponder)
    ensures
        r.success,
        r.message is None,
        r.field_name@ == "status"@,
        r.inner matches Some(t) && t@ == reported_members(hostname@, readings, uptime_ms),
{
    let ghost h = hostname@;
    let ghost rd = readings;
    let status = if readings.slot.is_some() && readings.identity.is_some() && readings.version.is_some()
        && readings.identity_balance.is_some() && readings.genesis_hash.is_some() {
        Status {
            hostname,
            slot: readings.slot.unwrap(),
            identity: readings.identity.unwrap(),
            version: readings.version.unwrap(),
            identity_balance: readings.identity_balance.unwrap(),
            genesis_hash: readings.genesis_hash.unwrap(),
            uptime_ms,
        }
    } else {
        Status::unreachable_for(hostname)
    };
    let object = status.to_object();
    assert(status_members(status) == reported_members(h, rd, uptime_ms));
    ApiResponder::success(Some(object), "status".to_owned())
}

/// The answer to `/status` on this machine; `None` when this machine's name
/// cannot be had.
pub fn get(readings: NodeReadings, uptime_ms: u64) -> (r: Option<ApiResponder>)
    ensures
        r matches Some(a) ==> a.success && a.message is None && a.field_name@ == "status"@
            && (a.inner matches Some(t) && exists|h: Seq<char>|
                t@ == #[trigger] reported_members(h, readings, uptime_ms)),
{
    match local_hostname() {
        Some(h) => Some(respond(h, readings, uptime_ms)),
        None => None,
    }
}


/// A node is reported as running only when all five of its readings came: if
/// the slot, the identity, the version, the balance or the genesis hash could
/// not be read, the report is the unreachable placeholder (no slot, version,
/// balance, genesis hash or uptime); when all came, the report carries them
/// and the uptime.
pub proof fn law_status_needs_every_reading(hostname: Seq<char>, r: NodeReadings, uptime_ms: u64)
    ensures
        r.slot is None || r.identity is None || r.version is None || r.identity_balance is None
            || r.genesis_hash is None ==> reported_members(hostname, r, uptime_ms)
            == fields_members(hostname, 0, "(unreachable)"@, Seq::empty(), 0, Seq::empty(), 0),
        r.slot is Some && r.identity is Some && r.version is Some && r.identity_balance is Some
            && r.genesis_hash is Some ==> reported_members(hostname, r, uptime_ms) == fields_members(hostname,
                r.slot->0 as nat, r.identity->0@, r.version->0@, r.identity_balance->0 as nat,
                r.genesis_hash->0@, uptime_ms as nat),
{
}

} // verus!

//! Addressing a node's monitor from the sentry, and reading its replies.

use vstd::prelude::*;
use crate::text::push_str;
use crate::handlers::status::{Status, is_placeholder};
use crate::handlers::set_identity::{SetIdentity, IdentityVariant, variant_name};
use crate::handlers::tower::PostTower;
use crate::json::{insert_member, object_text, json_quoted};

verus! {

/// A node's monitor, known by its base URL.
pub struct SentryClient {
    host: String,
}

impl View for SentryClient {
    type V = Seq<char>;

    /// The monitor's base URL.
    closed spec fn view(&self) -> Seq<char> {
        self.host@
    }
}

impl SentryClient {
    /// The monitor at `host`.
    pub fn new(host: String) -> (r: Self)
        ensures
            r@ == host@,
    {
        SentryClient { host }
    }

    /// The monitor's base URL.
    pub fn host(&self) -> (r: &String)
        ensures
            r@ == self@,
    {
        &self.host
    }

    /// The URL of the endpoint `path` (which starts with a slash).
    pub fn endpoint(&self, path: &str) -> (r: String)
        ensures
            r@ == self@ + path@,
    {
        let mut url = self.host.clone();
        push_str(&mut url, path);
        url
    }
}

/// A request with a JSON body.
pub struct JsonPost {
    pub url: String,
    pub body: String,
}

impl SentryClient {
    /// The URL to ask for the node's status.
    pub fn status_url(&self) -> (r: String)
        ensures
            r@ == self@ + "/status"@,
    {
        self.endpoint("/status")
    }

    /// The URL to ask for the node's tower.
    pub fn tower_url(&self) -> (r: String)
        ensures
            r@ == self@ + "/tower"@,
    {
        self.endpoint("/tower")
    }

    /// The node's status from its monitor's reply: the status it sent, with
    /// the host it was asked at; or, when there was no usable reply, the
    /// status of an unreachable node at that host. `None` when this
    /// machine's name cannot be had.
    pub fn get_status(&self, reply: Option<Status>) -> (r: Option<Status>)
        ensures
            reply is Some ==> r is Some,
            r matches Some(s) ==> match reply {
                Some(got) => s.hostname@ == self@ && s.slot == got.slot && s.identity == got.identity
                    && s.version == got.version && s.identity_balance == got.identity_balance
                    && s.genesis_hash == got.genesis_hash && s.uptime_ms == got.uptime_ms,
                None => is_placeholder(s, self@, "(unreachable)"@),
            },
    {
        let got = match reply {
            Some(s) => s,
            None => match Status::unreachable() {
                Some(s) => s,
                None => {
                    return None;
                },
            },
        };
        Some(Status { hostname: self.host.clone(), ..got })
    }

    /// The request that posts `tower` (base64) to the node.
    pub fn post_tower(&self, tower: String) -> (r: JsonPost)
        ensures
            r.url@ == self@ + "/tower"@,
            r.body@ == object_text(insert_member(Seq::empty(), "tower"@, json_quoted(tower@))),
    {
        let body = PostTower::new(tower).to_json();
        JsonPost { url: self.endpoint("/tower"), body }
    }

    /// The request that asks the node to take the identity `identity`.
    pub fn set_identity(&self, identity: IdentityVariant) -> (r: JsonPost)
        ensures
            r.url@ == self@ + "/set_identity"@,
            r.body@ == object_text(insert_member(Seq::empty(), "identity"@, json_quoted(variant_name(identity)))),
    {
        let body = SetIdentity { identity }.to_json();
        JsonPost { url: self.endpoint("/set_identity"), body }
    }
}

} // verus!

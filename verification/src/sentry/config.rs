//! The sentry's settings and where its notifications go.

use vstd::prelude::*;
use crate::text::{push_char, push_str, push_dec_signed, dec_signed};
use crate::webhook::{Webhook, WebhookRequest, RequestBody, discord::{Discord, discord_body}, telegram::{Telegram, send_message_url}};

verus! {

/// The certificate and key files the sentry identifies itself with.
pub struct PkiConfig {
    pub cert: String,
    pub key: String,
}

/// The thresholds of the health checks: the identity balance (lamports)
/// below which it is low, and the number of slots a node or vote may lag
/// before it is unhealthy.
pub struct SentryChecks {
    pub identity_balance: u64,
    pub unhealthy_threshold: u64,
}

/// The sentry's configuration file.
pub struct SentryConfigInner {
    pub nodes: Vec<String>,
    pub auth: PkiConfig,
    pub external_rpc: String,
    pub vote_id: String,
    pub checks: SentryChecks,
    pub discord: Option<Discord>,
    pub telegram: Option<Telegram>,
}

/// The sentry's settings: the nodes it watches, the RPC service it checks
/// them against, the vote account, the checks and the notification targets.
pub struct SentryConfig {
    pub nodes: Vec<String>,
    pub external_rpc: String,
    pub vote_id: String,
    pub checks: SentryChecks,
    pub discord: Option<Discord>,
    pub telegram: Option<Telegram>,
}

/// The line the sentry logs for a notification sent at `timestamp` (seconds
/// since the epoch).
pub open spec fn log_line_text(timestamp: int, message: Seq<char>) -> Seq<char> {
    seq!['['] + dec_signed(timestamp) + seq![']', ' '] + message
}

impl SentryConfig {
    /// The settings of the configuration file `inner`; its certificate and
    /// key are left to whoever opens the connections.
    pub fn new(inner: SentryConfigInner) -> (r: SentryConfig)
        ensures
            r.nodes == inner.nodes,
            r.external_rpc == inner.external_rpc,
            r.vote_id == inner.vote_id,
            r.checks == inner.checks,
            r.discord == inner.discord,
            r.telegram == inner.telegram,
    {
        SentryConfig {
            nodes: inner.nodes,
            external_rpc: inner.external_rpc,
            vote_id: inner.vote_id,
            checks: inner.checks,
            discord: inner.discord,
            telegram: inner.telegram,
        }
    }

    /// The requests that deliver `message`: to Discord first, then to
    /// Telegram, each when it is configured.
    pub fn webhook_requests(&self, message: &String) -> (r: Vec<WebhookRequest>)
        ensures
            r@.len() == (if self.discord is Some { 1int } else { 0 }) + (if self.telegram is Some { 1int } else { 0 }),
            self.discord matches Some(d) ==> r@[0].url@ == d@
                && (r@[0].body matches RequestBody::Json(b) && b@ == discord_body(message@)),
            self.telegram matches Some(t) ==> {
                let i = if self.discord is Some { 1int } else { 0 };
                &&& r@[i].url@ == send_message_url(t@.0)
                &&& (r@[i].body matches RequestBody::Form(f) && f@.len() == 2
                    && f@[0].0@ == "chat_id"@ && f@[0].1@ == t@.1
                    && f@[1].0@ == "text"@ && f@[1].1@ == message@)
            },
    {
        let mut r: Vec<WebhookRequest> = Vec::new();
        match &self.discord {
            Some(d) => r.push(d.message_request(message)),
            None => {},
        }
        match &self.telegram {
            Some(t) => r.push(t.message_request(message)),
            None => {},
        }
        r
    }

    /// The line logged for `message` sent at `timestamp`.
    pub fn log_line(timestamp: i64, message: &String) -> (r: String)
        ensures
            r@ == log_line_text(timestamp as int, message@),
    {
        let mut s = String::new();
        push_char(&mut s, '[');
        push_dec_signed(&mut s, timestamp);
        push_char(&mut s, ']');
        push_char(&mut s, ' ');
        push_str(&mut s, message.as_str());
        assert(s@ =~= log_line_text(timestamp as int, message@));
        s
    }
}

} // verus!

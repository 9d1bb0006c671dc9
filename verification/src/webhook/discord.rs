//! Notifications through a Discord webhook.

use vstd::prelude::*;
use crate::text::{push_str};
use super::{Webhook, WebhookRequest, RequestBody};

verus! {

/// A Discord webhook, known by its URL.
pub struct Discord {
    webhook_url: String,
}

impl View for Discord {
    type V = Seq<char>;

    /// The webhook's URL.
    closed spec fn view(&self) -> Seq<char> {
        self.webhook_url@
    }
}

/// The body that posts `message`: the message put as it is between the quotes
/// of a `content` member.
pub open spec fn discord_body(message: Seq<char>) -> Seq<char> {
    "{\"content\": \""@ + message + "\"}"@
}

impl Discord {
    /// The webhook at `webhook_url`.
    pub fn new(webhook_url: String) -> (r: Self)
        ensures
            r@ == webhook_url@,
    {
        Self { webhook_url }
    }

    /// The webhook's URL.
    pub fn webhook_url(&self) -> (r: &String)
        ensures
            r@ == self@,
    {
        &self.webhook_url
    }
}

impl Webhook for Discord {
    /// A JSON post of the message to the webhook's URL.
    fn message_request(&self, message: &String) -> (r: WebhookRequest)
        ensures
            r.url@ == self@,
            r.body matches RequestBody::Json(b) && b@ == discord_body(message@),
    {
        let mut body = "{\"content\": \"".to_owned();
        push_str(&mut body, message.as_str());
        push_str(&mut body, "\"}");
        WebhookRequest { url: self.webhook_url.clone(), body: RequestBody::Json(body) }
    }
}

} // verus!

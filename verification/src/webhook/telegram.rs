//! Notifications through a Telegram bot.

use vstd::prelude::*;
use crate::text::{push_str};
use super::{Webhook, WebhookRequest, RequestBody};

verus! {

/// A Telegram bot, known by its token, and the chat it writes to.
pub struct Telegram {
    token: String,
    chat_id: String,
}

impl View for Telegram {
    type V = (Seq<char>, Seq<char>);

    /// The bot's token and the chat's id.
    closed spec fn view(&self) -> (Seq<char>, Seq<char>) {
        (self.token@, self.chat_id@)
    }
}

/// The URL of the bot API's `sendMessage` method for the bot `token`.
pub open spec fn send_message_url(token: Seq<char>) -> Seq<char> {
    "https://api.telegram.org/bot"@ + token + "/sendMessage"@
}

impl Telegram {
    /// The bot `token`, writing to the chat `chat_id`.
    pub fn new(token: String, chat_id: String) -> (r: Self)
        ensures
            r@ == (token@, chat_id@),
    {
        Self { token, chat_id }
    }

    /// The bot's token.
    pub fn token(&self) -> (r: &String)
        ensures
            r@ == self@.0,
    {
        &self.token
    }

    /// The chat's id.
    pub fn chat_id(&self) -> (r: &String)
        ensures
            r@ == self@.1,
    {
        &self.chat_id
    }
}

impl Webhook for Telegram {
    /// A form post of the chat id and the message text to `sendMessage`.
    fn message_request(&self, message: &String) -> (r: WebhookRequest)
        ensures
            r.url@ == send_message_url(self@.0),
            r.body matches RequestBody::Form(fields) && fields@.len() == 2
                && fields@[0].0@ == "chat_id"@ && fields@[0].1@ == self@.1
                && fields@[1].0@ == "text"@ && fields@[1].1@ == message@,
    {
        let mut url = "https://api.telegram.org/bot".to_owned();
        push_str(&mut url, self.token.as_str());
        push_str(&mut url, "/sendMessage");
        let mut fields: Vec<(String, String)> = Vec::new();
        fields.push(("chat_id".to_owned(), self.chat_id.clone()));
        fields.push(("text".to_owned(), message.clone()));
        WebhookRequest { url, body: RequestBody::Form(fields) }
    }
}

} // verus!

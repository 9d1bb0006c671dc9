//! Notifications sent to chat services: the request that delivers a message,
//! and what the service's reply means.

pub mod discord;
pub mod telegram;

use vstd::prelude::*;
use crate::text::push_str;

verus! {

/// The body of an HTTP POST request.
pub enum RequestBody {
    /// A body sent verbatim with the content type `application/json`.
    Json(String),
    /// Form fields, sent URL-encoded.
    Form(Vec<(String, String)>),
}

/// An HTTP POST request that delivers a notification.
pub struct WebhookRequest {
    pub url: String,
    pub body: RequestBody,
}

/// A service that messages can be posted to.
pub trait Webhook {
    /// The request that posts `message` to the service.
    fn message_request(&self, message: &String) -> WebhookRequest;
}

/// How a delivery request went: the service answered, with a success status
/// or not (the status as text), or the request could not be made (the error
/// as text).
pub enum DeliveryReply {
    Answered { success: bool, status: String },
    Failed(String),
}

/// What a delivery comes to: `Ok` when the service answered with a success
/// status, else an error that says why.
pub open spec fn delivery_result(reply: DeliveryReply) -> Result<(), Seq<char>> {
    match reply {
        DeliveryReply::Answered { success, status } => if success {
            Ok(())
        } else {
            Err("Failed to send message: "@ + status@)
        },
        DeliveryReply::Failed(e) => Err("Error sending message: "@ + e@),
    }
}

/// What a delivery comes to.
pub fn delivery_outcome(reply: DeliveryReply) -> (r: Result<(), String>)
    ensures
        match (r, delivery_result(reply)) {
            (Ok(()), Ok(())) => true,
            (Err(e), Err(t)) => e@ == t,
            _ => false,
        },
{
    match reply {
        DeliveryReply::Answered { success, status } => {
            if success {
                Ok(())
            } else {
                let mut e = "Failed to send message: ".to_owned();
                push_str(&mut e, status.as_str());
                Err(e)
            }
        },
        DeliveryReply::Failed(err) => {
            let mut e = "Error sending message: ".to_owned();
            push_str(&mut e, err.as_str());
            Err(e)
        },
    }
}

} // verus!

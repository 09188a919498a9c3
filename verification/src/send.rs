//! Sending a message: one request handed to a transport, and the reply
//! turned into the result.

use crate::error::SendError;
use crate::json::{json_rendered, Json};
use crate::message::{Message, MessageView};
use crate::response::{body_concludes, MessageResponse};
use crate::transport::{api_url, messages_url, Reply, Request, CONTENT_TYPE};
use vstd::prelude::*;

verus! {

/// Whether `request` is the POST that sends `body`: to the URL for
/// messages, as JSON.
pub open spec fn posts(request: Request, body: Seq<char>) -> bool {
    &&& request.url@ == messages_url()
    &&& request.content_type@ == CONTENT_TYPE@
    &&& request.body@ == body
}

/// Whether `outcome` is what the answer of the transport means: its failure
/// is handed on with the reason it gave, its reply is read.
pub open spec fn reply_concludes(
    reply: Result<Reply, String>,
    outcome: Result<MessageResponse, SendError>,
) -> bool {
    match reply {
        Ok(reply) => body_concludes(reply.body@, reply.status, outcome),
        Err(reason) => outcome matches Err(SendError::Transport(text)) && text@ == reason@,
    }
}

/// Whether `outcome` is a result of sending `message` over `transport`. A
/// message that cannot be written as JSON is not sent. Any other is posted
/// in one request, and the outcome is what the answer to it means.
pub open spec fn delivered<T: FnOnce(Request) -> Result<Reply, String>>(
    message: MessageView,
    transport: T,
    outcome: Result<MessageResponse, SendError>,
) -> bool {
    match json_rendered(Json::Object(message.wire())) {
        None => outcome is Err && outcome->Err_0 is Encode,
        Some(body) => exists|request: Request, reply: Result<Reply, String>|
            posts(request, body) && #[trigger] transport.ensures((request,), reply)
                && reply_concludes(reply, outcome),
    }
}

/// Whether `transport` takes every POST of JSON to the URL for messages.
pub open spec fn accepts_messages<T: FnOnce(Request) -> Result<Reply, String>>(
    transport: T,
) -> bool {
    forall|request: Request|
        request.url@ == messages_url() && request.content_type@ == CONTENT_TYPE@
            ==> #[trigger] transport.requires((request,))
}

/// Over a transport that can answer in one way only, a message that can be
/// written as JSON ends as that answer says.
pub proof fn lemma_sent_over_fixed_reply<T: FnOnce(Request) -> Result<Reply, String>>(
    message: MessageView,
    transport: T,
    reply: Result<Reply, String>,
    outcome: Result<MessageResponse, SendError>,
)
    requires
        delivered(message, transport, outcome),
        json_rendered(Json::Object(message.wire())) is Some,
        forall|request: Request, answer: Result<Reply, String>| #[trigger]
            transport.ensures((request,), answer) ==> answer == reply,
    ensures
        reply_concludes(reply, outcome),
{
}

impl Message {
    /// The request that sends this message.
    pub fn request(&self) -> (request: Result<Request, SendError>)
        ensures
            match request {
                Ok(r) => json_rendered(Json::Object(self@.wire())) matches Some(body) && posts(
                    r,
                    body,
                ),
                Err(e) => e is Encode && json_rendered(Json::Object(self@.wire())) is None,
            },
    {
        match self.to_json() {
            Ok(body) => Ok(
                Request {
                    url: api_url("messages.json"),
                    content_type: CONTENT_TYPE.to_owned(),
                    body,
                },
            ),
            Err(error) => Err(error),
        }
    }

    /// Send this message to the Pushover API, over `transport`.
    ///
    /// The transport is called once at most, with the one request to make.
    /// It returns the status and the body of the reply, or the reason why it
    /// had none.
    pub fn send<T>(&self, transport: T) -> (outcome: Result<MessageResponse, SendError>) where
        T: FnOnce(Request) -> Result<Reply, String>,

        requires
            accepts_messages(transport),
        ensures
            delivered(self@, transport, outcome),
    {
        let request = match self.request() {
            Ok(request) => request,
            Err(error) => { return Err(error); },
        };
        match transport(request) {
            Ok(reply) => MessageResponse::from_reply(reply.status, reply.body.as_str()),
            Err(reason) => Err(SendError::Transport(reason)),
        }
    }
}

/// Convenience function to send a simple message without having to construct
/// the [`Message`] yourself.
pub fn send_simple_message<T>(
    token: &str,
    user: &str,
    message: &str,
    transport: T,
) -> (outcome: Result<MessageResponse, SendError>) where
    T: FnOnce(Request) -> Result<Reply, String>,

    requires
        accepts_messages(transport),
    ensures
        delivered(MessageView::simple(token@, user@, message@), transport, outcome),
{
    Message::simple(token, user, message).send(transport)
}

} // verus!

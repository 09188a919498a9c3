//! What the server answers, and what the answer means.

use crate::error::SendError;
use crate::json::{error_text, json_of, json_parsed, parse_value, Json};
use crate::object::{integer_member, read_integer, read_text, read_texts, text_member, texts_member, Member};
use crate::text::{join, joined, texts_of};
use vstd::prelude::*;

verus! {

/// The response from Pushover and the HTTP status code after a message was
/// successfully sent.
#[derive(Debug)]
pub struct MessageResponse {
    /// The HTTP status code of the reply.
    pub http_status: u16,
    /// The identifier that the server gave the request.
    pub request: String,
    /// The status that the server reports, 1 for a message it accepted.
    pub status: i32,
}

/// A response by the characters of its strings.
pub struct MessageResponseView {
    pub http_status: u16,
    pub request: Seq<char>,
    pub status: i32,
}

impl View for MessageResponse {
    type V = MessageResponseView;

    open spec fn view(&self) -> MessageResponseView {
        MessageResponseView {
            http_status: self.http_status,
            request: self.request@,
            status: self.status,
        }
    }
}

/// The response from Pushover after an API call is made, including any
/// errors.
///
/// Only used internally: what it means goes to the caller as a `Result`.
#[derive(Debug)]
pub(crate) struct RawMessageResponse {
    /// What the server found wrong with the message. Empty where it found
    /// nothing.
    pub errors: Vec<String>,
    /// The identifier that the server gave the request.
    pub request: String,
    /// The status that the server reports.
    pub status: i32,
}

/// A raw response by the characters of its strings.
pub struct RawMessageResponseView {
    pub errors: Seq<Seq<char>>,
    pub request: Seq<char>,
    pub status: i32,
}

impl View for RawMessageResponse {
    type V = RawMessageResponseView;

    closed spec fn view(&self) -> RawMessageResponseView {
        RawMessageResponseView {
            errors: texts_of(self.errors@),
            request: self.request@,
            status: self.status,
        }
    }
}

/// What separates the complaints of the server in the text of a rejection.
pub open spec fn complaint_separator() -> Seq<char> {
    ", "@
}

/// The text of the error for JSON that describes no response.
pub open spec fn no_response() -> Seq<char> {
    "the JSON does not describe a response"@
}

impl RawMessageResponseView {
    /// The raw response that `json` describes: an object whose `request` is
    /// a string, whose `status` is an integer of 32 bits, and whose
    /// `errors`, where it has any, is an array of strings. An object
    /// without `errors` reports none. Other members are passed over.
    pub open spec fn of_json(json: Json) -> Option<RawMessageResponseView> {
        let errors = texts_member(json, "errors"@);
        let request = text_member(json, "request"@);
        let status = integer_member(json, "status"@);
        if (errors is Absent || errors is Held) && request is Held && status is Held && i32::MIN
            <= status->Held_0 <= i32::MAX {
            Some(
                RawMessageResponseView {
                    errors: if errors is Held {
                        errors->Held_0
                    } else {
                        Seq::empty()
                    },
                    request: request->Held_0,
                    status: status->Held_0 as i32,
                },
            )
        } else {
            None
        }
    }

    /// Whether `outcome` is what this raw response means when it came with
    /// `http_status`: success where the server reports no error, whatever
    /// the two status numbers are, and else a rejection that holds all its
    /// complaints in their order.
    pub open spec fn concludes(
        self,
        http_status: u16,
        outcome: Result<MessageResponse, SendError>,
    ) -> bool {
        if self.errors.len() == 0 {
            outcome matches Ok(response) && response@ == (MessageResponseView {
                http_status,
                request: self.request,
                status: self.status,
            })
        } else {
            outcome matches Err(SendError::Rejected(text)) && text@ == joined(
                self.errors,
                complaint_separator(),
            )
        }
    }
}

/// Whether `outcome` is what a reply that parsed as `json` means when it
/// came with `http_status`.
pub open spec fn json_concludes(
    json: Json,
    http_status: u16,
    outcome: Result<MessageResponse, SendError>,
) -> bool {
    match RawMessageResponseView::of_json(json) {
        Some(raw) => raw.concludes(http_status, outcome),
        None => outcome matches Err(SendError::Decode(text)) && text@ == no_response(),
    }
}

/// Whether `outcome` is what a reply with this body means when it came with
/// `http_status`.
pub open spec fn body_concludes(
    body: Seq<char>,
    http_status: u16,
    outcome: Result<MessageResponse, SendError>,
) -> bool {
    match json_parsed(body) {
        Some(json) => json_concludes(json, http_status, outcome),
        None => outcome matches Err(SendError::Decode(_)),
    }
}

/// A reply that reports no error is a success, whatever its two status
/// numbers are, and the success carries the HTTP status, the request
/// identifier and the status as they came.
pub proof fn lemma_reply_without_errors_succeeds(
    json: Json,
    http_status: u16,
    outcome: Result<MessageResponse, SendError>,
)
    requires
        RawMessageResponseView::of_json(json) matches Some(raw) && raw.errors.len() == 0,
        json_concludes(json, http_status, outcome),
    ensures
        outcome matches Ok(response) && response.http_status == http_status && response.request@
            == text_member(json, "request"@)->Held_0 && response.status == integer_member(
            json,
            "status"@,
        )->Held_0,
{
}

/// A reply that reports errors is a rejection, whatever its two status
/// numbers are, and the rejection carries every error in the order of the
/// reply, each two neighbours a comma and a space apart.
pub proof fn lemma_reply_with_errors_is_rejected(
    json: Json,
    http_status: u16,
    outcome: Result<MessageResponse, SendError>,
)
    requires
        RawMessageResponseView::of_json(json) matches Some(raw) && raw.errors.len() > 0,
        json_concludes(json, http_status, outcome),
    ensures
        outcome matches Err(SendError::Rejected(text)) && text@ == joined(
            texts_member(json, "errors"@)->Held_0,
            complaint_separator(),
        ),
{
}

impl RawMessageResponse {
    /// The raw response that a parsed JSON value describes, or `None` where
    /// it describes none.
    pub(crate) fn from_value(value: &serde_json::Value) -> (raw: Option<RawMessageResponse>)
        ensures
            match raw {
                Some(r) => RawMessageResponseView::of_json(json_of(*value)) == Some(r@),
                None => RawMessageResponseView::of_json(json_of(*value)) is None,
            },
    {
        let errors = match read_texts(value, "errors") {
            Member::Absent => Vec::new(),
            Member::Held(texts) => texts,
            _ => { return None; },
        };
        let request = match read_text(value, "request") {
            Member::Held(text) => text,
            _ => { return None; },
        };
        let status: i32 = match read_integer(value, "status") {
            Member::Held(number) => {
                if number < -0x8000_0000i64 || number > 0x7fff_ffffi64 {
                    return None;
                }
                number as i32
            },
            _ => { return None; },
        };
        proof {
            assert(texts_of(Seq::<String>::empty()) =~= Seq::<Seq<char>>::empty());
        }
        Some(RawMessageResponse { errors, request, status })
    }

    /// What this raw response means when it came with `http_status`.
    pub(crate) fn into_result(self, http_status: u16) -> (outcome: Result<MessageResponse, SendError>)
        ensures
            self@.concludes(http_status, outcome),
    {
        if self.errors.len() == 0 {
            Ok(MessageResponse { http_status, request: self.request, status: self.status })
        } else {
            Err(SendError::Rejected(join(&self.errors, ", ")))
        }
    }
}

impl MessageResponse {
    /// What a reply means whose body parsed as `value` and that came with
    /// `http_status`.
    pub fn from_value(http_status: u16, value: &serde_json::Value) -> (outcome: Result<
        MessageResponse,
        SendError,
    >)
        ensures
            json_concludes(json_of(*value), http_status, outcome),
    {
        match RawMessageResponse::from_value(value) {
            Some(raw) => raw.into_result(http_status),
            None => Err(SendError::Decode("the JSON does not describe a response".to_owned())),
        }
    }

    /// What a reply means that came with `http_status` and `body`.
    pub fn from_reply(http_status: u16, body: &str) -> (outcome: Result<MessageResponse, SendError>)
        ensures
            body_concludes(body@, http_status, outcome),
    {
        match parse_value(body) {
            Ok(value) => MessageResponse::from_value(http_status, &value),
            Err(error) => Err(SendError::Decode(error_text(&error))),
        }
    }
}

} // verus!

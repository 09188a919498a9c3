//! What can go wrong when a message is sent.

use vstd::prelude::*;

verus! {

/// Why a message was not sent, or why what came back could not be used.
#[derive(Debug)]
pub enum SendError {
    /// The transport failed before it had a reply. Holds what it reported.
    Transport(String),
    /// The message could not be written as JSON.
    Encode(String),
    /// The body was no JSON, or JSON of another shape than expected.
    Decode(String),
    /// The server read the message and refused it. Holds its complaints,
    /// joined by a comma and a space.
    Rejected(String),
}

impl SendError {
    /// The text that this error carries.
    pub open spec fn text(self) -> Seq<char> {
        match self {
            SendError::Transport(text) => text@,
            SendError::Encode(text) => text@,
            SendError::Decode(text) => text@,
            SendError::Rejected(text) => text@,
        }
    }

    /// The text that this error carries, for display.
    pub fn message(&self) -> (message: String)
        ensures
            message@ == self.text(),
    {
        match self {
            SendError::Transport(text) => text.clone(),
            SendError::Encode(text) => text.clone(),
            SendError::Decode(text) => text.clone(),
            SendError::Rejected(text) => text.clone(),
        }
    }
}

} // verus!

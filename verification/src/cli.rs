//! From the arguments of the `send-message` command to the message to send.

use crate::message::{characters, Message, MessageView};
use crate::priority::MessagePriority;
use crate::text::{i64_of, join, joined, parse_i64, same_text, texts_of};
use vstd::prelude::*;

verus! {

/// The arguments of the `send-message` command, as they were typed.
#[derive(Debug)]
pub struct SendMessageArgs {
    /// The API token of the application.
    pub token: String,
    /// The user or group to send the message to.
    pub user: String,
    /// The message itself.
    pub message: String,
    /// Every device that was named, in the order given; `None` where none
    /// was.
    pub device: Option<Vec<String>>,
    /// The title of the message.
    pub title: Option<String>,
    /// A supplementary URL.
    pub url: Option<String>,
    /// A title for the supplementary URL. Needs the URL.
    pub url_title: Option<String>,
    /// The priority, by its word.
    pub priority: Option<String>,
    /// The name of the sound to play.
    pub sound: Option<String>,
    /// A Unix timestamp, in decimal digits.
    pub timestamp: Option<String>,
}

/// Why arguments make no message.
#[derive(Debug, Clone, Copy, PartialEq, Eq, Structural)]
pub enum ArgumentError {
    /// A title for the URL was given, and no URL.
    UrlTitleWithoutUrl,
    /// The priority is none of `lowest`, `low`, `normal`, `high`.
    UnknownPriority,
    /// The timestamp is no decimal integer of 64 bits.
    InvalidTimestamp,
}

/// What separates the devices in the one field that names them.
pub open spec fn device_separator() -> Seq<char> {
    ","@
}

/// The priority that `text` is the word of.
pub open spec fn priority_of_word(text: Seq<char>) -> Option<MessagePriority> {
    if text == MessagePriority::Lowest.word() {
        Some(MessagePriority::Lowest)
    } else if text == MessagePriority::Low.word() {
        Some(MessagePriority::Low)
    } else if text == MessagePriority::Normal.word() {
        Some(MessagePriority::Normal)
    } else if text == MessagePriority::High.word() {
        Some(MessagePriority::High)
    } else {
        None
    }
}

impl SendMessageArgs {
    /// What is wrong with these arguments, if anything; the first fault
    /// where there are several.
    pub open spec fn fault(self) -> Option<ArgumentError> {
        if self.url_title is Some && self.url is None {
            Some(ArgumentError::UrlTitleWithoutUrl)
        } else if self.priority matches Some(word) && priority_of_word(word@) is None {
            Some(ArgumentError::UnknownPriority)
        } else if self.timestamp matches Some(digits) && i64_of(digits@) is None {
            Some(ArgumentError::InvalidTimestamp)
        } else {
            None
        }
    }

    /// The message that these arguments ask for, where nothing is wrong with
    /// them. The devices are joined by commas into one field.
    pub open spec fn asked(self) -> MessageView {
        MessageView {
            token: self.token@,
            user: self.user@,
            message: self.message@,
            device: match self.device {
                Some(devices) => Some(joined(texts_of(devices@), device_separator())),
                None => None,
            },
            title: characters(self.title),
            url: characters(self.url),
            url_title: characters(self.url_title),
            priority: match self.priority {
                Some(word) => priority_of_word(word@),
                None => None,
            },
            sound: characters(self.sound),
            timestamp: match self.timestamp {
                Some(digits) => i64_of(digits@),
                None => None,
            },
        }
    }

    /// The message that these arguments ask for, or what is wrong with them.
    pub fn into_message(self) -> (message: Result<Message, ArgumentError>)
        ensures
            match message {
                Ok(m) => self.fault() is None && m@ == self.asked(),
                Err(e) => self.fault() == Some(e),
            },
    {
        if self.url_title.is_some() && self.url.is_none() {
            return Err(ArgumentError::UrlTitleWithoutUrl);
        }
        let priority = match &self.priority {
            Some(word) => match priority_from_word(word.as_str()) {
                Some(priority) => Some(priority),
                None => { return Err(ArgumentError::UnknownPriority); },
            },
            None => None,
        };
        let timestamp = match &self.timestamp {
            Some(digits) => match parse_i64(digits.as_str()) {
                Some(number) => Some(number),
                None => { return Err(ArgumentError::InvalidTimestamp); },
            },
            None => None,
        };
        let device = match &self.device {
            Some(devices) => Some(join(devices, ",")),
            None => None,
        };
        Ok(
            Message {
                token: self.token,
                user: self.user,
                message: self.message,
                device,
                title: self.title,
                url: self.url,
                url_title: self.url_title,
                priority,
                sound: self.sound,
                timestamp,
            },
        )
    }
}

/// The priority that `word` is the word of, or `None` where it is the word
/// of none.
pub fn priority_from_word(word: &str) -> (priority: Option<MessagePriority>)
    ensures
        priority == priority_of_word(word@),
{
    if same_text(word, "lowest") || same_text(word, "low") || same_text(word, "normal")
        || same_text(word, "high") {
        proof {
            crate::priority::lemma_priority_names(MessagePriority::Lowest, word@);
            crate::priority::lemma_priority_names(MessagePriority::Low, word@);
            crate::priority::lemma_priority_names(MessagePriority::Normal, word@);
            crate::priority::lemma_priority_names(MessagePriority::High, word@);
        }
        Some(MessagePriority::from(word))
    } else {
        None
    }
}

} // verus!

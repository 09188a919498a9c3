//! The message to send, and how it is written as JSON and read back.

use crate::error::SendError;
use crate::json::{
    error_text, json_of, json_parsed, json_rendered, parse_value, render_value, Json, Members,
};
use crate::object::{integer_member, read_integer, read_text, text_member, Member, ObjectBuilder};
use crate::priority::MessagePriority;
use vstd::prelude::*;

verus! {

/// The full message body to send to the Pushover API.
#[derive(Debug)]
pub struct Message {
    /// The API token of the application.
    pub token: String,
    /// The user or group to send the message to.
    pub user: String,
    /// The message itself.
    pub message: String,
    /// The devices to send the message to, separated by commas. With `None`,
    /// or where one of them is disabled or unknown, the message goes to all
    /// active devices of the user.
    pub device: Option<String>,
    /// The title of the message. With `None` the server shows the name of
    /// the application.
    pub title: Option<String>,
    /// A supplementary URL to show with the message.
    pub url: Option<String>,
    /// A title for the supplementary URL.
    pub url_title: Option<String>,
    /// The priority of the message.
    pub priority: Option<MessagePriority>,
    /// The name of the sound to play. The server knows which names exist.
    pub sound: Option<String>,
    /// A Unix timestamp to show as the time of the message, in place of the
    /// time at which the server received it.
    pub timestamp: Option<i64>,
}

/// A message by the characters of its strings.
pub struct MessageView {
    pub token: Seq<char>,
    pub user: Seq<char>,
    pub message: Seq<char>,
    pub device: Option<Seq<char>>,
    pub title: Option<Seq<char>>,
    pub url: Option<Seq<char>>,
    pub url_title: Option<Seq<char>>,
    pub priority: Option<MessagePriority>,
    pub sound: Option<Seq<char>>,
    pub timestamp: Option<i64>,
}

/// The characters of `text`, where there is one.
pub open spec fn characters(text: Option<String>) -> Option<Seq<char>> {
    match text {
        Some(t) => Some(t@),
        None => None,
    }
}

/// `object` with a string under `key`, where there is one to add.
pub open spec fn with_text(object: Members, key: Seq<char>, text: Option<Seq<char>>) -> Members {
    match text {
        Some(t) => object.insert(key, Json::Text(t)),
        None => object,
    }
}

/// `object` with an integer under `key`, where there is one to add.
pub open spec fn with_integer(object: Members, key: Seq<char>, number: Option<int>) -> Members {
    match number {
        Some(n) => object.insert(key, Json::Integer(n)),
        None => object,
    }
}

impl View for Message {
    type V = MessageView;

    open spec fn view(&self) -> MessageView {
        MessageView {
            token: self.token@,
            user: self.user@,
            message: self.message@,
            device: characters(self.device),
            title: characters(self.title),
            url: characters(self.url),
            url_title: characters(self.url_title),
            priority: self.priority,
            sound: characters(self.sound),
            timestamp: self.timestamp,
        }
    }
}

impl MessageView {
    /// The message that holds the three required fields and nothing else.
    pub open spec fn simple(token: Seq<char>, user: Seq<char>, message: Seq<char>) -> MessageView {
        MessageView {
            token,
            user,
            message,
            device: None,
            title: None,
            url: None,
            url_title: None,
            priority: None,
            sound: None,
            timestamp: None,
        }
    }

    /// The members of the JSON object that this message is sent as. The
    /// three required fields are always members; an optional field is a
    /// member only where it is set.
    pub open spec fn wire(self) -> Members {
        let object = Members::empty();
        let object = object.insert("token"@, Json::Text(self.token));
        let object = object.insert("user"@, Json::Text(self.user));
        let object = object.insert("message"@, Json::Text(self.message));
        let object = with_text(object, "device"@, self.device);
        let object = with_text(object, "title"@, self.title);
        let object = with_text(object, "url"@, self.url);
        let object = with_text(object, "url_title"@, self.url_title);
        let object = with_integer(object, "priority"@, self.priority_number());
        let object = with_text(object, "sound"@, self.sound);
        let object = with_integer(object, "timestamp"@, self.timestamp_number());
        object
    }

    /// The number of the priority, where one is set.
    pub open spec fn priority_number(self) -> Option<int> {
        match self.priority {
            Some(priority) => Some(priority.number()),
            None => None,
        }
    }

    /// The timestamp as an integer, where one is set.
    pub open spec fn timestamp_number(self) -> Option<int> {
        match self.timestamp {
            Some(timestamp) => Some(timestamp as int),
            None => None,
        }
    }

    /// The message that `json` describes: an object whose `token`, `user`
    /// and `message` are strings, and whose optional fields are each left
    /// out, `null`, or of the type of the field. Other members are passed
    /// over.
    pub open spec fn of_json(json: Json) -> Option<MessageView> {
        let token = text_member(json, "token"@);
        let user = text_member(json, "user"@);
        let message = text_member(json, "message"@);
        let device = text_member(json, "device"@).optional();
        let title = text_member(json, "title"@).optional();
        let url = text_member(json, "url"@).optional();
        let url_title = text_member(json, "url_title"@).optional();
        let priority = integer_member(json, "priority"@).optional();
        let sound = text_member(json, "sound"@).optional();
        let timestamp = integer_member(json, "timestamp"@).optional();
        if token is Held && user is Held && message is Held && device is Some && title is Some
            && url is Some && url_title is Some && priority is Some && sound is Some
            && timestamp is Some && (priority->Some_0 matches Some(number)
            ==> MessagePriority::of_number(number as int) is Some) {
            Some(
                MessageView {
                    token: token->Held_0,
                    user: user->Held_0,
                    message: message->Held_0,
                    device: device->Some_0,
                    title: title->Some_0,
                    url: url->Some_0,
                    url_title: url_title->Some_0,
                    priority: match priority->Some_0 {
                        Some(number) => MessagePriority::of_number(number as int),
                        None => None,
                    },
                    sound: sound->Some_0,
                    timestamp: timestamp->Some_0,
                },
            )
        } else {
            None
        }
    }
}

/// The text of the error for JSON that describes no message.
pub open spec fn no_message() -> Seq<char> {
    "the JSON does not describe a message"@
}

/// What the ten field names look like, as far as it takes to tell each
/// from every other.
proof fn lemma_field_names()
    ensures
        "token"@.len() == 5,
        "user"@.len() == 4,
        "message"@.len() == 7,
        "device"@.len() == 6,
        "title"@.len() == 5,
        "url"@.len() == 3,
        "url_title"@.len() == 9,
        "priority"@.len() == 8,
        "sound"@.len() == 5,
        "timestamp"@.len() == 9,
        "token"@[1] == 'o',
        "title"@[1] == 'i',
        "sound"@[1] == 'o',
        "token"@[0] == 't',
        "sound"@[0] == 's',
        "url_title"@[0] == 'u',
        "timestamp"@[0] == 't',
{
    reveal_strlit("token");
    reveal_strlit("user");
    reveal_strlit("message");
    reveal_strlit("device");
    reveal_strlit("title");
    reveal_strlit("url");
    reveal_strlit("url_title");
    reveal_strlit("priority");
    reveal_strlit("sound");
    reveal_strlit("timestamp");
}

/// Reads the member of `value` under `key` as a string that may be left
/// out: `Some(None)` where it is missing or `null`, `None` where it is
/// there and is no string.
fn read_optional_text(value: &serde_json::Value, key: &str) -> (text: Option<Option<String>>)
    ensures
        match text {
            Some(held) => text_member(json_of(*value), key@).optional() == Some(characters(held)),
            None => text_member(json_of(*value), key@).optional() is None,
        },
{
    match read_text(value, key) {
        Member::Absent => Some(None),
        Member::Null => Some(None),
        Member::Mismatch => None,
        Member::Held(text) => Some(Some(text)),
    }
}

/// Reads the member of `value` under `key` as an integer that may be left
/// out: `Some(None)` where it is missing or `null`, `None` where it is
/// there and is no integer of 64 bits.
fn read_optional_integer(value: &serde_json::Value, key: &str) -> (number: Option<Option<i64>>)
    ensures
        number == integer_member(json_of(*value), key@).optional(),
{
    match read_integer(value, key) {
        Member::Absent => Some(None),
        Member::Null => Some(None),
        Member::Mismatch => None,
        Member::Held(number) => Some(Some(number)),
    }
}

impl Default for Message {
    /// The message with empty required fields and no optional field.
    fn default() -> (message: Message)
        ensures
            message@ == MessageView::simple(Seq::empty(), Seq::empty(), Seq::empty()),
    {
        Message {
            token: String::new(),
            user: String::new(),
            message: String::new(),
            device: None,
            title: None,
            url: None,
            url_title: None,
            priority: None,
            sound: None,
            timestamp: None,
        }
    }
}

impl Message {
    /// The message that holds the three required fields and nothing else.
    pub fn simple(token: &str, user: &str, message: &str) -> (simple: Message)
        ensures
            simple@ == MessageView::simple(token@, user@, message@),
    {
        Message {
            token: token.to_owned(),
            user: user.to_owned(),
            message: message.to_owned(),
            device: None,
            title: None,
            url: None,
            url_title: None,
            priority: None,
            sound: None,
            timestamp: None,
        }
    }

    /// This message as the JSON object that is sent.
    pub fn to_value(&self) -> (value: serde_json::Value)
        ensures
            json_of(value) == Json::Object(self@.wire()),
    {
        proof {
            lemma_field_names();
        }
        let mut object = ObjectBuilder::new();
        object.text("token", self.token.as_str());
        object.text("user", self.user.as_str());
        object.text("message", self.message.as_str());
        if let Some(device) = &self.device {
            object.text("device", device.as_str());
        }
        if let Some(title) = &self.title {
            object.text("title", title.as_str());
        }
        if let Some(url) = &self.url {
            object.text("url", url.as_str());
        }
        if let Some(url_title) = &self.url_title {
            object.text("url_title", url_title.as_str());
        }
        if let Some(priority) = &self.priority {
            object.integer("priority", priority.value() as i64);
        }
        if let Some(sound) = &self.sound {
            object.text("sound", sound.as_str());
        }
        if let Some(timestamp) = &self.timestamp {
            object.integer("timestamp", *timestamp);
        }
        object.finish()
    }

    /// Serializes this message to JSON.
    pub fn to_json(&self) -> (text: Result<String, SendError>)
        ensures
            match text {
                Ok(t) => json_rendered(Json::Object(self@.wire())) == Some(t@),
                Err(e) => e is Encode && json_rendered(Json::Object(self@.wire())) is None,
            },
    {
        let value = self.to_value();
        match render_value(&value) {
            Ok(text) => Ok(text),
            Err(error) => Err(SendError::Encode(error_text(&error))),
        }
    }

    /// The message that a parsed JSON value describes, or `None` where it
    /// describes none.
    pub fn from_value(value: &serde_json::Value) -> (message: Option<Message>)
        ensures
            match message {
                Some(m) => MessageView::of_json(json_of(*value)) == Some(m@),
                None => MessageView::of_json(json_of(*value)) is None,
            },
    {
        let token = match read_text(value, "token") {
            Member::Held(text) => text,
            _ => { return None; },
        };
        let user = match read_text(value, "user") {
            Member::Held(text) => text,
            _ => { return None; },
        };
        let message = match read_text(value, "message") {
            Member::Held(text) => text,
            _ => { return None; },
        };
        let device = match read_optional_text(value, "device") {
            Some(held) => held,
            None => { return None; },
        };
        let title = match read_optional_text(value, "title") {
            Some(held) => held,
            None => { return None; },
        };
        let url = match read_optional_text(value, "url") {
            Some(held) => held,
            None => { return None; },
        };
        let url_title = match read_optional_text(value, "url_title") {
            Some(held) => held,
            None => { return None; },
        };
        let priority = match read_optional_integer(value, "priority") {
            Some(None) => None,
            Some(Some(number)) => match MessagePriority::from_value(number) {
                Some(priority) => Some(priority),
                None => { return None; },
            },
            None => { return None; },
        };
        let sound = match read_optional_text(value, "sound") {
            Some(held) => held,
            None => { return None; },
        };
        let timestamp = match read_optional_integer(value, "timestamp") {
            Some(held) => held,
            None => { return None; },
        };
        Some(
            Message {
                token,
                user,
                message,
                device,
                title,
                url,
                url_title,
                priority,
                sound,
                timestamp,
            },
        )
    }

    /// Reads a message from JSON text.
    pub fn from_json(text: &str) -> (message: Result<Message, SendError>)
        ensures
            match message {
                Ok(m) => json_parsed(text@) matches Some(json) && MessageView::of_json(json)
                    == Some(m@),
                Err(e) => e is Decode && match json_parsed(text@) {
                    Some(json) => MessageView::of_json(json) is None && e.text() == no_message(),
                    None => true,
                },
            },
    {
        match parse_value(text) {
            Ok(value) => match Message::from_value(&value) {
                Some(message) => Ok(message),
                None => Err(SendError::Decode("the JSON does not describe a message".to_owned())),
            },
            Err(error) => Err(SendError::Decode(error_text(&error))),
        }
    }
}

/// Writing a message as JSON and reading it back gives the same message:
/// every field that is set comes back unchanged, and every field that is
/// not set comes back not set.
pub proof fn lemma_wire_round_trip(message: MessageView)
    ensures
        MessageView::of_json(Json::Object(message.wire())) == Some(message),
{
    lemma_field_names();
}

/// The message that holds the three required fields and nothing else is
/// sent as an object of exactly three members.
pub proof fn lemma_simple_wire(token: Seq<char>, user: Seq<char>, message: Seq<char>)
    ensures
        MessageView::simple(token, user, message).wire() == Members::empty().insert(
            "token"@,
            Json::Text(token),
        ).insert("user"@, Json::Text(user)).insert("message"@, Json::Text(message)),
        MessageView::simple(token, user, message).wire().dom() == set!["token"@, "user"@, "message"@],
        MessageView::simple(token, user, message).wire().dom().len() == 3,
{
    lemma_field_names();
    let names = set!["token"@, "user"@, "message"@];
    assert(MessageView::simple(token, user, message).wire().dom() =~= names);
    assert(names.len() == 3) by {
        broadcast use vstd::set::group_set_axioms;

        let none = Set::<Seq<char>>::empty();
        assert(names =~= none.insert("token"@).insert("user"@).insert("message"@));
        assert(none.insert("token"@).len() == 1);
        assert(none.insert("token"@).insert("user"@).len() == 2);
    }
}

/// A field that is not set is left out of the JSON object, and no member of
/// the object is `null`.
pub proof fn lemma_wire_omits_unset(message: MessageView)
    ensures
        message.wire().contains_key("token"@),
        message.wire().contains_key("user"@),
        message.wire().contains_key("message"@),
        message.wire().contains_key("device"@) <==> message.device is Some,
        message.wire().contains_key("title"@) <==> message.title is Some,
        message.wire().contains_key("url"@) <==> message.url is Some,
        message.wire().contains_key("url_title"@) <==> message.url_title is Some,
        message.wire().contains_key("priority"@) <==> message.priority is Some,
        message.wire().contains_key("sound"@) <==> message.sound is Some,
        message.wire().contains_key("timestamp"@) <==> message.timestamp is Some,
        forall|key: Seq<char>| #[trigger]
            message.wire().contains_key(key) ==> !(message.wire()[key] is Null),
{
    lemma_field_names();
}

} // verus!

//! A client library for the Pushover notification service.
//!
//! A [`Message`] is laid out as a JSON object, handed to a transport that
//! performs one HTTP POST, and the reply is read back into a
//! [`MessageResponse`] or a [`SendError`].
//!
//! The library itself opens no connection. [`Message::send`] takes the
//! transport as an argument: a function from the [`Request`] to make to the
//! [`Reply`] that came back, or to the reason why none did.
//!
//! ## Examples
//!
//! To send just a message to a user, use [`send_simple_message`].
//!
//! ```no_run
//! use pushover_api::{send_simple_message, Reply, Request};
//!
//! // Makes the request with the HTTP client of your choice.
//! fn post(request: Request) -> Result<Reply, String> {
//!     Err(String::from("no HTTP client at hand for ") + &request.url)
//! }
//!
//! let outcome = send_simple_message("application token", "user key", "Message", post);
//! ```
//!
//! To send a more complex message, create a [`Message`] and send it.
//!
//! ```no_run
//! use pushover_api::{Message, Reply, Request};
//!
//! fn post(request: Request) -> Result<Reply, String> {
//!     Err(String::from("no HTTP client at hand for ") + &request.url)
//! }
//!
//! let message = Message {
//!     token: "application token".to_string(),
//!     user: "user key".to_string(),
//!     message: "Message".to_string(),
//!     title: Some("Title".to_string()),
//!     url: Some("https://example.com".to_string()),
//!     ..Message::default()
//! };
//!
//! let outcome = message.send(post);
//! ```

pub mod cli;
pub mod error;
pub mod json;
pub mod message;
pub mod object;
pub mod priority;
pub mod response;
pub mod send;
pub mod text;
pub mod transport;

pub use crate::error::SendError;
pub use crate::message::Message;
pub use crate::priority::MessagePriority;
pub use crate::response::MessageResponse;
pub use crate::send::send_simple_message;
pub use crate::transport::{Reply, Request};

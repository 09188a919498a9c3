//! The one HTTP exchange that sends a message: what is asked of the
//! transport, and what it hands back.

use vstd::prelude::*;
use vstd::string::*;

verus! {

/// The base URL for the Pushover API.
pub const PUSHOVER_API: &'static str = "https://api.pushover.net/1";

/// The content type of every request.
pub const CONTENT_TYPE: &'static str = "application/json";

/// An HTTP POST for the transport to perform.
#[derive(Debug)]
pub struct Request {
    /// The URL to post to.
    pub url: String,
    /// The value of the `content-type` header.
    pub content_type: String,
    /// The body to post.
    pub body: String,
}

/// What the server answered to a request.
#[derive(Debug)]
pub struct Reply {
    /// The HTTP status code.
    pub status: u16,
    /// The whole body, as text.
    pub body: String,
}

/// The full URL of `path` under the base URL of the API.
pub open spec fn url_of(path: Seq<char>) -> Seq<char> {
    PUSHOVER_API@ + "/"@ + path
}

/// The URL that messages are posted to.
pub open spec fn messages_url() -> Seq<char> {
    url_of("messages.json"@)
}

/// Messages are posted to `https://api.pushover.net/1/messages.json`.
pub proof fn lemma_messages_url()
    ensures
        messages_url() == "https://api.pushover.net/1/messages.json"@,
{
    reveal_strlit("https://api.pushover.net/1");
    reveal_strlit("/");
    reveal_strlit("messages.json");
    reveal_strlit("https://api.pushover.net/1/messages.json");
    assert(messages_url() =~= "https://api.pushover.net/1/messages.json"@);
}

/// Makes a full URL from a path under the base URL of the API.
pub fn api_url(path: &str) -> (url: String)
    ensures
        url@ == url_of(path@),
{
    let mut url = PUSHOVER_API.to_owned();
    url.append("/");
    url.append(path);
    url
}

} // verus!

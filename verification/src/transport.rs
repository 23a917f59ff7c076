//! What one HTTP POST comes back with, as plain data, and the readings of it
//! that the clients share.

use vstd::prelude::*;
use crate::json::JsonValue;
use crate::text::join;

verus! {

/// The outcome of one POST: a response of the remote end, or the failure to
/// get one.
#[derive(Debug)]
pub enum HttpReply {
    /// A response arrived. `body` is its text, or the reason why the text
    /// could not be read.
    Response { status: u16, body: Result<String, String> },
    /// No response arrived. `connect` and `timeout` say whether the failure
    /// was one of connecting or of running out of time; `detail` describes it.
    Failure { connect: bool, timeout: bool, detail: String },
}

/// The mathematical value of an `HttpReply`.
pub enum HttpReplyView {
    Response { status: u16, body: Result<Seq<char>, Seq<char>> },
    Failure { connect: bool, timeout: bool, detail: Seq<char> },
}

/// A `Result` of two strings, each taken by its characters.
pub open spec fn text_result_view(r: Result<String, String>) -> Result<Seq<char>, Seq<char>> {
    match r {
        Ok(t) => Ok(t@),
        Err(e) => Err(e@),
    }
}

/// The outcome of parsing, its error taken by its characters.
pub open spec fn parsed_view(r: Result<JsonValue, String>) -> Result<JsonValue, Seq<char>> {
    match r {
        Ok(v) => Ok(v),
        Err(e) => Err(e@),
    }
}

impl View for HttpReply {
    type V = HttpReplyView;

    open spec fn view(&self) -> HttpReplyView {
        match *self {
            HttpReply::Response { status, body } => HttpReplyView::Response {
                status,
                body: text_result_view(body),
            },
            HttpReply::Failure { connect, timeout, detail } => HttpReplyView::Failure {
                connect,
                timeout,
                detail: detail@,
            },
        }
    }
}

/// Whether a status code reports success: 200 to 299.
pub open spec fn is_success_status(status: u16) -> bool {
    200 <= status < 300
}

/// Whether a status code reports a fault of the server: 500 to 599.
pub open spec fn is_server_error_status(status: u16) -> bool {
    500 <= status < 600
}

/// The `message` of an error envelope `{"error": {"message": ...}}`, where the
/// parsed body is one.
pub open spec fn envelope_message(parsed: Result<JsonValue, Seq<char>>) -> Option<Seq<char>> {
    match parsed {
        Ok(doc) => match doc.get("error"@) {
            Some(inner) => match inner.get("message"@) {
                Some(m) => m.text(),
                None => None,
            },
            None => None,
        },
        Err(_) => None,
    }
}

/// The value of the `Authorization` header for an API key.
pub open spec fn bearer_text(api_key: Seq<char>) -> Seq<char> {
    "Bearer "@ + api_key
}

/// Tests a status code for success.
pub fn status_is_success(status: u16) -> (r: bool)
    ensures
        r == is_success_status(status),
{
    200 <= status && status < 300
}

/// Tests a status code for a fault of the server.
pub fn status_is_server_error(status: u16) -> (r: bool)
    ensures
        r == is_server_error_status(status),
{
    500 <= status && status < 600
}

/// Reads the message out of an error envelope.
pub fn error_envelope_message(parsed: &Result<JsonValue, String>) -> (r: Option<String>)
    ensures
        match r {
            Some(m) => envelope_message(parsed_view(*parsed)) == Some(m@),
            None => envelope_message(parsed_view(*parsed)) is None,
        },
{
    match parsed {
        Ok(doc) => match doc.field("error") {
            Some(inner) => match inner.field("message") {
                Some(m) => match m.as_text() {
                    Some(s) => Some(s.clone()),
                    None => None,
                },
                None => None,
            },
            None => None,
        },
        Err(_) => None,
    }
}

/// Builds the `Authorization` header value for an API key.
pub fn bearer(api_key: &str) -> (r: String)
    ensures
        r@ == bearer_text(api_key@),
{
    join("Bearer ", api_key)
}

} // verus!

//! What the remote-viewer transport sends: one push event per publication,
//! and the artifact's raw content on request.
use vstd::prelude::*;

use crate::hub::Publication;

verus! {

/// One push event: an optional event name and its data line.
#[derive(Debug, PartialEq, Eq)]
pub struct SseEvent {
    pub event: Option<String>,
    pub data: String,
}

/// A lowercase hexadecimal digit.
pub open spec fn hex_digit(n: int) -> char {
    seq!['0', '1', '2', '3', '4', '5', '6', '7', '8', '9', 'a', 'b', 'c', 'd', 'e', 'f'][n]
}

/// How one character stands inside a JSON string literal: quote and
/// backslash escaped, the control characters with a short escape as such,
/// the other control characters as `\u00XX`, everything else as itself.
pub open spec fn json_escape(c: char) -> Seq<char> {
    if c == '"' {
        seq!['\\', '"']
    } else if c == '\\' {
        seq!['\\', '\\']
    } else if c == '\x08' {
        seq!['\\', 'b']
    } else if c == '\t' {
        seq!['\\', 't']
    } else if c == '\n' {
        seq!['\\', 'n']
    } else if c == '\x0c' {
        seq!['\\', 'f']
    } else if c == '\r' {
        seq!['\\', 'r']
    } else if (c as int) < 0x20 {
        seq!['\\', 'u', '0', '0', hex_digit(c as int / 16), hex_digit(c as int % 16)]
    } else {
        seq![c]
    }
}

/// The escaped characters of `s`, in order.
pub open spec fn json_escaped(s: Seq<char>) -> Seq<char>
    decreases s.len(),
{
    if s.len() == 0 {
        Seq::empty()
    } else {
        json_escaped(s.drop_last()) + json_escape(s.last())
    }
}

/// `s` as a JSON string literal.
pub open spec fn json_quoted(s: Seq<char>) -> Seq<char> {
    seq!['"'] + json_escaped(s) + seq!['"']
}

/// Relies on serde_json::to_string: a string serialises, without fail, to a
/// JSON string literal escaped as `json_escape` says (serde_json's escape
/// table in ser.rs).
#[verifier::external_body]
fn json_quote(s: &String) -> (r: String)
    ensures
        r@ == json_quoted(s@),
{
    serde_json::to_string(s).unwrap_or_default()
}

/// The push event for a publication: content goes out as a JSON string in an
/// unnamed event; `Done` goes out as an event named `done`.
pub fn sse_event(p: &Publication) -> (r: SseEvent)
    ensures
        match p {
            Publication::Content(c) => r.event is None && r.data@ == json_quoted(c@),
            Publication::Done => r.event matches Some(e) && e@ == "done"@ && r.data@ == "done"@,
        },
{
    match p {
        Publication::Content(c) => SseEvent { event: None, data: json_quote(c) },
        Publication::Done => SseEvent { event: Some(String::from_str("done")), data: String::from_str("done") },
    }
}

/// The text served for a request of the raw content: the content when it
/// could be read, a placeholder otherwise.
pub fn content_response(read: Option<String>) -> (r: String)
    ensures
        match read {
            Some(c) => r@ == c@,
            None => r@ == "(file not found)"@,
        },
{
    match read {
        Some(c) => c,
        None => String::from_str("(file not found)"),
    }
}

} // verus!

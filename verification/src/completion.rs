//! Reading the answer of the chat-completion service.

use vstd::prelude::*;
use crate::json::{element, field, json_of, parse_json, text_of, JsonView};
use crate::text::{trim, trimmed};

verus! {

/// Why no text came back from the model.
#[derive(Debug)]
pub enum AiError {
    /// The request did not reach the service, or its answer could not be read.
    Transport(String),
    /// The service answered with a status outside 200..=299; `body` is the
    /// text of its answer.
    Status { code: u16, body: String },
    /// The answer is not JSON.
    InvalidJson,
    /// The answer holds no text at `choices[0].message.content`.
    NoContent,
}

/// Whether an HTTP status code means success (200 to 299).
pub open spec fn success_status(code: u16) -> bool {
    200 <= code <= 299
}

/// Whether an HTTP status code means success, as `StatusCode::is_success`.
pub fn status_is_success(code: u16) -> (r: bool)
    ensures
        r == success_status(code),
{
    200 <= code && code <= 299
}

/// The text at `choices[0].message.content` of an answer, if there is one.
pub open spec fn content_at(answer: JsonView) -> Option<Seq<char>> {
    match field(answer, "choices"@) {
        Some(choices) => match element(choices, 0) {
            Some(first) => match field(first, "message"@) {
                Some(message) => match field(message, "content"@) {
                    Some(content) => text_of(content),
                    None => None,
                },
                None => None,
            },
            None => None,
        },
        None => None,
    }
}

/// What the bytes of a successful answer come to: not JSON, no text at
/// `choices[0].message.content`, or that text with the white space at both
/// ends cut off.
pub open spec fn reply_is(r: Result<String, AiError>, body: Seq<u8>) -> bool {
    match json_of(body) {
        None => r matches Err(AiError::InvalidJson),
        Some(answer) => match content_at(answer) {
            Some(c) => r matches Ok(t) && t@ == trimmed(c),
            None => r matches Err(AiError::NoContent),
        },
    }
}

/// The model's text, once the text at `choices[0].message.content` has been
/// looked up: without it there is no answer; with it, the answer is that text
/// with the white space at both ends cut off.
pub fn reply_from_content(content: Option<String>) -> (r: Result<String, AiError>)
    ensures
        match content {
            Some(c) => r matches Ok(t) && t@ == trimmed(c@),
            None => r matches Err(AiError::NoContent),
        },
{
    match content {
        Some(c) => Ok(trim(c.as_str())),
        None => Err(AiError::NoContent),
    }
}

/// Reads the model's text from the bytes of a successful answer.
pub fn reply_from_body(body: &[u8]) -> (r: Result<String, AiError>)
    ensures
        reply_is(r, body@),
{
    match parse_json(body) {
        None => Err(AiError::InvalidJson),
        Some(answer) => {
            let ghost a = answer.view_of();
            let content = match answer.field("choices") {
                None => None,
                Some(choices) => match choices.element(0) {
                    None => None,
                    Some(first) => match first.field("message") {
                        None => None,
                        Some(message) => match message.field("content") {
                            None => None,
                            Some(content) => content.text(),
                        },
                    },
                },
            };
            let ghost looked_up = content;
            let r = reply_from_content(content);
            assert(match looked_up { Some(c) => content_at(a) == Some(c@), None => content_at(a) is None });
            r
        },
    }
}

/// What the service's answer comes to: a status outside 200..=299 is an error
/// that carries the status and the text of the answer; otherwise the model's
/// text is read from the answer's bytes.
pub fn read_completion(code: u16, body: &[u8], body_text: &str) -> (r: Result<String, AiError>)
    ensures
        !success_status(code) ==> (r matches Err(AiError::Status { code: c, body: b }) && c == code
            && b@ == body_text@),
        success_status(code) ==> reply_is(r, body@),
{
    if !status_is_success(code) {
        return Err(AiError::Status { code, body: String::from_str(body_text) });
    }
    reply_from_body(body)
}

} // verus!

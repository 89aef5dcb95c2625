//! What comes back from the model, and how a reply becomes an answer or an error.
use vstd::prelude::*;
use crate::message::MessagePart;
use crate::query::QueryError;

verus! {

/// The content of one candidate answer.
#[derive(Clone, Debug)]
pub struct Content {
    pub parts: Vec<MessagePart>,
}

/// One candidate answer of the model.
#[derive(Clone, Debug)]
pub struct Candidate {
    pub content: Content,
}

/// A parsed reply of the model; only the first part of the first candidate counts.
#[derive(Clone, Debug)]
pub struct ModelResponse {
    pub candidates: Vec<Candidate>,
}

/// The text of the first part of the first candidate, if there is one.
pub open spec fn first_text_of(r: ModelResponse) -> Option<String> {
    if r.candidates@.len() > 0 && r.candidates@[0].content.parts@.len() > 0 {
        r.candidates@[0].content.parts@[0].text
    } else {
        None
    }
}

/// An HTTP status in the success class.
pub open spec fn is_success_status(status: u16) -> bool {
    200 <= status && status <= 299
}

/// What a reply with `status`, raw `body` and parse outcome `parsed` yields.
/// The status decides first, then the parse, then the presence of a text.
pub open spec fn reply_outcome(
    status: u16,
    body: String,
    parsed: Result<ModelResponse, String>,
) -> Result<String, QueryError> {
    if !is_success_status(status) {
        Err(QueryError::RemoteRejected(status, body))
    } else {
        match parsed {
            Err(detail) => Err(QueryError::MalformedResponse(detail, body)),
            Ok(r) => match first_text_of(r) {
                Some(t) => Ok(t),
                None => Err(QueryError::EmptyResponse(body)),
            },
        }
    }
}

/// Whether `status` is in the success class (200 to 299).
pub fn is_success(status: u16) -> (r: bool)
    ensures
        r == is_success_status(status),
{
    200 <= status && status <= 299
}

/// The text of the first part of the first candidate: nothing when there are
/// no candidates, when the first has no parts, or when its first part has no text.
pub fn first_text(r: &ModelResponse) -> (t: Option<String>)
    ensures
        t == first_text_of(*r),
{
    if r.candidates.len() == 0 {
        return None;
    }
    let parts = &r.candidates[0].content.parts;
    if parts.len() == 0 {
        return None;
    }
    match &parts[0].text {
        Some(s) => Some(s.clone()),
        None => None,
    }
}

/// Turns one reply of the remote model into the answer text or a typed error.
/// `parsed` is the outcome of reading `body` as a model response (its error
/// is the parser's message). A rejected status keeps the raw body whatever it
/// holds; so do a body that does not parse and one that holds no answer.
pub fn interpret_reply(status: u16, body: String, parsed: Result<ModelResponse, String>) -> (r:
    Result<String, QueryError>)
    ensures
        r == reply_outcome(status, body, parsed),
{
    if !is_success(status) {
        return Err(QueryError::RemoteRejected(status, body));
    }
    match parsed {
        Err(detail) => Err(QueryError::MalformedResponse(detail, body)),
        Ok(resp) => match first_text(&resp) {
            Some(t) => Ok(t),
            None => Err(QueryError::EmptyResponse(body)),
        },
    }
}

} // verus!

//! Planning the one request that each query makes, and the failures of a query.
use vstd::prelude::*;
use base64::Engine;
use crate::capture::{encodable, encode_png, png_rgba8_of, starts_as_png, CaptureError, Frame};
use crate::message::{is_screen_message, screen_message, Message, ModelRequest};
use crate::text::joined;

verus! {

/// Every way an operation can fail, as a closed set of kinds.
#[derive(Clone, Debug)]
pub enum QueryError {
    /// No credential was configured for the remote model.
    MissingCredential,
    /// No display is available to capture.
    NoDisplay,
    /// The display could not be captured; the detail says why.
    CaptureFailed(String),
    /// The captured pixels could not be encoded as PNG.
    EncodingFailed(String),
    /// The request never got a reply (DNS, connection, timeout).
    Transport(String),
    /// The remote side answered with a non-success status and this raw body.
    RemoteRejected(u16, String),
    /// The reply was a success but did not parse: parser detail, raw body.
    MalformedResponse(String, String),
    /// The reply parsed but held no answer text; the raw body.
    EmptyResponse(String),
    /// The conversation record could not be written.
    PersistenceFailed(String),
}

/// The query error that a capture error becomes.
pub open spec fn capture_failure(e: CaptureError) -> QueryError {
    match e {
        CaptureError::NoDisplay => QueryError::NoDisplay,
        CaptureError::CaptureFailed(d) => QueryError::CaptureFailed(d),
        CaptureError::EncodingFailed(d) => QueryError::EncodingFailed(d),
    }
}

/// Lifts a capture error into the query error of the same kind.
pub fn from_capture(e: CaptureError) -> (r: QueryError)
    ensures
        r == capture_failure(e),
{
    match e {
        CaptureError::NoDisplay => QueryError::NoDisplay,
        CaptureError::CaptureFailed(d) => QueryError::CaptureFailed(d),
        CaptureError::EncodingFailed(d) => QueryError::EncodingFailed(d),
    }
}

/// The one HTTP call that a query makes: a JSON POST of `body` to `url`.
#[derive(Clone, Debug)]
pub struct OutboundRequest {
    pub url: String,
    pub body: ModelRequest,
}

/// The fixed part of the endpoint, before the credential.
pub open spec fn endpoint_base() -> Seq<char> {
    "https://generativelanguage.googleapis.com/v1beta/models/gemini-2.5-flash-lite-preview-06-17:generateContent?key="@
}

/// The endpoint for `credential`: the fixed, versioned address, parameterized
/// by the credential alone.
pub open spec fn endpoint_for(credential: Seq<char>) -> Seq<char> {
    endpoint_base() + credential
}

/// The address to post a request to when authenticated by `credential`.
pub fn endpoint_url(credential: &str) -> (r: String)
    ensures
        r@ == endpoint_for(credential@),
{
    joined(
        "https://generativelanguage.googleapis.com/v1beta/models/gemini-2.5-flash-lite-preview-06-17:generateContent?key=",
        credential,
    )
}

/// The request that forwards `history` unchanged, authenticated by `credential`.
pub open spec fn is_conversation_request(req: OutboundRequest, credential: Seq<char>, history: Seq<Message>) -> bool {
    &&& req.url@ == endpoint_for(credential)
    &&& req.body.contents@ == history
}

/// `r` is the plan for sending `history` with the configured `credential`.
pub open spec fn plans_conversation(credential: Option<String>, history: Seq<Message>, r: Result<OutboundRequest, QueryError>) -> bool {
    match credential {
        None => r matches Err(QueryError::MissingCredential),
        Some(k) => r matches Ok(req) && is_conversation_request(req, k@, history),
    }
}

/// Plans the call that sends a conversation: with a credential, exactly one
/// request whose contents are `history`, in order and unchanged; without one,
/// `MissingCredential` and no request.
pub fn plan_conversation(credential: &Option<String>, history: Vec<Message>) -> (r: Result<OutboundRequest, QueryError>)
    ensures
        plans_conversation(*credential, history@, r),
{
    match credential {
        None => Err(QueryError::MissingCredential),
        Some(k) => {
            let url = endpoint_url(k.as_str());
            Ok(OutboundRequest { url, body: ModelRequest { contents: history } })
        },
    }
}

/// The standard, padded base64 text of a byte string.
pub uninterp spec fn base64_of(bytes: Seq<u8>) -> Seq<char>;

/// Relies on base64's `STANDARD` engine `encode`: the padded base64 text of `bytes`.
#[verifier::external_body]
fn base64_standard(bytes: &Vec<u8>) -> (r: String)
    ensures
        r@ == base64_of(bytes@),
{
    base64::engine::general_purpose::STANDARD.encode(bytes)
}

/// The request that asks `prompt` about the PNG file `png`, authenticated by `credential`:
/// one user turn, the prompt first and the base64 image second.
pub open spec fn is_screen_request(req: OutboundRequest, credential: Seq<char>, prompt: Seq<char>, png: Seq<u8>) -> bool {
    &&& req.url@ == endpoint_for(credential)
    &&& req.body.contents@.len() == 1
    &&& is_screen_message(req.body.contents@[0], prompt, base64_of(png))
}

/// Plans the call that asks `prompt` about an already encoded PNG file: without
/// a credential, `MissingCredential`; with one, exactly the screen request.
pub fn plan_screen_query(credential: &Option<String>, prompt: String, png: &Vec<u8>) -> (r: Result<OutboundRequest, QueryError>)
    ensures
        credential is None ==> r matches Err(QueryError::MissingCredential),
        credential matches Some(k) ==> (r matches Ok(req) && is_screen_request(req, k@, prompt@, png@)),
{
    match credential {
        None => Err(QueryError::MissingCredential),
        Some(k) => {
            let data = base64_standard(png);
            let message = screen_message(prompt, data);
            let mut contents: Vec<Message> = Vec::new();
            contents.push(message);
            let url = endpoint_url(k.as_str());
            Ok(OutboundRequest { url, body: ModelRequest { contents } })
        },
    }
}

/// `r` is the plan for asking `prompt` about the screen from the capture outcome
/// `shot`. A failed capture keeps its error; a frame the encoder refuses gives
/// `EncodingFailed`; otherwise a missing credential gives `MissingCredential`,
/// and a present one the screen request for the frame's PNG file.
pub open spec fn asks_about_screen(
    credential: Option<String>,
    prompt: Seq<char>,
    shot: Result<Frame, CaptureError>,
    r: Result<OutboundRequest, QueryError>,
) -> bool {
    &&& match shot {
        Err(e) => r == Err::<OutboundRequest, QueryError>(capture_failure(e)),
        Ok(f) => if !encodable(f) {
            r matches Err(QueryError::EncodingFailed(_))
        } else if credential is None {
            r matches Err(QueryError::MissingCredential)
        } else {
            r is Ok
        },
    }
    &&& credential is None ==> r is Err
    &&& match r {
        Ok(req) => match (credential, shot) {
            (Some(k), Ok(f)) => f.wf() && is_screen_request(req, k@, prompt, png_rgba8_of(f.width, f.height, f.rgba@))
                && starts_as_png(png_rgba8_of(f.width, f.height, f.rgba@)),
            _ => false,
        },
        Err(_) => true,
    }
}

/// Plans the call that asks `prompt` about the screen, from the outcome of the
/// capture. A failed capture or encoding ends the query before any request,
/// with the error of the same kind; so does a missing credential. A planned
/// request is always the screen request for a PNG of this frame, which opens
/// with the PNG signature.
pub fn ask_about_screen(credential: &Option<String>, prompt: String, shot: Result<Frame, CaptureError>) -> (r: Result<OutboundRequest, QueryError>)
    ensures
        asks_about_screen(*credential, prompt@, shot, r),
{
    let frame = match shot {
        Err(e) => return Err(from_capture(e)),
        Ok(f) => f,
    };
    let png = match encode_png(&frame) {
        Err(e) => return Err(from_capture(e)),
        Ok(b) => b,
    };
    plan_screen_query(credential, prompt, &png)
}

/// Without a credential, sending a conversation and asking about the screen
/// both fail, so neither makes a request, whatever the capture gave.
pub proof fn lemma_missing_credential(
    history: Seq<Message>,
    prompt: Seq<char>,
    shot: Result<Frame, CaptureError>,
    r1: Result<OutboundRequest, QueryError>,
    r2: Result<OutboundRequest, QueryError>,
)
    requires
        plans_conversation(None, history, r1),
        asks_about_screen(None, prompt, shot, r2),
    ensures
        r1 matches Err(QueryError::MissingCredential),
        r2 is Err,
{
}

} // verus!

//! The boundary contract of the completion service: the shape of a request
//! built from the transcript, the shape of a decoded response, and the rule
//! that extracts a reply from it.

use vstd::prelude::*;

verus! {

/// One text segment of a request turn.
pub struct RequestPart {
    pub text: String,
}

/// One turn of the conversation as the completion service expects it:
/// a role tag and its text parts.
pub struct RequestContent {
    pub parts: Vec<RequestPart>,
    pub role: String,
}

/// The full request body: the whole transcript so far, oldest turn first.
pub struct GeminiRequest {
    pub contents: Vec<RequestContent>,
}

/// One text segment of a response candidate.
pub struct ResponsePart {
    pub text: String,
}

/// The content of one response candidate.
pub struct ResponseContent {
    pub parts: Vec<ResponsePart>,
}

/// One candidate reply in a decoded response.
pub struct Candidate {
    pub content: ResponseContent,
}

/// A decoded response from the completion service.
pub struct GeminiResponse {
    pub candidates: Vec<Candidate>,
}

/// Why a completion round trip failed.
#[derive(Debug)]
pub enum CompletionError {
    /// The call could not be completed: connectivity, timeout, or a
    /// non-success status from the service.
    Transport(String),
    /// The response was decoded but lacks the expected candidate text.
    Protocol(String),
}

impl CompletionError {
    /// The diagnostic text the error carries.
    pub open spec fn spec_describe(&self) -> Seq<char> {
        match self {
            CompletionError::Transport(m) => m@,
            CompletionError::Protocol(m) => m@,
        }
    }

    /// The diagnostic text the error carries.
    pub fn describe(&self) -> (r: &str)
        ensures
            r@ == self.spec_describe(),
    {
        match self {
            CompletionError::Transport(m) => m.as_str(),
            CompletionError::Protocol(m) => m.as_str(),
        }
    }
}

/// Whether a decoded response carries a reply: at least one candidate whose
/// content has at least one text part.
pub open spec fn has_reply(resp: &GeminiResponse) -> bool {
    resp.candidates@.len() > 0 && resp.candidates@[0].content.parts@.len() > 0
}

/// The reply a response carries: the first text part of the first candidate.
pub open spec fn spec_reply(resp: &GeminiResponse) -> Seq<char> {
    resp.candidates@[0].content.parts@[0].text@
}

/// Take the reply out of a decoded response. A response without a candidate
/// or without a text part is a protocol error, never an empty reply.
pub fn extract_reply(resp: &GeminiResponse) -> (r: Result<String, CompletionError>)
    ensures
        has_reply(resp) ==> (r matches Ok(t) && t@ == spec_reply(resp)),
        !has_reply(resp) ==> (r matches Err(CompletionError::Protocol(m))
            && m@ == "Invalid response format from API"@),
{
    if resp.candidates.len() > 0 {
        let cand = &resp.candidates[0];
        if cand.content.parts.len() > 0 {
            return Ok(cand.content.parts[0].text.clone());
        }
    }
    Err(CompletionError::Protocol("Invalid response format from API".to_owned()))
}

/// The error reported when the service answers with a non-success status:
/// the raw error body behind a fixed prefix, classed as a transport failure.
pub fn status_error(body: String) -> (r: CompletionError)
    ensures
        (r matches CompletionError::Transport(m) && m@ == "API Error: "@ + body@),
{
    let mut m = String::from_str("API Error: ");
    m.append(body.as_str());
    CompletionError::Transport(m)
}

} // verus!

//! What the summarising backend's answer to a transcript chunk means for
//! the caller.
use vstd::prelude::*;

verus! {

/// How a request to the backend ended.
pub enum BackendReply {
    /// The HTTP client could not be built.
    ClientFailed(String),
    /// The request could not be sent.
    NetworkFailed(String),
    /// The backend answered with a failure status (as displayed) and body.
    HttpFailed { status: String, body: String },
    /// The success body could not be parsed.
    Unparsable(String),
    /// The success body, parsed.
    Parsed { ai_response: Option<String> },
}

/// The processed transcript, or the error to report.
pub open spec fn backend_outcome_spec(reply: BackendReply) -> Result<Seq<char>, Seq<char>> {
    match reply {
        BackendReply::ClientFailed(e) => Err("Failed to create HTTP client: "@ + e@),
        BackendReply::NetworkFailed(e) => Err("Network error: "@ + e@),
        BackendReply::HttpFailed { status, body } => Err(
            "Backend error: "@ + status@ + " - "@ + body@,
        ),
        BackendReply::Unparsable(e) => Err("Failed to parse response: "@ + e@),
        BackendReply::Parsed { ai_response } => match ai_response {
            Some(text) => Ok(text@),
            None => Err("Backend response missing ai_response"@),
        },
    }
}

pub open spec fn result_view(r: Result<String, String>) -> Result<Seq<char>, Seq<char>> {
    match r {
        Ok(s) => Ok(s@),
        Err(e) => Err(e@),
    }
}

/// The result of sending a transcript chunk to the backend: its processed
/// text when it gave one, else an error that says what went wrong.
pub fn backend_outcome(reply: BackendReply) -> (r: Result<String, String>)
    ensures
        result_view(r) == backend_outcome_spec(reply),
{
    match reply {
        BackendReply::ClientFailed(e) => Err(
            String::from_str("Failed to create HTTP client: ").concat(e.as_str()),
        ),
        BackendReply::NetworkFailed(e) => Err(String::from_str("Network error: ").concat(e.as_str())),
        BackendReply::HttpFailed { status, body } => Err(
            String::from_str("Backend error: ").concat(status.as_str()).concat(" - ").concat(
                body.as_str(),
            ),
        ),
        BackendReply::Unparsable(e) => Err(
            String::from_str("Failed to parse response: ").concat(e.as_str()),
        ),
        BackendReply::Parsed { ai_response } => match ai_response {
            Some(text) => Ok(text),
            None => Err(String::from_str("Backend response missing ai_response")),
        },
    }
}

} // verus!

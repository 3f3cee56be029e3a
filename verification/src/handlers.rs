//! What the two routes answer, as plain values for the transport to send.

use crate::models::{
    ContentRequest, ContentRequestView, ContentResponse, ContentResponseView, HealthResponse,
};
use crate::orchestrator::{answers, InternalFailure};
use crate::services::ai_service::ProviderFailure;
use vstd::prelude::*;
use vstd::string::*;

verus! {

/// The version that the health report carries.
pub const VERSION: &'static str = "0.1.0";

/// HTTP status of a successful answer.
pub const HTTP_OK: u16 = 200;

/// HTTP status of the generic failure.
pub const HTTP_INTERNAL_SERVER_ERROR: u16 = 500;

/// An HTTP answer: the status, and the body if there is one.
pub struct Reply<B> {
    pub status: u16,
    pub body: Option<B>,
}

/// The health report. It takes nothing and so depends on nothing: not on the
/// provider, not on any request.
pub fn health() -> (reply: Reply<HealthResponse>)
    ensures
        reply.status == HTTP_OK,
        reply.body is Some,
        reply.body->Some_0.status@ == "OK"@,
        reply.body->Some_0.version@ == VERSION@,
{
    Reply {
        status: HTTP_OK,
        body: Some(HealthResponse { status: "OK".to_string(), version: VERSION.to_string() }),
    }
}

/// The HTTP status that an answer is sent with.
pub open spec fn status_for<R>(answer: Result<R, InternalFailure>) -> u16 {
    match answer {
        Ok(_) => HTTP_OK,
        Err(_) => HTTP_INTERNAL_SERVER_ERROR,
    }
}

/// The body that an answer is sent with, if any.
pub open spec fn body_for<R>(answer: Result<R, InternalFailure>) -> Option<R> {
    match answer {
        Ok(response) => Some(response),
        Err(_) => None,
    }
}

/// The HTTP answer to a generation request: 200 with the envelope, or 500
/// with no body at all.
pub fn content_reply(answer: Result<ContentResponse, InternalFailure>) -> (reply: Reply<
    ContentResponse,
>)
    ensures
        reply.status == status_for(answer),
        reply.body == body_for(answer),
{
    match answer {
        Ok(response) => Reply { status: HTTP_OK, body: Some(response) },
        Err(_) => Reply { status: HTTP_INTERNAL_SERVER_ERROR, body: None },
    }
}

/// The line that is traced when a request comes in. It names the content type
/// and the language, and nothing else of the request.
pub open spec fn trace_text(request: ContentRequestView) -> Seq<char> {
    "Génération de contenu: type="@ + request.content_type + ", langue="@ + request.language
}

pub fn trace_line(request: &ContentRequest) -> (line: String)
    ensures
        line@ == trace_text(request@),
{
    let mut line = String::from_str("Génération de contenu: type=");
    line.append(request.content_type.as_str());
    line.append(", langue=");
    line.append(request.language.as_str());
    line
}

/// Every provider failure reaches the caller in one shape: status 500 and no
/// body. Which kind of failure it was cannot be told from the answer.
pub proof fn lemma_failure_is_sent_without_body(
    failure: ProviderFailure,
    answer: Result<ContentResponseView, InternalFailure>,
)
    requires
        answers(answer, Err(failure)),
    ensures
        status_for(answer) == 500,
        body_for(answer) is None,
{
}

/// Every provider text reaches the caller with status 200 and an envelope
/// that holds it.
pub proof fn lemma_text_is_sent_with_envelope(
    content: Seq<char>,
    answer: Result<ContentResponseView, InternalFailure>,
)
    requires
        answers(answer, Ok(content)),
    ensures
        status_for(answer) == 200,
        body_for(answer) is Some,
        body_for(answer)->Some_0.content == content,
{
}

} // verus!

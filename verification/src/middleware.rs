//! The recovery middleware: turns the outcome of one handled request into
//! the HTTP response the caller sees. Typed failures from the closed
//! taxonomy are rendered with their mapped status and verbatim message;
//! anything outside the taxonomy keeps the default rendering already
//! computed for it.

use vstd::prelude::*;
use crate::errors::RequestError;

verus! {

/// A plain HTTP response: status code and text body.
pub struct HttpResponse {
    pub status: u16,
    pub body: String,
}

/// What one invocation of the pipeline came to, as seen by the middleware:
/// a successful body text, a typed failure, or an opaque failure (for
/// instance a body that would not deserialize) that the taxonomy cannot
/// classify.
pub enum HandlerOutcome {
    Success(String),
    Typed(RequestError),
    Opaque,
}

/// Renders the outcome of the wrapped handler. A success passes through
/// with status 200. A typed failure is recovered into the taxonomy's mapped
/// status with the error's message as body. An opaque failure keeps
/// `default_render`, the rendering the failure produced for itself: the
/// middleware classifies only what it can, and loses nothing.
pub fn error_handler(outcome: HandlerOutcome, default_render: HttpResponse) -> (r: HttpResponse)
    ensures
        outcome matches HandlerOutcome::Success(text) ==> r.status == 200 && r.body@ == text@,
        outcome matches HandlerOutcome::Typed(e) ==> r.status == e.spec_status() && r.body@
            == e.spec_message(),
        outcome is Opaque ==> r == default_render,
{
    match outcome {
        HandlerOutcome::Success(text) => HttpResponse { status: 200, body: text },
        HandlerOutcome::Typed(e) => {
            let status = e.status();
            match e {
                RequestError::BadRequest { message } => HttpResponse { status, body: message },
                RequestError::InternalServerError { message } => HttpResponse {
                    status,
                    body: message,
                },
            }
        },
        HandlerOutcome::Opaque => default_render,
    }
}

} // verus!

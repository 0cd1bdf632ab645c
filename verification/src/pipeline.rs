//! The webhook pipeline: validates one inbound request, decides terminally
//! at the first applicable branch, and for a qualifying release constructs
//! the notification to dispatch.

use vstd::prelude::*;
use vstd::string::*;
use crate::errors::RequestError;
use crate::middleware::{error_handler, HandlerOutcome, HttpResponse};
use crate::notification::{
    build_notification, random_color, spec_fields, spec_title, NotificationMessage,
};
use crate::payload::ReleaseRequestBody;

verus! {

/// The state of the request body by the time the pipeline runs: absent,
/// present but undeserializable, or parsed.
pub enum RequestBodyState {
    Missing,
    Malformed,
    Parsed(ReleaseRequestBody),
}

/// What the pipeline decides for one request.
pub enum WebhookReply {
    /// A typed failure from the closed taxonomy.
    Failure(RequestError),
    /// The body would not deserialize: an opaque failure outside the
    /// taxonomy, left to the default rendering.
    Unparsed,
    /// Handled with a neutral acknowledgment; no outbound call is made.
    Acknowledged(String),
    /// A qualifying release: this notification is to be sent, once.
    Notify(NotificationMessage),
}

/// Character-for-character string equality.
pub fn str_eq(a: &str, b: &str) -> (r: bool)
    ensures
        r == (a@ == b@),
{
    let la = a.unicode_len();
    let lb = b.unicode_len();
    if la != lb {
        return false;
    }
    let mut i: usize = 0;
    while i < la
        invariant
            i <= la,
            la == a@.len(),
            lb == b@.len(),
            la == lb,
            forall|j: int| 0 <= j < i ==> a@[j] == b@[j],
        decreases la - i,
    {
        if a.get_char(i) != b.get_char(i) {
            return false;
        }
        i += 1;
    }
    proof {
        assert(a@ =~= b@);
    }
    true
}

/// Handles one webhook request, terminal at the first applicable branch:
/// no event-type header is a typed bad request; any event but a release is
/// acknowledged untouched; a missing body is a typed bad request; an
/// unparsable body stays an opaque failure; only the "edited" action with
/// exactly three asset slots yields a notification, titled after the
/// release and carrying one download-link field per present asset.
pub fn github_webhook(event_type: Option<&str>, body: &RequestBodyState) -> (r: WebhookReply)
    ensures
        event_type is None ==> (r matches WebhookReply::Failure(e) && e is BadRequest
            && e.spec_message() == "Request is not from GitHub"@),
        event_type matches Some(t) && t@ != "release"@ ==> (r matches WebhookReply::Acknowledged(
            text,
        ) && text@ == "Receieved"@),
        event_type matches Some(t) && t@ == "release"@ ==> match *body {
            RequestBodyState::Missing => r matches WebhookReply::Failure(e) && e is BadRequest
                && e.spec_message() == "Request body is missing"@,
            RequestBodyState::Malformed => r is Unparsed,
            RequestBodyState::Parsed(b) => if b.action@ != "edited"@ {
                r matches WebhookReply::Acknowledged(text) && text@ == "No action needed"@
            } else if b.release.assets@.len() != 3 {
                r matches WebhookReply::Acknowledged(text) && text@ == "Assets are not complete"@
            } else {
                r matches WebhookReply::Notify(m) && m.wf() && m.color < 0xFFFFFF && m.title@
                    == spec_title(b.release) && m.fields_model() == spec_fields(b.release.assets@)
            },
        },
{
    match event_type {
        None => {
            return WebhookReply::Failure(
                RequestError::BadRequest {
                    message: String::from_str("Request is not from GitHub"),
                },
            );
        },
        Some(t) => {
            if !str_eq(t, "release") {
                return WebhookReply::Acknowledged(String::from_str("Receieved"));
            }
        },
    }
    match body {
        RequestBodyState::Missing => WebhookReply::Failure(
            RequestError::BadRequest { message: String::from_str("Request body is missing") },
        ),
        RequestBodyState::Malformed => WebhookReply::Unparsed,
        RequestBodyState::Parsed(b) => {
            if !str_eq(b.action.as_str(), "edited") {
                return WebhookReply::Acknowledged(String::from_str("No action needed"));
            }
            if b.release.assets.len() != 3 {
                return WebhookReply::Acknowledged(String::from_str("Assets are not complete"));
            }
            let color = random_color();
            WebhookReply::Notify(build_notification(&b.release, color))
        },
    }
}

/// The fixed greeting of the liveness surface.
pub fn root() -> (r: &'static str)
    ensures
        r@ == "Hello, World"@,
{
    "Hello, World"
}

/// The acknowledgment after a dispatch attempt. The caller of the webhook
/// is told the release was processed whatever the outbound transport did:
/// a failed notification is a logged side observation, never the caller's
/// problem.
pub fn dispatch_response(send_result: &Result<(), String>) -> (t: String)
    ensures
        t@ == "Release processed"@,
{
    match send_result {
        Ok(_) => String::from_str("Release processed"),
        Err(_) => String::from_str("Release processed"),
    }
}

/// One request handled end to end, with the outbound transport's result
/// supplied as a value: the decision, the notification for a qualifying
/// release, and the response after recovery. No clause below mentions
/// `send_result`: the caller-visible response is pinned by the request
/// alone, so an outbound failure cannot change it. The handling carries no
/// state between requests either — no deduplication exists, so replaying an
/// identical payload yields a fresh notification attempt each time.
pub fn respond_to(
    event_type: Option<&str>,
    body: &RequestBodyState,
    send_result: &Result<(), String>,
    default_render: HttpResponse,
) -> (r: (HttpResponse, Option<NotificationMessage>))
    ensures
        event_type is None ==> r.0.status == 400 && r.0.body@ == "Request is not from GitHub"@
            && r.1 is None,
        event_type matches Some(t) && t@ != "release"@ ==> r.0.status == 200 && r.0.body@
            == "Receieved"@ && r.1 is None,
        event_type matches Some(t) && t@ == "release"@ ==> match *body {
            RequestBodyState::Missing => r.0.status == 400 && r.0.body@
                == "Request body is missing"@ && r.1 is None,
            RequestBodyState::Malformed => r.0 == default_render && r.1 is None,
            RequestBodyState::Parsed(b) => if b.action@ != "edited"@ {
                r.0.status == 200 && r.0.body@ == "No action needed"@ && r.1 is None
            } else if b.release.assets@.len() != 3 {
                r.0.status == 200 && r.0.body@ == "Assets are not complete"@ && r.1 is None
            } else {
                r.0.status == 200 && r.0.body@ == "Release processed"@ && (r.1 matches Some(m)
                    && m.wf() && m.color < 0xFFFFFF && m.title@ == spec_title(b.release)
                    && m.fields_model() == spec_fields(b.release.assets@))
            },
        },
{
    let reply = github_webhook(event_type, body);
    match reply {
        WebhookReply::Failure(e) => (error_handler(HandlerOutcome::Typed(e), default_render), None),
        WebhookReply::Unparsed => (error_handler(HandlerOutcome::Opaque, default_render), None),
        WebhookReply::Acknowledged(text) => (
            error_handler(HandlerOutcome::Success(text), default_render),
            None,
        ),
        WebhookReply::Notify(m) => {
            let text = dispatch_response(send_result);
            (error_handler(HandlerOutcome::Success(text), default_render), Some(m))
        },
    }
}

} // verus!

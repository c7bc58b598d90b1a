//! Capture-and-annotate: after the handler chain returns, inspect the
//! response, submit the failure as an event when a server error carries
//! one, optionally surface the event identifier in a header, and leave
//! the response otherwise exactly as the handler produced it.

use vstd::prelude::*;

use crate::event::Event;
use crate::event::spec_process_event;
use crate::middleware::SentryMiddleware;
use crate::middleware::spec_should_capture;
use crate::scope::ScopeModel;

verus! {

/// The failure a response may carry: its status code and the payload the
/// handler attached, which later error-rendering logic still needs.
pub struct ErrorPayload {
    pub status: u16,
    pub message: String,
}

/// Mathematical model of an [`ErrorPayload`].
#[verifier::ext_equal]
pub ghost struct ErrorView {
    pub status: u16,
    pub message: Seq<char>,
}

impl View for ErrorPayload {
    type V = ErrorView;

    open spec fn view(&self) -> ErrorView {
        ErrorView { status: self.status, message: self.message@ }
    }
}

/// The parts of the framework's response the middleware reads or writes:
/// status, the attached failure if any, and the headers.
pub struct HttpResponse {
    pub status: u16,
    pub error: Option<ErrorPayload>,
    pub headers: Vec<(String, String)>,
}

/// Mathematical model of an [`HttpResponse`].
#[verifier::ext_equal]
pub ghost struct ResponseView {
    pub status: u16,
    pub error: Option<ErrorView>,
    pub headers: Seq<(Seq<char>, Seq<char>)>,
}

impl View for HttpResponse {
    type V = ResponseView;

    open spec fn view(&self) -> ResponseView {
        ResponseView {
            status: self.status,
            error: match self.error {
                Some(payload) => Some(payload@),
                None => None,
            },
            headers: self.headers.deep_view(),
        }
    }
}

/// The fixed name of the response header that carries the event
/// identifier.
pub open spec fn spec_event_header_name() -> Seq<char> {
    "x-sentry-event"@
}

/// The name of the response header that carries the event identifier.
pub fn event_header_name() -> (r: String)
    ensures
        r@ == spec_event_header_name(),
{
    "x-sentry-event".to_owned()
}

/// A response is acted on exactly when capturing is enabled, the status
/// is a server error, and a failure payload is attached.
pub open spec fn spec_capture_applies(config: SentryMiddleware, response: ResponseView) -> bool {
    spec_should_capture(config, response.status) && response.error is Some
}

/// The headers after annotation: unchanged unless header emission is
/// enabled, in which case exactly the event header is appended.
pub open spec fn spec_annotated_headers(
    config: SentryMiddleware,
    headers: Seq<(Seq<char>, Seq<char>)>,
    id_hex: Seq<char>,
) -> Seq<(Seq<char>, Seq<char>)> {
    if config.emit_header {
        headers.push((spec_event_header_name(), id_hex))
    } else {
        headers
    }
}

/// What one pass of capture-and-annotate produced: the finalized
/// response, and the event that was submitted, if any.
pub struct CaptureOutcome {
    pub response: HttpResponse,
    pub submitted: Option<Event>,
}

/// Capture-and-annotate. When the configuration, the status and an
/// attached failure call for capture, exactly one event — `base_event`,
/// the reporting client's conversion of the failure, enriched by the
/// scope's processor — is submitted, the event header is appended when
/// emission is enabled, and the failure stays attached with its original
/// status and payload. On every other response nothing is submitted and
/// the response passes through unchanged. `event_id_hex` is the rendered
/// identifier the submission returned.
pub fn capture_and_annotate(
    config: &SentryMiddleware,
    scope: &ScopeModel,
    response: HttpResponse,
    base_event: Event,
    event_id_hex: &String,
) -> (r: CaptureOutcome)
    ensures
        !spec_capture_applies(*config, response@) ==> r.response@ == response@ && r.submitted
            is None,
        spec_capture_applies(*config, response@) ==> {
            &&& r.response@.status == response@.status
            &&& r.response@.error == response@.error
            &&& r.response@.headers == spec_annotated_headers(
                *config,
                response@.headers,
                event_id_hex@,
            )
            &&& r.submitted matches Some(submitted) && submitted@ == spec_process_event(
                base_event@,
                scope@.snapshot,
            )
        },
{
    let ghost pre = response@;
    let mut response = response;
    let mut submitted: Option<Event> = None;
    if config.should_capture(response.status) && response.error.is_some() {
        submitted = crate::scope::apply_event_processor(scope, base_event);
        if config.emit_header {
            response.headers.push((event_header_name(), event_id_hex.clone()));
            proof {
                assert(response@.headers =~= spec_annotated_headers(
                    *config,
                    pre.headers,
                    event_id_hex@,
                ));
            }
        }
    }
    proof {
        if !spec_capture_applies(*config, pre) {
            assert(response@ =~= pre);
        }
    }
    CaptureOutcome { response, submitted }
}

} // verus!

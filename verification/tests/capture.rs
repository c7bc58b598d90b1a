use sentry_tide::capture::ErrorPayload;
use sentry_tide::capture::HttpResponse;
use sentry_tide::capture::capture_and_annotate;
use sentry_tide::capture::event_header_name;
use sentry_tide::event::Event;
use sentry_tide::middleware::SentryMiddleware;
use sentry_tide::request::RequestHead;
use sentry_tide::scope::ScopeModel;
use sentry_tide::scope::begin_request_scope;

fn sample_scope() -> ScopeModel {
    let head = RequestHead {
        path: "/orders/42".to_string(),
        url: "http://example.com/orders/42".to_string(),
        method: "GET".to_string(),
        headers: vec![("accept".to_string(), "text/html".to_string())],
        remote: None,
    };
    begin_request_scope(&head, false)
}

fn failing_response(status: u16) -> HttpResponse {
    HttpResponse {
        status,
        error: Some(ErrorPayload { status, message: "handler failed".to_string() }),
        headers: vec![("content-type".to_string(), "text/plain".to_string())],
    }
}

fn bare_event() -> Event {
    Event { request: None, sdk: None }
}

fn sample_hex() -> String {
    "0123456789abcdef0123456789abcdef".to_string()
}

#[test]
fn success_response_passes_through_untouched() {
    let config = SentryMiddleware::new().emit_header(true);
    let response = HttpResponse {
        status: 200,
        error: None,
        headers: vec![("content-type".to_string(), "text/html".to_string())],
    };
    let hex = sample_hex();
    let out = capture_and_annotate(&config, &sample_scope(), response, bare_event(), &hex);
    assert!(out.submitted.is_none());
    assert_eq!(out.response.status, 200);
    assert!(out.response.error.is_none());
    assert_eq!(out.response.headers, vec![("content-type".to_string(), "text/html".to_string())]);
}

#[test]
fn client_error_passes_through_untouched() {
    let config = SentryMiddleware::new().emit_header(true);
    let hex = sample_hex();
    let out = capture_and_annotate(&config, &sample_scope(), failing_response(404), bare_event(), &hex);
    assert!(out.submitted.is_none());
    assert_eq!(out.response.headers.len(), 1);
    let error = out.response.error.expect("payload should stay attached");
    assert_eq!(error.status, 404);
}

#[test]
fn server_error_without_payload_passes_through() {
    let config = SentryMiddleware::new().emit_header(true);
    let response = HttpResponse { status: 503, error: None, headers: Vec::new() };
    let hex = sample_hex();
    let out = capture_and_annotate(&config, &sample_scope(), response, bare_event(), &hex);
    assert!(out.submitted.is_none());
    assert!(out.response.headers.is_empty());
}

#[test]
fn capture_disabled_never_submits() {
    let config = SentryMiddleware::new().capture_server_errors(false).emit_header(true);
    let hex = sample_hex();
    let out = capture_and_annotate(&config, &sample_scope(), failing_response(503), bare_event(), &hex);
    assert!(out.submitted.is_none());
    assert_eq!(out.response.headers.len(), 1);
}

#[test]
fn captured_event_carries_own_snapshot() {
    let config = SentryMiddleware::new();
    let hex = sample_hex();
    let out = capture_and_annotate(&config, &sample_scope(), failing_response(500), bare_event(), &hex);
    let event = out.submitted.expect("exactly one event should be submitted");
    let request = event.request.expect("request field should be enriched");
    assert_eq!(request.url, "http://example.com/orders/42");
    assert_eq!(request.method, "GET");
    assert_eq!(request.headers, vec![("accept".to_string(), "text/html".to_string())]);
    assert!(request.remote_addr.is_none());
    assert!(event.sdk.is_none());
    // emission disabled: no header added even though capture occurred
    assert_eq!(out.response.headers.len(), 1);
    assert_eq!(out.response.headers[0].0, "content-type");
}

#[test]
fn inner_processor_request_not_overwritten() {
    let config = SentryMiddleware::new();
    let hex = sample_hex();
    let inner = sentry_tide::request::RequestSnapshot {
        url: "http://inner.example/seen-first".to_string(),
        method: "PATCH".to_string(),
        headers: Vec::new(),
        remote_addr: None,
    };
    let event = Event { request: Some(inner), sdk: None };
    let out = capture_and_annotate(&config, &sample_scope(), failing_response(502), event, &hex);
    let submitted = out.submitted.expect("event should be submitted");
    let request = submitted.request.expect("request field should stay");
    assert_eq!(request.url, "http://inner.example/seen-first");
    assert_eq!(request.method, "PATCH");
}

#[test]
fn emit_header_appends_event_header() {
    let config = SentryMiddleware::new().emit_header(true);
    let hex = sample_hex();
    let out = capture_and_annotate(&config, &sample_scope(), failing_response(500), bare_event(), &hex);
    assert!(out.submitted.is_some());
    assert_eq!(out.response.status, 500);
    let error = out.response.error.expect("payload should be re-attached");
    assert_eq!(error.status, 500);
    assert_eq!(error.message, "handler failed");
    assert_eq!(out.response.headers.len(), 2);
    assert_eq!(out.response.headers[1].0, event_header_name());
    assert_eq!(out.response.headers[1].0, "x-sentry-event");
    assert_eq!(out.response.headers[1].1, hex);
}

#[test]
fn end_to_end_orders_route() {
    let head = RequestHead {
        path: "/orders/42".to_string(),
        url: "http://example.com/orders/42".to_string(),
        method: "GET".to_string(),
        headers: Vec::new(),
        remote: None,
    };
    let scope = begin_request_scope(&head, false);
    assert_eq!(scope.transaction, Some("/orders/42".to_string()));

    let config = SentryMiddleware::new().emit_header(true);
    let response = HttpResponse {
        status: 503,
        error: Some(ErrorPayload { status: 503, message: "upstream down".to_string() }),
        headers: Vec::new(),
    };
    let hex = sample_hex();
    let out = capture_and_annotate(&config, &scope, response, bare_event(), &hex);

    assert_eq!(out.response.status, 503);
    assert_eq!(out.response.headers.len(), 1);
    assert_eq!(out.response.headers[0].0, "x-sentry-event");
    assert_eq!(out.response.headers[0].1, hex);
    let event = out.submitted.expect("one event submitted");
    assert_eq!(event.request.expect("request enriched").method, "GET");
}

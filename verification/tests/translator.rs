use sentry_tide::request::RequestHead;
use sentry_tide::request::sentry_request_from_http;
use sentry_tide::scope::begin_request_scope;

fn sample_request() -> RequestHead {
    RequestHead {
        path: "/orders/42".to_string(),
        url: "http://example.com/orders/42?full=1".to_string(),
        method: "GET".to_string(),
        headers: vec![
            ("accept".to_string(), "text/html".to_string()),
            ("x-tag".to_string(), "one".to_string()),
            ("x-tag".to_string(), "two".to_string()),
        ],
        remote: Some("10.0.0.9:55555".to_string()),
    }
}

#[test]
fn transaction_is_request_path() {
    let (tx, _) = sentry_request_from_http(&sample_request(), false);
    assert_eq!(tx, Some("/orders/42".to_string()));
}

#[test]
fn snapshot_copies_url_method_headers_in_order() {
    let req = sample_request();
    let (_, snap) = sentry_request_from_http(&req, false);
    assert_eq!(snap.url, "http://example.com/orders/42?full=1");
    assert_eq!(snap.method, "GET");
    assert_eq!(snap.headers.len(), 3);
    assert_eq!(snap.headers[0], ("accept".to_string(), "text/html".to_string()));
    assert_eq!(snap.headers[1], ("x-tag".to_string(), "one".to_string()));
    assert_eq!(snap.headers[2], ("x-tag".to_string(), "two".to_string()));
}

#[test]
fn pii_disabled_omits_remote_even_when_known() {
    let (_, snap) = sentry_request_from_http(&sample_request(), false);
    assert!(snap.remote_addr.is_none());
}

#[test]
fn pii_enabled_includes_known_remote() {
    let (_, snap) = sentry_request_from_http(&sample_request(), true);
    assert_eq!(snap.remote_addr, Some("10.0.0.9:55555".to_string()));
}

#[test]
fn pii_enabled_absent_remote_stays_absent() {
    let mut req = sample_request();
    req.remote = None;
    let (_, snap) = sentry_request_from_http(&req, true);
    assert!(snap.remote_addr.is_none());
}

#[test]
fn empty_header_list_stays_empty() {
    let mut req = sample_request();
    req.headers = Vec::new();
    let (_, snap) = sentry_request_from_http(&req, false);
    assert!(snap.headers.is_empty());
}

#[test]
fn scopes_of_two_requests_stay_isolated() {
    let first = sample_request();
    let mut second = sample_request();
    second.path = "/health".to_string();
    second.url = "http://example.com/health".to_string();
    second.headers = vec![("accept".to_string(), "application/json".to_string())];

    let scope_one = begin_request_scope(&first, false);
    let scope_two = begin_request_scope(&second, false);

    assert_eq!(scope_one.transaction, Some("/orders/42".to_string()));
    assert_eq!(scope_two.transaction, Some("/health".to_string()));
    assert_ne!(scope_one.transaction, scope_two.transaction);
    assert_eq!(scope_one.snapshot.url, "http://example.com/orders/42?full=1");
    assert_eq!(scope_two.snapshot.url, "http://example.com/health");
    assert_eq!(scope_one.snapshot.headers.len(), 3);
    assert_eq!(scope_two.snapshot.headers.len(), 1);
}

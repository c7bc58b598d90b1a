//! The middleware configuration: builder-assembled before server
//! startup, immutable afterwards, and the decision of when a response is
//! captured.

use vstd::prelude::*;

use std::sync::Arc;

verus! {

/// Configuration of the error-reporting middleware: which hub to derive
/// per-request hubs from (the process default when absent), whether to
/// surface the event identifier in a response header, and whether server
/// errors are captured at all.
pub struct SentryMiddleware {
    pub hub: Option<Arc<sentry_core::Hub>>,
    pub emit_header: bool,
    pub capture_server_errors: bool,
}

impl SentryMiddleware {
    /// A fresh configuration: default hub, no header emission, server
    /// errors captured.
    pub fn new() -> (r: Self)
        ensures
            r.hub is None,
            r.emit_header == false,
            r.capture_server_errors == true,
    {
        Self { hub: None, emit_header: false, capture_server_errors: true }
    }

    /// Reconfigures the middleware so that it uses a specific hub instead
    /// of the default one.
    pub fn with_hub(self, hub: Arc<sentry_core::Hub>) -> (r: Self)
        ensures
            r.hub == Some(hub),
            r.emit_header == self.emit_header,
            r.capture_server_errors == self.capture_server_errors,
    {
        Self { hub: Some(hub), ..self }
    }

    /// Reconfigures the middleware so that it uses the default hub.
    pub fn with_default_hub(self) -> (r: Self)
        ensures
            r.hub is None,
            r.emit_header == self.emit_header,
            r.capture_server_errors == self.capture_server_errors,
    {
        Self { hub: None, ..self }
    }

    /// If configured the sentry id is attached to a X-Sentry-Event header.
    pub fn emit_header(self, val: bool) -> (r: Self)
        ensures
            r.hub == self.hub,
            r.emit_header == val,
            r.capture_server_errors == self.capture_server_errors,
    {
        Self { emit_header: val, ..self }
    }

    /// Enables or disables error reporting.
    ///
    /// The default is to report all errors.
    pub fn capture_server_errors(self, val: bool) -> (r: Self)
        ensures
            r.hub == self.hub,
            r.emit_header == self.emit_header,
            r.capture_server_errors == val,
    {
        Self { capture_server_errors: val, ..self }
    }

    /// Whether a response with this status is captured under this
    /// configuration.
    pub fn should_capture(&self, status: u16) -> (r: bool)
        ensures
            r == spec_should_capture(*self, status),
    {
        self.capture_server_errors && status_is_server_error(status)
    }
}

impl Default for SentryMiddleware {
    fn default() -> (r: Self)
        ensures
            r.hub is None,
            r.emit_header == false,
            r.capture_server_errors == true,
    {
        Self::new()
    }
}

/// The server-error class: status codes 500 through 599.
pub open spec fn spec_is_server_error(status: u16) -> bool {
    500 <= status && status <= 599
}

/// Whether a status code is in the server-error class.
pub fn status_is_server_error(status: u16) -> (r: bool)
    ensures
        r == spec_is_server_error(status),
{
    500 <= status && status <= 599
}

/// A response is captured exactly when capturing is enabled and the
/// status is a server error.
pub open spec fn spec_should_capture(config: SentryMiddleware, status: u16) -> bool {
    config.capture_server_errors && spec_is_server_error(status)
}

} // verus!

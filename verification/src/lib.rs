//! Request-scoped error reporting for a Tide HTTP server.
//!
//! The middleware observes every inbound request, builds an isolated
//! reporting scope holding a snapshot of the request, lets the handler
//! chain run, and — when the handler fails with a server error — captures
//! the failure as a structured event through the Sentry client, optionally
//! surfacing the event identifier in a response header.

pub mod capture;
pub mod event;
pub mod hub;
pub mod laws;
pub mod middleware;
pub mod request;
pub mod scope;

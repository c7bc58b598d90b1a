//! The reporting-client boundary: declarations of the Sentry types the
//! middleware holds, and thin trusted wrappers around the few client
//! calls it makes. Everything decided from their results is verified in
//! the callers.

use vstd::prelude::*;

use std::sync::Arc;

verus! {

#[verifier::external_type_specification]
#[verifier::external_body]
pub struct ExHub(sentry_core::Hub);

#[verifier::external_type_specification]
#[verifier::external_body]
pub struct ExClient(sentry_core::Client);

#[verifier::external_type_specification]
#[verifier::external_body]
pub struct ExUuid(sentry_core::types::Uuid);

#[verifier::external_type_specification]
#[verifier::external_body]
pub struct ExAnyhowError(anyhow::Error);

/// Relies on sentry_core::Hub::main: returns the process-wide default hub.
#[verifier::external_body]
pub(crate) fn hub_main() -> (r: Arc<sentry_core::Hub>) {
    sentry_core::Hub::main()
}

/// Relies on sentry_core::Hub::new_from_top: a fresh hub that shares the
/// parent's client and a copy of its top scope, so per-request scope
/// mutations never touch the parent.
#[verifier::external_body]
pub(crate) fn hub_new_from_top(parent: &Arc<sentry_core::Hub>) -> (r: Arc<sentry_core::Hub>) {
    Arc::new(sentry_core::Hub::new_from_top(parent))
}

/// Relies on sentry_core::Hub::client: the client currently bound to the
/// hub, absent when reporting is disabled.
#[verifier::external_body]
fn hub_client(hub: &Arc<sentry_core::Hub>) -> (r: Option<Arc<sentry_core::Client>>) {
    hub.client()
}

/// Relies on sentry_core::Client::options: send_default_pii is the PII
/// flag the client was configured with.
#[verifier::external_body]
fn client_send_default_pii(client: &Arc<sentry_core::Client>) -> (r: bool) {
    client.options().send_default_pii
}

/// Relies on sentry_anyhow::AnyhowHubExt::capture_anyhow: converts the
/// error (with its source chain) into an event, submits it through the
/// hub's scope, and returns the event identifier, generated before any
/// delivery decision; without a bound client nothing is submitted and
/// the nil identifier comes back.
#[verifier::external_body]
fn hub_capture_anyhow(hub: &Arc<sentry_core::Hub>, error: &anyhow::Error) -> (r:
    sentry_core::types::Uuid) {
    sentry_anyhow::AnyhowHubExt::capture_anyhow(&**hub, error)
}

/// A lowercase hexadecimal digit.
pub open spec fn spec_is_hex_lower(c: char) -> bool {
    ('0' <= c && c <= '9') || ('a' <= c && c <= 'f')
}

/// Relies on uuid's simple formatter, which sentry_core::types::Uuid
/// exposes: exactly 32 lowercase hexadecimal digits, no hyphens.
#[verifier::external_body]
fn uuid_simple_hex(id: &sentry_core::types::Uuid) -> (r: String)
    ensures
        r@.len() == 32,
        forall|i: int| 0 <= i < r@.len() ==> spec_is_hex_lower(#[trigger] r@[i]),
{
    id.as_simple().to_string()
}

/// Whether the client bound to this hub was configured to send personally
/// identifying information; false when no client is bound.
pub fn hub_wants_pii(hub: &Arc<sentry_core::Hub>) -> bool {
    match hub_client(hub) {
        Some(client) => client_send_default_pii(&client),
        None => false,
    }
}

/// Submits the failure through the given hub and returns the event
/// identifier rendered in its simple form: 32 lowercase hexadecimal
/// digits. Submission is fire-and-forget; an unconfigured client makes
/// it a no-op, and an identifier is returned either way.
pub fn capture_error_id_hex(hub: &Arc<sentry_core::Hub>, error: &anyhow::Error) -> (r: String)
    ensures
        r@.len() == 32,
        forall|i: int| 0 <= i < r@.len() ==> spec_is_hex_lower(#[trigger] r@[i]),
{
    let id = hub_capture_anyhow(hub, error);
    uuid_simple_hex(&id)
}

} // verus!

//! The context manager: one isolated reporting scope per request,
//! derived from the configured or default hub, holding the transaction
//! label and the request snapshot its event processor enriches with.

use vstd::prelude::*;

use std::sync::Arc;

use crate::event::Event;
use crate::event::spec_process_event;
use crate::middleware::SentryMiddleware;
use crate::request::RequestHead;
use crate::request::RequestSnapshot;
use crate::request::SnapshotView;
use crate::request::sentry_request_from_http;
use crate::request::spec_snapshot;
use crate::request::spec_transaction;

verus! {

/// The per-request scope state this middleware installs: the transaction
/// label and the request snapshot captured when the request arrived.
/// Each request owns its own value; nothing here is shared between
/// concurrent requests.
pub struct ScopeModel {
    pub transaction: Option<String>,
    pub snapshot: RequestSnapshot,
}

/// Mathematical model of a [`ScopeModel`].
#[verifier::ext_equal]
pub ghost struct ScopeView {
    pub transaction: Option<Seq<char>>,
    pub snapshot: SnapshotView,
}

impl View for ScopeModel {
    type V = ScopeView;

    open spec fn view(&self) -> ScopeView {
        ScopeView { transaction: self.transaction.deep_view(), snapshot: self.snapshot@ }
    }
}

/// Creates the scope for one request: the transaction label is the
/// request path, and the snapshot reflects the request as it stands now,
/// with the remote address kept only under PII inclusion.
pub fn begin_request_scope(request: &RequestHead, with_pii: bool) -> (r: ScopeModel)
    ensures
        r@.transaction == spec_transaction(request@),
        r@.snapshot == spec_snapshot(request@, with_pii),
{
    let (transaction, snapshot) = sentry_request_from_http(request, with_pii);
    ScopeModel { transaction, snapshot }
}

/// The scope's event processor, as registered on the request's hub:
/// never suppresses an event, and hands back the event enriched with the
/// snapshot captured at scope-creation time.
pub fn apply_event_processor(scope: &ScopeModel, event: Event) -> (r: Option<Event>)
    ensures
        r matches Some(processed) && processed@ == spec_process_event(event@, scope@.snapshot),
{
    Some(crate::event::process_event(event, &scope.snapshot))
}

/// The hub a request's processing binds to: a fresh child of the
/// configured hub, or of the process default when none is configured, so
/// per-request scope mutations stay invisible to every other request.
pub fn isolated_hub(config: &SentryMiddleware) -> Arc<sentry_core::Hub> {
    match &config.hub {
        Some(parent) => crate::hub::hub_new_from_top(parent),
        None => {
            let main = crate::hub::hub_main();
            crate::hub::hub_new_from_top(&main)
        },
    }
}

} // verus!

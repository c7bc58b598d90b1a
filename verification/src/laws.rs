//! The guarantees the middleware gives, stated and proved over the spec
//! functions its contracts use.

use vstd::prelude::*;

use crate::capture::ResponseView;
use crate::capture::spec_annotated_headers;
use crate::capture::spec_capture_applies;
use crate::capture::spec_event_header_name;
use crate::event::EventView;
use crate::event::spec_middleware_package;
use crate::event::spec_process_event;
use crate::middleware::SentryMiddleware;
use crate::request::ReqView;
use crate::request::SnapshotView;
use crate::request::spec_snapshot;
use crate::request::spec_transaction;

verus! {

/// A response whose status is below the server-error class is never
/// captured: no event is submitted and, by the contract of
/// capture-and-annotate, the response passes through unchanged.
pub proof fn lemma_success_never_captured(config: SentryMiddleware, response: ResponseView)
    requires
        response.status < 500,
    ensures
        !spec_capture_applies(config, response),
{
}

/// With server-error capture disabled, no response is ever captured,
/// whatever its status and whether or not a failure is attached.
pub proof fn lemma_capture_disabled(config: SentryMiddleware, response: ResponseView)
    requires
        !config.capture_server_errors,
    ensures
        !spec_capture_applies(config, response),
{
}

/// The PII rule: with PII disabled the snapshot never holds a remote
/// address, even when the peer is known; with PII enabled it holds
/// exactly the request's peer address. Everything else in the snapshot
/// is the request's own data either way.
pub proof fn lemma_pii_rule(req: ReqView)
    ensures
        spec_snapshot(req, false).remote_addr is None,
        spec_snapshot(req, true).remote_addr == req.remote,
        forall|with_pii: bool|
            {
                &&& (#[trigger] spec_snapshot(req, with_pii)).url == req.url
                &&& spec_snapshot(req, with_pii).method == req.method
                &&& spec_snapshot(req, with_pii).headers == req.headers
            },
{
}

/// Isolation between concurrent requests: each request's scope carries
/// its own transaction label and its own snapshot, so two requests with
/// different paths observe different transactions, and a bare event
/// enriched in either scope carries exactly that scope's snapshot —
/// never the other's, as long as anything in the two snapshots differs.
pub proof fn lemma_scope_isolation(
    r1: ReqView,
    r2: ReqView,
    pii1: bool,
    pii2: bool,
    e: EventView,
)
    requires
        r1.path != r2.path,
        e.request is None,
    ensures
        spec_transaction(r1) != spec_transaction(r2),
        spec_process_event(e, spec_snapshot(r1, pii1)).request == Some(spec_snapshot(r1, pii1)),
        spec_process_event(e, spec_snapshot(r2, pii2)).request == Some(spec_snapshot(r2, pii2)),
        r1.url != r2.url ==> spec_process_event(e, spec_snapshot(r1, pii1)).request
            != spec_process_event(e, spec_snapshot(r2, pii2)).request,
{
}

/// Enrichment never overwrites: an event whose request field an inner
/// processor already set keeps that value through this middleware's
/// processor.
pub proof fn lemma_enrichment_keeps_existing_request(e: EventView, snapshot: SnapshotView)
    requires
        e.request is Some,
    ensures
        spec_process_event(e, snapshot).request == e.request,
{
}

/// The SDK-metadata rule: an event that carries SDK package info gains
/// exactly one entry — this middleware's name and version — with every
/// existing entry kept in place; an event without SDK info gains none.
pub proof fn lemma_sdk_metadata(e: EventView, snapshot: SnapshotView)
    ensures
        e.sdk is None ==> spec_process_event(e, snapshot).sdk is None,
        e.sdk matches Some(packages) ==> {
            &&& spec_process_event(e, snapshot).sdk matches Some(out)
            &&& out.len() == packages.len() + 1
            &&& out.take(packages.len() as int) == packages
            &&& out.last() == spec_middleware_package()
        },
{
    if let Some(packages) = e.sdk {
        assert(packages.push(spec_middleware_package()).take(packages.len() as int)
            =~= packages);
    }
}

/// Header emission: with the flag enabled, annotation appends exactly
/// one header — the event header, holding the rendered identifier — and
/// with it disabled the headers are untouched, capture or not.
pub proof fn lemma_header_emission(
    config: SentryMiddleware,
    headers: Seq<(Seq<char>, Seq<char>)>,
    id_hex: Seq<char>,
)
    ensures
        config.emit_header ==> spec_annotated_headers(config, headers, id_hex) == headers.push(
            (spec_event_header_name(), id_hex),
        ),
        !config.emit_header ==> spec_annotated_headers(config, headers, id_hex) == headers,
{
}

} // verus!

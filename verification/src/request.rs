//! The request translator: a pure function from the inbound request to a
//! transaction label and an immutable request snapshot.

use vstd::prelude::*;

verus! {

/// The fields of an inbound HTTP request that the middleware reads: the
/// URL path, the full URL, the method, the headers in iteration order
/// (duplicate names kept as separate entries), and the peer address if
/// the server knows it.
pub struct RequestHead {
    pub path: String,
    pub url: String,
    pub method: String,
    pub headers: Vec<(String, String)>,
    pub remote: Option<String>,
}

/// Mathematical model of a [`RequestHead`].
#[verifier::ext_equal]
pub ghost struct ReqView {
    pub path: Seq<char>,
    pub url: Seq<char>,
    pub method: Seq<char>,
    pub headers: Seq<(Seq<char>, Seq<char>)>,
    pub remote: Option<Seq<char>>,
}

impl View for RequestHead {
    type V = ReqView;

    open spec fn view(&self) -> ReqView {
        ReqView {
            path: self.path@,
            url: self.url@,
            method: self.method@,
            headers: self.headers.deep_view(),
            remote: self.remote.deep_view(),
        }
    }
}

/// An immutable captured view of one request: URL, method, headers in
/// order, and — only when PII inclusion was enabled at construction
/// time — the remote peer address.
pub struct RequestSnapshot {
    pub url: String,
    pub method: String,
    pub headers: Vec<(String, String)>,
    pub remote_addr: Option<String>,
}

/// Mathematical model of a [`RequestSnapshot`].
#[verifier::ext_equal]
pub ghost struct SnapshotView {
    pub url: Seq<char>,
    pub method: Seq<char>,
    pub headers: Seq<(Seq<char>, Seq<char>)>,
    pub remote_addr: Option<Seq<char>>,
}

impl View for RequestSnapshot {
    type V = SnapshotView;

    open spec fn view(&self) -> SnapshotView {
        SnapshotView {
            url: self.url@,
            method: self.method@,
            headers: self.headers.deep_view(),
            remote_addr: self.remote_addr.deep_view(),
        }
    }
}

/// The snapshot that the translator owes for a given request: URL, method
/// and headers copied verbatim; the remote address kept only when PII
/// inclusion is enabled.
pub open spec fn spec_snapshot(req: ReqView, with_pii: bool) -> SnapshotView {
    SnapshotView {
        url: req.url,
        method: req.method,
        headers: req.headers,
        remote_addr: if with_pii {
            req.remote
        } else {
            None
        },
    }
}

/// The transaction label that the translator owes: the request path.
pub open spec fn spec_transaction(req: ReqView) -> Option<Seq<char>> {
    Some(req.path)
}

fn clone_headers(headers: &Vec<(String, String)>) -> (r: Vec<(String, String)>)
    ensures
        r.deep_view() == headers.deep_view(),
{
    let mut out: Vec<(String, String)> = Vec::new();
    let mut i: usize = 0;
    while i < headers.len()
        invariant
            i <= headers.len(),
            out@.len() == i as int,
            forall|j: int| 0 <= j < i ==> out@[j] == headers@[j],
        decreases headers.len() - i,
    {
        let name = headers[i].0.clone();
        let value = headers[i].1.clone();
        out.push((name, value));
        i = i + 1;
    }
    proof {
        assert(out.deep_view() =~= headers.deep_view());
    }
    out
}

fn clone_opt_string(s: &Option<String>) -> (r: Option<String>)
    ensures
        r.deep_view() == s.deep_view(),
{
    match s {
        Some(inner) => Some(inner.clone()),
        None => None,
    }
}

/// The request translator. Pure: copies the path as the transaction
/// label and the URL, method and headers into the snapshot; includes the
/// remote peer address only when `with_pii` holds.
pub fn sentry_request_from_http(request: &RequestHead, with_pii: bool) -> (r: (
    Option<String>,
    RequestSnapshot,
))
    ensures
        r.0.deep_view() == spec_transaction(request@),
        r.1@ == spec_snapshot(request@, with_pii),
{
    let transaction = Some(request.path.clone());
    let remote_addr = if with_pii {
        clone_opt_string(&request.remote)
    } else {
        None
    };
    let snapshot = RequestSnapshot {
        url: request.url.clone(),
        method: request.method.clone(),
        headers: clone_headers(&request.headers),
        remote_addr,
    };
    proof {
        assert(snapshot@ =~= spec_snapshot(request@, with_pii));
    }
    (transaction, snapshot)
}

impl RequestSnapshot {
    /// An owned copy with the same model.
    pub fn duplicate(&self) -> (r: Self)
        ensures
            r@ == self@,
    {
        let r = RequestSnapshot {
            url: self.url.clone(),
            method: self.method.clone(),
            headers: clone_headers(&self.headers),
            remote_addr: clone_opt_string(&self.remote_addr),
        };
        proof {
            assert(r@ =~= self@);
        }
        r
    }
}

} // verus!

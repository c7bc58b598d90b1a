//! The error-event model and the enrichment processor that runs on every
//! event submitted through a request's scope.

use vstd::prelude::*;

use crate::request::RequestSnapshot;
use crate::request::SnapshotView;

verus! {

/// One entry of an event's SDK package list.
pub struct ClientSdkPackage {
    pub name: String,
    pub version: String,
}

/// Mathematical model of a [`ClientSdkPackage`].
#[verifier::ext_equal]
pub ghost struct PackageView {
    pub name: Seq<char>,
    pub version: Seq<char>,
}

impl View for ClientSdkPackage {
    type V = PackageView;

    open spec fn view(&self) -> PackageView {
        PackageView { name: self.name@, version: self.version@ }
    }
}

/// The SDK metadata an event may carry.
pub struct ClientSdk {
    pub packages: Vec<ClientSdkPackage>,
}

/// The fields of an error event that the enrichment processor reads or
/// writes: the optional request field and the optional SDK metadata.
/// Everything else an event carries is the reporting client's business
/// and flows around the processor untouched.
pub struct Event {
    pub request: Option<RequestSnapshot>,
    pub sdk: Option<ClientSdk>,
}

/// Mathematical model of an [`Event`].
#[verifier::ext_equal]
pub ghost struct EventView {
    pub request: Option<SnapshotView>,
    pub sdk: Option<Seq<PackageView>>,
}

impl View for Event {
    type V = EventView;

    open spec fn view(&self) -> EventView {
        EventView {
            request: match self.request {
                Some(snapshot) => Some(snapshot@),
                None => None,
            },
            sdk: match self.sdk {
                Some(sdk) => Some(sdk.packages@.map_values(|p: ClientSdkPackage| p@)),
                None => None,
            },
        }
    }
}

/// The name this middleware reports in an event's SDK package list.
pub open spec fn spec_sdk_name() -> Seq<char> {
    "sentry_tide"@
}

/// The version this middleware reports in an event's SDK package list.
pub open spec fn spec_sdk_version() -> Seq<char> {
    "0.1.0"@
}

/// The SDK package entry describing this middleware.
pub open spec fn spec_middleware_package() -> PackageView {
    PackageView { name: spec_sdk_name(), version: spec_sdk_version() }
}

/// The package entry that [`process_event`] appends.
pub fn middleware_sdk_package() -> (r: ClientSdkPackage)
    ensures
        r@ == spec_middleware_package(),
{
    let r = ClientSdkPackage { name: "sentry_tide".to_owned(), version: "0.1.0".to_owned() };
    proof {
        assert(r@ =~= spec_middleware_package());
    }
    r
}

/// What the enrichment processor owes: fill the request field from the
/// scope's snapshot only when it is absent (an inner processor's value is
/// never overwritten), and append exactly one package — this middleware's
/// name and version — to the SDK list only when the event already carries
/// SDK metadata, never fabricating metadata that was not present.
pub open spec fn spec_process_event(e: EventView, snapshot: SnapshotView) -> EventView {
    EventView {
        request: if e.request is None {
            Some(snapshot)
        } else {
            e.request
        },
        sdk: match e.sdk {
            Some(packages) => Some(packages.push(spec_middleware_package())),
            None => None,
        },
    }
}

/// The enrichment processor: adds the captured request snapshot and this
/// middleware's SDK package entry to an event, as
/// [`spec_process_event`] states.
pub fn process_event(event: Event, request: &RequestSnapshot) -> (r: Event)
    ensures
        r@ == spec_process_event(event@, request@),
{
    let ghost pre = event@;
    let mut event = event;
    if event.request.is_none() {
        event.request = Some(request.duplicate());
    }
    let sdk = event.sdk.take();
    match sdk {
        Some(mut sdk) => {
            sdk.packages.push(middleware_sdk_package());
            event.sdk = Some(sdk);
        },
        None => {},
    }
    proof {
        assert(event@.sdk =~= spec_process_event(pre, request@).sdk);
        assert(event@ =~= spec_process_event(pre, request@));
    }
    event
}

} // verus!

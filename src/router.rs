use vstd::prelude::*;
use crate::event::{BdAddr, GapEvent, GattServiceEvent};
use crate::key::CorrelationKey;
use crate::outcome::{Completion, Outcome, outcome_of_status, status_outcome};
use crate::registry::Registry;

verus! {

/// Where an event goes, decided from the event alone.
#[derive(Clone, Copy, Debug, PartialEq, Eq)]
pub enum Route {
    /// The completion of an issued operation: resolves the one-shot sink
    /// under the key with the outcome.
    Complete(CorrelationKey, Outcome),
    /// A notification: goes to the persistent handler under the key.
    Notify(CorrelationKey),
    /// An event that nothing here handles.
    Unrouted,
}

/// What routing an event did.
#[derive(Debug, PartialEq, Eq)]
pub enum Dispatch<S> {
    /// The sink was taken out of the registry and is to receive the outcome.
    Resolved(S, Outcome),
    /// A completion came for a key where no sink waits; it is dropped.
    NoWaiter(CorrelationKey),
    /// The persistent handler under the key is to be invoked with the event.
    Handle(CorrelationKey),
    /// A notification came for a key with no handler; it is dropped.
    NoHandler(CorrelationKey),
    /// The event is not routed.
    Unrouted,
}

/// Link parameters proposed to the stack when a peer connects.
#[derive(Clone, Copy, Debug, PartialEq, Eq)]
pub struct ConnUpdate {
    pub bda: BdAddr,
    /// In units of 1.25 ms.
    pub min_int: u16,
    /// In units of 1.25 ms.
    pub max_int: u16,
    pub latency: u16,
    /// In units of 10 ms.
    pub timeout: u16,
}

/// Shortest connection interval proposed on connect (20 ms).
pub const CONN_MIN_INTERVAL: u16 = 0x10;
/// Longest connection interval proposed on connect (40 ms).
pub const CONN_MAX_INTERVAL: u16 = 0x20;
/// Supervision timeout proposed on connect (4 s).
pub const CONN_TIMEOUT: u16 = 400;

/// The route of a GATT server event received on interface `gatts_if`.
pub open spec fn gatt_route(gatts_if: u8, e: GattServiceEvent) -> Route {
    match e {
        GattServiceEvent::Register(p) => Route::Complete(
            CorrelationKey::AppRegistered(p.app_id),
            status_outcome(p.status, Completion::Interface(gatts_if)),
        ),
        GattServiceEvent::Create(p) => Route::Complete(
            CorrelationKey::ServiceCreated(gatts_if),
            status_outcome(p.status, Completion::Service(p.service_handle)),
        ),
        GattServiceEvent::StartComplete(p) => Route::Complete(
            CorrelationKey::ServiceStarted(p.service_handle),
            status_outcome(p.status, Completion::Done),
        ),
        GattServiceEvent::AddCharacteristicComplete(p) => Route::Complete(
            CorrelationKey::CharacteristicAdded(p.service_handle),
            status_outcome(p.status, Completion::Done),
        ),
        GattServiceEvent::AddDescriptorComplete(p) => Route::Complete(
            CorrelationKey::DescriptorAdded(p.service_handle),
            status_outcome(p.status, Completion::Done),
        ),
        GattServiceEvent::Read(p) => Route::Notify(CorrelationKey::AttributeRead(p.handle)),
        GattServiceEvent::Write(p) => Route::Notify(CorrelationKey::AttributeWritten(p.handle)),
        GattServiceEvent::Connect(_) => Route::Notify(CorrelationKey::Connected(gatts_if)),
        _ => Route::Unrouted,
    }
}

/// The route of a GAP event.
pub open spec fn gap_route(e: GapEvent) -> Route {
    match e {
        GapEvent::RawAdvertisingDatasetComplete(s) => Route::Complete(
            CorrelationKey::RawAdvertisingConfigured,
            status_outcome(s, Completion::Done),
        ),
        GapEvent::RawScanResponseDatasetComplete(s) => Route::Complete(
            CorrelationKey::RawScanResponseConfigured,
            status_outcome(s, Completion::Done),
        ),
        GapEvent::AdvertisingDatasetComplete(s) => Route::Complete(
            CorrelationKey::AdvertisingConfigured,
            status_outcome(s, Completion::Done),
        ),
        GapEvent::ScanResponseDatasetComplete(s) => Route::Complete(
            CorrelationKey::ScanResponseConfigured,
            status_outcome(s, Completion::Done),
        ),
        GapEvent::AdvertisingStartComplete(s) => Route::Complete(
            CorrelationKey::AdvertisingStarted,
            status_outcome(s, Completion::Done),
        ),
        GapEvent::UpdateConnectionParamsComplete(_) => Route::Notify(
            CorrelationKey::ConnectionParamsUpdated,
        ),
        GapEvent::PasskeyNotification(_) => Route::Notify(CorrelationKey::PasskeyNotified),
        GapEvent::Key(_) => Route::Notify(CorrelationKey::KeyExchanged),
        GapEvent::AuthenticationComplete(_) => Route::Notify(
            CorrelationKey::AuthenticationCompleted,
        ),
        GapEvent::NumericComparisonRequest(_) => Route::Notify(
            CorrelationKey::NumericComparisonRequested,
        ),
        GapEvent::SecurityRequest(_) => Route::Notify(CorrelationKey::SecurityRequested),
        _ => Route::Unrouted,
    }
}

/// The link update that an event asks for: one on every connect.
pub open spec fn connection_update(e: GattServiceEvent) -> Option<ConnUpdate> {
    match e {
        GattServiceEvent::Connect(p) => Some(
            ConnUpdate {
                bda: p.remote_bda,
                min_int: CONN_MIN_INTERVAL,
                max_int: CONN_MAX_INTERVAL,
                latency: 0,
                timeout: CONN_TIMEOUT,
            },
        ),
        _ => None,
    }
}

/// What routing along `route` hands back, given the registry's tables.
pub open spec fn dispatch_of<S, H>(
    waiters: Map<CorrelationKey, S>,
    handlers: Map<CorrelationKey, H>,
    route: Route,
) -> Dispatch<S> {
    match route {
        Route::Complete(k, o) => if waiters.contains_key(k) {
            Dispatch::Resolved(waiters[k], o)
        } else {
            Dispatch::NoWaiter(k)
        },
        Route::Notify(k) => if handlers.contains_key(k) {
            Dispatch::Handle(k)
        } else {
            Dispatch::NoHandler(k)
        },
        Route::Unrouted => Dispatch::Unrouted,
    }
}

/// The one-shot table after routing along `route`.
pub open spec fn waiters_after<S>(waiters: Map<CorrelationKey, S>, route: Route) -> Map<
    CorrelationKey,
    S,
> {
    match route {
        Route::Complete(k, _) => waiters.remove(k),
        _ => waiters,
    }
}

/// Classifies a GATT server event received on interface `gatts_if`.
pub fn classify_gatt(gatts_if: u8, e: &GattServiceEvent) -> (r: Route)
    ensures
        r == gatt_route(gatts_if, *e),
{
    match e {
        GattServiceEvent::Register(p) => Route::Complete(
            CorrelationKey::AppRegistered(p.app_id),
            outcome_of_status(p.status, Completion::Interface(gatts_if)),
        ),
        GattServiceEvent::Create(p) => Route::Complete(
            CorrelationKey::ServiceCreated(gatts_if),
            outcome_of_status(p.status, Completion::Service(p.service_handle)),
        ),
        GattServiceEvent::StartComplete(p) => Route::Complete(
            CorrelationKey::ServiceStarted(p.service_handle),
            outcome_of_status(p.status, Completion::Done),
        ),
        GattServiceEvent::AddCharacteristicComplete(p) => Route::Complete(
            CorrelationKey::CharacteristicAdded(p.service_handle),
            outcome_of_status(p.status, Completion::Done),
        ),
        GattServiceEvent::AddDescriptorComplete(p) => Route::Complete(
            CorrelationKey::DescriptorAdded(p.service_handle),
            outcome_of_status(p.status, Completion::Done),
        ),
        GattServiceEvent::Read(p) => Route::Notify(CorrelationKey::AttributeRead(p.handle)),
        GattServiceEvent::Write(p) => Route::Notify(CorrelationKey::AttributeWritten(p.handle)),
        GattServiceEvent::Connect(_) => Route::Notify(CorrelationKey::Connected(gatts_if)),
        _ => Route::Unrouted,
    }
}

/// Classifies a GAP event.
pub fn classify_gap(e: &GapEvent) -> (r: Route)
    ensures
        r == gap_route(*e),
{
    match e {
        GapEvent::RawAdvertisingDatasetComplete(s) => Route::Complete(
            CorrelationKey::RawAdvertisingConfigured,
            outcome_of_status(*s, Completion::Done),
        ),
        GapEvent::RawScanResponseDatasetComplete(s) => Route::Complete(
            CorrelationKey::RawScanResponseConfigured,
            outcome_of_status(*s, Completion::Done),
        ),
        GapEvent::AdvertisingDatasetComplete(s) => Route::Complete(
            CorrelationKey::AdvertisingConfigured,
            outcome_of_status(*s, Completion::Done),
        ),
        GapEvent::ScanResponseDatasetComplete(s) => Route::Complete(
            CorrelationKey::ScanResponseConfigured,
            outcome_of_status(*s, Completion::Done),
        ),
        GapEvent::AdvertisingStartComplete(s) => Route::Complete(
            CorrelationKey::AdvertisingStarted,
            outcome_of_status(*s, Completion::Done),
        ),
        GapEvent::UpdateConnectionParamsComplete(_) => Route::Notify(
            CorrelationKey::ConnectionParamsUpdated,
        ),
        GapEvent::PasskeyNotification(_) => Route::Notify(CorrelationKey::PasskeyNotified),
        GapEvent::Key(_) => Route::Notify(CorrelationKey::KeyExchanged),
        GapEvent::AuthenticationComplete(_) => Route::Notify(
            CorrelationKey::AuthenticationCompleted,
        ),
        GapEvent::NumericComparisonRequest(_) => Route::Notify(
            CorrelationKey::NumericComparisonRequested,
        ),
        GapEvent::SecurityRequest(_) => Route::Notify(CorrelationKey::SecurityRequested),
        _ => Route::Unrouted,
    }
}

/// The link update to propose for an event.
pub fn link_update_for(e: &GattServiceEvent) -> (r: Option<ConnUpdate>)
    ensures
        r == connection_update(*e),
{
    match e {
        GattServiceEvent::Connect(p) => Some(
            ConnUpdate {
                bda: p.remote_bda,
                min_int: CONN_MIN_INTERVAL,
                max_int: CONN_MAX_INTERVAL,
                latency: 0,
                timeout: CONN_TIMEOUT,
            },
        ),
        _ => None,
    }
}

impl<S, H> Registry<S, H> {
    /// Dispatches along `route`: a completion takes its sink out of the
    /// one-shot table, a notification looks its handler up and leaves it.
    pub fn route(&mut self, route: Route) -> (d: Dispatch<S>)
        ensures
            d == dispatch_of(old(self).waiters(), old(self).handlers(), route),
            final(self).waiters() == waiters_after(old(self).waiters(), route),
            final(self).handlers() == old(self).handlers(),
    {
        match route {
            Route::Complete(k, o) => match self.resolve_and_remove(k) {
                Some(s) => Dispatch::Resolved(s, o),
                None => Dispatch::NoWaiter(k),
            },
            Route::Notify(k) => if self.has_handler(k) {
                Dispatch::Handle(k)
            } else {
                Dispatch::NoHandler(k)
            },
            Route::Unrouted => Dispatch::Unrouted,
        }
    }

    /// Routes a GATT server event received on interface `gatts_if`. Besides
    /// the dispatch, hands back the link update to propose, which a connect
    /// asks for whether or not a handler is registered.
    pub fn route_gatt(&mut self, gatts_if: u8, e: &GattServiceEvent) -> (r: (
        Dispatch<S>,
        Option<ConnUpdate>,
    ))
        ensures
            r.0 == dispatch_of(old(self).waiters(), old(self).handlers(), gatt_route(gatts_if, *e)),
            r.1 == connection_update(*e),
            final(self).waiters() == waiters_after(old(self).waiters(), gatt_route(gatts_if, *e)),
            final(self).handlers() == old(self).handlers(),
    {
        let route = classify_gatt(gatts_if, e);
        let d = self.route(route);
        (d, link_update_for(e))
    }

    /// Routes a GAP event.
    pub fn route_gap(&mut self, e: &GapEvent) -> (d: Dispatch<S>)
        ensures
            d == dispatch_of(old(self).waiters(), old(self).handlers(), gap_route(*e)),
            final(self).waiters() == waiters_after(old(self).waiters(), gap_route(*e)),
            final(self).handlers() == old(self).handlers(),
    {
        let route = classify_gap(e);
        self.route(route)
    }
}

} // verus!

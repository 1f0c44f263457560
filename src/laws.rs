//! Properties of the engine that relate several operations.
use vstd::prelude::*;
use crate::key::CorrelationKey;
use crate::lifecycle::{LifecycleState, begin_step, finish_step};
use crate::outcome::{BleError, Outcome};
use crate::registry::{Registry, lookup};
use crate::event::{GapEvent, GattServiceEvent};
use crate::router::{Dispatch, Route, dispatch_of, gap_route, gatt_route, waiters_after};

verus! {

/// The dispatches of routing the same event `n` times in a row, starting
/// from the tables `w` and `hs`.
pub open spec fn route_repeatedly<S, H>(
    w: Map<CorrelationKey, S>,
    hs: Map<CorrelationKey, H>,
    route: Route,
    n: nat,
) -> Seq<Dispatch<S>>
    decreases n,
{
    if n == 0 {
        Seq::empty()
    } else {
        seq![dispatch_of(w, hs, route)] + route_repeatedly(
            waiters_after(w, route),
            hs,
            route,
            (n - 1) as nat,
        )
    }
}

/// Registering sink `s` under `k` and then resolving `k` with `v` hands `s`
/// exactly `v`; resolving `k` again with `v2`, before a new registration,
/// finds no waiter.
pub proof fn law_one_shot_resolves_once<S, H>(
    reg: Registry<S, H>,
    k: CorrelationKey,
    s: S,
    v: Outcome,
    v2: Outcome,
)
    ensures
        dispatch_of(reg.waiters().insert(k, s), reg.handlers(), Route::Complete(k, v))
            == Dispatch::Resolved(s, v),
        dispatch_of(
            waiters_after(reg.waiters().insert(k, s), Route::Complete(k, v)),
            reg.handlers(),
            Route::Complete(k, v2),
        ) == Dispatch::<S>::NoWaiter(k),
{
}

/// Dispatching to a registered persistent handler `n` times reaches it
/// every time: nothing is removed between the calls.
pub proof fn law_persistent_handler_stays<S, H>(
    reg: Registry<S, H>,
    k: CorrelationKey,
    h: H,
    n: nat,
)
    ensures
        lookup(reg.handlers().insert(k, h), k) == Some(h),
        route_repeatedly(reg.waiters(), reg.handlers().insert(k, h), Route::Notify(k), n)
            == Seq::new(n, |i: int| Dispatch::<S>::Handle(k)),
    decreases n,
{
    let hs = reg.handlers().insert(k, h);
    if n > 0 {
        law_persistent_handler_stays(reg, k, h, (n - 1) as nat);
        assert(waiters_after(reg.waiters(), Route::Notify(k)) == reg.waiters());
        assert(route_repeatedly(reg.waiters(), hs, Route::Notify(k), n) =~= Seq::new(
            n,
            |i: int| Dispatch::<S>::Handle(k),
        ));
    } else {
        assert(route_repeatedly(reg.waiters(), hs, Route::Notify(k), n) =~= Seq::new(
            n,
            |i: int| Dispatch::<S>::Handle(k),
        ));
    }
}

/// Registering `s2` under a key where `s1` waits replaces `s1`: the
/// registration hands `s1` back, the next completion resolves `s2`, and
/// after it no sink is left under the key, so `s1` is never resolved.
pub proof fn law_overwrite_replaces<S, H>(
    reg: Registry<S, H>,
    k: CorrelationKey,
    s1: S,
    s2: S,
    v: Outcome,
)
    ensures
        lookup(reg.waiters().insert(k, s1), k) == Some(s1),
        dispatch_of(reg.waiters().insert(k, s1).insert(k, s2), reg.handlers(), Route::Complete(k, v))
            == Dispatch::Resolved(s2, v),
        !waiters_after(
            reg.waiters().insert(k, s1).insert(k, s2),
            Route::Complete(k, v),
        ).contains_key(k),
{
}

/// Once a construction has begun, every further attempt fails with
/// `InvalidState` and leaves the state as it was; in particular after a
/// successful construction.
pub proof fn law_single_instance(s: LifecycleState)
    ensures
        s != LifecycleState::Uninitialized ==> begin_step(s) == (s, Err::<(), BleError>(
            BleError::InvalidState,
        )),
        begin_step(begin_step(LifecycleState::Uninitialized).0).1 == Err::<(), BleError>(
            BleError::InvalidState,
        ),
        begin_step(finish_step(Ok(())).0) == (LifecycleState::Ready, Err::<(), BleError>(
            BleError::InvalidState,
        )),
{
}

/// Sinks under two distinct keys each receive their own completion, in
/// whichever order the two events arrive.
pub proof fn law_distinct_keys_independent<S, H>(
    reg: Registry<S, H>,
    k1: CorrelationKey,
    s1: S,
    k2: CorrelationKey,
    s2: S,
    v1: Outcome,
    v2: Outcome,
)
    requires
        k1 != k2,
    ensures
        ({
            let w = reg.waiters().insert(k1, s1).insert(k2, s2);
            &&& dispatch_of(w, reg.handlers(), Route::Complete(k1, v1)) == Dispatch::Resolved(s1, v1)
            &&& dispatch_of(
                waiters_after(w, Route::Complete(k1, v1)),
                reg.handlers(),
                Route::Complete(k2, v2),
            ) == Dispatch::Resolved(s2, v2)
            &&& dispatch_of(w, reg.handlers(), Route::Complete(k2, v2)) == Dispatch::Resolved(s2, v2)
            &&& dispatch_of(
                waiters_after(w, Route::Complete(k2, v2)),
                reg.handlers(),
                Route::Complete(k1, v1),
            ) == Dispatch::Resolved(s1, v1)
        }),
{
}

/// A sink withdrawn before its event arrives is gone: the event then finds
/// no waiter and changes nothing.
pub proof fn law_withdrawn_sink_finds_nothing<S, H>(
    reg: Registry<S, H>,
    k: CorrelationKey,
    s: S,
    v: Outcome,
)
    ensures
        ({
            let w = reg.waiters().insert(k, s).remove(k);
            &&& dispatch_of(w, reg.handlers(), Route::Complete(k, v)) == Dispatch::<S>::NoWaiter(k)
            &&& waiters_after(w, Route::Complete(k, v)) == w
        }),
{
    let w = reg.waiters().insert(k, s).remove(k);
    assert(w.remove(k) =~= w);
}

/// Whether GATT event `e` is of the one kind that key `k` stands for.
pub open spec fn gatt_kind_of_key(k: CorrelationKey, e: GattServiceEvent) -> bool {
    match k {
        CorrelationKey::AppRegistered(_) => e is Register,
        CorrelationKey::ServiceCreated(_) => e is Create,
        CorrelationKey::ServiceStarted(_) => e is StartComplete,
        CorrelationKey::CharacteristicAdded(_) => e is AddCharacteristicComplete,
        CorrelationKey::DescriptorAdded(_) => e is AddDescriptorComplete,
        CorrelationKey::AttributeRead(_) => e is Read,
        CorrelationKey::AttributeWritten(_) => e is Write,
        CorrelationKey::Connected(_) => e is Connect,
        _ => false,
    }
}

/// Whether GAP event `e` is of the one kind that key `k` stands for.
pub open spec fn gap_kind_of_key(k: CorrelationKey, e: GapEvent) -> bool {
    match k {
        CorrelationKey::RawAdvertisingConfigured => e is RawAdvertisingDatasetComplete,
        CorrelationKey::RawScanResponseConfigured => e is RawScanResponseDatasetComplete,
        CorrelationKey::AdvertisingConfigured => e is AdvertisingDatasetComplete,
        CorrelationKey::ScanResponseConfigured => e is ScanResponseDatasetComplete,
        CorrelationKey::AdvertisingStarted => e is AdvertisingStartComplete,
        CorrelationKey::ConnectionParamsUpdated => e is UpdateConnectionParamsComplete,
        CorrelationKey::PasskeyNotified => e is PasskeyNotification,
        CorrelationKey::KeyExchanged => e is Key,
        CorrelationKey::AuthenticationCompleted => e is AuthenticationComplete,
        CorrelationKey::NumericComparisonRequested => e is NumericComparisonRequest,
        CorrelationKey::SecurityRequested => e is SecurityRequest,
        _ => false,
    }
}

/// An event is only ever routed to a key of its own kind, so a waiter or a
/// handler is never reached by an event of another kind.
pub proof fn law_key_kind_matches_event(gatts_if: u8, e: GattServiceEvent, g: GapEvent)
    ensures
        match gatt_route(gatts_if, e) {
            Route::Complete(k, _) => gatt_kind_of_key(k, e),
            Route::Notify(k) => gatt_kind_of_key(k, e),
            Route::Unrouted => true,
        },
        match gap_route(g) {
            Route::Complete(k, _) => gap_kind_of_key(k, g),
            Route::Notify(k) => gap_kind_of_key(k, g),
            Route::Unrouted => true,
        },
{
}

} // verus!

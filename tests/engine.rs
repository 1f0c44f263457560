use esp_idf_ble::bridge::{done_of, interface_of, service_handle_of, settle};
use esp_idf_ble::event::{
    AddAttributeParam, ConnectParam, ReadParam, RegisterParam, SecurityParam, ServiceParam,
    WriteParam,
};
use esp_idf_ble::router::{classify_gap, classify_gatt};
use esp_idf_ble::{
    BleError, Completion, ConnUpdate, CorrelationKey, Dispatch, GapEvent, GattServiceEvent,
    InstanceGuard, LifecycleState, Registry, Request, Route,
};

fn register_event(app_id: u16, status: u32) -> GattServiceEvent {
    GattServiceEvent::Register(RegisterParam { status, app_id })
}

fn write_event(handle: u16) -> GattServiceEvent {
    GattServiceEvent::Write(WriteParam {
        conn_id: 0,
        trans_id: 9,
        bda: [1, 2, 3, 4, 5, 6],
        handle,
        offset: 0,
        need_rsp: true,
        is_prep: false,
        value: vec![0xAA, 0xBB],
    })
}

fn read_event(handle: u16) -> GattServiceEvent {
    GattServiceEvent::Read(ReadParam {
        conn_id: 0,
        trans_id: 3,
        bda: [0; 6],
        handle,
        offset: 0,
        is_long: false,
        need_rsp: true,
    })
}

#[test]
fn resolve_hands_sink_the_value_once() {
    let mut reg: Registry<u32, u32> = Registry::new();
    let key = CorrelationKey::ServiceStarted(40);
    assert_eq!(reg.register_one_shot(key, 11), None);
    let start = GattServiceEvent::StartComplete(ServiceParam { status: 0, service_handle: 40 });
    let (d, update) = reg.route_gatt(3, &start);
    assert_eq!(d, Dispatch::Resolved(11, Ok(Completion::Done)));
    assert_eq!(update, None);
    let (d, _) = reg.route_gatt(3, &start);
    assert_eq!(d, Dispatch::NoWaiter(key));
    assert_eq!(reg.resolve_and_remove(key), None);
}

#[test]
fn persistent_handler_fires_each_time() {
    let mut reg: Registry<u32, u32> = Registry::new();
    let key = CorrelationKey::AttributeRead(42);
    assert_eq!(reg.register_persistent(key, 5), None);
    for _ in 0..4 {
        let (d, _) = reg.route_gatt(3, &read_event(42));
        assert_eq!(d, Dispatch::Handle(key));
        assert_eq!(reg.dispatch_persistent(key), Some(&5));
    }
    assert!(reg.has_handler(key));
}

#[test]
fn overwrite_replaces_prior_sink() {
    let mut reg: Registry<u32, u32> = Registry::new();
    let key = CorrelationKey::AppRegistered(1);
    assert_eq!(reg.register_one_shot(key, 100), None);
    assert_eq!(reg.register_one_shot(key, 200), Some(100));
    let (d, _) = reg.route_gatt(7, &register_event(1, 0));
    assert_eq!(d, Dispatch::Resolved(200, Ok(Completion::Interface(7))));
    let (d, _) = reg.route_gatt(7, &register_event(1, 0));
    assert_eq!(d, Dispatch::NoWaiter(key));
}

#[test]
fn overwrite_of_persistent_handler() {
    let mut reg: Registry<u32, u32> = Registry::new();
    let key = CorrelationKey::AttributeWritten(8);
    assert_eq!(reg.register_persistent(key, 1), None);
    assert_eq!(reg.register_persistent(key, 2), Some(1));
    assert_eq!(reg.dispatch_persistent(key), Some(&2));
}

#[test]
fn second_construction_fails() {
    let mut guard = InstanceGuard::new();
    assert_eq!(guard.state(), LifecycleState::Uninitialized);
    assert_eq!(guard.try_begin(), Ok(()));
    assert_eq!(guard.state(), LifecycleState::Initializing);
    assert_eq!(guard.try_begin(), Err(BleError::InvalidState));
    assert_eq!(guard.state(), LifecycleState::Initializing);
    assert_eq!(guard.finish(Ok(())), Ok(()));
    assert_eq!(guard.state(), LifecycleState::Ready);
    assert_eq!(guard.try_begin(), Err(BleError::InvalidState));
    assert_eq!(guard.state(), LifecycleState::Ready);
}

#[test]
fn failed_construction_can_be_retried() {
    let mut guard = InstanceGuard::new();
    assert_eq!(guard.try_begin(), Ok(()));
    assert_eq!(guard.finish(Err(0x103)), Err(BleError::Rejected(0x103)));
    assert_eq!(guard.state(), LifecycleState::Uninitialized);
    assert_eq!(guard.try_begin(), Ok(()));
}

#[test]
fn register_application_returns_interface() {
    let mut reg: Registry<u32, u32> = Registry::new();
    let (key, prior) = reg.submit(Request::RegisterApplication { app_id: 1 }, 77);
    assert_eq!(key, CorrelationKey::AppRegistered(1));
    assert_eq!(prior, None);
    assert_eq!(reg.issued(key, 0), Ok(()));
    assert!(reg.is_pending(key));
    let (d, _) = reg.route_gatt(7, &register_event(1, 0));
    let outcome = match d {
        Dispatch::Resolved(sink, outcome) => {
            assert_eq!(sink, 77);
            outcome
        }
        other => panic!("unexpected dispatch {:?}", other),
    };
    assert_eq!(interface_of(settle(Some(outcome))), Ok(7));
}

#[test]
fn create_service_returns_handle() {
    let mut reg: Registry<u32, u32> = Registry::new();
    let (key, _) = reg.submit(Request::CreateService { gatt_if: 7 }, 5);
    assert_eq!(key, CorrelationKey::ServiceCreated(7));
    assert_eq!(reg.issued(key, 0), Ok(()));
    let create = GattServiceEvent::Create(ServiceParam { status: 0, service_handle: 4 });
    let (d, _) = reg.route_gatt(7, &create);
    assert_eq!(d, Dispatch::Resolved(5, Ok(Completion::Service(4))));
    assert_eq!(service_handle_of(Ok(Completion::Service(4))), Ok(4));
}

#[test]
fn write_without_handler_is_dropped() {
    let mut reg: Registry<u32, u32> = Registry::new();
    reg.register_persistent(CorrelationKey::AttributeWritten(2), 9);
    let (d, _) = reg.route_gatt(3, &write_event(1));
    assert_eq!(d, Dispatch::NoHandler(CorrelationKey::AttributeWritten(1)));
    let (d, _) = reg.route_gatt(3, &write_event(2));
    assert_eq!(d, Dispatch::Handle(CorrelationKey::AttributeWritten(2)));
}

#[test]
fn concurrent_requests_no_cross_talk() {
    for reversed in [false, true] {
        let mut reg: Registry<u32, u32> = Registry::new();
        let (k1, _) = reg.submit(Request::StartService { service_handle: 10 }, 1);
        let (k2, _) = reg.submit(Request::AddCharacteristic { service_handle: 10 }, 2);
        assert_ne!(k1, k2);
        let start = GattServiceEvent::StartComplete(ServiceParam { status: 0, service_handle: 10 });
        let added = GattServiceEvent::AddCharacteristicComplete(AddAttributeParam {
            status: 0x85,
            attr_handle: 11,
            service_handle: 10,
        });
        let order = if reversed { [&added, &start] } else { [&start, &added] };
        for e in order {
            let (d, _) = reg.route_gatt(3, e);
            match e {
                GattServiceEvent::StartComplete(_) => {
                    assert_eq!(d, Dispatch::Resolved(1, Ok(Completion::Done)))
                }
                _ => assert_eq!(d, Dispatch::Resolved(2, Err(BleError::Failed(0x85)))),
            }
        }
        assert!(!reg.is_pending(k1));
        assert!(!reg.is_pending(k2));
    }
}

#[test]
fn abandoned_request_event_discarded() {
    let mut reg: Registry<u32, u32> = Registry::new();
    let (key, _) = reg.submit(Request::StartAdvertising, 4);
    assert_eq!(reg.issued(key, 0), Ok(()));
    assert_eq!(reg.resolve_and_remove(key), Some(4));
    let d = reg.route_gap(&GapEvent::AdvertisingStartComplete(0));
    assert_eq!(d, Dispatch::NoWaiter(CorrelationKey::AdvertisingStarted));
    assert!(!reg.is_pending(key));
}

#[test]
fn immediate_rejection_withdraws_sink() {
    let mut reg: Registry<u32, u32> = Registry::new();
    let (key, _) = reg.submit(Request::AddDescriptor { service_handle: 12 }, 6);
    assert!(reg.is_pending(key));
    assert_eq!(reg.issued(key, 0x102), Err(BleError::Rejected(0x102)));
    assert!(!reg.is_pending(key));
}

#[test]
fn dropped_sink_settles_invalid_state() {
    assert_eq!(settle(None), Err(BleError::InvalidState));
    assert_eq!(settle(Some(Ok(Completion::Done))), Ok(Completion::Done));
    assert_eq!(done_of(Err(BleError::Failed(1))), Err(BleError::Failed(1)));
    assert_eq!(done_of(Ok(Completion::Service(3))), Ok(()));
    assert_eq!(interface_of(Ok(Completion::Done)), Err(BleError::InvalidState));
}

#[test]
fn failed_registration_carries_status() {
    let mut reg: Registry<u32, u32> = Registry::new();
    reg.submit(Request::RegisterApplication { app_id: 2 }, 1);
    let (d, _) = reg.route_gatt(9, &register_event(2, 0x85));
    assert_eq!(d, Dispatch::Resolved(1, Err(BleError::Failed(0x85))));
}

#[test]
fn connect_proposes_link_update_without_handler() {
    let mut reg: Registry<u32, u32> = Registry::new();
    let bda = [9, 8, 7, 6, 5, 4];
    let connect = GattServiceEvent::Connect(ConnectParam { conn_id: 1, remote_bda: bda });
    let expected = ConnUpdate { bda, min_int: 0x10, max_int: 0x20, latency: 0, timeout: 400 };
    let (d, update) = reg.route_gatt(3, &connect);
    assert_eq!(d, Dispatch::NoHandler(CorrelationKey::Connected(3)));
    assert_eq!(update, Some(expected));
    reg.register_persistent(CorrelationKey::Connected(3), 1);
    let (d, update) = reg.route_gatt(3, &connect);
    assert_eq!(d, Dispatch::Handle(CorrelationKey::Connected(3)));
    assert_eq!(update, Some(expected));
}

#[test]
fn gap_completions_use_their_own_keys() {
    let mut reg: Registry<u32, u32> = Registry::new();
    let (raw, _) = reg.submit(Request::ConfigureAdvertisingRaw { scan_rsp: false }, 1);
    let (rsp, _) = reg.submit(Request::ConfigureAdvertising { scan_rsp: true }, 2);
    assert_eq!(raw, CorrelationKey::RawAdvertisingConfigured);
    assert_eq!(rsp, CorrelationKey::ScanResponseConfigured);
    assert_eq!(
        reg.route_gap(&GapEvent::AdvertisingDatasetComplete(0)),
        Dispatch::NoWaiter(CorrelationKey::AdvertisingConfigured)
    );
    assert_eq!(
        reg.route_gap(&GapEvent::ScanResponseDatasetComplete(0)),
        Dispatch::Resolved(2, Ok(Completion::Done))
    );
    assert_eq!(
        reg.route_gap(&GapEvent::RawAdvertisingDatasetComplete(3)),
        Dispatch::Resolved(1, Err(BleError::Failed(3)))
    );
}

#[test]
fn security_events_go_to_handlers() {
    let peer = SecurityParam { bd_addr: [1; 6], detail: 123456 };
    assert_eq!(
        classify_gap(&GapEvent::PasskeyNotification(peer)),
        Route::Notify(CorrelationKey::PasskeyNotified)
    );
    assert_eq!(
        classify_gap(&GapEvent::SecurityRequest(peer)),
        Route::Notify(CorrelationKey::SecurityRequested)
    );
    assert_eq!(classify_gap(&GapEvent::ScanResult), Route::Unrouted);
    let mut reg: Registry<u32, u32> = Registry::new();
    reg.register_persistent(CorrelationKey::AuthenticationCompleted, 3);
    assert_eq!(
        reg.route_gap(&GapEvent::AuthenticationComplete(peer)),
        Dispatch::Handle(CorrelationKey::AuthenticationCompleted)
    );
    assert_eq!(reg.route_gap(&GapEvent::LocalIR), Dispatch::Unrouted);
}

#[test]
fn unrouted_gatt_events() {
    assert_eq!(classify_gatt(1, &GattServiceEvent::Mtu(23)), Route::Unrouted);
    let mut reg: Registry<u32, u32> = Registry::new();
    let (d, update) = reg.route_gatt(1, &GattServiceEvent::Disconnect(ConnectParam {
        conn_id: 0,
        remote_bda: [0; 6],
    }));
    assert_eq!(d, Dispatch::Unrouted);
    assert_eq!(update, None);
}

#[test]
fn key_codes_are_distinct() {
    let keys = [
        CorrelationKey::AppRegistered(1),
        CorrelationKey::ServiceCreated(1),
        CorrelationKey::ServiceStarted(1),
        CorrelationKey::CharacteristicAdded(1),
        CorrelationKey::DescriptorAdded(1),
        CorrelationKey::AttributeRead(1),
        CorrelationKey::AttributeWritten(1),
        CorrelationKey::Connected(1),
        CorrelationKey::AdvertisingStarted,
        CorrelationKey::SecurityRequested,
    ];
    for (i, a) in keys.iter().enumerate() {
        for (j, b) in keys.iter().enumerate() {
            assert_eq!(a.code() == b.code(), i == j);
        }
    }
    assert_eq!(CorrelationKey::AttributeWritten(0xFFFF).code(), 6 * 65536 + 0xFFFF);
    assert_eq!(CorrelationKey::AppRegistered(0).code(), 0);
}

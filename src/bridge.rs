use vstd::prelude::*;
use crate::key::CorrelationKey;
use crate::outcome::{BleError, Completion, Outcome};
use crate::registry::{Registry, lookup};

verus! {

/// An operation issued to the stack whose result arrives as one event.
#[derive(Clone, Copy, Debug, PartialEq, Eq)]
pub enum Request {
    /// Configure the raw advertising payload, or the raw scan response.
    ConfigureAdvertisingRaw { scan_rsp: bool },
    /// Configure the advertising payload, or the scan response.
    ConfigureAdvertising { scan_rsp: bool },
    /// Start advertising.
    StartAdvertising,
    /// Register a GATT application under the id.
    RegisterApplication { app_id: u16 },
    /// Create a service on the GATT interface.
    CreateService { gatt_if: u8 },
    /// Start the service with the handle.
    StartService { service_handle: u16 },
    /// Add a characteristic to the service with the handle.
    AddCharacteristic { service_handle: u16 },
    /// Add a descriptor to the service with the handle.
    AddDescriptor { service_handle: u16 },
}

/// The key that the completion event of `r` carries.
pub open spec fn completion_key(r: Request) -> CorrelationKey {
    match r {
        Request::ConfigureAdvertisingRaw { scan_rsp } => if scan_rsp {
            CorrelationKey::RawScanResponseConfigured
        } else {
            CorrelationKey::RawAdvertisingConfigured
        },
        Request::ConfigureAdvertising { scan_rsp } => if scan_rsp {
            CorrelationKey::ScanResponseConfigured
        } else {
            CorrelationKey::AdvertisingConfigured
        },
        Request::StartAdvertising => CorrelationKey::AdvertisingStarted,
        Request::RegisterApplication { app_id } => CorrelationKey::AppRegistered(app_id),
        Request::CreateService { gatt_if } => CorrelationKey::ServiceCreated(gatt_if),
        Request::StartService { service_handle } => CorrelationKey::ServiceStarted(service_handle),
        Request::AddCharacteristic { service_handle } => CorrelationKey::CharacteristicAdded(
            service_handle,
        ),
        Request::AddDescriptor { service_handle } => CorrelationKey::DescriptorAdded(
            service_handle,
        ),
    }
}

impl Request {
    /// The key under which the completion of this request arrives.
    pub fn key(&self) -> (k: CorrelationKey)
        ensures
            k == completion_key(*self),
    {
        match *self {
            Request::ConfigureAdvertisingRaw { scan_rsp } => if scan_rsp {
                CorrelationKey::RawScanResponseConfigured
            } else {
                CorrelationKey::RawAdvertisingConfigured
            },
            Request::ConfigureAdvertising { scan_rsp } => if scan_rsp {
                CorrelationKey::ScanResponseConfigured
            } else {
                CorrelationKey::AdvertisingConfigured
            },
            Request::StartAdvertising => CorrelationKey::AdvertisingStarted,
            Request::RegisterApplication { app_id } => CorrelationKey::AppRegistered(app_id),
            Request::CreateService { gatt_if } => CorrelationKey::ServiceCreated(gatt_if),
            Request::StartService { service_handle } => CorrelationKey::ServiceStarted(
                service_handle,
            ),
            Request::AddCharacteristic { service_handle } => CorrelationKey::CharacteristicAdded(
                service_handle,
            ),
            Request::AddDescriptor { service_handle } => CorrelationKey::DescriptorAdded(
                service_handle,
            ),
        }
    }
}

/// The immediate status of a native call that accepted the operation.
pub const ESP_OK: i32 = 0;

impl<S, H> Registry<S, H> {
    /// First half of a request: registers `sink` under the key of the
    /// request's completion, before the native call is made. Hands back that
    /// key and the sink it displaced, if any.
    pub fn submit(&mut self, req: Request, sink: S) -> (r: (CorrelationKey, Option<S>))
        ensures
            r.0 == completion_key(req),
            r.1 == lookup(old(self).waiters(), r.0),
            final(self).waiters() == old(self).waiters().insert(r.0, sink),
            final(self).handlers() == old(self).handlers(),
    {
        let key = req.key();
        let prior = self.register_one_shot(key, sink);
        (key, prior)
    }

    /// Second half: takes the native call's immediate status. On success the
    /// sink stays and waits for its event; otherwise the sink is withdrawn,
    /// so none is left stranded, and the rejection is returned.
    pub fn issued(&mut self, key: CorrelationKey, status: i32) -> (r: Result<(), BleError>)
        ensures
            status == ESP_OK ==> r == Ok::<(), BleError>(()) && final(self).waiters() == old(
                self,
            ).waiters(),
            status != ESP_OK ==> r == Err::<(), BleError>(BleError::Rejected(status))
                && final(self).waiters() == old(self).waiters().remove(key),
            final(self).handlers() == old(self).handlers(),
    {
        if status == ESP_OK {
            Ok(())
        } else {
            let _abandoned = self.resolve_and_remove(key);
            Err(BleError::Rejected(status))
        }
    }
}

/// What a waiting request ends with: the outcome its sink received, or
/// `InvalidState` when the sink was dropped unresolved.
pub fn settle(received: Option<Outcome>) -> (r: Outcome)
    ensures
        r == match received {
            Some(o) => o,
            None => Err(BleError::InvalidState),
        },
{
    match received {
        Some(o) => o,
        None => Err(BleError::InvalidState),
    }
}

/// The interface an application registration yielded.
pub open spec fn interface_result(o: Outcome) -> Result<u8, BleError> {
    match o {
        Ok(Completion::Interface(i)) => Ok(i),
        Ok(_) => Err(BleError::InvalidState),
        Err(e) => Err(e),
    }
}

/// The service handle a service creation yielded.
pub open spec fn service_result(o: Outcome) -> Result<u16, BleError> {
    match o {
        Ok(Completion::Service(h)) => Ok(h),
        Ok(_) => Err(BleError::InvalidState),
        Err(e) => Err(e),
    }
}

/// Reads the GATT interface out of the outcome of an application registration.
pub fn interface_of(o: Outcome) -> (r: Result<u8, BleError>)
    ensures
        r == interface_result(o),
{
    match o {
        Ok(Completion::Interface(i)) => Ok(i),
        Ok(_) => Err(BleError::InvalidState),
        Err(e) => Err(e),
    }
}

/// Reads the service handle out of the outcome of a service creation.
pub fn service_handle_of(o: Outcome) -> (r: Result<u16, BleError>)
    ensures
        r == service_result(o),
{
    match o {
        Ok(Completion::Service(h)) => Ok(h),
        Ok(_) => Err(BleError::InvalidState),
        Err(e) => Err(e),
    }
}

/// Drops the value of an outcome, keeping success or failure.
pub fn done_of(o: Outcome) -> (r: Result<(), BleError>)
    ensures
        r == match o {
            Ok(_) => Ok::<(), BleError>(()),
            Err(e) => Err(e),
        },
{
    match o {
        Ok(_) => Ok(()),
        Err(e) => Err(e),
    }
}

} // verus!

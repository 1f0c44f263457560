use vstd::prelude::*;
use crate::bridge::interface_result;
use crate::outcome::{BleError, Outcome};

verus! {

/// A Bluetooth UUID of one of the three widths.
#[derive(Clone, Copy, Debug, PartialEq, Eq)]
pub enum BtUuid {
    Uuid16(u16),
    Uuid32(u32),
    Uuid128([u8; 16]),
}

/// A service to create on a GATT interface.
#[derive(Clone, Copy, Debug)]
pub struct GattService {
    pub is_primary: bool,
    pub id: BtUuid,
    pub instance_id: u8,
    /// The number of attribute handles to reserve for the service.
    pub handle: u16,
}

impl GattService {
    /// A primary service.
    pub fn new_primary(id: BtUuid, handle: u16, instance_id: u8) -> (r: Self)
        ensures
            r.is_primary,
            r.id == id,
            r.handle == handle,
            r.instance_id == instance_id,
    {
        GattService { is_primary: true, id, handle, instance_id }
    }

    /// A secondary service.
    pub fn new(id: BtUuid, handle: u16, instance_id: u8) -> (r: Self)
        ensures
            !r.is_primary,
            r.id == id,
            r.handle == handle,
            r.instance_id == instance_id,
    {
        GattService { is_primary: false, id, handle, instance_id }
    }
}

/// Whether an application has been registered, and on which interface.
#[derive(Clone, Copy, Debug, PartialEq, Eq, Structural)]
pub enum GattApplicationStatus {
    Unregistered,
    Registered(u8),
}

/// A GATT server application, known by its id until the stack assigns it
/// an interface.
pub struct GattApplication {
    id: u16,
    status: GattApplicationStatus,
}

impl GattApplication {
    /// The application's id.
    pub closed spec fn spec_id(&self) -> u16 {
        self.id
    }

    /// The application's registration status.
    pub closed spec fn spec_status(&self) -> GattApplicationStatus {
        self.status
    }

    /// An unregistered application with id `id`.
    pub fn new(id: u16) -> (r: Self)
        ensures
            r.spec_id() == id,
            r.spec_status() == GattApplicationStatus::Unregistered,
    {
        GattApplication { id, status: GattApplicationStatus::Unregistered }
    }

    pub fn get_id(&self) -> (r: u16)
        ensures
            r == self.spec_id(),
    {
        self.id
    }

    /// Records that the application was registered on `gatt_if`.
    pub fn register(&mut self, gatt_if: u8)
        ensures
            final(self).spec_id() == old(self).spec_id(),
            final(self).spec_status() == GattApplicationStatus::Registered(gatt_if),
    {
        self.status = GattApplicationStatus::Registered(gatt_if);
    }

    /// The interface of a registered application; `InvalidState` before
    /// registration.
    pub fn get_gatt_if(&self) -> (r: Result<u8, BleError>)
        ensures
            r == match self.spec_status() {
                GattApplicationStatus::Unregistered => Err(BleError::InvalidState),
                GattApplicationStatus::Registered(i) => Ok::<u8, BleError>(i),
            },
    {
        match self.status {
            GattApplicationStatus::Unregistered => Err(BleError::InvalidState),
            GattApplicationStatus::Registered(i) => Ok(i),
        }
    }

    /// Applies the outcome of the application's registration request: on
    /// success the application is registered on the interface it yielded,
    /// which is returned; otherwise it stays as it was and the error is
    /// returned.
    pub fn complete_registration(&mut self, o: Outcome) -> (r: Result<u8, BleError>)
        ensures
            r == interface_result(o),
            final(self).spec_id() == old(self).spec_id(),
            final(self).spec_status() == match r {
                Ok(i) => GattApplicationStatus::Registered(i),
                Err(_) => old(self).spec_status(),
            },
    {
        let r = crate::bridge::interface_of(o);
        if let Ok(i) = r {
            self.register(i);
        }
        r
    }
}

} // verus!

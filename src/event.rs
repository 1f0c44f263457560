use vstd::prelude::*;

verus! {

/// A Bluetooth device address.
pub type BdAddr = [u8; 6];

/// Completion of an application registration.
#[derive(Clone, Copy, Debug, PartialEq, Eq)]
pub struct RegisterParam {
    pub status: u32,
    pub app_id: u16,
}

/// Completion of an operation on a service (create, start, stop).
#[derive(Clone, Copy, Debug, PartialEq, Eq)]
pub struct ServiceParam {
    pub status: u32,
    pub service_handle: u16,
}

/// Completion of adding a characteristic or a descriptor to a service.
#[derive(Clone, Copy, Debug, PartialEq, Eq)]
pub struct AddAttributeParam {
    pub status: u32,
    pub attr_handle: u16,
    pub service_handle: u16,
}

/// A peer reads an attribute.
#[derive(Clone, Copy, Debug, PartialEq, Eq)]
pub struct ReadParam {
    pub conn_id: u16,
    pub trans_id: u32,
    pub bda: BdAddr,
    pub handle: u16,
    pub offset: u16,
    pub is_long: bool,
    pub need_rsp: bool,
}

/// A peer writes an attribute.
#[derive(Clone, Debug, PartialEq, Eq)]
pub struct WriteParam {
    pub conn_id: u16,
    pub trans_id: u32,
    pub bda: BdAddr,
    pub handle: u16,
    pub offset: u16,
    pub need_rsp: bool,
    pub is_prep: bool,
    pub value: Vec<u8>,
}

/// A peer connects or disconnects.
#[derive(Clone, Copy, Debug, PartialEq, Eq)]
pub struct ConnectParam {
    pub conn_id: u16,
    pub remote_bda: BdAddr,
}

/// An event of the GATT server callback, with the fields this crate reads.
#[derive(Clone, Debug)]
pub enum GattServiceEvent {
    Register(RegisterParam),
    Read(ReadParam),
    Write(WriteParam),
    ExecWrite,
    Mtu(u16),
    Confirm,
    Unregister,
    Create(ServiceParam),
    AddIncludedServiceComplete,
    AddCharacteristicComplete(AddAttributeParam),
    AddDescriptorComplete(AddAttributeParam),
    DeleteComplete,
    StartComplete(ServiceParam),
    StopComplete(ServiceParam),
    Connect(ConnectParam),
    Disconnect(ConnectParam),
    Open,
    Close,
    Listen,
    Congest,
    ResponseComplete,
    CreateAttributeTableComplete,
    SetAttributeValueComplete,
    SendServiceChangeComplete,
}

/// A pairing step reported for a peer.
#[derive(Clone, Copy, Debug, PartialEq, Eq)]
pub struct SecurityParam {
    pub bd_addr: BdAddr,
    /// The passkey, the key type or the authentication result, by event.
    pub detail: u32,
}

/// Completion of a connection parameter update.
#[derive(Clone, Copy, Debug, PartialEq, Eq)]
pub struct ConnParamsParam {
    pub status: u32,
    pub bda: BdAddr,
    pub min_int: u16,
    pub max_int: u16,
    pub latency: u16,
    pub conn_int: u16,
    pub timeout: u16,
}

/// An event of the GAP callback, with the fields this crate reads.
/// A completion carries its status.
#[derive(Clone, Copy, Debug)]
pub enum GapEvent {
    AdvertisingDatasetComplete(u32),
    ScanResponseDatasetComplete(u32),
    ScanParameterDatasetComplete(u32),
    ScanResult,
    RawAdvertisingDatasetComplete(u32),
    RawScanResponseDatasetComplete(u32),
    AdvertisingStartComplete(u32),
    ScanStartComplete(u32),
    AuthenticationComplete(SecurityParam),
    Key(SecurityParam),
    SecurityRequest(SecurityParam),
    PasskeyNotification(SecurityParam),
    PasskeyRequest(SecurityParam),
    OOBRequest,
    LocalIR,
    LocalER,
    NumericComparisonRequest(SecurityParam),
    AdvertisingStopComplete(u32),
    ScanStopComplete(u32),
    SetStaticRandomAddressComplete(u32),
    UpdateConnectionParamsComplete(ConnParamsParam),
    SetPacketLengthComplete(u32),
    SetLocalPrivacy(u32),
    RemoveDeviceBondComplete(u32),
    ClearDeviceBondComplete(u32),
    GetDeviceBondComplete(u32),
    ReadRssiComplete(u32),
    UpdateWhitelistComplete(u32),
    UpdateDuplicateListComplete(u32),
    SetChannelsComplete(u32),
}

} // verus!

use vstd::prelude::*;
use vstd::utf8::encode_utf8;
use crate::gatt_server::BtUuid;

verus! {

/// The category of an appearance value.
#[allow(clippy::upper_case_acronyms)]
#[derive(Clone, Copy, Debug, PartialEq, Eq, Structural)]
pub enum AppearanceCategory {
    Unknown,
    Phone,
    Computer,
    Watch,
    Clock,
    Display,
    RemoteControl,
    EyeGlass,
    Tag,
    Keyring,
    MediaPlayer,
    BarcodeScanner,
    Thermometer,
    HeartRateSensor,
    BloodPressure,
    HumanInterfaceDevice,
    GlucoseMeter,
    RunningWalkingSensor,
    Cycling,
    ControlDevice,
    NetworkDevice,
    Sensor,
    LightFixtures,
    Fan,
    HVAC,
    AirConditionning,
    Humidifier,
    Heating,
    AccessControl,
    MotorizedDevice,
    PowerDevice,
    LightSource,
    WindowCovering,
    AudioSink,
    AudioSource,
    MotorizedVehicle,
    DomesticAppliance,
    WearableAudioDevice,
    Aircraft,
    AVEquipment,
    DisplayEquipment,
    HearingAid,
    Gaming,
    Signage,
    PulseOximeter,
    WeightScale,
    PersonalMobilityDevice,
    ContinuousGlucoseMonitor,
    InsulinPump,
    MedicationDelivery,
    OutdoorSportsActivity,
}

impl AppearanceCategory {
    /// The category number.
    pub open spec fn spec_code(self) -> u16 {
        match self {
            AppearanceCategory::Unknown => 0x00,
            AppearanceCategory::Phone => 0x01,
            AppearanceCategory::Computer => 0x02,
            AppearanceCategory::Watch => 0x03,
            AppearanceCategory::Clock => 0x04,
            AppearanceCategory::Display => 0x05,
            AppearanceCategory::RemoteControl => 0x06,
            AppearanceCategory::EyeGlass => 0x07,
            AppearanceCategory::Tag => 0x08,
            AppearanceCategory::Keyring => 0x09,
            AppearanceCategory::MediaPlayer => 0x0a,
            AppearanceCategory::BarcodeScanner => 0x0b,
            AppearanceCategory::Thermometer => 0x0c,
            AppearanceCategory::HeartRateSensor => 0x0d,
            AppearanceCategory::BloodPressure => 0x0e,
            AppearanceCategory::HumanInterfaceDevice => 0x0f,
            AppearanceCategory::GlucoseMeter => 0x10,
            AppearanceCategory::RunningWalkingSensor => 0x11,
            AppearanceCategory::Cycling => 0x12,
            AppearanceCategory::ControlDevice => 0x13,
            AppearanceCategory::NetworkDevice => 0x14,
            AppearanceCategory::Sensor => 0x15,
            AppearanceCategory::LightFixtures => 0x16,
            AppearanceCategory::Fan => 0x17,
            AppearanceCategory::HVAC => 0x18,
            AppearanceCategory::AirConditionning => 0x19,
            AppearanceCategory::Humidifier => 0x1a,
            AppearanceCategory::Heating => 0x1b,
            AppearanceCategory::AccessControl => 0x1c,
            AppearanceCategory::MotorizedDevice => 0x1d,
            AppearanceCategory::PowerDevice => 0x1e,
            AppearanceCategory::LightSource => 0x1f,
            AppearanceCategory::WindowCovering => 0x20,
            AppearanceCategory::AudioSink => 0x21,
            AppearanceCategory::AudioSource => 0x22,
            AppearanceCategory::MotorizedVehicle => 0x23,
            AppearanceCategory::DomesticAppliance => 0x24,
            AppearanceCategory::WearableAudioDevice => 0x25,
            AppearanceCategory::Aircraft => 0x26,
            AppearanceCategory::AVEquipment => 0x27,
            AppearanceCategory::DisplayEquipment => 0x28,
            AppearanceCategory::HearingAid => 0x29,
            AppearanceCategory::Gaming => 0x2a,
            AppearanceCategory::Signage => 0x2b,
            AppearanceCategory::PulseOximeter => 0x31,
            AppearanceCategory::WeightScale => 0x32,
            AppearanceCategory::PersonalMobilityDevice => 0x33,
            AppearanceCategory::ContinuousGlucoseMonitor => 0x34,
            AppearanceCategory::InsulinPump => 0x35,
            AppearanceCategory::MedicationDelivery => 0x36,
            AppearanceCategory::OutdoorSportsActivity => 0x51,
        }
    }

    pub fn code(&self) -> (r: u16)
        ensures
            r == self.spec_code(),
    {
        match self {
            AppearanceCategory::Unknown => 0x00,
            AppearanceCategory::Phone => 0x01,
            AppearanceCategory::Computer => 0x02,
            AppearanceCategory::Watch => 0x03,
            AppearanceCategory::Clock => 0x04,
            AppearanceCategory::Display => 0x05,
            AppearanceCategory::RemoteControl => 0x06,
            AppearanceCategory::EyeGlass => 0x07,
            AppearanceCategory::Tag => 0x08,
            AppearanceCategory::Keyring => 0x09,
            AppearanceCategory::MediaPlayer => 0x0a,
            AppearanceCategory::BarcodeScanner => 0x0b,
            AppearanceCategory::Thermometer => 0x0c,
            AppearanceCategory::HeartRateSensor => 0x0d,
            AppearanceCategory::BloodPressure => 0x0e,
            AppearanceCategory::HumanInterfaceDevice => 0x0f,
            AppearanceCategory::GlucoseMeter => 0x10,
            AppearanceCategory::RunningWalkingSensor => 0x11,
            AppearanceCategory::Cycling => 0x12,
            AppearanceCategory::ControlDevice => 0x13,
            AppearanceCategory::NetworkDevice => 0x14,
            AppearanceCategory::Sensor => 0x15,
            AppearanceCategory::LightFixtures => 0x16,
            AppearanceCategory::Fan => 0x17,
            AppearanceCategory::HVAC => 0x18,
            AppearanceCategory::AirConditionning => 0x19,
            AppearanceCategory::Humidifier => 0x1a,
            AppearanceCategory::Heating => 0x1b,
            AppearanceCategory::AccessControl => 0x1c,
            AppearanceCategory::MotorizedDevice => 0x1d,
            AppearanceCategory::PowerDevice => 0x1e,
            AppearanceCategory::LightSource => 0x1f,
            AppearanceCategory::WindowCovering => 0x20,
            AppearanceCategory::AudioSink => 0x21,
            AppearanceCategory::AudioSource => 0x22,
            AppearanceCategory::MotorizedVehicle => 0x23,
            AppearanceCategory::DomesticAppliance => 0x24,
            AppearanceCategory::WearableAudioDevice => 0x25,
            AppearanceCategory::Aircraft => 0x26,
            AppearanceCategory::AVEquipment => 0x27,
            AppearanceCategory::DisplayEquipment => 0x28,
            AppearanceCategory::HearingAid => 0x29,
            AppearanceCategory::Gaming => 0x2a,
            AppearanceCategory::Signage => 0x2b,
            AppearanceCategory::PulseOximeter => 0x31,
            AppearanceCategory::WeightScale => 0x32,
            AppearanceCategory::PersonalMobilityDevice => 0x33,
            AppearanceCategory::ContinuousGlucoseMonitor => 0x34,
            AppearanceCategory::InsulinPump => 0x35,
            AppearanceCategory::MedicationDelivery => 0x36,
            AppearanceCategory::OutdoorSportsActivity => 0x51,
        }
    }

    /// The appearance value of the category: its number above six sub-category bits.
    pub open spec fn spec_value(self) -> i32 {
        (self.spec_code() * 64) as i32
    }

    /// Computes the appearance value.
    pub fn value(&self) -> (r: i32)
        ensures
            r == self.spec_value(),
    {
        let c = self.code();
        assert(c <= 0x51) by {
            assert(self.spec_code() <= 0x51);
        }
        (c as i32) * 64
    }
}

/// One field of an advertising payload.
#[derive(Clone, Debug)]
pub enum AdvertiseType {
    Flags(u8),
    ServicePartial16(Vec<u16>),
    ServiceComplete16(Vec<u16>),
    ServicePartial32(Vec<u32>),
    ServiceComplete32(Vec<u32>),
    ServicePartial128(Vec<[u8; 16]>),
    ServiceComplete128(Vec<[u8; 16]>),
    IntervalRange(u16, u16),
    DeviceNameShort(String),
    DeviceNameComplete(String),
    Appearance(AppearanceCategory),
    TxPower(u8),
}

/// A 16-bit value, most significant byte first.
pub open spec fn be16(x: u16) -> Seq<u8> {
    seq![(x / 256) as u8, (x % 256) as u8]
}

/// A 32-bit value, most significant byte first.
pub open spec fn be32(x: u32) -> Seq<u8> {
    seq![
        (x / 0x100_0000) as u8,
        ((x / 0x1_0000) % 256) as u8,
        ((x / 256) % 256) as u8,
        (x % 256) as u8,
    ]
}

/// The 16-bit values, each most significant byte first.
pub open spec fn flat16(s: Seq<u16>) -> Seq<u8>
    decreases s.len(),
{
    if s.len() == 0 {
        seq![]
    } else {
        flat16(s.drop_last()) + be16(s.last())
    }
}

/// The 32-bit values, each most significant byte first.
pub open spec fn flat32(s: Seq<u32>) -> Seq<u8>
    decreases s.len(),
{
    if s.len() == 0 {
        seq![]
    } else {
        flat32(s.drop_last()) + be32(s.last())
    }
}

/// The 128-bit UUIDs, each in its own byte order.
pub open spec fn flat128(s: Seq<[u8; 16]>) -> Seq<u8>
    decreases s.len(),
{
    if s.len() == 0 {
        seq![]
    } else {
        flat128(s.drop_last()) + s.last()@
    }
}

/// The length byte of a field whose data takes `n` bytes: the type byte
/// and the data, modulo 256.
pub open spec fn length_byte(n: nat) -> u8 {
    ((n + 1) % 256) as u8
}

/// A field: its length byte, its type byte, its data.
pub open spec fn field(ad_type: u8, data: Seq<u8>) -> Seq<u8> {
    seq![length_byte(data.len()), ad_type] + data
}

/// The bytes of an advertising field.
pub open spec fn encode_field(a: AdvertiseType) -> Seq<u8> {
    match a {
        AdvertiseType::Flags(f) => seq![0x02, 0x01, f],
        AdvertiseType::ServicePartial16(v) => field(0x02, flat16(v@)),
        AdvertiseType::ServiceComplete16(v) => field(0x03, flat16(v@)),
        AdvertiseType::ServicePartial32(v) => field(0x04, flat32(v@)),
        AdvertiseType::ServiceComplete32(v) => field(0x05, flat32(v@)),
        AdvertiseType::ServicePartial128(v) => field(0x06, flat128(v@)),
        AdvertiseType::ServiceComplete128(v) => field(0x07, flat128(v@)),
        AdvertiseType::IntervalRange(min, max) => seq![0x06, 0x12] + be16(min) + be16(max) + seq![
            0x00,
        ],
        AdvertiseType::DeviceNameShort(n) => field(0x08, encode_utf8(n@)),
        AdvertiseType::DeviceNameComplete(n) => field(0x09, encode_utf8(n@)),
        AdvertiseType::Appearance(c) => seq![0x02, 0x19, (c.spec_value() % 256) as u8],
        AdvertiseType::TxPower(_) => seq![0x03, 0x0a, 0x09],
    }
}

/// The bytes of a sequence of fields, one after the other.
pub open spec fn encode_fields(s: Seq<AdvertiseType>) -> Seq<u8>
    decreases s.len(),
{
    if s.len() == 0 {
        seq![]
    } else {
        encode_fields(s.drop_last()) + encode_field(s.last())
    }
}

/// Appends the 16-bit values, most significant byte first.
fn push_flat16(out: &mut Vec<u8>, s: &Vec<u16>)
    ensures
        final(out)@ == old(out)@ + flat16(s@),
{
    let mut i: usize = 0;
    while i < s.len()
        invariant
            i <= s.len(),
            out@ == old(out)@ + flat16(s@.subrange(0, i as int)),
        decreases s.len() - i,
    {
        let x = s[i];
        let ghost before = out@;
        out.push((x / 256) as u8);
        out.push((x % 256) as u8);
        assert(s@.subrange(0, i + 1).drop_last() =~= s@.subrange(0, i as int));
        assert(out@ =~= before + be16(x));
        assert(out@ =~= old(out)@ + flat16(s@.subrange(0, i + 1)));
        i += 1;
    }
    assert(s@.subrange(0, s.len() as int) =~= s@);
}

/// Appends the 32-bit values, most significant byte first.
fn push_flat32(out: &mut Vec<u8>, s: &Vec<u32>)
    ensures
        final(out)@ == old(out)@ + flat32(s@),
{
    let mut i: usize = 0;
    while i < s.len()
        invariant
            i <= s.len(),
            out@ == old(out)@ + flat32(s@.subrange(0, i as int)),
        decreases s.len() - i,
    {
        let x = s[i];
        let ghost before = out@;
        out.push((x / 0x100_0000) as u8);
        out.push(((x / 0x1_0000) % 256) as u8);
        out.push(((x / 256) % 256) as u8);
        out.push((x % 256) as u8);
        assert(s@.subrange(0, i + 1).drop_last() =~= s@.subrange(0, i as int));
        assert(out@ =~= before + be32(x));
        assert(out@ =~= old(out)@ + flat32(s@.subrange(0, i + 1)));
        i += 1;
    }
    assert(s@.subrange(0, s.len() as int) =~= s@);
}

/// Appends the 128-bit UUIDs.
fn push_flat128(out: &mut Vec<u8>, s: &Vec<[u8; 16]>)
    ensures
        final(out)@ == old(out)@ + flat128(s@),
{
    let mut i: usize = 0;
    while i < s.len()
        invariant
            i <= s.len(),
            out@ == old(out)@ + flat128(s@.subrange(0, i as int)),
        decreases s.len() - i,
    {
        let x: [u8; 16] = s[i];
        let ghost before = out@;
        push_bytes(out, x.as_slice());
        assert(s@.subrange(0, i + 1).drop_last() =~= s@.subrange(0, i as int));
        assert(out@ =~= old(out)@ + flat128(s@.subrange(0, i + 1)));
        i += 1;
    }
    assert(s@.subrange(0, s.len() as int) =~= s@);
}

/// Appends the bytes of `b`.
fn push_bytes(out: &mut Vec<u8>, b: &[u8])
    ensures
        final(out)@ == old(out)@ + b@,
{
    let mut i: usize = 0;
    while i < b.len()
        invariant
            i <= b.len(),
            out@ == old(out)@ + b@.subrange(0, i as int),
        decreases b.len() - i,
    {
        out.push(b[i]);
        assert(out@ =~= old(out)@ + b@.subrange(0, i + 1));
        i += 1;
    }
    assert(b@.subrange(0, b.len() as int) =~= b@);
}

/// Computes `length_byte(n)`.
fn length_byte_of(n: usize) -> (r: u8)
    ensures
        r == length_byte(n as nat),
{
    (((n % 256) + 1) % 256) as u8
}

/// The length and type bytes of a field whose data takes `data_len` bytes.
fn header(ad_type: u8, data_len: usize) -> (r: Vec<u8>)
    ensures
        r@ == seq![length_byte(data_len as nat), ad_type],
{
    let mut v: Vec<u8> = Vec::new();
    v.push(length_byte_of(data_len));
    v.push(ad_type);
    assert(v@ =~= seq![length_byte(data_len as nat), ad_type]);
    v
}

/// Lengths of the flattened lists.
proof fn lemma_flat_lengths(a: Seq<u16>, b: Seq<u32>, c: Seq<[u8; 16]>)
    ensures
        flat16(a).len() == 2 * a.len(),
        flat32(b).len() == 4 * b.len(),
        flat128(c).len() == 16 * c.len(),
    decreases a.len() + b.len() + c.len(),
{
    if a.len() > 0 {
        lemma_flat_lengths(a.drop_last(), b, c);
    }
    if b.len() > 0 {
        lemma_flat_lengths(a, b.drop_last(), c);
    }
    if c.len() > 0 {
        lemma_flat_lengths(a, b, c.drop_last());
    }
}

impl AdvertiseType {
    /// The bytes of the field.
    pub fn to_bytes(&self) -> (r: Vec<u8>)
        ensures
            r@ == encode_field(*self),
    {
        match self {
            AdvertiseType::Flags(f) => {
                let mut v: Vec<u8> = Vec::new();
                v.push(0x02);
                v.push(0x01);
                v.push(*f);
                assert(v@ =~= seq![0x02u8, 0x01u8, *f]);
                v
            },
            AdvertiseType::ServicePartial16(s) => service16(0x02, s),
            AdvertiseType::ServiceComplete16(s) => service16(0x03, s),
            AdvertiseType::ServicePartial32(s) => service32(0x04, s),
            AdvertiseType::ServiceComplete32(s) => service32(0x05, s),
            AdvertiseType::ServicePartial128(s) => service128(0x06, s),
            AdvertiseType::ServiceComplete128(s) => service128(0x07, s),
            AdvertiseType::IntervalRange(min, max) => {
                let mut v: Vec<u8> = Vec::new();
                v.push(0x06);
                v.push(0x12);
                v.push((*min / 256) as u8);
                v.push((*min % 256) as u8);
                v.push((*max / 256) as u8);
                v.push((*max % 256) as u8);
                v.push(0x00);
                assert(v@ =~= seq![0x06u8, 0x12u8] + be16(*min) + be16(*max) + seq![0x00u8]);
                v
            },
            AdvertiseType::DeviceNameShort(n) => name_field(0x08, n),
            AdvertiseType::DeviceNameComplete(n) => name_field(0x09, n),
            AdvertiseType::Appearance(c) => {
                let value = c.value();
                let mut v: Vec<u8> = Vec::new();
                v.push(0x02);
                v.push(0x19);
                v.push((value % 256) as u8);
                assert(v@ =~= seq![0x02u8, 0x19u8, (c.spec_value() % 256) as u8]);
                v
            },
            AdvertiseType::TxPower(_) => {
                let mut v: Vec<u8> = Vec::new();
                v.push(0x03);
                v.push(0x0a);
                v.push(0x09);
                assert(v@ =~= seq![0x03u8, 0x0au8, 0x09u8]);
                v
            },
        }
    }
}

/// A field listing 16-bit service UUIDs.
fn service16(ad_type: u8, s: &Vec<u16>) -> (r: Vec<u8>)
    ensures
        r@ == field(ad_type, flat16(s@)),
{
    proof {
        lemma_flat_lengths(s@, seq![], seq![]);
    }
    // Only the data length modulo 256 reaches the length byte.
    let n: usize = (s.len() % 128) * 2;
    let mut v = header(ad_type, n);
    assert(length_byte(n as nat) == length_byte(flat16(s@).len()));
    push_flat16(&mut v, s);
    v
}

/// A field listing 32-bit service UUIDs.
fn service32(ad_type: u8, s: &Vec<u32>) -> (r: Vec<u8>)
    ensures
        r@ == field(ad_type, flat32(s@)),
{
    proof {
        lemma_flat_lengths(seq![], s@, seq![]);
    }
    let n: usize = (s.len() % 64) * 4;
    let mut v = header(ad_type, n);
    assert(length_byte(n as nat) == length_byte(flat32(s@).len()));
    push_flat32(&mut v, s);
    v
}

/// A field listing 128-bit service UUIDs.
fn service128(ad_type: u8, s: &Vec<[u8; 16]>) -> (r: Vec<u8>)
    ensures
        r@ == field(ad_type, flat128(s@)),
{
    proof {
        lemma_flat_lengths(seq![], seq![], s@);
    }
    let n: usize = (s.len() % 16) * 16;
    let mut v = header(ad_type, n);
    assert(length_byte(n as nat) == length_byte(flat128(s@).len()));
    push_flat128(&mut v, s);
    v
}

/// A field holding a device name.
fn name_field(ad_type: u8, name: &String) -> (r: Vec<u8>)
    ensures
        r@ == field(ad_type, encode_utf8(name@)),
{
    let bytes = name.as_str().as_bytes();
    let mut v = header(ad_type, bytes.len());
    push_bytes(&mut v, bytes);
    v
}

/// A raw advertising payload, as a list of fields, for the advertising data
/// or for the scan response.
pub struct RawAdvertiseData {
    pub data: Vec<AdvertiseType>,
    pub set_scan_rsp: bool,
}

impl RawAdvertiseData {
    pub fn new(data: Vec<AdvertiseType>, set_scan_rsp: bool) -> (r: Self)
        ensures
            r.data@ == data@,
            r.set_scan_rsp == set_scan_rsp,
    {
        RawAdvertiseData { data, set_scan_rsp }
    }

    /// The payload's bytes: the fields' bytes one after the other.
    pub fn as_raw_data(&self) -> (r: Vec<u8>)
        ensures
            r@ == encode_fields(self.data@),
    {
        let mut out: Vec<u8> = Vec::new();
        let mut i: usize = 0;
        while i < self.data.len()
            invariant
                i <= self.data.len(),
                out@ == encode_fields(self.data@.subrange(0, i as int)),
            decreases self.data.len() - i,
        {
            let bytes = self.data[i].to_bytes();
            push_bytes(&mut out, bytes.as_slice());
            assert(self.data@.subrange(0, i + 1).drop_last() =~= self.data@.subrange(0, i as int));
            i += 1;
        }
        assert(self.data@.subrange(0, self.data.len() as int) =~= self.data@);
        out
    }
}

/// The bytes of a UUID, least significant first, as the advertising data
/// structure takes a service UUID.
pub open spec fn uuid_le_bytes(u: BtUuid) -> Seq<u8> {
    match u {
        BtUuid::Uuid16(x) => seq![(x % 256) as u8, (x / 256) as u8],
        BtUuid::Uuid32(x) => seq![
            (x % 256) as u8,
            ((x / 256) % 256) as u8,
            ((x / 0x1_0000) % 256) as u8,
            (x / 0x100_0000) as u8,
        ],
        BtUuid::Uuid128(b) => b@,
    }
}

impl BtUuid {
    /// Computes `uuid_le_bytes`.
    pub fn le_bytes(&self) -> (r: Vec<u8>)
        ensures
            r@ == uuid_le_bytes(*self),
    {
        let mut v: Vec<u8> = Vec::new();
        match self {
            BtUuid::Uuid16(x) => {
                v.push((*x % 256) as u8);
                v.push((*x / 256) as u8);
            },
            BtUuid::Uuid32(x) => {
                v.push((*x % 256) as u8);
                v.push(((*x / 256) % 256) as u8);
                v.push(((*x / 0x1_0000) % 256) as u8);
                v.push((*x / 0x100_0000) as u8);
            },
            BtUuid::Uuid128(b) => {
                push_bytes(&mut v, b.as_slice());
            },
        }
        assert(v@ =~= uuid_le_bytes(*self));
        v
    }
}

/// The advertising data the stack assembles itself.
pub struct AdvertiseData {
    pub set_scan_rsp: bool,
    pub include_name: bool,
    pub include_txpower: bool,
    pub min_interval: i32,
    pub max_interval: i32,
    pub manufacturer: Option<String>,
    pub service: Option<String>,
    pub service_uuid: Option<BtUuid>,
    pub appearance: AppearanceCategory,
    pub flag: u8,
}

/// The flag for general, non-limited discoverability.
pub const ADV_FLAG_NON_LIMIT_DISC: u8 = 0;

impl Default for AdvertiseData {
    fn default() -> (r: Self)
        ensures
            !r.set_scan_rsp,
            !r.include_name,
            !r.include_txpower,
            r.min_interval == 0,
            r.max_interval == 0,
            r.manufacturer is None,
            r.service is None,
            r.service_uuid is None,
            r.appearance == AppearanceCategory::Unknown,
            r.flag == ADV_FLAG_NON_LIMIT_DISC,
    {
        AdvertiseData {
            set_scan_rsp: false,
            include_name: false,
            include_txpower: false,
            min_interval: 0,
            max_interval: 0,
            manufacturer: None,
            service: None,
            service_uuid: None,
            appearance: AppearanceCategory::Unknown,
            flag: ADV_FLAG_NON_LIMIT_DISC,
        }
    }
}

} // verus!

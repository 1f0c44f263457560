use vstd::prelude::*;
use vstd::arithmetic::div_mod::lemma_fundamental_div_mod_converse;

verus! {

/// Width of the identifier part of a key's code.
pub const ID_SPAN: u32 = 65536;

/// Identifies which pending interest an event belongs to.
///
/// One variant per event category that the stack emits; the variant alone
/// decides which kind of event may resolve the key.
#[derive(Clone, Copy, Debug, PartialEq, Eq, Structural, Hash)]
pub enum CorrelationKey {
    /// Application registration completed, by application id.
    AppRegistered(u16),
    /// Service creation completed, by GATT interface.
    ServiceCreated(u8),
    /// Service start completed, by service handle.
    ServiceStarted(u16),
    /// Characteristic added, by service handle.
    CharacteristicAdded(u16),
    /// Descriptor added, by service handle.
    DescriptorAdded(u16),
    /// Attribute read by a peer, by attribute handle.
    AttributeRead(u16),
    /// Attribute written by a peer, by attribute handle.
    AttributeWritten(u16),
    /// Peer connected, by GATT interface.
    Connected(u8),
    /// Raw advertising payload configured.
    RawAdvertisingConfigured,
    /// Raw scan-response payload configured.
    RawScanResponseConfigured,
    /// Advertising payload configured.
    AdvertisingConfigured,
    /// Scan-response payload configured.
    ScanResponseConfigured,
    /// Advertising started.
    AdvertisingStarted,
    /// Connection parameters updated.
    ConnectionParamsUpdated,
    /// Passkey notification during pairing.
    PasskeyNotified,
    /// Key exchanged during pairing.
    KeyExchanged,
    /// Authentication completed.
    AuthenticationCompleted,
    /// Numeric comparison requested by the peer.
    NumericComparisonRequested,
    /// Security requested by the peer.
    SecurityRequested,
}

impl CorrelationKey {
    /// The variant's position among the variants.
    pub open spec fn tag(self) -> nat {
        match self {
            CorrelationKey::AppRegistered(_) => 0,
            CorrelationKey::ServiceCreated(_) => 1,
            CorrelationKey::ServiceStarted(_) => 2,
            CorrelationKey::CharacteristicAdded(_) => 3,
            CorrelationKey::DescriptorAdded(_) => 4,
            CorrelationKey::AttributeRead(_) => 5,
            CorrelationKey::AttributeWritten(_) => 6,
            CorrelationKey::Connected(_) => 7,
            CorrelationKey::RawAdvertisingConfigured => 8,
            CorrelationKey::RawScanResponseConfigured => 9,
            CorrelationKey::AdvertisingConfigured => 10,
            CorrelationKey::ScanResponseConfigured => 11,
            CorrelationKey::AdvertisingStarted => 12,
            CorrelationKey::ConnectionParamsUpdated => 13,
            CorrelationKey::PasskeyNotified => 14,
            CorrelationKey::KeyExchanged => 15,
            CorrelationKey::AuthenticationCompleted => 16,
            CorrelationKey::NumericComparisonRequested => 17,
            CorrelationKey::SecurityRequested => 18,
        }
    }

    /// The identifier the key carries, or 0 for a variant without one.
    pub open spec fn id(self) -> nat {
        match self {
            CorrelationKey::AppRegistered(a) => a as nat,
            CorrelationKey::ServiceCreated(i) => i as nat,
            CorrelationKey::ServiceStarted(h) => h as nat,
            CorrelationKey::CharacteristicAdded(h) => h as nat,
            CorrelationKey::DescriptorAdded(h) => h as nat,
            CorrelationKey::AttributeRead(h) => h as nat,
            CorrelationKey::AttributeWritten(h) => h as nat,
            CorrelationKey::Connected(i) => i as nat,
            _ => 0,
        }
    }

    /// The key as one integer: tag and identifier side by side.
    pub open spec fn spec_code(self) -> u32 {
        (self.tag() * (ID_SPAN as nat) + self.id()) as u32
    }

    /// Computes the integer code of the key.
    pub fn code(&self) -> (r: u32)
        ensures
            r == self.spec_code(),
    {
        let (tag, id): (u32, u32) = match *self {
            CorrelationKey::AppRegistered(a) => (0, a as u32),
            CorrelationKey::ServiceCreated(i) => (1, i as u32),
            CorrelationKey::ServiceStarted(h) => (2, h as u32),
            CorrelationKey::CharacteristicAdded(h) => (3, h as u32),
            CorrelationKey::DescriptorAdded(h) => (4, h as u32),
            CorrelationKey::AttributeRead(h) => (5, h as u32),
            CorrelationKey::AttributeWritten(h) => (6, h as u32),
            CorrelationKey::Connected(i) => (7, i as u32),
            CorrelationKey::RawAdvertisingConfigured => (8, 0),
            CorrelationKey::RawScanResponseConfigured => (9, 0),
            CorrelationKey::AdvertisingConfigured => (10, 0),
            CorrelationKey::ScanResponseConfigured => (11, 0),
            CorrelationKey::AdvertisingStarted => (12, 0),
            CorrelationKey::ConnectionParamsUpdated => (13, 0),
            CorrelationKey::PasskeyNotified => (14, 0),
            CorrelationKey::KeyExchanged => (15, 0),
            CorrelationKey::AuthenticationCompleted => (16, 0),
            CorrelationKey::NumericComparisonRequested => (17, 0),
            CorrelationKey::SecurityRequested => (18, 0),
        };
        tag * ID_SPAN + id
    }
}

/// The key whose tag and identifier are the given ones, if any.
pub open spec fn key_of(tag: nat, id: nat) -> Option<CorrelationKey> {
    if tag == 0 && id < 65536 {
        Some(CorrelationKey::AppRegistered(id as u16))
    } else if tag == 1 && id < 256 {
        Some(CorrelationKey::ServiceCreated(id as u8))
    } else if tag == 2 && id < 65536 {
        Some(CorrelationKey::ServiceStarted(id as u16))
    } else if tag == 3 && id < 65536 {
        Some(CorrelationKey::CharacteristicAdded(id as u16))
    } else if tag == 4 && id < 65536 {
        Some(CorrelationKey::DescriptorAdded(id as u16))
    } else if tag == 5 && id < 65536 {
        Some(CorrelationKey::AttributeRead(id as u16))
    } else if tag == 6 && id < 65536 {
        Some(CorrelationKey::AttributeWritten(id as u16))
    } else if tag == 7 && id < 256 {
        Some(CorrelationKey::Connected(id as u8))
    } else if id != 0 {
        None
    } else if tag == 8 {
        Some(CorrelationKey::RawAdvertisingConfigured)
    } else if tag == 9 {
        Some(CorrelationKey::RawScanResponseConfigured)
    } else if tag == 10 {
        Some(CorrelationKey::AdvertisingConfigured)
    } else if tag == 11 {
        Some(CorrelationKey::ScanResponseConfigured)
    } else if tag == 12 {
        Some(CorrelationKey::AdvertisingStarted)
    } else if tag == 13 {
        Some(CorrelationKey::ConnectionParamsUpdated)
    } else if tag == 14 {
        Some(CorrelationKey::PasskeyNotified)
    } else if tag == 15 {
        Some(CorrelationKey::KeyExchanged)
    } else if tag == 16 {
        Some(CorrelationKey::AuthenticationCompleted)
    } else if tag == 17 {
        Some(CorrelationKey::NumericComparisonRequested)
    } else if tag == 18 {
        Some(CorrelationKey::SecurityRequested)
    } else {
        None
    }
}

/// A key is recovered from its tag and identifier.
pub proof fn lemma_key_of_parts(k: CorrelationKey)
    ensures
        key_of(k.tag(), k.id()) == Some(k),
        k.tag() < 19,
        k.id() < ID_SPAN,
{
}

/// Tag and identifier are recovered from the code.
pub proof fn lemma_code_parts(k: CorrelationKey)
    ensures
        k.spec_code() / ID_SPAN == k.tag(),
        k.spec_code() % ID_SPAN == k.id(),
{
    lemma_key_of_parts(k);
    lemma_fundamental_div_mod_converse(
        k.spec_code() as int,
        ID_SPAN as int,
        k.tag() as int,
        k.id() as int,
    );
}

/// Two keys with the same code are the same key.
pub broadcast proof fn lemma_code_injective(a: CorrelationKey, b: CorrelationKey)
    ensures
        #[trigger] a.spec_code() == #[trigger] b.spec_code() ==> a == b,
{
    lemma_code_parts(a);
    lemma_code_parts(b);
    lemma_key_of_parts(a);
    lemma_key_of_parts(b);
}

} // verus!

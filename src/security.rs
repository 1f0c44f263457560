use vstd::prelude::*;

verus! {

/// The input and output capabilities announced during pairing.
#[derive(Clone, Copy, Debug, PartialEq, Eq, Structural)]
pub enum IOCapabilities {
    DisplayOnly,
    DisplayYesNo,
    KeyboardOnly,
    NoInputNoOutput,
    Keyboard,
}

impl IOCapabilities {
    /// The capability's value on the wire.
    pub open spec fn spec_u8(self) -> u8 {
        match self {
            IOCapabilities::DisplayOnly => 0,
            IOCapabilities::DisplayYesNo => 1,
            IOCapabilities::KeyboardOnly => 2,
            IOCapabilities::NoInputNoOutput => 3,
            IOCapabilities::Keyboard => 4,
        }
    }

    pub fn as_u8(&self) -> (r: u8)
        ensures
            r == self.spec_u8(),
    {
        match self {
            IOCapabilities::DisplayOnly => 0,
            IOCapabilities::DisplayYesNo => 1,
            IOCapabilities::KeyboardOnly => 2,
            IOCapabilities::NoInputNoOutput => 3,
            IOCapabilities::Keyboard => 4,
        }
    }
}

impl Default for IOCapabilities {
    fn default() -> (r: Self)
        ensures
            r == IOCapabilities::DisplayOnly,
    {
        IOCapabilities::DisplayOnly
    }
}

/// The authentication requirements: bonding (bit 0), MITM protection
/// (bit 1) and secure connections (bit 2).
#[derive(Clone, Copy, Debug, PartialEq, Eq, Structural)]
pub enum AuthenticationRequest {
    NoBonding,
    Bonding,
    Mitm,
    MitmBonding,
    SecureOnly,
    SecureBonding,
    SecureMitm,
    SecureMitmBonding,
}

impl AuthenticationRequest {
    /// The requirement's value on the wire.
    pub open spec fn spec_u8(self) -> u8 {
        match self {
            AuthenticationRequest::NoBonding => 0,
            AuthenticationRequest::Bonding => 1,
            AuthenticationRequest::Mitm => 2,
            AuthenticationRequest::MitmBonding => 3,
            AuthenticationRequest::SecureOnly => 4,
            AuthenticationRequest::SecureBonding => 5,
            AuthenticationRequest::SecureMitm => 6,
            AuthenticationRequest::SecureMitmBonding => 7,
        }
    }

    pub fn as_u8(&self) -> (r: u8)
        ensures
            r == self.spec_u8(),
    {
        match self {
            AuthenticationRequest::NoBonding => 0,
            AuthenticationRequest::Bonding => 1,
            AuthenticationRequest::Mitm => 2,
            AuthenticationRequest::MitmBonding => 3,
            AuthenticationRequest::SecureOnly => 4,
            AuthenticationRequest::SecureBonding => 5,
            AuthenticationRequest::SecureMitm => 6,
            AuthenticationRequest::SecureMitmBonding => 7,
        }
    }
}

impl Default for AuthenticationRequest {
    fn default() -> (r: Self)
        ensures
            r == AuthenticationRequest::NoBonding,
    {
        AuthenticationRequest::NoBonding
    }
}

/// A set of keys to distribute: encryption key (bit 0), identity resolving
/// key (bit 1), signature resolving key (bit 2), link key (bit 3). Only the
/// sets named here can be expressed.
#[derive(Clone, Copy, Debug, PartialEq, Eq, Structural)]
pub enum KeyMask {
    EncryptionKey,
    IdentityResolvingKey,
    ConnectionSignatureResolvingKey,
    LinkKey,
    Inner0011,
    Inner0101,
    Inner1001,
    Inner1010,
    Inner1100,
    Inner1101,
    Inner1011,
    Inner1111,
}

/// Whether `b` is the bit set of some `KeyMask`.
pub open spec fn is_key_mask(b: u8) -> bool {
    b == 1 || b == 2 || b == 4 || b == 8 || b == 3 || b == 5 || b == 9 || b == 10 || b == 12
        || b == 13 || b == 11 || b == 15
}

impl KeyMask {
    /// The mask's bit set.
    pub open spec fn spec_u8(self) -> u8 {
        match self {
            KeyMask::EncryptionKey => 1,
            KeyMask::IdentityResolvingKey => 2,
            KeyMask::ConnectionSignatureResolvingKey => 4,
            KeyMask::LinkKey => 8,
            KeyMask::Inner0011 => 3,
            KeyMask::Inner0101 => 5,
            KeyMask::Inner1001 => 9,
            KeyMask::Inner1010 => 10,
            KeyMask::Inner1100 => 12,
            KeyMask::Inner1101 => 13,
            KeyMask::Inner1011 => 11,
            KeyMask::Inner1111 => 15,
        }
    }

    pub fn as_u8(&self) -> (r: u8)
        ensures
            r == self.spec_u8(),
            is_key_mask(r),
    {
        match self {
            KeyMask::EncryptionKey => 1,
            KeyMask::IdentityResolvingKey => 2,
            KeyMask::ConnectionSignatureResolvingKey => 4,
            KeyMask::LinkKey => 8,
            KeyMask::Inner0011 => 3,
            KeyMask::Inner0101 => 5,
            KeyMask::Inner1001 => 9,
            KeyMask::Inner1010 => 10,
            KeyMask::Inner1100 => 12,
            KeyMask::Inner1101 => 13,
            KeyMask::Inner1011 => 11,
            KeyMask::Inner1111 => 15,
        }
    }

    /// The mask with bit set `b`, or `None` when no mask has that set.
    pub fn from_bits(b: u8) -> (r: Option<KeyMask>)
        ensures
            r is Some <==> is_key_mask(b),
            r matches Some(m) ==> m.spec_u8() == b,
    {
        if is_key_mask_exec(b) {
            Some(KeyMask::from_valid_bits(b))
        } else {
            None
        }
    }

    /// The mask with bit set `b`, which must be one.
    pub fn from_valid_bits(b: u8) -> (r: KeyMask)
        requires
            is_key_mask(b),
        ensures
            r.spec_u8() == b,
    {
        match b {
            1 => KeyMask::EncryptionKey,
            2 => KeyMask::IdentityResolvingKey,
            4 => KeyMask::ConnectionSignatureResolvingKey,
            8 => KeyMask::LinkKey,
            3 => KeyMask::Inner0011,
            5 => KeyMask::Inner0101,
            9 => KeyMask::Inner1001,
            10 => KeyMask::Inner1010,
            12 => KeyMask::Inner1100,
            13 => KeyMask::Inner1101,
            11 => KeyMask::Inner1011,
            _ => KeyMask::Inner1111,
        }
    }

    /// The union of two masks, where the union is itself a mask.
    pub fn bitor(self, rhs: KeyMask) -> (r: KeyMask)
        requires
            is_key_mask(self.spec_u8() | rhs.spec_u8()),
        ensures
            r.spec_u8() == self.spec_u8() | rhs.spec_u8(),
    {
        let b = self.as_u8() | rhs.as_u8();
        KeyMask::from_valid_bits(b)
    }
}

/// Decides `is_key_mask`.
pub fn is_key_mask_exec(b: u8) -> (r: bool)
    ensures
        r == is_key_mask(b),
{
    b == 1 || b == 2 || b == 4 || b == 8 || b == 3 || b == 5 || b == 9 || b == 10 || b == 12
        || b == 13 || b == 11 || b == 15
}

/// The security level asked of a link.
#[derive(Clone, Copy, Debug, PartialEq, Eq, Structural)]
pub enum BleEncryption {
    Encryption,
    EncryptionNoMitm,
    EncryptionMitm,
}

impl BleEncryption {
    /// The level's value on the wire.
    pub open spec fn spec_u32(self) -> u32 {
        match self {
            BleEncryption::Encryption => 1,
            BleEncryption::EncryptionNoMitm => 2,
            BleEncryption::EncryptionMitm => 3,
        }
    }

    pub fn as_u32(&self) -> (r: u32)
        ensures
            r == self.spec_u32(),
    {
        match self {
            BleEncryption::Encryption => 1,
            BleEncryption::EncryptionNoMitm => 2,
            BleEncryption::EncryptionMitm => 3,
        }
    }
}

/// The pairing parameters of the security manager.
#[derive(Clone, Copy, Debug)]
pub struct SecurityConfig {
    pub auth_req_mode: AuthenticationRequest,
    pub io_capabilities: IOCapabilities,
    pub initiator_key: Option<KeyMask>,
    pub responder_key: Option<KeyMask>,
    pub max_key_size: Option<u8>,
    pub min_key_size: Option<u8>,
    pub static_passkey: Option<u32>,
    pub only_accept_specified_auth: bool,
    pub enable_oob: bool,
}

impl Default for SecurityConfig {
    fn default() -> (r: Self)
        ensures
            r.auth_req_mode == AuthenticationRequest::NoBonding,
            r.io_capabilities == IOCapabilities::DisplayOnly,
            r.initiator_key is None,
            r.responder_key is None,
            r.max_key_size is None,
            r.min_key_size is None,
            r.static_passkey is None,
            !r.only_accept_specified_auth,
            !r.enable_oob,
    {
        SecurityConfig {
            auth_req_mode: AuthenticationRequest::NoBonding,
            io_capabilities: IOCapabilities::DisplayOnly,
            initiator_key: None,
            responder_key: None,
            max_key_size: None,
            min_key_size: None,
            static_passkey: None,
            only_accept_specified_auth: false,
            enable_oob: false,
        }
    }
}

/// A parameter of the security manager.
#[derive(Clone, Copy, Debug, PartialEq, Eq, Structural)]
pub enum SmParam {
    AuthenReqMode,
    IocapMode,
    SetInitKey,
    SetRspKey,
    MaxKeySize,
    MinKeySize,
    SetStaticPasskey,
    OnlyAcceptSpecifiedSecAuth,
    OobSupport,
}

/// One parameter to hand the security manager: its value, passed as a
/// `size`-byte integer.
#[derive(Clone, Copy, Debug, PartialEq, Eq, Structural)]
pub struct SmSetting {
    pub param: SmParam,
    pub value: u32,
    pub size: u8,
}

/// A one-byte setting.
pub open spec fn byte_setting(param: SmParam, v: u8) -> SmSetting {
    SmSetting { param, value: v as u32, size: 1 }
}

/// A one-byte setting when there is a value, none otherwise.
pub open spec fn optional_byte(param: SmParam, v: Option<u8>) -> Seq<SmSetting> {
    match v {
        Some(x) => seq![byte_setting(param, x)],
        None => seq![],
    }
}

/// A key-mask setting when there is a mask, none otherwise.
pub open spec fn optional_mask(param: SmParam, v: Option<KeyMask>) -> Seq<SmSetting> {
    match v {
        Some(m) => seq![byte_setting(param, m.spec_u8())],
        None => seq![],
    }
}

/// The passkey setting when there is a passkey, none otherwise.
pub open spec fn passkey_setting(v: Option<u32>) -> Seq<SmSetting> {
    match v {
        Some(p) => seq![SmSetting { param: SmParam::SetStaticPasskey, value: p, size: 4 }],
        None => seq![],
    }
}

/// The authentication mode and capability settings of `c`.
pub open spec fn mode_settings(c: SecurityConfig) -> Seq<SmSetting> {
    seq![
        byte_setting(SmParam::AuthenReqMode, c.auth_req_mode.spec_u8()),
        byte_setting(SmParam::IocapMode, c.io_capabilities.spec_u8()),
    ]
}

/// The two flag settings of `c`.
pub open spec fn flag_settings(c: SecurityConfig) -> Seq<SmSetting> {
    seq![
        byte_setting(SmParam::OnlyAcceptSpecifiedSecAuth, c.only_accept_specified_auth as u8),
        byte_setting(SmParam::OobSupport, c.enable_oob as u8),
    ]
}

/// The settings that `c` stands for, in the order they are applied: the
/// authentication mode and capabilities first, the optional keys, sizes and
/// passkey next, the two flags last.
pub open spec fn security_settings(c: SecurityConfig) -> Seq<SmSetting> {
    mode_settings(c) + optional_mask(SmParam::SetInitKey, c.initiator_key) + optional_mask(
        SmParam::SetRspKey,
        c.responder_key,
    ) + optional_byte(SmParam::MaxKeySize, c.max_key_size) + optional_byte(
        SmParam::MinKeySize,
        c.min_key_size,
    ) + passkey_setting(c.static_passkey) + flag_settings(c)
}

/// Appends the setting of `v`, if there is one.
fn push_optional_byte(out: &mut Vec<SmSetting>, param: SmParam, v: Option<u8>)
    ensures
        final(out)@ == old(out)@ + optional_byte(param, v),
{
    if let Some(x) = v {
        out.push(SmSetting { param, value: x as u32, size: 1 });
    }
    assert(out@ =~= old(out)@ + optional_byte(param, v));
}

/// Appends the setting of mask `v`, if there is one.
fn push_optional_mask(out: &mut Vec<SmSetting>, param: SmParam, v: Option<KeyMask>)
    ensures
        final(out)@ == old(out)@ + optional_mask(param, v),
{
    if let Some(m) = v {
        out.push(SmSetting { param, value: m.as_u8() as u32, size: 1 });
    }
    assert(out@ =~= old(out)@ + optional_mask(param, v));
}

/// Appends the passkey setting, if there is a passkey.
fn push_passkey(out: &mut Vec<SmSetting>, v: Option<u32>)
    ensures
        final(out)@ == old(out)@ + passkey_setting(v),
{
    if let Some(p) = v {
        out.push(SmSetting { param: SmParam::SetStaticPasskey, value: p, size: 4 });
    }
    assert(out@ =~= old(out)@ + passkey_setting(v));
}

impl SecurityConfig {
    /// The settings to apply to the security manager, in order.
    pub fn settings(&self) -> (r: Vec<SmSetting>)
        ensures
            r@ == security_settings(*self),
    {
        let mut v: Vec<SmSetting> = Vec::new();
        v.push(
            SmSetting {
                param: SmParam::AuthenReqMode,
                value: self.auth_req_mode.as_u8() as u32,
                size: 1,
            },
        );
        v.push(
            SmSetting {
                param: SmParam::IocapMode,
                value: self.io_capabilities.as_u8() as u32,
                size: 1,
            },
        );
        assert(v@ =~= mode_settings(*self));
        push_optional_mask(&mut v, SmParam::SetInitKey, self.initiator_key);
        push_optional_mask(&mut v, SmParam::SetRspKey, self.responder_key);
        push_optional_byte(&mut v, SmParam::MaxKeySize, self.max_key_size);
        push_optional_byte(&mut v, SmParam::MinKeySize, self.min_key_size);
        push_passkey(&mut v, self.static_passkey);
        let ghost before_flags = v@;
        v.push(
            SmSetting {
                param: SmParam::OnlyAcceptSpecifiedSecAuth,
                value: self.only_accept_specified_auth as u32,
                size: 1,
            },
        );
        v.push(SmSetting { param: SmParam::OobSupport, value: self.enable_oob as u32, size: 1 });
        assert(v@ =~= before_flags + flag_settings(*self));
        v
    }
}

} // verus!

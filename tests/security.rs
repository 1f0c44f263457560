use esp_idf_ble::security::{is_key_mask_exec, SmParam, SmSetting};
use esp_idf_ble::{
    AuthenticationRequest, BleEncryption, BleError, BtUuid, GattApplication, GattService,
    IOCapabilities, KeyMask, SecurityConfig,
};

#[test]
fn key_mask_union() {
    let m = KeyMask::EncryptionKey.bitor(KeyMask::IdentityResolvingKey);
    assert_eq!(m, KeyMask::Inner0011);
    assert_eq!(m.as_u8(), 3);
    let all = KeyMask::Inner1101.bitor(KeyMask::IdentityResolvingKey);
    assert_eq!(all, KeyMask::Inner1111);
}

#[test]
fn key_mask_from_bits() {
    assert_eq!(KeyMask::from_bits(0b1010), Some(KeyMask::Inner1010));
    assert_eq!(KeyMask::from_bits(8), Some(KeyMask::LinkKey));
    assert_eq!(KeyMask::from_bits(0), None);
    assert_eq!(KeyMask::from_bits(6), None);
    assert_eq!(KeyMask::from_bits(0x10), None);
    assert!(!is_key_mask_exec(14));
    for b in 0..=255u8 {
        if let Some(m) = KeyMask::from_bits(b) {
            assert_eq!(m.as_u8(), b);
        }
    }
}

#[test]
fn wire_values() {
    assert_eq!(IOCapabilities::NoInputNoOutput.as_u8(), 3);
    assert_eq!(IOCapabilities::default(), IOCapabilities::DisplayOnly);
    assert_eq!(AuthenticationRequest::SecureMitmBonding.as_u8(), 7);
    assert_eq!(AuthenticationRequest::default().as_u8(), 0);
    assert_eq!(BleEncryption::EncryptionMitm.as_u32(), 3);
}

#[test]
fn default_security_settings() {
    let s = SecurityConfig::default().settings();
    assert_eq!(
        s,
        vec![
            SmSetting { param: SmParam::AuthenReqMode, value: 0, size: 1 },
            SmSetting { param: SmParam::IocapMode, value: 0, size: 1 },
            SmSetting { param: SmParam::OnlyAcceptSpecifiedSecAuth, value: 0, size: 1 },
            SmSetting { param: SmParam::OobSupport, value: 0, size: 1 },
        ]
    );
}

#[test]
fn full_security_settings() {
    let c = SecurityConfig {
        auth_req_mode: AuthenticationRequest::SecureMitmBonding,
        io_capabilities: IOCapabilities::DisplayOnly,
        initiator_key: Some(KeyMask::Inner0011),
        responder_key: Some(KeyMask::Inner1111),
        max_key_size: Some(16),
        min_key_size: Some(7),
        static_passkey: Some(123456),
        only_accept_specified_auth: true,
        enable_oob: false,
    };
    let s = c.settings();
    assert_eq!(s.len(), 9);
    assert_eq!(s[0], SmSetting { param: SmParam::AuthenReqMode, value: 7, size: 1 });
    assert_eq!(s[2], SmSetting { param: SmParam::SetInitKey, value: 3, size: 1 });
    assert_eq!(s[3], SmSetting { param: SmParam::SetRspKey, value: 15, size: 1 });
    assert_eq!(s[4], SmSetting { param: SmParam::MaxKeySize, value: 16, size: 1 });
    assert_eq!(s[5], SmSetting { param: SmParam::MinKeySize, value: 7, size: 1 });
    assert_eq!(s[6], SmSetting { param: SmParam::SetStaticPasskey, value: 123456, size: 4 });
    assert_eq!(s[7], SmSetting { param: SmParam::OnlyAcceptSpecifiedSecAuth, value: 1, size: 1 });
    assert_eq!(s[8], SmSetting { param: SmParam::OobSupport, value: 0, size: 1 });
}

#[test]
fn application_registration() {
    let mut app = GattApplication::new(1);
    assert_eq!(app.get_id(), 1);
    assert_eq!(app.get_gatt_if(), Err(BleError::InvalidState));
    assert_eq!(app.complete_registration(Err(BleError::Failed(2))), Err(BleError::Failed(2)));
    assert_eq!(app.get_gatt_if(), Err(BleError::InvalidState));
    assert_eq!(app.complete_registration(Ok(esp_idf_ble::Completion::Interface(7))), Ok(7));
    assert_eq!(app.get_gatt_if(), Ok(7));
}

#[test]
fn service_constructors() {
    let p = GattService::new_primary(BtUuid::Uuid16(0x00FF), 4, 1);
    assert!(p.is_primary);
    assert_eq!(p.handle, 4);
    assert_eq!(p.instance_id, 1);
    let s = GattService::new(BtUuid::Uuid32(7), 6, 2);
    assert!(!s.is_primary);
    assert_eq!(s.id, BtUuid::Uuid32(7));
}

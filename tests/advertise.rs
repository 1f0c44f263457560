use esp_idf_ble::advertise::{AdvertiseData, AdvertiseType, AppearanceCategory, RawAdvertiseData};
use esp_idf_ble::BtUuid;

#[test]
fn flags_field() {
    assert_eq!(AdvertiseType::Flags(0x06).to_bytes(), vec![0x02, 0x01, 0x06]);
}

#[test]
fn service16_fields_are_big_endian() {
    assert_eq!(
        AdvertiseType::ServiceComplete16(vec![0x180D, 0x00FF]).to_bytes(),
        vec![0x05, 0x03, 0x18, 0x0D, 0x00, 0xFF]
    );
    assert_eq!(AdvertiseType::ServicePartial16(vec![]).to_bytes(), vec![0x01, 0x02]);
}

#[test]
fn service32_and_128_fields() {
    assert_eq!(
        AdvertiseType::ServicePartial32(vec![0x0102_0304]).to_bytes(),
        vec![0x05, 0x04, 0x01, 0x02, 0x03, 0x04]
    );
    let uuid: [u8; 16] = [0, 1, 2, 3, 4, 5, 6, 7, 8, 9, 10, 11, 12, 13, 14, 15];
    let mut expected = vec![0x11, 0x07];
    expected.extend_from_slice(&uuid);
    assert_eq!(AdvertiseType::ServiceComplete128(vec![uuid]).to_bytes(), expected);
}

#[test]
fn interval_name_appearance_power() {
    assert_eq!(
        AdvertiseType::IntervalRange(0x0020, 0x0140).to_bytes(),
        vec![0x06, 0x12, 0x00, 0x20, 0x01, 0x40, 0x00]
    );
    assert_eq!(
        AdvertiseType::DeviceNameComplete("ESP32".to_string()).to_bytes(),
        vec![0x06, 0x09, b'E', b'S', b'P', b'3', b'2']
    );
    assert_eq!(
        AdvertiseType::DeviceNameShort("é".to_string()).to_bytes(),
        vec![0x03, 0x08, 0xC3, 0xA9]
    );
    assert_eq!(AppearanceCategory::Watch.value(), 192);
    assert_eq!(AppearanceCategory::OutdoorSportsActivity.code(), 0x51);
    assert_eq!(
        AdvertiseType::Appearance(AppearanceCategory::HeartRateSensor).to_bytes(),
        vec![0x02, 0x19, 0x40]
    );
    assert_eq!(AdvertiseType::TxPower(4).to_bytes(), vec![0x03, 0x0a, 0x09]);
}

#[test]
fn raw_payload_concatenates_fields() {
    let raw = RawAdvertiseData::new(
        vec![AdvertiseType::Flags(0x06), AdvertiseType::ServiceComplete16(vec![0x00FF])],
        true,
    );
    assert!(raw.set_scan_rsp);
    assert_eq!(raw.as_raw_data(), vec![0x02, 0x01, 0x06, 0x03, 0x03, 0x00, 0xFF]);
    assert_eq!(RawAdvertiseData::new(vec![], false).as_raw_data(), Vec::<u8>::new());
}

#[test]
fn uuid_bytes_least_significant_first() {
    assert_eq!(BtUuid::Uuid16(0x1234).le_bytes(), vec![0x34, 0x12]);
    assert_eq!(BtUuid::Uuid32(0x0102_0304).le_bytes(), vec![4, 3, 2, 1]);
    assert_eq!(BtUuid::Uuid128([7; 16]).le_bytes(), vec![7; 16]);
}

#[test]
fn default_advertise_data() {
    let d = AdvertiseData::default();
    assert!(!d.set_scan_rsp && !d.include_name && !d.include_txpower);
    assert_eq!(d.appearance, AppearanceCategory::Unknown);
    assert_eq!(d.flag, 0);
    assert!(d.manufacturer.is_none() && d.service_uuid.is_none());
}

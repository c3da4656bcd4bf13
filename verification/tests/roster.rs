//! Tests for roster building and device type classification.

use marvelmind::device::{Device, DeviceType};
use marvelmind::errors::DecodeError;
use marvelmind::roster::DeviceList;

/// Builds a roster snapshot buffer: the count header, then one 9-byte record
/// per entry `(address, duplicated, sleeping, v_major, v_minor, v_second,
/// type_code, flags)`, the reserved byte filled with a junk value, then
/// padding records up to `capacity`.
fn roster_buf(count: u8, capacity: usize, entries: &[(u8, u8, u8, u8, u8, u8, u8, u8)]) -> Vec<u8> {
    let mut buf = vec![0u8; 1 + capacity * 9];
    buf[0] = count;
    for (i, e) in entries.iter().enumerate() {
        let off = 1 + i * 9;
        buf[off] = e.0;
        buf[off + 1] = e.1;
        buf[off + 2] = e.2;
        buf[off + 3] = e.3;
        buf[off + 4] = e.4;
        buf[off + 5] = e.5;
        buf[off + 6] = e.6;
        buf[off + 7] = 0xAA; // reserved, must be skipped
        buf[off + 8] = e.7;
    }
    buf
}

#[test]
fn build_two_devices_in_order_with_sentinels() {
    let buf = roster_buf(
        2,
        4,
        &[
            (5, 0, 1, 6, 7, 1, 30, 0x01),
            (9, 1, 0, 5, 2, 0, 42, 0x02),
        ],
    );
    let dl = DeviceList::build(&buf).unwrap();
    let ds: &Vec<Device> = dl.devices();
    assert_eq!(ds.len(), 2);

    assert_eq!(ds[0].address(), 5);
    assert!(!ds[0].is_duplicated());
    assert!(ds[0].is_sleeping());
    assert_eq!(ds[0].v_major(), 6);
    assert_eq!(ds[0].v_minor(), 7);
    assert_eq!(ds[0].v_second(), 1);
    assert_eq!(ds[0].dtype(), DeviceType::BeaconHwV49);
    assert!(ds[0].is_connected());

    assert_eq!(ds[1].address(), 9);
    assert!(ds[1].is_duplicated());
    assert!(!ds[1].is_sleeping());
    assert_eq!(ds[1].dtype(), DeviceType::SuperBeacon);
    assert!(!ds[1].is_connected());

    for d in ds {
        assert_eq!(d.x(), 0);
        assert_eq!(d.y(), 0);
        assert_eq!(d.z(), 0);
        assert_eq!(d.q(), 0);
        assert_eq!(d.update_time(), 0);
    }
}

#[test]
fn build_declared_count_exceeding_capacity_is_malformed() {
    let buf = roster_buf(2, 1, &[(5, 0, 0, 1, 2, 3, 30, 1)]);
    assert_eq!(
        DeviceList::build(&buf).unwrap_err(),
        DecodeError::MalformedBuffer
    );
    // Even a count far past the capacity fails cleanly.
    let buf = roster_buf(255, 3, &[]);
    assert_eq!(
        DeviceList::build(&buf).unwrap_err(),
        DecodeError::MalformedBuffer
    );
}

#[test]
fn build_type_code_30_yields_beacon_hw_v49() {
    let buf = roster_buf(1, 1, &[(1, 0, 0, 0, 0, 0, 30, 0)]);
    let dl = DeviceList::build(&buf).unwrap();
    assert_eq!(dl.devices()[0].dtype(), DeviceType::BeaconHwV49);
}

#[test]
fn build_unmapped_type_code_99_fails_with_the_code() {
    let buf = roster_buf(1, 1, &[(1, 0, 0, 0, 0, 0, 99, 0)]);
    assert_eq!(
        DeviceList::build(&buf).unwrap_err(),
        DecodeError::UnknownDeviceType(99)
    );
}

#[test]
fn build_reports_first_unknown_code() {
    let buf = roster_buf(
        3,
        3,
        &[
            (1, 0, 0, 0, 0, 0, 30, 0),
            (2, 0, 0, 0, 0, 0, 77, 0),
            (3, 0, 0, 0, 0, 0, 99, 0),
        ],
    );
    assert_eq!(
        DeviceList::build(&buf).unwrap_err(),
        DecodeError::UnknownDeviceType(77)
    );
}

#[test]
fn build_unknown_code_beyond_count_is_ignored() {
    // The second record is outside the active count: its bogus code must not
    // be read.
    let buf = roster_buf(
        1,
        2,
        &[(1, 0, 0, 0, 0, 0, 30, 0), (2, 0, 0, 0, 0, 0, 99, 0)],
    );
    let dl = DeviceList::build(&buf).unwrap();
    assert_eq!(dl.devices().len(), 1);
}

#[test]
fn build_wrong_size_is_malformed() {
    assert_eq!(
        DeviceList::build(&Vec::new()).unwrap_err(),
        DecodeError::MalformedBuffer
    );
    // Length 12 is not one header byte plus whole 9-byte records.
    let buf = vec![0u8; 12];
    assert_eq!(
        DeviceList::build(&buf).unwrap_err(),
        DecodeError::MalformedBuffer
    );
}

#[test]
fn build_empty_roster() {
    let buf = roster_buf(0, 0, &[]);
    let dl = DeviceList::build(&buf).unwrap();
    assert_eq!(dl.devices().len(), 0);
}

#[test]
fn build_connected_flag_reads_only_bit_zero() {
    let buf = roster_buf(
        2,
        2,
        &[(1, 0, 0, 0, 0, 0, 22, 0x03), (2, 0, 0, 0, 0, 0, 22, 0x02)],
    );
    let dl = DeviceList::build(&buf).unwrap();
    assert!(dl.devices()[0].is_connected());
    assert!(!dl.devices()[1].is_connected());
}

#[test]
fn device_type_table_is_complete() {
    let known = [
        (22, DeviceType::BeaconHwV45),
        (23, DeviceType::BeaconHwV45Hedgehog),
        (24, DeviceType::ModemHwV49),
        (30, DeviceType::BeaconHwV49),
        (31, DeviceType::BeaconHwV49Hedgehog),
        (32, DeviceType::BeaconMiniRx),
        (36, DeviceType::BeaconMiniTx),
        (37, DeviceType::BeaconTxIp67),
        (41, DeviceType::BeaconIndustrialRx),
        (42, DeviceType::SuperBeacon),
        (43, DeviceType::SuperBeaconHedgedog),
        (44, DeviceType::IndustrialSuperBeacon),
        (45, DeviceType::IndustrialSuperBeaconHedgedog),
        (46, DeviceType::SuperModem),
        (48, DeviceType::ModemHwV51),
    ];
    for (code, t) in known {
        assert_eq!(DeviceType::try_from(code), Ok(t));
    }
    for code in [0u8, 21, 25, 29, 33, 35, 38, 40, 47, 49, 99, 255] {
        assert_eq!(
            DeviceType::try_from(code),
            Err(DecodeError::UnknownDeviceType(code))
        );
    }
}

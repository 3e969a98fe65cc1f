use corsair_battery_level::device::{
    connected_device, find_profile, profiles, select_profile, ConnectedDevice, DeviceStatus, Protocol,
    CORSAIR_VID, VIRTUOSO_USAGE, VIRTUOSO_USAGE_PAGE, VIRTUOSO_XT_PID,
};
use corsair_battery_level::tooltip::format_tooltip;
use corsair_battery_level::wide::{copy_wide_fixed, loword, wide};

fn device(name: &str) -> ConnectedDevice {
    ConnectedDevice { name: name.to_string() }
}

#[test]
fn tooltip_disconnected() {
    let s = DeviceStatus { connected: false, battery: Some(50), charging: true };
    assert_eq!(format_tooltip(&device("Corsair VOID"), &s), "Corsair VOID: Disconnected");
}

#[test]
fn tooltip_connected_with_level() {
    let s = DeviceStatus { connected: true, battery: Some(57), charging: false };
    assert_eq!(format_tooltip(&device("X"), &s), "X: Connected (57%)");
    let s = DeviceStatus { connected: true, battery: Some(5), charging: false };
    assert_eq!(format_tooltip(&device("X"), &s), "X: Connected (5%)");
    let s = DeviceStatus { connected: true, battery: Some(100), charging: false };
    assert_eq!(format_tooltip(&device("X"), &s), "X: Connected (100%)");
}

#[test]
fn tooltip_charging() {
    let s = DeviceStatus { connected: true, battery: Some(99), charging: true };
    assert_eq!(format_tooltip(&device("X"), &s), "X: Charging (99%)");
    let s = DeviceStatus { connected: true, battery: Some(100), charging: true };
    assert_eq!(format_tooltip(&device("X"), &s), "X: Fully charged (100%)");
    let s = DeviceStatus { connected: true, battery: Some(0), charging: true };
    assert_eq!(format_tooltip(&device("X"), &s), "X: Charging (0%)");
    let s = DeviceStatus { connected: true, battery: Some(255), charging: true };
    assert_eq!(format_tooltip(&device("X"), &s), "X: Fully charged (255%)");
}

#[test]
fn tooltip_without_level() {
    let s = DeviceStatus { connected: true, battery: None, charging: true };
    assert_eq!(format_tooltip(&device("Y"), &s), "Y: Charging");
    let s = DeviceStatus { connected: true, battery: None, charging: false };
    assert_eq!(format_tooltip(&device("Y"), &s), "Y: Connected");
}

#[test]
fn profile_table_contents() {
    let table = profiles();
    assert_eq!(table.len(), 15);
    assert_eq!(table[0].pid, 0x0A38);
    assert_eq!(table[0].name, "HS70 Wireless");
    assert_eq!(table[14].pid, VIRTUOSO_XT_PID);
    assert_eq!(table[14].name, "Virtuoso RGB Wireless XT");
}

#[test]
fn find_profile_by_pid() {
    let p = find_profile(0x0A55).unwrap();
    assert_eq!(p.name, "VOID ELITE Wireless");
    assert_eq!(p.protocol, Protocol::Legacy);
    let p = find_profile(0x0A3E).unwrap();
    assert_eq!(p.name, "Virtuoso RGB Wireless SE");
    assert_eq!(p.protocol, Protocol::Virtuoso);
    let p = find_profile(0x0A64).unwrap();
    assert_eq!(p.protocol, Protocol::Virtuoso);
    assert!(find_profile(0x1234).is_none());
}

#[test]
fn select_profile_filters() {
    assert!(select_profile(0x046D, 0x0A38, 0, 0).is_none());
    assert_eq!(select_profile(CORSAIR_VID, 0x0A38, 0x0C, 1).unwrap().name, "HS70 Wireless");
    assert!(select_profile(CORSAIR_VID, 0x9999, 0, 0).is_none());
    assert!(select_profile(CORSAIR_VID, VIRTUOSO_XT_PID, 0x0C, VIRTUOSO_USAGE).is_none());
    assert!(select_profile(CORSAIR_VID, VIRTUOSO_XT_PID, VIRTUOSO_USAGE_PAGE, 2).is_none());
    assert_eq!(
        select_profile(CORSAIR_VID, VIRTUOSO_XT_PID, VIRTUOSO_USAGE_PAGE, VIRTUOSO_USAGE).unwrap().pid,
        VIRTUOSO_XT_PID
    );
}

#[test]
fn device_names() {
    let p = find_profile(0x0A14).unwrap();
    assert_eq!(connected_device(Some("Corsair Inc."), &p).name, "Corsair Inc. VOID PRO Wireless");
    assert_eq!(connected_device(None, &p).name, "Corsair VOID PRO Wireless");
}

#[test]
fn wide_encodes_utf16_with_nul() {
    assert_eq!(wide(""), vec![0]);
    assert_eq!(wide("Ab"), vec![0x41, 0x62, 0]);
    assert_eq!(wide("é€"), vec![0xE9, 0x20AC, 0]);
    assert_eq!(wide("a😀"), vec![0x61, 0xD83D, 0xDE00, 0]);
    let text = "Corsair HS70 Wireless: Charging (42%) 😀";
    let mut expected: Vec<u16> = text.encode_utf16().collect();
    expected.push(0);
    assert_eq!(wide(text), expected);
}

#[test]
fn copy_wide_fixed_fits() {
    let mut buf = [7u16; 8];
    copy_wide_fixed(&mut buf, "abc");
    assert_eq!(buf, [0x61, 0x62, 0x63, 0, 0, 0, 0, 0]);
}

#[test]
fn copy_wide_fixed_truncates_leaving_nul() {
    let mut buf = [7u16; 4];
    copy_wide_fixed(&mut buf, "abcdef");
    assert_eq!(buf, [0x61, 0x62, 0x63, 0]);
    let mut buf = [7u16; 3];
    copy_wide_fixed(&mut buf, "a😀");
    assert_eq!(buf, [0x61, 0xD83D, 0]);
    let mut empty: [u16; 0] = [];
    copy_wide_fixed(&mut empty, "abc");
    let mut one = [5u16; 1];
    copy_wide_fixed(&mut one, "abc");
    assert_eq!(one, [0]);
}

#[test]
fn copy_wide_fixed_tooltip_size() {
    let mut buf = [1u16; 128];
    let text = "x".repeat(200);
    copy_wide_fixed(&mut buf, &text);
    assert!(buf[..127].iter().all(|u| *u == 0x78));
    assert_eq!(buf[127], 0);
}

#[test]
fn loword_takes_low_bits() {
    assert_eq!(loword(0x1234_5678), 0x5678);
    assert_eq!(loword(1001), 1001);
    assert_eq!(loword(0xFFFF_0000), 0);
}

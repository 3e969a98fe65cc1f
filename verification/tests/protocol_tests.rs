use corsair_battery_level::device::DeviceStatus;
use corsair_battery_level::protocol::{
    legacy_request, merge_virtuoso_reply, parse_legacy_reply, parse_virtuoso_result,
    virtuoso_reply, virtuoso_reply_in_range, virtuoso_request, virtuoso_status,
    VIRTUOSO_LEVEL_COMMAND, VIRTUOSO_PLUGGED_COMMAND,
};

fn report(prefix: &[u8]) -> [u8; 64] {
    let mut r = [0u8; 64];
    r[..prefix.len()].copy_from_slice(prefix);
    r
}

fn start() -> DeviceStatus {
    DeviceStatus { connected: true, battery: None, charging: false }
}

#[test]
fn legacy_request_bytes() {
    assert_eq!(legacy_request(), [0xC9, 0x64]);
}

#[test]
fn legacy_short_read_is_disconnected() {
    let r = report(&[0, 0, 50, 0, 1]);
    assert_eq!(parse_legacy_reply(&r, 4), DeviceStatus::default());
    assert_eq!(parse_legacy_reply(&r, 0), DeviceStatus { connected: false, battery: None, charging: false });
}

#[test]
fn legacy_state_zero_is_disconnected() {
    let r = report(&[0, 0, 50, 0, 0]);
    assert_eq!(parse_legacy_reply(&r, 64), DeviceStatus::default());
}

#[test]
fn legacy_connected_levels() {
    let r = report(&[0, 0, 57, 0, 1]);
    assert_eq!(parse_legacy_reply(&r, 5), DeviceStatus { connected: true, battery: Some(57), charging: false });
    let r = report(&[0, 0, 128 + 40, 0, 5]);
    assert_eq!(parse_legacy_reply(&r, 64), DeviceStatus { connected: true, battery: Some(40), charging: true });
    let r = report(&[0, 0, 128, 0, 2]);
    assert_eq!(parse_legacy_reply(&r, 64), DeviceStatus { connected: true, battery: Some(100), charging: false });
    let r = report(&[0, 0, 120, 0, 2]);
    assert_eq!(parse_legacy_reply(&r, 64), DeviceStatus { connected: true, battery: Some(100), charging: false });
    let r = report(&[0, 0, 255, 0, 2]);
    assert_eq!(parse_legacy_reply(&r, 64), DeviceStatus { connected: true, battery: Some(100), charging: false });
}

#[test]
fn virtuoso_request_layout() {
    let r = virtuoso_request(VIRTUOSO_LEVEL_COMMAND);
    assert_eq!(&r[..4], &[0x02, 0x09, 0x02, 0x0F]);
    assert!(r[4..].iter().all(|b| *b == 0));
    let r = virtuoso_request(VIRTUOSO_PLUGGED_COMMAND);
    assert_eq!(&r[..4], &[0x02, 0x09, 0x02, 0x10]);
}

#[test]
fn virtuoso_reply_empty_read_is_none() {
    let r = report(&[3, 1, 1, 0x0F, 0, 0x20, 0x03]);
    assert_eq!(virtuoso_reply(&r, 0), None);
    assert_eq!(virtuoso_reply(&r, 7), Some(r));
}

#[test]
fn virtuoso_result_values() {
    let mut s = start();
    parse_virtuoso_result(&mut s, 1);
    assert!(s.charging);
    parse_virtuoso_result(&mut s, 2);
    assert!(!s.charging);
    parse_virtuoso_result(&mut s, 804);
    assert_eq!(s.battery, Some(80));
    parse_virtuoso_result(&mut s, 805);
    assert_eq!(s.battery, Some(81));
    parse_virtuoso_result(&mut s, 3000);
    assert_eq!(s.battery, Some(100));
    parse_virtuoso_result(&mut s, 0);
    assert_eq!(s.battery, Some(0));
    parse_virtuoso_result(&mut s, 65530);
    assert_eq!(s.battery, Some(100));
}

#[test]
fn merge_state_push() {
    let mut s = start();
    merge_virtuoso_reply(&mut s, &report(&[1, 1, 2, 0, 1, 0]));
    assert_eq!(s, DeviceStatus { connected: true, battery: None, charging: true });
    merge_virtuoso_reply(&mut s, &report(&[1, 1, 2, 0, 0x20, 0x03]));
    assert_eq!(s, DeviceStatus { connected: true, battery: Some(80), charging: true });
}

#[test]
fn merge_level_answer() {
    let mut s = start();
    merge_virtuoso_reply(&mut s, &report(&[3, 1, 1, 0x0F, 0, 0x6F, 0x02]));
    // 0x026F = 623 tenths: 62.3 rounds to 62
    assert_eq!(s, DeviceStatus { connected: true, battery: Some(62), charging: false });
}

#[test]
fn merge_plugged_answer() {
    let mut s = start();
    merge_virtuoso_reply(&mut s, &report(&[3, 1, 1, 0x10, 0, 1]));
    assert!(s.charging);
    merge_virtuoso_reply(&mut s, &report(&[3, 1, 1, 0x10, 0, 2]));
    assert!(!s.charging);
    merge_virtuoso_reply(&mut s, &report(&[3, 1, 1, 0x10, 0, 0x90]));
    assert_eq!(s.battery, Some(14));
}

#[test]
fn merge_unknown_reply_changes_nothing() {
    let mut s = DeviceStatus { connected: true, battery: Some(7), charging: true };
    merge_virtuoso_reply(&mut s, &report(&[3, 1, 1, 0x11, 0, 1]));
    merge_virtuoso_reply(&mut s, &report(&[3, 1, 1, 0x0F, 1, 1]));
    merge_virtuoso_reply(&mut s, &report(&[2, 1, 2, 0, 1, 0]));
    merge_virtuoso_reply(&mut s, &report(&[]));
    assert_eq!(s, DeviceStatus { connected: true, battery: Some(7), charging: true });
}

#[test]
fn virtuoso_status_from_replies() {
    let plugged = report(&[3, 1, 1, 0x10, 0, 1]);
    let level = report(&[3, 1, 1, 0x0F, 0, 0xE8, 0x03]);
    assert_eq!(
        virtuoso_status(Some(plugged), Some(level)),
        DeviceStatus { connected: true, battery: Some(100), charging: true }
    );
    assert_eq!(virtuoso_status(None, None), start());
    assert_eq!(
        virtuoso_status(None, Some(report(&[3, 1, 1, 0x0F, 0, 0x2C, 0x01]))),
        DeviceStatus { connected: true, battery: Some(30), charging: false }
    );
}

#[test]
fn reply_range_check() {
    assert!(virtuoso_reply_in_range(&report(&[1, 1, 2, 0, 0xFA, 0xFF])));
    assert!(!virtuoso_reply_in_range(&report(&[1, 1, 2, 0, 0xFB, 0xFF])));
    assert!(!virtuoso_reply_in_range(&report(&[3, 1, 1, 0x0F, 0, 0xFF, 0xFF])));
    assert!(virtuoso_reply_in_range(&report(&[3, 1, 1, 0x10, 0, 0xFF])));
    assert!(virtuoso_reply_in_range(&report(&[9, 9, 9])));
}

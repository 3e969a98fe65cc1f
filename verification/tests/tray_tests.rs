use corsair_battery_level::device::{ConnectedDevice, DeviceStatus};
use corsair_battery_level::icon::status_canvas;
use corsair_battery_level::tray::{
    finish_update, notify_action, status_text, tray_action, tray_display, IconSwap, NotifyAction,
    TrayAction, TrayEvent, MENU_EXIT, MENU_REFRESH, TIMER_POLL,
};

#[test]
fn events_to_actions() {
    assert_eq!(tray_action(TrayEvent::Create), TrayAction::Start);
    assert_eq!(tray_action(TrayEvent::Timer { id: TIMER_POLL }), TrayAction::Refresh);
    assert_eq!(tray_action(TrayEvent::Timer { id: 7 }), TrayAction::Default);
    assert_eq!(tray_action(TrayEvent::Command { wparam: MENU_REFRESH }), TrayAction::Refresh);
    assert_eq!(tray_action(TrayEvent::Command { wparam: MENU_EXIT }), TrayAction::Quit);
    assert_eq!(tray_action(TrayEvent::Command { wparam: 0x0001_0000 | MENU_EXIT }), TrayAction::Quit);
    assert_eq!(tray_action(TrayEvent::Command { wparam: 5 }), TrayAction::Handled);
    assert_eq!(tray_action(TrayEvent::TrayIcon { clicked: true }), TrayAction::ShowMenu);
    assert_eq!(tray_action(TrayEvent::TrayIcon { clicked: false }), TrayAction::Handled);
    assert_eq!(tray_action(TrayEvent::Destroy), TrayAction::Shutdown);
    assert_eq!(tray_action(TrayEvent::Other), TrayAction::Default);
}

#[test]
fn first_icon_is_added() {
    assert_eq!(notify_action(0), NotifyAction::Add);
    assert_eq!(notify_action(0x40), NotifyAction::Modify);
}

#[test]
fn icon_swap_bookkeeping() {
    assert_eq!(finish_update(0, 5, true), IconSwap { destroy: None, current: 5 });
    assert_eq!(finish_update(3, 5, true), IconSwap { destroy: Some(3), current: 5 });
    assert_eq!(finish_update(5, 5, true), IconSwap { destroy: None, current: 5 });
    assert_eq!(finish_update(3, 5, false), IconSwap { destroy: Some(5), current: 3 });
    assert_eq!(finish_update(0, 5, false), IconSwap { destroy: Some(5), current: 0 });
}

#[test]
fn status_text_cases() {
    assert_eq!(status_text(&None), "No device found");
    let polled = Some((
        ConnectedDevice { name: "Corsair Virtuoso RGB Wireless XT".to_string() },
        DeviceStatus { connected: true, battery: Some(81), charging: false },
    ));
    assert_eq!(status_text(&polled), "Corsair Virtuoso RGB Wireless XT: Connected (81%)");
}

#[test]
fn tray_display_matches_parts() {
    let (text, canvas) = tray_display(&None);
    assert_eq!(text, "No device found");
    assert_eq!(canvas.pixels, status_canvas(None).pixels);
    let status = DeviceStatus { connected: true, battery: Some(12), charging: false };
    let polled = Some((ConnectedDevice { name: "H".to_string() }, status));
    let (text, canvas) = tray_display(&polled);
    assert_eq!(text, "H: Connected (12%)");
    assert_eq!(canvas.pixels, status_canvas(Some(&status)).pixels);
}

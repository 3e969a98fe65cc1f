use vstd::prelude::*;

use crate::canvas::Canvas;
use crate::device::{ConnectedDevice, DeviceStatus};
use crate::icon::{status_canvas, status_icon_pixels};
use crate::tooltip::{format_tooltip, tooltip_text};
use crate::wide::loword;

verus! {

/// Title of the tray window.
pub const APP_NAME: &'static str = "Corsair battery level";

/// How often the headset is polled, in milliseconds.
pub const BATTERY_POLL_MS: u32 = 60_000;

/// Id of the polling timer.
pub const TIMER_POLL: usize = 1;

/// Command id of the menu entry that polls at once.
pub const MENU_REFRESH: usize = 1001;

/// Command id of the menu entry that quits.
pub const MENU_EXIT: usize = 1002;

/// Id of the tray icon within the window.
pub const TRAY_UID: u32 = 1;

/// What the tray window was told.
#[derive(Clone, Copy, Debug, PartialEq, Eq, Structural)]
pub enum TrayEvent {
    /// The window was created.
    Create,
    /// A timer fired.
    Timer { id: usize },
    /// A menu entry was chosen; the command id is in the low word.
    Command { wparam: usize },
    /// The mouse acted on the tray icon; `clicked` when a button came up.
    TrayIcon { clicked: bool },
    /// The window is going away.
    Destroy,
    /// Any other message.
    Other,
}

/// What the tray window does about an event.
#[derive(Clone, Copy, Debug, PartialEq, Eq, Structural)]
pub enum TrayAction {
    /// Put up the icon, poll once and start the polling timer.
    Start,
    /// Poll the headset and show what it says.
    Refresh,
    /// Leave the message loop.
    Quit,
    /// Drop the icon and leave the message loop.
    Shutdown,
    /// Open the menu at the cursor.
    ShowMenu,
    /// Nothing more to do.
    Handled,
    /// Leave the message to the system's default handling.
    Default,
}

/// The action for an event: creation starts; the polling timer and the
/// refresh entry refresh; the exit entry quits; a click on the icon opens
/// the menu; destruction shuts down; other timers and messages go to the
/// default handling, other commands and mouse actions are ignored.
pub open spec fn action_for(event: TrayEvent) -> TrayAction {
    match event {
        TrayEvent::Create => TrayAction::Start,
        TrayEvent::Timer { id } => if id == TIMER_POLL {
            TrayAction::Refresh
        } else {
            TrayAction::Default
        },
        TrayEvent::Command { wparam } => {
            let command = wparam as int % 0x1_0000;
            if command == MENU_REFRESH {
                TrayAction::Refresh
            } else if command == MENU_EXIT {
                TrayAction::Quit
            } else {
                TrayAction::Handled
            }
        },
        TrayEvent::TrayIcon { clicked } => if clicked {
            TrayAction::ShowMenu
        } else {
            TrayAction::Handled
        },
        TrayEvent::Destroy => TrayAction::Shutdown,
        TrayEvent::Other => TrayAction::Default,
    }
}

/// A command is told by the low word of its `wparam` alone; the polling
/// timer and the refresh entry do the same; the exit entry quits without
/// dropping the icon, while destruction drops it.
pub proof fn lemma_actions(wparam: usize, high: usize)
    requires
        wparam < 0x1_0000,
        high * 0x1_0000 + wparam <= usize::MAX,
    ensures
        action_for(TrayEvent::Command { wparam: (high * 0x1_0000 + wparam) as usize }) == action_for(
            TrayEvent::Command { wparam },
        ),
        action_for(TrayEvent::Command { wparam: MENU_REFRESH }) == action_for(
            TrayEvent::Timer { id: TIMER_POLL },
        ),
        action_for(TrayEvent::Command { wparam: MENU_REFRESH }) == TrayAction::Refresh,
        action_for(TrayEvent::Command { wparam: MENU_EXIT }) == TrayAction::Quit,
        action_for(TrayEvent::Destroy) == TrayAction::Shutdown,
{
    assert((high * 0x1_0000 + wparam) % 0x1_0000 == wparam) by (nonlinear_arith)
        requires
            wparam < 0x1_0000,
            high >= 0,
    ;
}

/// Decides what the tray window does about an event.
pub fn tray_action(event: TrayEvent) -> (action: TrayAction)
    ensures
        action == action_for(event),
{
    match event {
        TrayEvent::Create => TrayAction::Start,
        TrayEvent::Timer { id } => {
            if id == TIMER_POLL {
                TrayAction::Refresh
            } else {
                TrayAction::Default
            }
        },
        TrayEvent::Command { wparam } => {
            assert((wparam as u32) as int % 0x1_0000 == wparam as int % 0x1_0000) by (bit_vector);
            let command = loword(wparam as u32) as usize;
            if command == MENU_REFRESH {
                TrayAction::Refresh
            } else if command == MENU_EXIT {
                TrayAction::Quit
            } else {
                TrayAction::Handled
            }
        },
        TrayEvent::TrayIcon { clicked } => {
            if clicked {
                TrayAction::ShowMenu
            } else {
                TrayAction::Handled
            }
        },
        TrayEvent::Destroy => TrayAction::Shutdown,
        TrayEvent::Other => TrayAction::Default,
    }
}

/// How the tray icon is handed to the shell.
#[derive(Clone, Copy, Debug, PartialEq, Eq, Structural)]
pub enum NotifyAction {
    /// The first icon: add it.
    Add,
    /// Replace the icon shown.
    Modify,
}

/// Adds the icon when none is shown yet (handle 0), else replaces it.
pub fn notify_action(current_icon: usize) -> (action: NotifyAction)
    ensures
        action == (if current_icon == 0 {
            NotifyAction::Add
        } else {
            NotifyAction::Modify
        }),
{
    if current_icon == 0 {
        NotifyAction::Add
    } else {
        NotifyAction::Modify
    }
}

/// After handing icon `icon` to the shell: which icon to destroy, and which
/// is shown now (handles are nonzero; 0 is no icon).
#[derive(Clone, Copy, Debug, PartialEq, Eq, Structural)]
pub struct IconSwap {
    pub destroy: Option<usize>,
    pub current: usize,
}

/// The icon bookkeeping after an update: when the shell refused the new icon
/// it is destroyed and the old one stays; when it took it, it is shown
/// and the old one, if another, is destroyed.
pub open spec fn swap_after(current: usize, icon: usize, shown: bool) -> IconSwap {
    if !shown {
        IconSwap { destroy: Some(icon), current }
    } else if current != 0 && current != icon {
        IconSwap { destroy: Some(current), current: icon }
    } else {
        IconSwap { destroy: None, current: icon }
    }
}

/// Decides, after handing a new icon to the shell, which icon to destroy
/// and which is shown.
pub fn finish_update(current: usize, icon: usize, shown: bool) -> (swap: IconSwap)
    ensures
        swap == swap_after(current, icon, shown),
{
    if !shown {
        return IconSwap { destroy: Some(icon), current };
    }
    if current != 0 && current != icon {
        IconSwap { destroy: Some(current), current: icon }
    } else {
        IconSwap { destroy: None, current: icon }
    }
}

/// For a new icon (not the one shown), the bookkeeping neither destroys the
/// icon that stays shown nor loses one: of the old and the new icon, each is
/// either shown afterwards or destroyed.
pub proof fn lemma_swap_keeps_or_destroys(current: usize, icon: usize, shown: bool)
    requires
        icon != 0,
        icon != current,
    ensures
        swap_after(current, icon, shown).destroy != Some(swap_after(current, icon, shown).current),
        swap_after(current, icon, shown).current == icon || swap_after(current, icon, shown).destroy
            == Some(icon),
        current != 0 ==> (swap_after(current, icon, shown).current == current || swap_after(
            current,
            icon,
            shown,
        ).destroy == Some(current)),
        shown ==> swap_after(current, icon, shown).current == icon,
{
}

/// The line shown when no headset answers.
pub open spec fn no_device_text() -> Seq<char> {
    "No device found"@
}

/// What a poll found, as a line of text: the tooltip of the headset that
/// answered, or that none did.
pub open spec fn status_line(polled: Option<(ConnectedDevice, DeviceStatus)>) -> Seq<char> {
    match polled {
        Some((device, status)) => tooltip_text(device.name@, status),
        None => no_device_text(),
    }
}

/// The line that describes what a poll found.
pub fn status_text(polled: &Option<(ConnectedDevice, DeviceStatus)>) -> (text: String)
    ensures
        text@ == status_line(*polled),
{
    match polled {
        Some((device, status)) => format_tooltip(device, status),
        None => String::from_str("No device found"),
    }
}

/// The status that a poll found, if a headset answered.
pub open spec fn polled_status(polled: Option<(ConnectedDevice, DeviceStatus)>) -> Option<
    DeviceStatus,
> {
    match polled {
        Some((device, status)) => Some(status),
        None => None,
    }
}

/// What the tray shows after a poll: the tooltip and the icon's pixels.
pub fn tray_display(polled: &Option<(ConnectedDevice, DeviceStatus)>) -> (display: (
    String,
    Canvas,
))
    ensures
        display.0@ == status_line(*polled),
        display.1.pixels@ == status_icon_pixels(polled_status(*polled)),
{
    let text = status_text(polled);
    let canvas = match polled {
        Some((_, status)) => status_canvas(Some(status)),
        None => status_canvas(None),
    };
    (text, canvas)
}

} // verus!

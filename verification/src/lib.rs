//! Battery state of Corsair wireless headsets: the replies of the headsets'
//! HID protocols, the tray tooltip and the 32x32 tray icon.
pub mod pixel;
pub mod canvas;
pub mod device;
pub mod icon;
pub mod protocol;
pub mod tooltip;
pub mod tray;
pub mod wide;

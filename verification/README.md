# corsair_battery_level

Shows the state and battery level of a Corsair wireless headset as a tray
icon on the Windows task bar.

- `src/` is the verified library: the device table and the choice of HID
  interface (`device`), the legacy and Virtuoso report formats (`protocol`),
  the tooltip text (`tooltip`), ARGB pixels and compositing (`pixel`), the
  32x32 canvas (`canvas`), the icons (`icon`), UTF-16 text for the Windows
  API (`wide`) and the tray window's decisions (`tray`).
- `app/` is the Windows program around it: HID I/O through `hidapi`, the
  window, the tray icon and the menu through `windows-sys`.

Run the program with `--status` to print what the headset reports.

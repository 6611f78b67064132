# ble_touch

Logic of a BLE HID touch bridge: JSON commands arrive over serial, become
touch gestures, and leave as 8-byte HID input reports over BLE.

- `src/` — the verified library
  - `cmd` — commands and configuration records (the window scale is kept as
    its IEEE-754 bit pattern)
  - `hid` — report descriptor, touch/release reports, wire encoding
  - `gesture` — tap, down, move, up, swipe, double tap, long press
  - `settings` — settings and their per-field PATCH merge
  - `control` — what each command does to the settings and what happens next
  - `serial` — line assembly from single-byte reads
  - `flash` — address arithmetic of the key-value flash partition
  - `lib.rs` — `process_cmd`, the command-to-gesture dispatch
- `app/` — JSON (serde), the floating-point coordinate transform and swipe
  interpolation, BLE, serial port, storage, and `main`
- `tests/` — tests of the library

# blinky

Firmware logic of a round smartwatch (ESP32, GC9A01 display, CST816S touch controller,
PCF8563 real-time clock, BMA423 accelerometer) that keeps its calendar, weather and time in
sync with a phone over Bluetooth.

- `src/` is the library, verified with Verus: the calendar and its persistence, the
  renderer's view model and frame planning, the phone protocol's packet frames, time
  synchronisation, power management, the real-time clock's registers, the touch controller
  driver and the display's bring-up sequence. Each module's decisions are functions from
  state and message to new state and actions.
- `app/` runs the modules on a tokio message bus, drives the ESP-IDF peripherals, draws the
  watch face with embedded-graphics and holds the serde copies of the exchanged types.
- `tests/` exercises the library on concrete values.

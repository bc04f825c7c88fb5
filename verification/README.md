# agitech_pump

The control logic of a hydroponics pump node, verified with Verus. The node watches EC, pH and the
water level of a tank, doses nutrients and pH correctors, refills and drains the tank, and takes
settings and commands over MQTT.

- `src/` is the verified library.
  - `rounding`, `magnitude`, `binary32`: IEEE 754 single-precision arithmetic on integers. Every
    threshold and every dose is computed with it, so that the contracts speak of exact values.
  - `config`, `mqtt`, `text`, `link`, `clock`: settings, topics and readings, the connection, and
    the wall clock.
  - `pump`, `pin_run`: the pins and the steps that drive them, and how a step that fails ends them.
  - `controller`, `auto_fsm`, `control_loop`: what the loop remembers, the automatic cycle, and a
    whole round with its safety rules.
  - `laws`: what holds of the loop as a whole.
- `app/` is the firmware around it, for an ESP32: GPIO, flash, Wi-Fi, MQTT and threads. The library
  says what to do as lists of effects; the firmware does it.
- `tests/` runs the library.

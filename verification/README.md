# pico_throttle_quadrant

Firmware for a Raspberry Pi Pico 2 throttle quadrant that presents itself to
the host as a USB joystick: twenty-one debounced buttons and two AS5600
magnetic angle sensors, both on one I2C bus behind a TCA9548A multiplexer.

- `src/` is the verified library (Verus): the AS5600 register model
  (configuration fields, angle scaling, register frames), multiplexer channel
  selection, button debouncing, the packing of the joystick report, and the
  device's USB settings. Every public function carries a contract, and the
  laws of the library are public proof functions beside the code they speak
  of.
- `app/` is the firmware around it: embassy tasks, the I2C and GPIO
  transfers, and the HID report descriptor.
- `tests/` runs the library on concrete values.

//! Firmware logic of a USB throttle quadrant: debounced buttons, AS5600
//! angle sensors behind a TCA9548A multiplexer, and the HID report that
//! the device sends to the host.
pub mod driver;
pub mod result;
pub mod state;
pub mod tasks;

pub use state::HardwareButtons;

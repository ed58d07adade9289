pub mod input;
pub mod usb;

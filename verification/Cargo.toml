[package]
name = "pico_throttle_quadrant"
version = "0.1.0"
edition = "2021"
publish = false

[dependencies]
embassy-executor = "=0.10.0"
embassy-rp = { version = "=0.10.0", features = ["rp235xa", "time-driver", "binary-info"] }
embassy-sync = "=0.8.0"
embassy-time = "=0.5.1"
embassy-usb = "=0.6.0"
embassy-futures = "=0.1.2"
embedded-hal = "=1.0.0"
embedded-hal-async = "=1.0.0"
usbd-hid = "=0.10.2"
static_cell = "=2.1.1"
defmt = "=1.2.0"
defmt-rtt = "=1.3.1"
panic-probe = "=1.0.0"

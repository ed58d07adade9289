use pico_throttle_quadrant::driver::as5600::Status;
use pico_throttle_quadrant::result::ResultExt;
use pico_throttle_quadrant::tasks::input::{
    angle_or_fallback, hardware_descriptor, led_next, pack_buttons, sensor_from_init,
    status_or_fallback, AXIS_CENTER, AXIS_FAILED,
};
use pico_throttle_quadrant::tasks::usb::{usb_config, DeviceHandler, HardwareDescriptor};
use pico_throttle_quadrant::HardwareButtons;

#[test]
fn err_log_keeps_success() {
    let ok: Result<u8, &str> = Ok(3);
    let err: Result<u8, &str> = Err("bus");
    assert_eq!(ok.err_log(), Some(3));
    assert_eq!(err.err_log(), None);
}

#[test]
fn sensor_only_when_init_succeeds() {
    let ok: Result<Result<u8, &str>, ()> = Ok(Ok(7));
    let failed: Result<Result<u8, &str>, ()> = Ok(Err("nack"));
    let timed_out: Result<Result<u8, &str>, ()> = Err(());
    assert_eq!(sensor_from_init(ok), Some(7));
    assert_eq!(sensor_from_init(failed), None);
    assert_eq!(sensor_from_init(timed_out), None);
}

#[test]
fn angle_fallbacks() {
    let ok: Result<Result<u16, &str>, ()> = Ok(Ok(1234));
    let failed: Result<Result<u16, &str>, ()> = Ok(Err("nack"));
    let timed_out: Result<Result<u16, &str>, ()> = Err(());
    assert_eq!(angle_or_fallback(ok), 1234);
    assert_eq!(angle_or_fallback(failed), u16::MAX);
    assert_eq!(angle_or_fallback(timed_out), AXIS_FAILED);
}

#[test]
fn status_fallbacks() {
    let s = Status::from_bits_truncate(Status::MAGNET_DETECTED | Status::MAGNET_WEAK);
    let ok: Result<Result<Status, &str>, ()> = Ok(Ok(s));
    let failed: Result<Result<Status, &str>, ()> = Ok(Err("nack"));
    let timed_out: Result<Result<Status, &str>, ()> = Err(());
    assert_eq!(status_or_fallback(ok).bits(), 0x30);
    assert_eq!(status_or_fallback(failed).bits(), 0);
    assert_eq!(status_or_fallback(timed_out).bits(), 0);
}

#[test]
fn packing_status_flags() {
    let s0 = Status::from_bits_truncate(Status::MAGNET_DETECTED);
    let s1 = Status::from_bits_truncate(Status::MAGNET_STRONG);
    let r = pack_buttons(0b101, s0, s1);
    assert_eq!(r, 0b101 | (0x20 << 23) | (0x08 << 26));
    assert_eq!(r & 0x1F_FFFF, 0b101);
    assert_eq!((r >> 23) & 0x38, 0x20);
    assert_eq!((r >> 26) & 0x38, 0x08);
    let all = Status::from_bits_truncate(0xFF);
    assert_eq!(pack_buttons(0, all, all), 0xFC00_0000);
}

#[test]
fn descriptor_without_sensors() {
    let d = hardware_descriptor(HardwareButtons::from_bits_truncate(HardwareButtons::IGNITION_START), None, None);
    assert_eq!(
        d,
        HardwareDescriptor { axis0: AXIS_CENTER, axis1: AXIS_CENTER, buttons: HardwareButtons::IGNITION_START }
    );
    assert_eq!(AXIS_CENTER, 32767);
}

#[test]
fn descriptor_with_sensors() {
    let s = Status::from_bits_truncate(Status::MAGNET_DETECTED);
    let d = hardware_descriptor(HardwareButtons::empty(), Some((100, s)), Some((0xFFFF, Status::empty())));
    assert_eq!(d.axis0, 100);
    assert_eq!(d.axis1, 0xFFFF);
    assert_eq!(d.buttons, 0x20 << 23);
}

#[test]
fn default_descriptor_is_zero() {
    assert_eq!(HardwareDescriptor::default(), HardwareDescriptor { axis0: 0, axis1: 0, buttons: 0 });
}

#[test]
fn led_blinks_each_second() {
    assert_eq!(led_next(true, 999_999), (true, false));
    assert_eq!(led_next(true, 1_000_000), (true, false));
    assert_eq!(led_next(true, 1_000_001), (false, true));
    assert_eq!(led_next(false, 5_000_000), (true, true));
}

#[test]
fn usb_identity() {
    let c = usb_config();
    assert_eq!(c.vendor_id, 0x5e40);
    assert_eq!(c.product_id, 0xface);
    assert_eq!(c.manufacturer, "Serophots");
    assert_eq!(c.product, "Pico Throttle Quadrant");
    assert_eq!(c.serial_number, "12345678");
    assert_eq!(c.max_power, 100);
    assert_eq!(c.max_packet_size_0, 64);
    assert!(!c.composite_with_iads);
    assert_eq!((c.device_class, c.device_sub_class, c.device_protocol), (0, 0, 0));
}

#[test]
fn device_configuration_follows_bus_events() {
    let mut h = DeviceHandler::new();
    assert!(!h.is_configured());
    h.configured(true);
    assert!(h.is_configured());
    h.addressed(3);
    assert!(!h.is_configured());
    h.configured(true);
    h.reset();
    assert!(!h.is_configured());
    h.configured(true);
    h.enabled(true);
    assert!(!h.is_configured());
    h.configured(false);
    assert!(!h.is_configured());
}

#[test]
fn configured_only_after_last_configuration_event() {
    let mut h = DeviceHandler::new();
    h.enabled(true);
    h.reset();
    h.addressed(9);
    h.configured(true);
    assert!(h.is_configured());
    h.configured(false);
    h.configured(true);
    assert!(h.is_configured());
    h.enabled(false);
    assert!(!h.is_configured());
}

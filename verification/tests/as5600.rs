use pico_throttle_quadrant::driver::as5600::{
    angle_from_raw, angle_from_register, config_from_register, config_write_frame, mut_config_frame, sensor_config,
    status_from_register, u16_from_be_bytes, u16_write_frame, Config, FastFilterThreshold,
    Hysteresis, PowerMode, SlowFilter, Status, TryFromReprError, Watchdog, REG_CONF_HI,
};

#[test]
fn angle_scales_twelve_bits_to_sixteen() {
    assert_eq!(angle_from_raw(0x0000), 0);
    assert_eq!(angle_from_raw(0x0001), 16);
    assert_eq!(angle_from_raw(0x07FF), 32759);
    assert_eq!(angle_from_raw(0x0800), 32775);
    assert_eq!(angle_from_raw(0x0FFF), 0xFFFF);
}

#[test]
fn angle_ignores_upper_nibble() {
    assert_eq!(angle_from_raw(0x1FFF), 0xFFFF);
    assert_eq!(angle_from_raw(0xF123), 4657);
    assert_eq!(angle_from_raw(0xF123), angle_from_raw(0x0123));
}

#[test]
fn angle_register_is_big_endian() {
    assert_eq!(angle_from_register([0x08, 0x00]), 32775);
    assert_eq!(angle_from_register([0x0F, 0xFF]), 0xFFFF);
    assert_eq!(angle_from_register([0x00, 0x01]), 16);
}

#[test]
fn be_bytes_round_trip() {
    assert_eq!(u16_from_be_bytes([0x12, 0x34]), 0x1234);
    assert_eq!(u16_write_frame(0x07, 0x1234), [0x07, 0x12, 0x34]);
    for v in [0u16, 1, 0xFF, 0x100, 0xABCD, 0xFFFF] {
        let f = u16_write_frame(0x07, v);
        assert_eq!(u16_from_be_bytes([f[1], f[2]]), v);
    }
}

#[test]
fn status_keeps_defined_flags() {
    assert_eq!(status_from_register(0xFF).bits(), 0x38);
    assert_eq!(status_from_register(0x20).bits(), Status::MAGNET_DETECTED);
    assert_eq!(status_from_register(0x07).bits(), 0);
    assert_eq!(Status::from_bits_truncate(0x18).bits(), 0x18);
    assert_eq!(Status::empty().bits(), 0);
}

#[test]
fn config_new_and_inner_mask_power_mode() {
    assert_eq!(Config::new(0xFFFF).inner(), 0x3FFF);
    assert_eq!(Config::new(0x1234).inner(), 0x1234);
    assert_eq!(Config::new(0xC000).get_power_mode(), PowerMode::Nom);
}

#[test]
fn config_fields_round_trip() {
    let mut c = Config::new(0);
    c.set_power_mode(PowerMode::Lpm2);
    c.set_hysteresis(Hysteresis::One);
    c.set_slow_filter(SlowFilter::X16);
    c.set_fast_filter_threshold(FastFilterThreshold::Counts18);
    c.set_watchdog(Watchdog::Off);
    assert_eq!(c.get_power_mode(), PowerMode::Lpm2);
    assert_eq!(c.get_hysteresis(), Hysteresis::One);
    assert_eq!(c.get_slow_filter(), SlowFilter::X16);
    assert_eq!(c.get_fast_filter_threshold(), FastFilterThreshold::Counts18);
    assert_eq!(c.get_watchdog(), Watchdog::Off);
    // power mode bits are not part of the inner value
    assert_eq!(c.inner(), 0b0001_0000_0010_0000);
}

#[test]
fn config_of_the_input_task() {
    let mut cfg = Config::new(0);
    cfg.set_power_mode(PowerMode::Nom);
    cfg.set_hysteresis(Hysteresis::One);
    cfg.set_slow_filter(SlowFilter::X16);
    cfg.set_fast_filter_threshold(FastFilterThreshold::Counts18);
    cfg.set_watchdog(Watchdog::Off);
    assert_eq!(cfg.inner(), 0x1020);
    assert_eq!(config_write_frame(cfg), [REG_CONF_HI, 0x10, 0x20]);
}

#[test]
fn setter_ors_into_field() {
    let mut c = Config::new(0);
    c.set_hysteresis(Hysteresis::One);
    c.set_hysteresis(Hysteresis::Two);
    assert_eq!(c.get_hysteresis(), Hysteresis::Three);
    let mut w = Config::new(0);
    w.set_watchdog(Watchdog::On);
    assert_eq!(w.get_watchdog(), Watchdog::On);
    assert_eq!(w.inner(), 0x0004);
}

#[test]
fn config_read_back() {
    let c = config_from_register([0xF0, 0x38]);
    assert_eq!(c.inner(), 0x3038);
    assert_eq!(c.get_power_mode(), PowerMode::Nom);
    assert_eq!(c.get_hysteresis(), Hysteresis::Three);
    assert_eq!(c.get_fast_filter_threshold(), FastFilterThreshold::Counts10);
    let w = config_write_frame(c);
    assert_eq!(config_from_register([w[1], w[2]]).inner(), c.inner());
}

#[test]
fn read_modify_write_config() {
    let frame = mut_config_frame([0x00, 0x00], |mut c: Config| {
        c.set_slow_filter(SlowFilter::X2);
        c
    });
    assert_eq!(frame, [REG_CONF_HI, 0x00, 0xC0]);
}

#[test]
fn enums_from_field_values() {
    assert_eq!(PowerMode::try_from(3), Ok(PowerMode::Lpm3));
    assert_eq!(PowerMode::try_from(4), Err(TryFromReprError { input: 4 }));
    assert_eq!(Hysteresis::try_from(0), Ok(Hysteresis::Off));
    assert_eq!(SlowFilter::try_from(1), Ok(SlowFilter::X8));
    assert_eq!(FastFilterThreshold::try_from(7), Ok(FastFilterThreshold::Counts10));
    assert_eq!(FastFilterThreshold::try_from(8), Err(TryFromReprError { input: 8 }));
    assert_eq!(Watchdog::try_from(1), Ok(Watchdog::On));
    assert_eq!(Watchdog::try_from(2), Err(TryFromReprError { input: 2 }));
    assert_eq!(FastFilterThreshold::Counts21.to_code(), 5);
    assert_eq!(Watchdog::Off.to_code(), 0);
}

#[test]
fn angle_rises_by_at_least_sixteen_per_step() {
    for raw in 0u16..0x0FFF {
        let step = angle_from_raw(raw + 1) - angle_from_raw(raw);
        assert!(step == 16 || step == 17);
    }
    assert!(angle_from_raw(1) > 0);
    assert!(angle_from_raw(0x0FFE) < 0xFFFF);
}

#[test]
fn identity_update_writes_back_what_was_read() {
    assert_eq!(mut_config_frame([0xFF, 0xA5], |c: Config| c), [REG_CONF_HI, 0x3F, 0xA5]);
    assert_eq!(mut_config_frame([0x12, 0x34], |c: Config| c), [REG_CONF_HI, 0x12, 0x34]);
}

#[test]
fn power_mode_setter_leaves_inner_alone() {
    let mut c = Config::new(0x0123);
    c.set_power_mode(PowerMode::Lpm3);
    assert_eq!(c.inner(), 0x0123);
    c.set_watchdog(Watchdog::On);
    assert_eq!(c.inner(), 0x0127);
}

#[test]
fn sensor_config_of_the_input_task() {
    let c = sensor_config();
    assert_eq!(c.inner(), 0x1020);
    assert_eq!(c.get_power_mode(), PowerMode::Nom);
    assert_eq!(c.get_hysteresis(), Hysteresis::One);
    assert_eq!(c.get_slow_filter(), SlowFilter::X16);
    assert_eq!(c.get_fast_filter_threshold(), FastFilterThreshold::Counts18);
    assert_eq!(c.get_watchdog(), Watchdog::Off);
    assert_eq!(config_write_frame(c), [REG_CONF_HI, 0x10, 0x20]);
}

#[test]
fn setter_sequence_only_adds_bits() {
    let mut c = Config::new(0xFFFF);
    c.set_power_mode(PowerMode::Nom);
    c.set_watchdog(Watchdog::Off);
    assert_eq!(c.inner(), 0x3FFF);
    let mut d = Config::new(0x0100);
    d.set_hysteresis(Hysteresis::Two);
    d.set_power_mode(PowerMode::Lpm3);
    d.set_fast_filter_threshold(FastFilterThreshold::Counts7);
    d.set_slow_filter(SlowFilter::X4);
    assert_eq!(d.inner(), 0x0100 | (2 << 12) | (2 << 3) | (2 << 6));
}

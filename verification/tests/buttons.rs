use pico_throttle_quadrant::driver::tca9548a::Tca9548a;
use pico_throttle_quadrant::driver::{Button, HardwarePins, DEBOUNCE_READS};
use pico_throttle_quadrant::HardwareButtons;

fn pins() -> HardwarePins {
    HardwarePins {
        throttle_disc_0: Button::new(true),
        throttle_disc_1: Button::new(true),
        throttle_toga_0: Button::new(true),
        throttle_toga_1: Button::new(true),
        eng_master_0: Button::new(true),
        eng_master_1: Button::new(true),
        eng_reverse_0: Button::new(true),
        eng_reverse_1: Button::new(true),
        ignition_crank: Button::new(true),
        ignition_norm: Button::new(true),
        ignition_start: Button::new(true),
        parking_brake: Button::new(true),
        unused_0: Button::new(true),
        unused_1: Button::new(true),
        unused_2: Button::new(true),
        unused_3: Button::new(true),
        unused_4: Button::new(true),
        unused_5: Button::new(true),
        unused_6: Button::new(true),
        unused_7: Button::new(true),
        unused_8: Button::new(true),
    }
}

#[test]
fn button_keeps_steady_level() {
    let mut b = Button::new(false);
    for _ in 0..50 {
        assert!(!b.read(false));
    }
}

#[test]
fn button_changes_on_eleventh_read() {
    let mut b = Button::new(false);
    for _ in 0..DEBOUNCE_READS {
        assert!(!b.read(true));
    }
    assert!(b.read(true));
    assert!(b.read(true));
}

#[test]
fn button_filters_glitch() {
    let mut b = Button::new(false);
    for _ in 0..DEBOUNCE_READS {
        assert!(!b.read(true));
    }
    assert!(!b.read(false));
    // the counter started over
    for _ in 0..DEBOUNCE_READS {
        assert!(!b.read(true));
    }
    assert!(b.read(true));
}

#[test]
fn button_new_takes_high_level() {
    // the level seen at start-up is the reported level until the input
    // has disagreed for eleven reads
    let mut b = Button::new(true);
    for _ in 0..DEBOUNCE_READS {
        assert!(b.read(false));
    }
    assert!(!b.read(false));
}

#[test]
fn pins_report_pressed_buttons() {
    let mut p = pins();
    let mut low = [false; 21];
    low[0] = true;
    low[11] = true;
    low[20] = true;
    // every button started as `true`; those reading high now disagree and
    // need eleven reads to settle
    let first = p.read(low);
    assert_eq!(first.bits(), HardwareButtons::ALL);
    let mut last = first;
    for _ in 0..DEBOUNCE_READS {
        last = p.read(low);
    }
    assert_eq!(
        last.bits(),
        HardwareButtons::THROTTLE_DISC_0 | HardwareButtons::PARKING_BRAKE | HardwareButtons::UNUSED_8
    );
}

#[test]
fn button_flags_are_positions() {
    assert_eq!(HardwareButtons::THROTTLE_DISC_0, 1);
    assert_eq!(HardwareButtons::PARKING_BRAKE, 1 << 11);
    assert_eq!(HardwareButtons::UNUSED_8, 1 << 20);
    assert_eq!(HardwareButtons::empty().bits(), 0);
    assert_eq!(HardwareButtons::from_bits_truncate(u32::MAX).bits(), 0x1F_FFFF);
}

#[test]
fn mux_selects_once() {
    let mut mux = Tca9548a::new(());
    assert_eq!(mux.select_request(1), Some(0b10));
    mux.selected_ok(1);
    assert_eq!(mux.select_request(1), None);
    assert_eq!(mux.select_request(0), Some(0b1));
    assert_eq!(mux.select_request(7), Some(0x80));
}

#[test]
fn mux_failed_write_is_retried() {
    let mut mux = Tca9548a::new(5u32);
    assert_eq!(mux.select_request(0), Some(1));
    // the write failed, so nothing is recorded and the next select writes again
    assert_eq!(mux.select_request(0), Some(1));
    *mux.bus_mut() = 6;
    assert_eq!(*mux.bus_mut(), 6);
}

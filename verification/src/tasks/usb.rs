//! The USB side: the joystick report and the device's settings.
use vstd::prelude::*;

verus! {

/// One joystick report: two axes and thirty-two buttons.
#[derive(Clone, Copy, Debug, PartialEq, Eq, Structural)]
pub struct HardwareDescriptor {
    pub axis0: u16,
    pub axis1: u16,
    pub buttons: u32,
}

impl Default for HardwareDescriptor {
    fn default() -> (r: HardwareDescriptor)
        ensures
            r.axis0 == 0,
            r.axis1 == 0,
            r.buttons == 0,
    {
        HardwareDescriptor { axis0: 0, axis1: 0, buttons: 0 }
    }
}

/// The settings that identify the device on the bus.
pub struct UsbConfig {
    pub vendor_id: u16,
    pub product_id: u16,
    pub manufacturer: &'static str,
    pub product: &'static str,
    pub serial_number: &'static str,
    pub max_power: u16,
    pub max_packet_size_0: u8,
    pub composite_with_iads: bool,
    pub device_class: u8,
    pub device_sub_class: u8,
    pub device_protocol: u8,
}

/// The device's USB settings.
pub fn usb_config() -> (r: UsbConfig)
    ensures
        r.vendor_id == 0x5e40,
        r.product_id == 0xface,
        r.manufacturer@ == "Serophots"@,
        r.product@ == "Pico Throttle Quadrant"@,
        r.serial_number@ == "12345678"@,
        r.max_power == 100,
        r.max_packet_size_0 == 64,
        !r.composite_with_iads,
        r.device_class == 0,
        r.device_sub_class == 0,
        r.device_protocol == 0,
{
    UsbConfig {
        vendor_id: 0x5e40,
        product_id: 0xface,
        manufacturer: "Serophots",
        product: "Pico Throttle Quadrant",
        serial_number: "12345678",
        max_power: 100,
        max_packet_size_0: 64,
        composite_with_iads: false,
        device_class: 0,
        device_sub_class: 0,
        device_protocol: 0,
    }
}

/// Interval in milliseconds at which the host polls the report.
pub const HID_POLL_MS: u8 = 60;

/// Largest packet of the report endpoint.
pub const HID_MAX_PACKET_SIZE: u16 = 64;

/// A bus event that the device handler is told of.
#[derive(Clone, Copy, Debug, PartialEq, Eq, Structural)]
pub enum UsbEvent {
    Enabled(bool),
    Reset,
    Addressed(u8),
    Configured(bool),
}

/// Whether the device is configured after `event`, given whether it was
/// before: only a configuration event sets the flag, and it sets it to its
/// argument; every other event clears it.
pub open spec fn after_event(configured: bool, event: UsbEvent) -> bool {
    match event {
        UsbEvent::Configured(c) => c,
        _ => false,
    }
}

/// Whether the device is configured after the events of `events`, in order.
pub open spec fn after_events(configured: bool, events: Seq<UsbEvent>) -> bool
    decreases events.len(),
{
    if events.len() == 0 {
        configured
    } else {
        after_event(after_events(configured, events.drop_last()), events.last())
    }
}

/// Whether the host has configured the device, as the bus events tell it.
pub struct DeviceHandler {
    configured: bool,
}

impl DeviceHandler {
    pub closed spec fn is_configured_spec(&self) -> bool {
        self.configured
    }

    pub fn new() -> (r: DeviceHandler)
        ensures
            !r.is_configured_spec(),
    {
        DeviceHandler { configured: false }
    }

    /// The device was enabled or disabled.
    pub fn enabled(&mut self, enabled: bool)
        ensures
            final(self).is_configured_spec() == after_event(
                old(self).is_configured_spec(),
                UsbEvent::Enabled(enabled),
            ),
            !final(self).is_configured_spec(),
    {
        self.configured = false;
    }

    /// The bus was reset.
    pub fn reset(&mut self)
        ensures
            final(self).is_configured_spec() == after_event(old(self).is_configured_spec(), UsbEvent::Reset),
            !final(self).is_configured_spec(),
    {
        self.configured = false;
    }

    /// The host assigned the device an address.
    pub fn addressed(&mut self, addr: u8)
        ensures
            final(self).is_configured_spec() == after_event(
                old(self).is_configured_spec(),
                UsbEvent::Addressed(addr),
            ),
            !final(self).is_configured_spec(),
    {
        self.configured = false;
    }

    /// The host configured or deconfigured the device.
    pub fn configured(&mut self, configured: bool)
        ensures
            final(self).is_configured_spec() == after_event(
                old(self).is_configured_spec(),
                UsbEvent::Configured(configured),
            ),
            final(self).is_configured_spec() == configured,
    {
        self.configured = configured;
    }

    pub fn is_configured(&self) -> (r: bool)
        ensures
            r == self.is_configured_spec(),
    {
        self.configured
    }
}

/// From a new handler, after any sequence of bus events, the device is
/// configured exactly when the last event is a configuration with `true`.
pub proof fn lemma_configured_after_events(events: Seq<UsbEvent>)
    ensures
        after_events(false, events) <==> (events.len() > 0 && events.last() == UsbEvent::Configured(true)),
{
    if events.len() > 0 {
        match events.last() {
            UsbEvent::Configured(c) => {},
            _ => {},
        }
    }
}

} // verus!

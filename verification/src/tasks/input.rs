//! The decisions of the input task: what each poll puts into the report.
use crate::driver::as5600::Status;
use crate::result::ResultExt;
use crate::state::HardwareButtons;
use crate::tasks::usb::HardwareDescriptor;
use vstd::prelude::*;

verus! {

/// The value of an axis whose sensor did not come up.
pub const AXIS_CENTER: u16 = u16::MAX / 2;

/// The value of an axis whose sensor did not answer this poll.
pub const AXIS_FAILED: u16 = u16::MAX;

/// Where the status flags of the first sensor go in the button bits.
pub const AXIS0_STATUS_SHIFT: u32 = 23;

/// Where the status flags of the second sensor go in the button bits.
pub const AXIS1_STATUS_SHIFT: u32 = 26;

/// How long the LED keeps one level, in microseconds.
pub const LED_PERIOD_US: u64 = 1_000_000;

/// The sensor, when bringing it up neither timed out nor failed.
pub fn sensor_from_init<S, E, T>(init: Result<Result<S, E>, T>) -> (r: Option<S>)
    ensures
        r == match init {
            Ok(Ok(s)) => Some(s),
            _ => None::<S>,
        },
{
    match init.err_log() {
        Some(inner) => inner.err_log(),
        None => None,
    }
}

/// The angle of a poll, or `AXIS_FAILED` when the read timed out or failed.
pub fn angle_or_fallback<E, T>(outcome: Result<Result<u16, E>, T>) -> (r: u16)
    ensures
        r == match outcome {
            Ok(Ok(a)) => a,
            _ => AXIS_FAILED,
        },
{
    match outcome {
        Ok(inner) => match inner.err_log() {
            Some(a) => a,
            None => AXIS_FAILED,
        },
        Err(_) => AXIS_FAILED,
    }
}

/// The status of a poll, or no flags when the read timed out or failed.
pub fn status_or_fallback<E, T>(outcome: Result<Result<Status, E>, T>) -> (r: Status)
    ensures
        r@ == match outcome {
            Ok(Ok(s)) => s@,
            _ => 0u8,
        },
{
    match outcome {
        Ok(inner) => match inner.err_log() {
            Some(s) => s,
            None => Status::empty(),
        },
        Err(_) => Status::empty(),
    }
}

/// The button bits of the report: the buttons, then the flags of the first
/// sensor shifted up by 23 and those of the second shifted up by 26.
pub open spec fn packed_buttons(buttons: u32, status0: u8, status1: u8) -> u32 {
    (buttons | ((status0 as u32) << AXIS0_STATUS_SHIFT)) | ((status1 as u32) << AXIS1_STATUS_SHIFT)
}

pub fn pack_buttons(buttons: u32, status0: Status, status1: Status) -> (r: u32)
    ensures
        r == packed_buttons(buttons, status0@, status1@),
{
    (buttons | ((status0.bits() as u32) << 23u32)) | ((status1.bits() as u32) << 26u32)
}

/// The report of one poll. A sensor that did not come up is `None` and
/// reports `AXIS_CENTER` with no flags; otherwise its angle and status. The
/// buttons and both sets of flags can each be read back from the report.
pub fn hardware_descriptor(
    buttons: HardwareButtons,
    axis0: Option<(u16, Status)>,
    axis1: Option<(u16, Status)>,
) -> (r: HardwareDescriptor)
    ensures
        r.axis0 == match axis0 {
            Some((a, _)) => a,
            None => AXIS_CENTER,
        },
        r.axis1 == match axis1 {
            Some((a, _)) => a,
            None => AXIS_CENTER,
        },
        r.buttons == packed_buttons(
            buttons@,
            match axis0 {
                Some((_, s)) => s@,
                None => 0u8,
            },
            match axis1 {
                Some((_, s)) => s@,
                None => 0u8,
            },
        ),
        r.buttons & HardwareButtons::ALL == buttons@,
        (r.buttons >> AXIS0_STATUS_SHIFT) & (Status::ALL as u32) == (match axis0 {
            Some((_, s)) => s@,
            None => 0u8,
        }) as u32,
        (r.buttons >> AXIS1_STATUS_SHIFT) & (Status::ALL as u32) == (match axis1 {
            Some((_, s)) => s@,
            None => 0u8,
        }) as u32,
        (r.buttons >> 21u32) & 0x1Fu32 == 0,
{
    let mut a0 = AXIS_CENTER;
    let mut a1 = AXIS_CENTER;
    let mut s0 = Status::empty();
    let mut s1 = Status::empty();
    if let Some((a, s)) = axis0 {
        a0 = a;
        s0 = s;
    }
    if let Some((a, s)) = axis1 {
        a1 = a;
        s1 = s;
    }
    let b = buttons.bits();
    let f0 = s0.bits();
    let f1 = s1.bits();
    proof {
        lemma_packed_buttons(b, f0, f1);
    }
    HardwareDescriptor { axis0: a0, axis1: a1, buttons: pack_buttons(b, s0, s1) }
}

/// The LED level to show next and whether its timer restarts: the level
/// flips once more than `LED_PERIOD_US` have passed since the last flip.
pub fn led_next(high: bool, elapsed_us: u64) -> (r: (bool, bool))
    ensures
        r == if elapsed_us > LED_PERIOD_US {
            (!high, true)
        } else {
            (high, false)
        },
{
    if elapsed_us > LED_PERIOD_US {
        (!high, true)
    } else {
        (high, false)
    }
}

/// The report keeps every part apart: the defined buttons, the flags of the
/// first sensor and those of the second can each be read back from it, and
/// bits 21 to 25 stay clear.
pub proof fn lemma_packed_buttons(buttons: u32, status0: u8, status1: u8)
    requires
        buttons & !HardwareButtons::ALL == 0,
        status0 & !Status::ALL == 0,
        status1 & !Status::ALL == 0,
    ensures
        packed_buttons(buttons, status0, status1) & HardwareButtons::ALL == buttons,
        (packed_buttons(buttons, status0, status1) >> AXIS0_STATUS_SHIFT) & (Status::ALL as u32) == status0 as u32,
        (packed_buttons(buttons, status0, status1) >> AXIS1_STATUS_SHIFT) & (Status::ALL as u32) == status1 as u32,
        (packed_buttons(buttons, status0, status1) >> 21u32) & 0x1Fu32 == 0,
{
    let r = packed_buttons(buttons, status0, status1);
    let w0 = status0 as u32;
    let w1 = status1 as u32;
    assert(w0 & !0x38u32 == 0 && w1 & !0x38u32 == 0) by (bit_vector)
        requires
            status0 & !0x38u8 == 0,
            status1 & !0x38u8 == 0,
            w0 == status0 as u32,
            w1 == status1 as u32,
    ;
    assert(r & 0x001F_FFFFu32 == buttons && (r >> 23u32) & 0x38u32 == w0 && (r >> 26u32) & 0x38u32 == w1
        && (r >> 21u32) & 0x1Fu32 == 0) by (bit_vector)
        requires
            buttons & !0x001F_FFFFu32 == 0,
            w0 & !0x38u32 == 0,
            w1 & !0x38u32 == 0,
            r == (buttons | (w0 << 23u32)) | (w1 << 26u32),
    ;
}

} // verus!

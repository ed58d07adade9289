//! The button part of the report: one bit per debounced input.
use vstd::prelude::*;

verus! {

/// The bit of button number `i`.
pub open spec fn flag(i: u32) -> u32 {
    1u32 << i
}

/// Whether bit `i` of `bits` is set.
pub open spec fn has_flag(bits: u32, i: u32) -> bool {
    (bits >> i) & 1u32 == 1u32
}

/// Buttons that are pressed, one bit per input.
#[derive(Clone, Copy, Debug, PartialEq, Eq, Structural)]
pub struct HardwareButtons {
    bits: u32,
}

impl View for HardwareButtons {
    type V = u32;

    closed spec fn view(&self) -> u32 {
        self.bits
    }
}

impl HardwareButtons {
    #[verifier::type_invariant]
    spec fn only_defined_buttons(self) -> bool {
        self.bits & !HardwareButtons::ALL == 0
    }

    pub const THROTTLE_DISC_0: u32 = 0x00000001;

    pub const THROTTLE_DISC_1: u32 = 0x00000002;

    pub const THROTTLE_TOGA_0: u32 = 0x00000004;

    pub const THROTTLE_TOGA_1: u32 = 0x00000008;

    pub const ENG_MASTER_0: u32 = 0x00000010;

    pub const ENG_MASTER_1: u32 = 0x00000020;

    pub const ENG_REVERSE_0: u32 = 0x00000040;

    pub const ENG_REVERSE_1: u32 = 0x00000080;

    pub const IGNITION_CRANK: u32 = 0x00000100;

    pub const IGNITION_NORM: u32 = 0x00000200;

    pub const IGNITION_START: u32 = 0x00000400;

    pub const PARKING_BRAKE: u32 = 0x00000800;

    pub const UNUSED_0: u32 = 0x00001000;

    pub const UNUSED_1: u32 = 0x00002000;

    pub const UNUSED_2: u32 = 0x00004000;

    pub const UNUSED_3: u32 = 0x00008000;

    pub const UNUSED_4: u32 = 0x00010000;

    pub const UNUSED_5: u32 = 0x00020000;

    pub const UNUSED_6: u32 = 0x00040000;

    pub const UNUSED_7: u32 = 0x00080000;

    pub const UNUSED_8: u32 = 0x00100000;

    /// Every defined button.
    pub const ALL: u32 = 0x001F_FFFF;

    pub fn empty() -> (r: HardwareButtons)
        ensures
            r@ == 0,
    {
        assert(0u32 & !0x001F_FFFFu32 == 0) by (bit_vector);
        HardwareButtons { bits: 0 }
    }

    /// The bits of the pressed buttons; only defined buttons are ever set.
    pub fn bits(&self) -> (r: u32)
        ensures
            r == self@,
            r & !HardwareButtons::ALL == 0,
    {
        proof {
            use_type_invariant(self);
        }
        self.bits
    }

    /// Keeps the defined buttons of `bits` and drops the others.
    pub fn from_bits_truncate(bits: u32) -> (r: HardwareButtons)
        ensures
            r@ == bits & HardwareButtons::ALL,
    {
        assert((bits & 0x001F_FFFFu32) & !0x001F_FFFFu32 == 0) by (bit_vector);
        HardwareButtons { bits: bits & 0x001F_FFFF }
    }
}

/// Each named button is the bit of its place in the order of the inputs, and
/// the defined buttons are the low twenty-one bits.
pub proof fn lemma_button_flags()
    ensures
        HardwareButtons::THROTTLE_DISC_0 == flag(0),
        HardwareButtons::THROTTLE_DISC_1 == flag(1),
        HardwareButtons::THROTTLE_TOGA_0 == flag(2),
        HardwareButtons::THROTTLE_TOGA_1 == flag(3),
        HardwareButtons::ENG_MASTER_0 == flag(4),
        HardwareButtons::ENG_MASTER_1 == flag(5),
        HardwareButtons::ENG_REVERSE_0 == flag(6),
        HardwareButtons::ENG_REVERSE_1 == flag(7),
        HardwareButtons::IGNITION_CRANK == flag(8),
        HardwareButtons::IGNITION_NORM == flag(9),
        HardwareButtons::IGNITION_START == flag(10),
        HardwareButtons::PARKING_BRAKE == flag(11),
        HardwareButtons::UNUSED_0 == flag(12),
        HardwareButtons::UNUSED_1 == flag(13),
        HardwareButtons::UNUSED_2 == flag(14),
        HardwareButtons::UNUSED_3 == flag(15),
        HardwareButtons::UNUSED_4 == flag(16),
        HardwareButtons::UNUSED_5 == flag(17),
        HardwareButtons::UNUSED_6 == flag(18),
        HardwareButtons::UNUSED_7 == flag(19),
        HardwareButtons::UNUSED_8 == flag(20),
        HardwareButtons::ALL == flag(21) - 1,
{
    assert({
        &&& 0x00000001u32 == 1u32 << 0u32
        &&& 0x00000002u32 == 1u32 << 1u32
        &&& 0x00000004u32 == 1u32 << 2u32
        &&& 0x00000008u32 == 1u32 << 3u32
        &&& 0x00000010u32 == 1u32 << 4u32
        &&& 0x00000020u32 == 1u32 << 5u32
        &&& 0x00000040u32 == 1u32 << 6u32
        &&& 0x00000080u32 == 1u32 << 7u32
        &&& 0x00000100u32 == 1u32 << 8u32
        &&& 0x00000200u32 == 1u32 << 9u32
        &&& 0x00000400u32 == 1u32 << 10u32
        &&& 0x00000800u32 == 1u32 << 11u32
        &&& 0x00001000u32 == 1u32 << 12u32
        &&& 0x00002000u32 == 1u32 << 13u32
        &&& 0x00004000u32 == 1u32 << 14u32
        &&& 0x00008000u32 == 1u32 << 15u32
        &&& 0x00010000u32 == 1u32 << 16u32
        &&& 0x00020000u32 == 1u32 << 17u32
        &&& 0x00040000u32 == 1u32 << 18u32
        &&& 0x00080000u32 == 1u32 << 19u32
        &&& 0x00100000u32 == 1u32 << 20u32
        &&& 0x001F_FFFFu32 == (1u32 << 21u32) - 1
    }) by (bit_vector);
}

} // verus!

pub mod as5600;
pub mod tca9548a;

use crate::state::{HardwareButtons, has_flag};
use vstd::prelude::*;

verus! {

/// Number of consecutive reads that must disagree with the stable level
/// before the next read replaces it.
pub const DEBOUNCE_READS: u8 = 10;

/// The stable level and counter of a button after one read of the raw
/// level `low` (true when the input is pulled low, that is, pressed).
pub open spec fn debounce(stable: bool, counter: u8, low: bool) -> (bool, u8) {
    let s = if counter == DEBOUNCE_READS { low } else { stable };
    let c = if counter == DEBOUNCE_READS { 0 } else { counter };
    if s == low {
        (s, 0)
    } else {
        (s, (c + 1) as u8)
    }
}

/// The stable level and counter after reading the raw levels of `levels`
/// in order.
pub open spec fn debounce_run(stable: bool, counter: u8, levels: Seq<bool>) -> (bool, u8)
    decreases levels.len(),
{
    if levels.len() == 0 {
        (stable, counter)
    } else {
        let (s, c) = debounce(stable, counter, levels[0]);
        debounce_run(s, c, levels.drop_first())
    }
}

/// A debounced push button. The raw level is sampled by the caller.
pub struct Button {
    stable: bool,
    counter: u8,
}

impl Button {
    #[verifier::type_invariant]
    spec fn counter_in_range(self) -> bool {
        self.counter <= DEBOUNCE_READS
    }

    /// The debounced level.
    pub closed spec fn stable_view(self) -> bool {
        self.stable
    }

    /// How many reads in a row have disagreed with the debounced level.
    pub closed spec fn counter_view(self) -> u8 {
        self.counter
    }

    /// A button whose input currently reads `is_high`.
    pub fn new(is_high: bool) -> (r: Button)
        ensures
            r.stable_view() == is_high,
            r.counter_view() == 0,
    {
        Button { stable: is_high, counter: 0 }
    }

    /// Takes one raw sample (`is_low`: the input is pulled low) and returns
    /// the debounced level.
    pub fn read(&mut self, is_low: bool) -> (r: bool)
        ensures
            (final(self).stable_view(), final(self).counter_view()) == debounce(
                old(self).stable_view(),
                old(self).counter_view(),
                is_low,
            ),
            r == final(self).stable_view(),
            final(self).counter_view() <= DEBOUNCE_READS,
    {
        proof {
            use_type_invariant(&*self);
        }
        let unstable = is_low;
        // If I2C is timing out then buttons are read 4x less frequently, and
        // a high debounce counter would result in noticeable latency.
        if self.counter == DEBOUNCE_READS {
            self.stable = unstable;
            self.counter = 0;
        }
        if self.stable == unstable {
            self.counter = 0;
        } else {
            self.counter = self.counter + 1;
        }
        self.stable
    }
}

/// The debounced buttons of the quadrant, in the order of their bits.
pub struct HardwarePins {
    pub throttle_disc_0: Button,
    pub throttle_disc_1: Button,
    pub throttle_toga_0: Button,
    pub throttle_toga_1: Button,
    pub eng_master_0: Button,
    pub eng_master_1: Button,
    pub eng_reverse_0: Button,
    pub eng_reverse_1: Button,
    pub ignition_crank: Button,
    pub ignition_norm: Button,
    pub ignition_start: Button,
    pub parking_brake: Button,
    pub unused_0: Button,
    pub unused_1: Button,
    pub unused_2: Button,
    pub unused_3: Button,
    pub unused_4: Button,
    pub unused_5: Button,
    pub unused_6: Button,
    pub unused_7: Button,
    pub unused_8: Button,
}

impl HardwarePins {
    /// The button of bit `i` (`0 <= i < 21`).
    pub open spec fn button(self, i: int) -> Button {
        if i == 0 {
            self.throttle_disc_0
        } else if i == 1 {
            self.throttle_disc_1
        } else if i == 2 {
            self.throttle_toga_0
        } else if i == 3 {
            self.throttle_toga_1
        } else if i == 4 {
            self.eng_master_0
        } else if i == 5 {
            self.eng_master_1
        } else if i == 6 {
            self.eng_reverse_0
        } else if i == 7 {
            self.eng_reverse_1
        } else if i == 8 {
            self.ignition_crank
        } else if i == 9 {
            self.ignition_norm
        } else if i == 10 {
            self.ignition_start
        } else if i == 11 {
            self.parking_brake
        } else if i == 12 {
            self.unused_0
        } else if i == 13 {
            self.unused_1
        } else if i == 14 {
            self.unused_2
        } else if i == 15 {
            self.unused_3
        } else if i == 16 {
            self.unused_4
        } else if i == 17 {
            self.unused_5
        } else if i == 18 {
            self.unused_6
        } else if i == 19 {
            self.unused_7
        } else {
            self.unused_8
        }
    }

    /// Reads every button from its raw sample (`low[i]` for the button of
    /// bit `i`) and returns the pressed ones.
    pub fn read(&mut self, low: [bool; 21]) -> (r: HardwareButtons)
        ensures
            (final(self).throttle_disc_0.stable_view(), final(self).throttle_disc_0.counter_view()) == debounce(
                old(self).throttle_disc_0.stable_view(),
                old(self).throttle_disc_0.counter_view(),
                low[0],
            ),
            (final(self).throttle_disc_1.stable_view(), final(self).throttle_disc_1.counter_view()) == debounce(
                old(self).throttle_disc_1.stable_view(),
                old(self).throttle_disc_1.counter_view(),
                low[1],
            ),
            (final(self).throttle_toga_0.stable_view(), final(self).throttle_toga_0.counter_view()) == debounce(
                old(self).throttle_toga_0.stable_view(),
                old(self).throttle_toga_0.counter_view(),
                low[2],
            ),
            (final(self).throttle_toga_1.stable_view(), final(self).throttle_toga_1.counter_view()) == debounce(
                old(self).throttle_toga_1.stable_view(),
                old(self).throttle_toga_1.counter_view(),
                low[3],
            ),
            (final(self).eng_master_0.stable_view(), final(self).eng_master_0.counter_view()) == debounce(
                old(self).eng_master_0.stable_view(),
                old(self).eng_master_0.counter_view(),
                low[4],
            ),
            (final(self).eng_master_1.stable_view(), final(self).eng_master_1.counter_view()) == debounce(
                old(self).eng_master_1.stable_view(),
                old(self).eng_master_1.counter_view(),
                low[5],
            ),
            (final(self).eng_reverse_0.stable_view(), final(self).eng_reverse_0.counter_view()) == debounce(
                old(self).eng_reverse_0.stable_view(),
                old(self).eng_reverse_0.counter_view(),
                low[6],
            ),
            (final(self).eng_reverse_1.stable_view(), final(self).eng_reverse_1.counter_view()) == debounce(
                old(self).eng_reverse_1.stable_view(),
                old(self).eng_reverse_1.counter_view(),
                low[7],
            ),
            (final(self).ignition_crank.stable_view(), final(self).ignition_crank.counter_view()) == debounce(
                old(self).ignition_crank.stable_view(),
                old(self).ignition_crank.counter_view(),
                low[8],
            ),
            (final(self).ignition_norm.stable_view(), final(self).ignition_norm.counter_view()) == debounce(
                old(self).ignition_norm.stable_view(),
                old(self).ignition_norm.counter_view(),
                low[9],
            ),
            (final(self).ignition_start.stable_view(), final(self).ignition_start.counter_view()) == debounce(
                old(self).ignition_start.stable_view(),
                old(self).ignition_start.counter_view(),
                low[10],
            ),
            (final(self).parking_brake.stable_view(), final(self).parking_brake.counter_view()) == debounce(
                old(self).parking_brake.stable_view(),
                old(self).parking_brake.counter_view(),
                low[11],
            ),
            (final(self).unused_0.stable_view(), final(self).unused_0.counter_view()) == debounce(
                old(self).unused_0.stable_view(),
                old(self).unused_0.counter_view(),
                low[12],
            ),
            (final(self).unused_1.stable_view(), final(self).unused_1.counter_view()) == debounce(
                old(self).unused_1.stable_view(),
                old(self).unused_1.counter_view(),
                low[13],
            ),
            (final(self).unused_2.stable_view(), final(self).unused_2.counter_view()) == debounce(
                old(self).unused_2.stable_view(),
                old(self).unused_2.counter_view(),
                low[14],
            ),
            (final(self).unused_3.stable_view(), final(self).unused_3.counter_view()) == debounce(
                old(self).unused_3.stable_view(),
                old(self).unused_3.counter_view(),
                low[15],
            ),
            (final(self).unused_4.stable_view(), final(self).unused_4.counter_view()) == debounce(
                old(self).unused_4.stable_view(),
                old(self).unused_4.counter_view(),
                low[16],
            ),
            (final(self).unused_5.stable_view(), final(self).unused_5.counter_view()) == debounce(
                old(self).unused_5.stable_view(),
                old(self).unused_5.counter_view(),
                low[17],
            ),
            (final(self).unused_6.stable_view(), final(self).unused_6.counter_view()) == debounce(
                old(self).unused_6.stable_view(),
                old(self).unused_6.counter_view(),
                low[18],
            ),
            (final(self).unused_7.stable_view(), final(self).unused_7.counter_view()) == debounce(
                old(self).unused_7.stable_view(),
                old(self).unused_7.counter_view(),
                low[19],
            ),
            (final(self).unused_8.stable_view(), final(self).unused_8.counter_view()) == debounce(
                old(self).unused_8.stable_view(),
                old(self).unused_8.counter_view(),
                low[20],
            ),
            r@ == pressed_bits(*final(self)),
    {
        let mut bits: u32 = 0;
        bits = bits | if self.throttle_disc_0.read(low[0]) { HardwareButtons::THROTTLE_DISC_0 } else { 0 };
        bits = bits | if self.throttle_disc_1.read(low[1]) { HardwareButtons::THROTTLE_DISC_1 } else { 0 };
        bits = bits | if self.throttle_toga_0.read(low[2]) { HardwareButtons::THROTTLE_TOGA_0 } else { 0 };
        bits = bits | if self.throttle_toga_1.read(low[3]) { HardwareButtons::THROTTLE_TOGA_1 } else { 0 };
        bits = bits | if self.eng_master_0.read(low[4]) { HardwareButtons::ENG_MASTER_0 } else { 0 };
        bits = bits | if self.eng_master_1.read(low[5]) { HardwareButtons::ENG_MASTER_1 } else { 0 };
        bits = bits | if self.eng_reverse_0.read(low[6]) { HardwareButtons::ENG_REVERSE_0 } else { 0 };
        bits = bits | if self.eng_reverse_1.read(low[7]) { HardwareButtons::ENG_REVERSE_1 } else { 0 };
        bits = bits | if self.ignition_crank.read(low[8]) { HardwareButtons::IGNITION_CRANK } else { 0 };
        bits = bits | if self.ignition_norm.read(low[9]) { HardwareButtons::IGNITION_NORM } else { 0 };
        bits = bits | if self.ignition_start.read(low[10]) { HardwareButtons::IGNITION_START } else { 0 };
        bits = bits | if self.parking_brake.read(low[11]) { HardwareButtons::PARKING_BRAKE } else { 0 };
        bits = bits | if self.unused_0.read(low[12]) { HardwareButtons::UNUSED_0 } else { 0 };
        bits = bits | if self.unused_1.read(low[13]) { HardwareButtons::UNUSED_1 } else { 0 };
        bits = bits | if self.unused_2.read(low[14]) { HardwareButtons::UNUSED_2 } else { 0 };
        bits = bits | if self.unused_3.read(low[15]) { HardwareButtons::UNUSED_3 } else { 0 };
        bits = bits | if self.unused_4.read(low[16]) { HardwareButtons::UNUSED_4 } else { 0 };
        bits = bits | if self.unused_5.read(low[17]) { HardwareButtons::UNUSED_5 } else { 0 };
        bits = bits | if self.unused_6.read(low[18]) { HardwareButtons::UNUSED_6 } else { 0 };
        bits = bits | if self.unused_7.read(low[19]) { HardwareButtons::UNUSED_7 } else { 0 };
        bits = bits | if self.unused_8.read(low[20]) { HardwareButtons::UNUSED_8 } else { 0 };
        proof {
            reveal(pressed_bits);
            lemma_pressed_bits(*self);
        }
        HardwareButtons::from_bits_truncate(bits)
    }
}

/// The bits of the buttons of `p` whose debounced level is pressed.
#[verifier::opaque]
pub open spec fn pressed_bits(p: HardwarePins) -> u32 {
    0u32
        | if p.throttle_disc_0.stable_view() { HardwareButtons::THROTTLE_DISC_0 } else { 0 }
        | if p.throttle_disc_1.stable_view() { HardwareButtons::THROTTLE_DISC_1 } else { 0 }
        | if p.throttle_toga_0.stable_view() { HardwareButtons::THROTTLE_TOGA_0 } else { 0 }
        | if p.throttle_toga_1.stable_view() { HardwareButtons::THROTTLE_TOGA_1 } else { 0 }
        | if p.eng_master_0.stable_view() { HardwareButtons::ENG_MASTER_0 } else { 0 }
        | if p.eng_master_1.stable_view() { HardwareButtons::ENG_MASTER_1 } else { 0 }
        | if p.eng_reverse_0.stable_view() { HardwareButtons::ENG_REVERSE_0 } else { 0 }
        | if p.eng_reverse_1.stable_view() { HardwareButtons::ENG_REVERSE_1 } else { 0 }
        | if p.ignition_crank.stable_view() { HardwareButtons::IGNITION_CRANK } else { 0 }
        | if p.ignition_norm.stable_view() { HardwareButtons::IGNITION_NORM } else { 0 }
        | if p.ignition_start.stable_view() { HardwareButtons::IGNITION_START } else { 0 }
        | if p.parking_brake.stable_view() { HardwareButtons::PARKING_BRAKE } else { 0 }
        | if p.unused_0.stable_view() { HardwareButtons::UNUSED_0 } else { 0 }
        | if p.unused_1.stable_view() { HardwareButtons::UNUSED_1 } else { 0 }
        | if p.unused_2.stable_view() { HardwareButtons::UNUSED_2 } else { 0 }
        | if p.unused_3.stable_view() { HardwareButtons::UNUSED_3 } else { 0 }
        | if p.unused_4.stable_view() { HardwareButtons::UNUSED_4 } else { 0 }
        | if p.unused_5.stable_view() { HardwareButtons::UNUSED_5 } else { 0 }
        | if p.unused_6.stable_view() { HardwareButtons::UNUSED_6 } else { 0 }
        | if p.unused_7.stable_view() { HardwareButtons::UNUSED_7 } else { 0 }
        | if p.unused_8.stable_view() { HardwareButtons::UNUSED_8 } else { 0 }
}

/// Bit `i` of the pressed bits is set exactly when the button of bit `i` is
/// pressed, and no bit above the defined buttons is set.
pub proof fn lemma_pressed_bits(p: HardwarePins)
    ensures
        forall|i: u32| i < 21 ==> (has_flag(pressed_bits(p), i) <==> p.button(i as int).stable_view()),
        pressed_bits(p) & !HardwareButtons::ALL == 0,
        pressed_bits(p) & HardwareButtons::ALL == pressed_bits(p),
{
    lemma_pressed_bits_each(p);
    assert forall|i: u32| i < 21 implies (has_flag(pressed_bits(p), i) <==> p.button(i as int).stable_view()) by {
        if i == 0 {
        } else if i == 1 {
        } else if i == 2 {
        } else if i == 3 {
        } else if i == 4 {
        } else if i == 5 {
        } else if i == 6 {
        } else if i == 7 {
        } else if i == 8 {
        } else if i == 9 {
        } else if i == 10 {
        } else if i == 11 {
        } else if i == 12 {
        } else if i == 13 {
        } else if i == 14 {
        } else if i == 15 {
        } else if i == 16 {
        } else if i == 17 {
        } else if i == 18 {
        } else if i == 19 {
        } else if i == 20 {
        }
    }
}

proof fn lemma_pressed_bits_each(p: HardwarePins)
    ensures
        has_flag(pressed_bits(p), 0u32) == p.throttle_disc_0.stable_view(),
        has_flag(pressed_bits(p), 1u32) == p.throttle_disc_1.stable_view(),
        has_flag(pressed_bits(p), 2u32) == p.throttle_toga_0.stable_view(),
        has_flag(pressed_bits(p), 3u32) == p.throttle_toga_1.stable_view(),
        has_flag(pressed_bits(p), 4u32) == p.eng_master_0.stable_view(),
        has_flag(pressed_bits(p), 5u32) == p.eng_master_1.stable_view(),
        has_flag(pressed_bits(p), 6u32) == p.eng_reverse_0.stable_view(),
        has_flag(pressed_bits(p), 7u32) == p.eng_reverse_1.stable_view(),
        has_flag(pressed_bits(p), 8u32) == p.ignition_crank.stable_view(),
        has_flag(pressed_bits(p), 9u32) == p.ignition_norm.stable_view(),
        has_flag(pressed_bits(p), 10u32) == p.ignition_start.stable_view(),
        has_flag(pressed_bits(p), 11u32) == p.parking_brake.stable_view(),
        has_flag(pressed_bits(p), 12u32) == p.unused_0.stable_view(),
        has_flag(pressed_bits(p), 13u32) == p.unused_1.stable_view(),
        has_flag(pressed_bits(p), 14u32) == p.unused_2.stable_view(),
        has_flag(pressed_bits(p), 15u32) == p.unused_3.stable_view(),
        has_flag(pressed_bits(p), 16u32) == p.unused_4.stable_view(),
        has_flag(pressed_bits(p), 17u32) == p.unused_5.stable_view(),
        has_flag(pressed_bits(p), 18u32) == p.unused_6.stable_view(),
        has_flag(pressed_bits(p), 19u32) == p.unused_7.stable_view(),
        has_flag(pressed_bits(p), 20u32) == p.unused_8.stable_view(),
        pressed_bits(p) & !HardwareButtons::ALL == 0,
        pressed_bits(p) & HardwareButtons::ALL == pressed_bits(p),
{
    let b0 = p.throttle_disc_0.stable_view();
    let b1 = p.throttle_disc_1.stable_view();
    let b2 = p.throttle_toga_0.stable_view();
    let b3 = p.throttle_toga_1.stable_view();
    let b4 = p.eng_master_0.stable_view();
    let b5 = p.eng_master_1.stable_view();
    let b6 = p.eng_reverse_0.stable_view();
    let b7 = p.eng_reverse_1.stable_view();
    let b8 = p.ignition_crank.stable_view();
    let b9 = p.ignition_norm.stable_view();
    let b10 = p.ignition_start.stable_view();
    let b11 = p.parking_brake.stable_view();
    let b12 = p.unused_0.stable_view();
    let b13 = p.unused_1.stable_view();
    let b14 = p.unused_2.stable_view();
    let b15 = p.unused_3.stable_view();
    let b16 = p.unused_4.stable_view();
    let b17 = p.unused_5.stable_view();
    let b18 = p.unused_6.stable_view();
    let b19 = p.unused_7.stable_view();
    let b20 = p.unused_8.stable_view();
    let x = pressed_bits(p);
    assert(flag_bits_match(x, b0, b1, b2, b3, b4, b5, b6, b7, b8, b9, b10, b11, b12, b13, b14, b15, b16, b17, b18, b19, b20)) by {
        reveal(pressed_bits);
        assert(flag_bits_match(x, b0, b1, b2, b3, b4, b5, b6, b7, b8, b9, b10, b11, b12, b13, b14, b15, b16, b17, b18, b19, b20)) by (bit_vector)
            requires
                x == 0u32 | (if b0 { 0x00000001u32 } else { 0u32 }) | (if b1 { 0x00000002u32 } else { 0u32 }) | (if b2 { 0x00000004u32 } else { 0u32 }) | (if b3 { 0x00000008u32 } else { 0u32 }) | (if b4 { 0x00000010u32 } else { 0u32 }) | (if b5 { 0x00000020u32 } else { 0u32 }) | (if b6 { 0x00000040u32 } else { 0u32 }) | (if b7 { 0x00000080u32 } else { 0u32 }) | (if b8 { 0x00000100u32 } else { 0u32 }) | (if b9 { 0x00000200u32 } else { 0u32 }) | (if b10 { 0x00000400u32 } else { 0u32 }) | (if b11 { 0x00000800u32 } else { 0u32 }) | (if b12 { 0x00001000u32 } else { 0u32 }) | (if b13 { 0x00002000u32 } else { 0u32 }) | (if b14 { 0x00004000u32 } else { 0u32 }) | (if b15 { 0x00008000u32 } else { 0u32 }) | (if b16 { 0x00010000u32 } else { 0u32 }) | (if b17 { 0x00020000u32 } else { 0u32 }) | (if b18 { 0x00040000u32 } else { 0u32 }) | (if b19 { 0x00080000u32 } else { 0u32 }) | (if b20 { 0x00100000u32 } else { 0u32 }),
        ;
    }
    reveal(flag_bits_match);
}

/// Bit `i` of `x` is `bi` for every button, and `x` sets no other bit.
#[verifier::opaque]
spec fn flag_bits_match(
    x: u32,
    b0: bool,
    b1: bool,
    b2: bool,
    b3: bool,
    b4: bool,
    b5: bool,
    b6: bool,
    b7: bool,
    b8: bool,
    b9: bool,
    b10: bool,
    b11: bool,
    b12: bool,
    b13: bool,
    b14: bool,
    b15: bool,
    b16: bool,
    b17: bool,
    b18: bool,
    b19: bool,
    b20: bool,
) -> bool {
    &&& has_flag(x, 0u32) == b0
    &&& has_flag(x, 1u32) == b1
    &&& has_flag(x, 2u32) == b2
    &&& has_flag(x, 3u32) == b3
    &&& has_flag(x, 4u32) == b4
    &&& has_flag(x, 5u32) == b5
    &&& has_flag(x, 6u32) == b6
    &&& has_flag(x, 7u32) == b7
    &&& has_flag(x, 8u32) == b8
    &&& has_flag(x, 9u32) == b9
    &&& has_flag(x, 10u32) == b10
    &&& has_flag(x, 11u32) == b11
    &&& has_flag(x, 12u32) == b12
    &&& has_flag(x, 13u32) == b13
    &&& has_flag(x, 14u32) == b14
    &&& has_flag(x, 15u32) == b15
    &&& has_flag(x, 16u32) == b16
    &&& has_flag(x, 17u32) == b17
    &&& has_flag(x, 18u32) == b18
    &&& has_flag(x, 19u32) == b19
    &&& has_flag(x, 20u32) == b20
    &&& x & !0x001F_FFFFu32 == 0
    &&& x & 0x001F_FFFFu32 == x
}

/// The same raw level repeated `n` times.
pub open spec fn repeated(level: bool, n: nat) -> Seq<bool> {
    Seq::new(n, |i: int| level)
}

/// Reading the level that the button already reports keeps that level and
/// clears the counter; no read moves the counter above `DEBOUNCE_READS`.
pub proof fn lemma_debounce_step(stable: bool, counter: u8, low: bool)
    requires
        counter <= DEBOUNCE_READS,
    ensures
        debounce(stable, counter, stable) == (stable, 0u8),
        debounce(stable, counter, low).1 <= DEBOUNCE_READS,
        debounce(stable, counter, low).0 != stable ==> counter == DEBOUNCE_READS && low != stable,
{
}

/// From a settled button, `n` reads in a row of the other level leave the
/// reported level unchanged while `n <= DEBOUNCE_READS`; the next read of
/// that level changes it.
pub proof fn lemma_change_needs_eleven_reads(stable: bool, n: nat)
    ensures
        n <= DEBOUNCE_READS ==> debounce_run(stable, 0, repeated(!stable, n)) == (stable, n as u8),
        n == DEBOUNCE_READS + 1 ==> debounce_run(stable, 0, repeated(!stable, n)) == (!stable, 0u8),
{
    if n <= DEBOUNCE_READS {
        lemma_run_differing(stable, 0, n);
    } else if n == DEBOUNCE_READS + 1 {
        lemma_run_differing(stable, 0, n);
    }
}

/// A glitch of at most `DEBOUNCE_READS` reads of the other level, followed by
/// a read of the reported level, leaves the button as it was.
pub proof fn lemma_glitch_filtered(stable: bool, n: nat)
    requires
        n <= DEBOUNCE_READS,
    ensures
        debounce_run(stable, 0, repeated(!stable, n).push(stable)) == (stable, 0u8),
{
    lemma_run_append(stable, 0, repeated(!stable, n), stable);
    lemma_run_differing(stable, 0, n);
    lemma_debounce_step(stable, n as u8, stable);
}

/// Within `DEBOUNCE_READS` reads, whatever the levels, a settled button
/// keeps its reported level: the counter only counts them.
pub proof fn lemma_no_flip_within_ten_reads(stable: bool, counter: u8, levels: Seq<bool>)
    requires
        counter + levels.len() <= DEBOUNCE_READS,
    ensures
        debounce_run(stable, counter, levels).0 == stable,
        debounce_run(stable, counter, levels).1 <= counter + levels.len(),
    decreases levels.len(),
{
    if levels.len() > 0 {
        let (s, c) = debounce(stable, counter, levels[0]);
        assert(s == stable && c <= counter + 1);
        lemma_no_flip_within_ten_reads(s, c, levels.drop_first());
    }
}

proof fn lemma_run_differing(stable: bool, counter: u8, m: nat)
    requires
        counter + m <= DEBOUNCE_READS + 1,
    ensures
        counter + m <= DEBOUNCE_READS ==> debounce_run(stable, counter, repeated(!stable, m)) == (
            stable,
            (counter + m) as u8,
        ),
        counter + m == DEBOUNCE_READS + 1 && m > 0 ==> debounce_run(stable, counter, repeated(!stable, m)) == (
            !stable,
            0u8,
        ),
    decreases m,
{
    let levels = repeated(!stable, m);
    if m > 0 {
        assert(levels.drop_first() =~= repeated(!stable, (m - 1) as nat));
        if counter == DEBOUNCE_READS {
            assert(m == 1);
            assert(levels[0] == !stable);
            assert(levels.drop_first() =~= Seq::<bool>::empty());
            assert(debounce_run(!stable, 0u8, levels.drop_first()) == (!stable, 0u8));
        } else {
            lemma_run_differing(stable, (counter + 1) as u8, (m - 1) as nat);
        }
    }
}

proof fn lemma_run_append(stable: bool, counter: u8, levels: Seq<bool>, last: bool)
    ensures
        debounce_run(stable, counter, levels.push(last)) == debounce(
            debounce_run(stable, counter, levels).0,
            debounce_run(stable, counter, levels).1,
            last,
        ),
    decreases levels.len(),
{
    if levels.len() == 0 {
        assert(levels.push(last)[0] == last);
        assert(levels.push(last).drop_first() =~= Seq::<bool>::empty());
        let (s, c) = debounce(stable, counter, last);
        assert(debounce_run(s, c, levels.push(last).drop_first()) == (s, c));
    } else {
        let (s, c) = debounce(stable, counter, levels[0]);
        assert(levels.push(last)[0] == levels[0]);
        assert(levels.push(last).drop_first() =~= levels.drop_first().push(last));
        lemma_run_append(s, c, levels.drop_first(), last);
    }
}

} // verus!

//! Register model of the AS5600 magnetic angle sensor.
use vstd::prelude::*;

verus! {

/// I2C address of the AS5600.
pub const ADDRESS: u8 = 0x36;

/// Upper byte of the raw angle register; the lower byte follows it.
pub const REG_ANGLE_HI: u8 = 0x0E;

/// Status register (magnet detection).
pub const REG_STATUS: u8 = 0x0B;

/// Upper byte of the configuration register; the lower byte follows it.
pub const REG_CONF_HI: u8 = 0x07;

/// Magnet flags of the status register.
#[derive(Clone, Copy, Debug, PartialEq, Eq, Structural)]
pub struct Status {
    bits: u8,
}

impl View for Status {
    type V = u8;

    closed spec fn view(&self) -> u8 {
        self.bits
    }
}

impl Status {
    #[verifier::type_invariant]
    spec fn only_defined_flags(self) -> bool {
        self.bits & !Status::ALL == 0
    }

    pub const MAGNET_DETECTED: u8 = 0b0010_0000;

    pub const MAGNET_WEAK: u8 = 0b0001_0000;

    pub const MAGNET_STRONG: u8 = 0b0000_1000;

    /// Every defined flag.
    pub const ALL: u8 = 0b0011_1000;

    pub fn empty() -> (r: Status)
        ensures
            r@ == 0,
    {
        assert(0u8 & !0x38u8 == 0) by (bit_vector);
        Status { bits: 0 }
    }

    /// The flags; only defined flags are ever set.
    pub fn bits(&self) -> (r: u8)
        ensures
            r == self@,
            r & !Status::ALL == 0,
    {
        proof {
            use_type_invariant(self);
        }
        self.bits
    }

    /// Keeps the defined flags of `bits` and drops the others.
    pub fn from_bits_truncate(bits: u8) -> (r: Status)
        ensures
            r@ == bits & Status::ALL,
    {
        assert((bits & 0x38u8) & !0x38u8 == 0) by (bit_vector);
        Status { bits: bits & 0b0011_1000 }
    }
}

/// The error of a conversion from a field value that names no variant.
#[derive(Clone, Copy, Debug, PartialEq, Eq, Structural)]
pub struct TryFromReprError {
    pub input: u16,
}

/// Power mode field (bits 15..14 of the configuration register).
#[derive(Clone, Copy, Debug, PartialEq, Eq, Structural)]
pub enum PowerMode {
    Nom,
    Lpm1,
    Lpm2,
    Lpm3,
}

impl PowerMode {
    /// The field value that stands for the variant.
    pub open spec fn code(self) -> u16 {
        match self {
            PowerMode::Nom => 0,
            PowerMode::Lpm1 => 1,
            PowerMode::Lpm2 => 2,
            PowerMode::Lpm3 => 3,
        }
    }

    /// The variant that a field value stands for.
    pub open spec fn from_code(v: u16) -> Result<PowerMode, TryFromReprError> {
        if v == 0 {
            Ok(PowerMode::Nom)
        } else if v == 1 {
            Ok(PowerMode::Lpm1)
        } else if v == 2 {
            Ok(PowerMode::Lpm2)
        } else if v == 3 {
            Ok(PowerMode::Lpm3)
        } else {
            Err(TryFromReprError { input: v })
        }
    }

    /// The field value that stands for the variant.
    pub fn to_code(self) -> (r: u16)
        ensures
            r == self.code(),
            self == PowerMode::Nom ==> r == 0,
            self == PowerMode::Lpm1 ==> r == 1,
            self == PowerMode::Lpm2 ==> r == 2,
            self == PowerMode::Lpm3 ==> r == 3,
    {
        match self {
            PowerMode::Nom => 0,
            PowerMode::Lpm1 => 1,
            PowerMode::Lpm2 => 2,
            PowerMode::Lpm3 => 3,
        }
    }
}

impl TryFrom<u16> for PowerMode {
    type Error = TryFromReprError;

    fn try_from(v: u16) -> (r: Result<PowerMode, TryFromReprError>)
        ensures
            v == 0 ==> r == Ok::<PowerMode, TryFromReprError>(PowerMode::Nom),
            v == 1 ==> r == Ok::<PowerMode, TryFromReprError>(PowerMode::Lpm1),
            v == 2 ==> r == Ok::<PowerMode, TryFromReprError>(PowerMode::Lpm2),
            v == 3 ==> r == Ok::<PowerMode, TryFromReprError>(PowerMode::Lpm3),
            v > 3 ==> r == Err::<PowerMode, TryFromReprError>(TryFromReprError { input: v }),
    {
        if v == 0 {
            Ok(PowerMode::Nom)
        } else if v == 1 {
            Ok(PowerMode::Lpm1)
        } else if v == 2 {
            Ok(PowerMode::Lpm2)
        } else if v == 3 {
            Ok(PowerMode::Lpm3)
        } else {
            Err(TryFromReprError { input: v })
        }
    }
}

impl vstd::std_specs::convert::TryFromSpecImpl<u16> for PowerMode {
    open spec fn obeys_try_from_spec() -> bool {
        true
    }

    open spec fn try_from_spec(v: u16) -> Result<PowerMode, TryFromReprError> {
        PowerMode::from_code(v)
    }
}

/// Hysteresis field (bits 13..12 of the configuration register).
#[derive(Clone, Copy, Debug, PartialEq, Eq, Structural)]
pub enum Hysteresis {
    Off,
    One,
    Two,
    Three,
}

impl Hysteresis {
    /// The field value that stands for the variant.
    pub open spec fn code(self) -> u16 {
        match self {
            Hysteresis::Off => 0,
            Hysteresis::One => 1,
            Hysteresis::Two => 2,
            Hysteresis::Three => 3,
        }
    }

    /// The variant that a field value stands for.
    pub open spec fn from_code(v: u16) -> Result<Hysteresis, TryFromReprError> {
        if v == 0 {
            Ok(Hysteresis::Off)
        } else if v == 1 {
            Ok(Hysteresis::One)
        } else if v == 2 {
            Ok(Hysteresis::Two)
        } else if v == 3 {
            Ok(Hysteresis::Three)
        } else {
            Err(TryFromReprError { input: v })
        }
    }

    /// The field value that stands for the variant.
    pub fn to_code(self) -> (r: u16)
        ensures
            r == self.code(),
            self == Hysteresis::Off ==> r == 0,
            self == Hysteresis::One ==> r == 1,
            self == Hysteresis::Two ==> r == 2,
            self == Hysteresis::Three ==> r == 3,
    {
        match self {
            Hysteresis::Off => 0,
            Hysteresis::One => 1,
            Hysteresis::Two => 2,
            Hysteresis::Three => 3,
        }
    }
}

impl TryFrom<u16> for Hysteresis {
    type Error = TryFromReprError;

    fn try_from(v: u16) -> (r: Result<Hysteresis, TryFromReprError>)
        ensures
            v == 0 ==> r == Ok::<Hysteresis, TryFromReprError>(Hysteresis::Off),
            v == 1 ==> r == Ok::<Hysteresis, TryFromReprError>(Hysteresis::One),
            v == 2 ==> r == Ok::<Hysteresis, TryFromReprError>(Hysteresis::Two),
            v == 3 ==> r == Ok::<Hysteresis, TryFromReprError>(Hysteresis::Three),
            v > 3 ==> r == Err::<Hysteresis, TryFromReprError>(TryFromReprError { input: v }),
    {
        if v == 0 {
            Ok(Hysteresis::Off)
        } else if v == 1 {
            Ok(Hysteresis::One)
        } else if v == 2 {
            Ok(Hysteresis::Two)
        } else if v == 3 {
            Ok(Hysteresis::Three)
        } else {
            Err(TryFromReprError { input: v })
        }
    }
}

impl vstd::std_specs::convert::TryFromSpecImpl<u16> for Hysteresis {
    open spec fn obeys_try_from_spec() -> bool {
        true
    }

    open spec fn try_from_spec(v: u16) -> Result<Hysteresis, TryFromReprError> {
        Hysteresis::from_code(v)
    }
}

/// Slow filter field (bits 7..6 of the configuration register).
#[derive(Clone, Copy, Debug, PartialEq, Eq, Structural)]
pub enum SlowFilter {
    X16,
    X8,
    X4,
    X2,
}

impl SlowFilter {
    /// The field value that stands for the variant.
    pub open spec fn code(self) -> u16 {
        match self {
            SlowFilter::X16 => 0,
            SlowFilter::X8 => 1,
            SlowFilter::X4 => 2,
            SlowFilter::X2 => 3,
        }
    }

    /// The variant that a field value stands for.
    pub open spec fn from_code(v: u16) -> Result<SlowFilter, TryFromReprError> {
        if v == 0 {
            Ok(SlowFilter::X16)
        } else if v == 1 {
            Ok(SlowFilter::X8)
        } else if v == 2 {
            Ok(SlowFilter::X4)
        } else if v == 3 {
            Ok(SlowFilter::X2)
        } else {
            Err(TryFromReprError { input: v })
        }
    }

    /// The field value that stands for the variant.
    pub fn to_code(self) -> (r: u16)
        ensures
            r == self.code(),
            self == SlowFilter::X16 ==> r == 0,
            self == SlowFilter::X8 ==> r == 1,
            self == SlowFilter::X4 ==> r == 2,
            self == SlowFilter::X2 ==> r == 3,
    {
        match self {
            SlowFilter::X16 => 0,
            SlowFilter::X8 => 1,
            SlowFilter::X4 => 2,
            SlowFilter::X2 => 3,
        }
    }
}

impl TryFrom<u16> for SlowFilter {
    type Error = TryFromReprError;

    fn try_from(v: u16) -> (r: Result<SlowFilter, TryFromReprError>)
        ensures
            v == 0 ==> r == Ok::<SlowFilter, TryFromReprError>(SlowFilter::X16),
            v == 1 ==> r == Ok::<SlowFilter, TryFromReprError>(SlowFilter::X8),
            v == 2 ==> r == Ok::<SlowFilter, TryFromReprError>(SlowFilter::X4),
            v == 3 ==> r == Ok::<SlowFilter, TryFromReprError>(SlowFilter::X2),
            v > 3 ==> r == Err::<SlowFilter, TryFromReprError>(TryFromReprError { input: v }),
    {
        if v == 0 {
            Ok(SlowFilter::X16)
        } else if v == 1 {
            Ok(SlowFilter::X8)
        } else if v == 2 {
            Ok(SlowFilter::X4)
        } else if v == 3 {
            Ok(SlowFilter::X2)
        } else {
            Err(TryFromReprError { input: v })
        }
    }
}

impl vstd::std_specs::convert::TryFromSpecImpl<u16> for SlowFilter {
    open spec fn obeys_try_from_spec() -> bool {
        true
    }

    open spec fn try_from_spec(v: u16) -> Result<SlowFilter, TryFromReprError> {
        SlowFilter::from_code(v)
    }
}

/// Fast filter threshold field (bits 5..3 of the configuration register).
#[derive(Clone, Copy, Debug, PartialEq, Eq, Structural)]
pub enum FastFilterThreshold {
    SlowFilterOnly,
    Counts6,
    Counts7,
    Counts9,
    Counts18,
    Counts21,
    Counts24,
    Counts10,
}

impl FastFilterThreshold {
    /// The field value that stands for the variant.
    pub open spec fn code(self) -> u16 {
        match self {
            FastFilterThreshold::SlowFilterOnly => 0,
            FastFilterThreshold::Counts6 => 1,
            FastFilterThreshold::Counts7 => 2,
            FastFilterThreshold::Counts9 => 3,
            FastFilterThreshold::Counts18 => 4,
            FastFilterThreshold::Counts21 => 5,
            FastFilterThreshold::Counts24 => 6,
            FastFilterThreshold::Counts10 => 7,
        }
    }

    /// The variant that a field value stands for.
    pub open spec fn from_code(v: u16) -> Result<FastFilterThreshold, TryFromReprError> {
        if v == 0 {
            Ok(FastFilterThreshold::SlowFilterOnly)
        } else if v == 1 {
            Ok(FastFilterThreshold::Counts6)
        } else if v == 2 {
            Ok(FastFilterThreshold::Counts7)
        } else if v == 3 {
            Ok(FastFilterThreshold::Counts9)
        } else if v == 4 {
            Ok(FastFilterThreshold::Counts18)
        } else if v == 5 {
            Ok(FastFilterThreshold::Counts21)
        } else if v == 6 {
            Ok(FastFilterThreshold::Counts24)
        } else if v == 7 {
            Ok(FastFilterThreshold::Counts10)
        } else {
            Err(TryFromReprError { input: v })
        }
    }

    /// The field value that stands for the variant.
    pub fn to_code(self) -> (r: u16)
        ensures
            r == self.code(),
            self == FastFilterThreshold::SlowFilterOnly ==> r == 0,
            self == FastFilterThreshold::Counts6 ==> r == 1,
            self == FastFilterThreshold::Counts7 ==> r == 2,
            self == FastFilterThreshold::Counts9 ==> r == 3,
            self == FastFilterThreshold::Counts18 ==> r == 4,
            self == FastFilterThreshold::Counts21 ==> r == 5,
            self == FastFilterThreshold::Counts24 ==> r == 6,
            self == FastFilterThreshold::Counts10 ==> r == 7,
    {
        match self {
            FastFilterThreshold::SlowFilterOnly => 0,
            FastFilterThreshold::Counts6 => 1,
            FastFilterThreshold::Counts7 => 2,
            FastFilterThreshold::Counts9 => 3,
            FastFilterThreshold::Counts18 => 4,
            FastFilterThreshold::Counts21 => 5,
            FastFilterThreshold::Counts24 => 6,
            FastFilterThreshold::Counts10 => 7,
        }
    }
}

impl TryFrom<u16> for FastFilterThreshold {
    type Error = TryFromReprError;

    fn try_from(v: u16) -> (r: Result<FastFilterThreshold, TryFromReprError>)
        ensures
            v == 0 ==> r == Ok::<FastFilterThreshold, TryFromReprError>(FastFilterThreshold::SlowFilterOnly),
            v == 1 ==> r == Ok::<FastFilterThreshold, TryFromReprError>(FastFilterThreshold::Counts6),
            v == 2 ==> r == Ok::<FastFilterThreshold, TryFromReprError>(FastFilterThreshold::Counts7),
            v == 3 ==> r == Ok::<FastFilterThreshold, TryFromReprError>(FastFilterThreshold::Counts9),
            v == 4 ==> r == Ok::<FastFilterThreshold, TryFromReprError>(FastFilterThreshold::Counts18),
            v == 5 ==> r == Ok::<FastFilterThreshold, TryFromReprError>(FastFilterThreshold::Counts21),
            v == 6 ==> r == Ok::<FastFilterThreshold, TryFromReprError>(FastFilterThreshold::Counts24),
            v == 7 ==> r == Ok::<FastFilterThreshold, TryFromReprError>(FastFilterThreshold::Counts10),
            v > 7 ==> r == Err::<FastFilterThreshold, TryFromReprError>(TryFromReprError { input: v }),
    {
        if v == 0 {
            Ok(FastFilterThreshold::SlowFilterOnly)
        } else if v == 1 {
            Ok(FastFilterThreshold::Counts6)
        } else if v == 2 {
            Ok(FastFilterThreshold::Counts7)
        } else if v == 3 {
            Ok(FastFilterThreshold::Counts9)
        } else if v == 4 {
            Ok(FastFilterThreshold::Counts18)
        } else if v == 5 {
            Ok(FastFilterThreshold::Counts21)
        } else if v == 6 {
            Ok(FastFilterThreshold::Counts24)
        } else if v == 7 {
            Ok(FastFilterThreshold::Counts10)
        } else {
            Err(TryFromReprError { input: v })
        }
    }
}

impl vstd::std_specs::convert::TryFromSpecImpl<u16> for FastFilterThreshold {
    open spec fn obeys_try_from_spec() -> bool {
        true
    }

    open spec fn try_from_spec(v: u16) -> Result<FastFilterThreshold, TryFromReprError> {
        FastFilterThreshold::from_code(v)
    }
}

/// Watchdog field (bit 2 of the configuration register).
#[derive(Clone, Copy, Debug, PartialEq, Eq, Structural)]
pub enum Watchdog {
    Off,
    On,
}

impl Watchdog {
    /// The field value that stands for the variant.
    pub open spec fn code(self) -> u16 {
        match self {
            Watchdog::Off => 0,
            Watchdog::On => 1,
        }
    }

    /// The variant that a field value stands for.
    pub open spec fn from_code(v: u16) -> Result<Watchdog, TryFromReprError> {
        if v == 0 {
            Ok(Watchdog::Off)
        } else if v == 1 {
            Ok(Watchdog::On)
        } else {
            Err(TryFromReprError { input: v })
        }
    }

    /// The field value that stands for the variant.
    pub fn to_code(self) -> (r: u16)
        ensures
            r == self.code(),
            self == Watchdog::Off ==> r == 0,
            self == Watchdog::On ==> r == 1,
    {
        match self {
            Watchdog::Off => 0,
            Watchdog::On => 1,
        }
    }
}

impl TryFrom<u16> for Watchdog {
    type Error = TryFromReprError;

    fn try_from(v: u16) -> (r: Result<Watchdog, TryFromReprError>)
        ensures
            v == 0 ==> r == Ok::<Watchdog, TryFromReprError>(Watchdog::Off),
            v == 1 ==> r == Ok::<Watchdog, TryFromReprError>(Watchdog::On),
            v > 1 ==> r == Err::<Watchdog, TryFromReprError>(TryFromReprError { input: v }),
    {
        if v == 0 {
            Ok(Watchdog::Off)
        } else if v == 1 {
            Ok(Watchdog::On)
        } else {
            Err(TryFromReprError { input: v })
        }
    }
}

impl vstd::std_specs::convert::TryFromSpecImpl<u16> for Watchdog {
    open spec fn obeys_try_from_spec() -> bool {
        true
    }

    open spec fn try_from_spec(v: u16) -> Result<Watchdog, TryFromReprError> {
        Watchdog::from_code(v)
    }
}

/// Contents of the configuration register.
#[derive(Clone, Copy)]
pub struct Config(u16);

impl View for Config {
    type V = u16;

    closed spec fn view(&self) -> u16 {
        self.0
    }
}

/// The value of the field under `mask`, moved down by `shift` bits.
pub open spec fn field(bits: u16, mask: u16, shift: u16) -> u16 {
    (bits & mask) >> shift
}

/// The register contents after a field setter ORs the code of a value into them.
pub open spec fn or_field(bits: u16, code: u16, shift: u16) -> u16 {
    bits | (code << shift)
}

impl Config {
    pub const POWER_MODE: u16 = 0b1100_0000_0000_0000;

    pub const HYSTERESIS: u16 = 0b0011_0000_0000_0000;

    pub const SLOW_FILTER: u16 = 0b0000_0000_1100_0000;

    pub const FAST_FILTER_THRESHOLD: u16 = 0b0000_0000_0011_1000;

    pub const WATCHDOG: u16 = 0b0000_0000_0000_0100;

    /// The bits that `new` keeps and `inner` hands out.
    pub const INNER_MASK: u16 = 0b0011_1111_1111_1111;

    /// A configuration holding `inner` without its power mode bits.
    pub fn new(inner: u16) -> (r: Config)
        ensures
            r@ == inner & Config::INNER_MASK,
    {
        Config(inner & 0b0011_1111_1111_1111)
    }

    /// The register contents without the power mode bits.
    pub fn inner(&self) -> (r: u16)
        ensures
            r == self@ & Config::INNER_MASK,
    {
        self.0 & 0b0011_1111_1111_1111
    }

    /// The power mode field.
    pub fn get_power_mode(&self) -> (r: PowerMode)
        ensures
            PowerMode::from_code(field(self@, Config::POWER_MODE, 14)) == Ok::<PowerMode, TryFromReprError>(r),
    {
        let bits = self.0;
        let v = (bits & Config::POWER_MODE) >> 14u16;
        assert(v <= 3) by (bit_vector)
            requires
                v == (bits & 0xC000u16) >> 14u16,
        ;
        PowerMode::try_from(v).expect("bit mask")
    }

    /// ORs the code of `t` into the power mode field; bits already set there stay set.
    pub fn set_power_mode(&mut self, t: PowerMode)
        ensures
            final(self)@ == or_field(old(self)@, t.code(), 14),
    {
        self.0 = self.0 | (t.to_code() << 14u16);
    }

    /// The hysteresis field.
    pub fn get_hysteresis(&self) -> (r: Hysteresis)
        ensures
            Hysteresis::from_code(field(self@, Config::HYSTERESIS, 12)) == Ok::<Hysteresis, TryFromReprError>(r),
    {
        let bits = self.0;
        let v = (bits & Config::HYSTERESIS) >> 12u16;
        assert(v <= 3) by (bit_vector)
            requires
                v == (bits & 0x3000u16) >> 12u16,
        ;
        Hysteresis::try_from(v).expect("bit mask")
    }

    /// ORs the code of `t` into the hysteresis field; bits already set there stay set.
    pub fn set_hysteresis(&mut self, t: Hysteresis)
        ensures
            final(self)@ == or_field(old(self)@, t.code(), 12),
    {
        self.0 = self.0 | (t.to_code() << 12u16);
    }

    /// The slow filter field.
    pub fn get_slow_filter(&self) -> (r: SlowFilter)
        ensures
            SlowFilter::from_code(field(self@, Config::SLOW_FILTER, 6)) == Ok::<SlowFilter, TryFromReprError>(r),
    {
        let bits = self.0;
        let v = (bits & Config::SLOW_FILTER) >> 6u16;
        assert(v <= 3) by (bit_vector)
            requires
                v == (bits & 0x00C0u16) >> 6u16,
        ;
        SlowFilter::try_from(v).expect("bit mask")
    }

    /// ORs the code of `t` into the slow filter field; bits already set there stay set.
    pub fn set_slow_filter(&mut self, t: SlowFilter)
        ensures
            final(self)@ == or_field(old(self)@, t.code(), 6),
    {
        self.0 = self.0 | (t.to_code() << 6u16);
    }

    /// The fast filter threshold field.
    pub fn get_fast_filter_threshold(&self) -> (r: FastFilterThreshold)
        ensures
            FastFilterThreshold::from_code(field(self@, Config::FAST_FILTER_THRESHOLD, 3)) == Ok::<FastFilterThreshold, TryFromReprError>(r),
    {
        let bits = self.0;
        let v = (bits & Config::FAST_FILTER_THRESHOLD) >> 3u16;
        assert(v <= 7) by (bit_vector)
            requires
                v == (bits & 0x0038u16) >> 3u16,
        ;
        FastFilterThreshold::try_from(v).expect("bit mask")
    }

    /// ORs the code of `t` into the fast filter threshold field; bits already set there stay set.
    pub fn set_fast_filter_threshold(&mut self, t: FastFilterThreshold)
        ensures
            final(self)@ == or_field(old(self)@, t.code(), 3),
    {
        self.0 = self.0 | (t.to_code() << 3u16);
    }

    /// The watchdog field.
    pub fn get_watchdog(&self) -> (r: Watchdog)
        ensures
            Watchdog::from_code(field(self@, Config::WATCHDOG, 2)) == Ok::<Watchdog, TryFromReprError>(r),
    {
        let bits = self.0;
        let v = (bits & Config::WATCHDOG) >> 2u16;
        assert(v <= 1) by (bit_vector)
            requires
                v == (bits & 0x0004u16) >> 2u16,
        ;
        Watchdog::try_from(v).expect("bit mask")
    }

    /// ORs the code of `t` into the watchdog field; bits already set there stay set.
    pub fn set_watchdog(&mut self, t: Watchdog)
        ensures
            final(self)@ == or_field(old(self)@, t.code(), 2),
    {
        self.0 = self.0 | (t.to_code() << 2u16);
    }

}

/// Setting the power mode of a configuration whose power mode bits
/// are clear and then reading it gives back the value set; the setter
/// changes no bit outside the field.
pub proof fn lemma_set_then_get_power_mode(bits: u16, t: PowerMode)
    requires
        bits & Config::POWER_MODE == 0,
    ensures
        PowerMode::from_code(field(or_field(bits, t.code(), 14), Config::POWER_MODE, 14)) == Ok::<PowerMode, TryFromReprError>(t),
        or_field(bits, t.code(), 14) & !Config::POWER_MODE == bits & !Config::POWER_MODE,
{
    let c = t.code();
    assert(c <= 3);
    assert(((bits | (c << 14u16)) & 0xC000u16) >> 14u16 == c && (bits | (c << 14u16)) & !0xC000u16 == bits & !0xC000u16) by (bit_vector)
        requires
            bits & 0xC000u16 == 0,
            c <= 3,
    ;
}

/// Setting the hysteresis of a configuration whose hysteresis bits
/// are clear and then reading it gives back the value set; the setter
/// changes no bit outside the field.
pub proof fn lemma_set_then_get_hysteresis(bits: u16, t: Hysteresis)
    requires
        bits & Config::HYSTERESIS == 0,
    ensures
        Hysteresis::from_code(field(or_field(bits, t.code(), 12), Config::HYSTERESIS, 12)) == Ok::<Hysteresis, TryFromReprError>(t),
        or_field(bits, t.code(), 12) & !Config::HYSTERESIS == bits & !Config::HYSTERESIS,
{
    let c = t.code();
    assert(c <= 3);
    assert(((bits | (c << 12u16)) & 0x3000u16) >> 12u16 == c && (bits | (c << 12u16)) & !0x3000u16 == bits & !0x3000u16) by (bit_vector)
        requires
            bits & 0x3000u16 == 0,
            c <= 3,
    ;
}

/// Setting the slow filter of a configuration whose slow filter bits
/// are clear and then reading it gives back the value set; the setter
/// changes no bit outside the field.
pub proof fn lemma_set_then_get_slow_filter(bits: u16, t: SlowFilter)
    requires
        bits & Config::SLOW_FILTER == 0,
    ensures
        SlowFilter::from_code(field(or_field(bits, t.code(), 6), Config::SLOW_FILTER, 6)) == Ok::<SlowFilter, TryFromReprError>(t),
        or_field(bits, t.code(), 6) & !Config::SLOW_FILTER == bits & !Config::SLOW_FILTER,
{
    let c = t.code();
    assert(c <= 3);
    assert(((bits | (c << 6u16)) & 0x00C0u16) >> 6u16 == c && (bits | (c << 6u16)) & !0x00C0u16 == bits & !0x00C0u16) by (bit_vector)
        requires
            bits & 0x00C0u16 == 0,
            c <= 3,
    ;
}

/// Setting the fast filter threshold of a configuration whose fast filter threshold bits
/// are clear and then reading it gives back the value set; the setter
/// changes no bit outside the field.
pub proof fn lemma_set_then_get_fast_filter_threshold(bits: u16, t: FastFilterThreshold)
    requires
        bits & Config::FAST_FILTER_THRESHOLD == 0,
    ensures
        FastFilterThreshold::from_code(field(or_field(bits, t.code(), 3), Config::FAST_FILTER_THRESHOLD, 3)) == Ok::<FastFilterThreshold, TryFromReprError>(t),
        or_field(bits, t.code(), 3) & !Config::FAST_FILTER_THRESHOLD == bits & !Config::FAST_FILTER_THRESHOLD,
{
    let c = t.code();
    assert(c <= 7);
    assert(((bits | (c << 3u16)) & 0x0038u16) >> 3u16 == c && (bits | (c << 3u16)) & !0x0038u16 == bits & !0x0038u16) by (bit_vector)
        requires
            bits & 0x0038u16 == 0,
            c <= 7,
    ;
}

/// Setting the watchdog of a configuration whose watchdog bits
/// are clear and then reading it gives back the value set; the setter
/// changes no bit outside the field.
pub proof fn lemma_set_then_get_watchdog(bits: u16, t: Watchdog)
    requires
        bits & Config::WATCHDOG == 0,
    ensures
        Watchdog::from_code(field(or_field(bits, t.code(), 2), Config::WATCHDOG, 2)) == Ok::<Watchdog, TryFromReprError>(t),
        or_field(bits, t.code(), 2) & !Config::WATCHDOG == bits & !Config::WATCHDOG,
{
    let c = t.code();
    assert(c <= 1);
    assert(((bits | (c << 2u16)) & 0x0004u16) >> 2u16 == c && (bits | (c << 2u16)) & !0x0004u16 == bits & !0x0004u16) by (bit_vector)
        requires
            bits & 0x0004u16 == 0,
            c <= 1,
    ;
}

/// The big-endian value of two register bytes.
pub open spec fn be_u16(hi: u8, lo: u8) -> u16 {
    (hi * 256 + lo) as u16
}

/// Reads a big-endian register pair.
pub fn u16_from_be_bytes(buf: [u8; 2]) -> (r: u16)
    ensures
        r == be_u16(buf[0], buf[1]),
        r == buf[0] * 256 + buf[1],
{
    let hi = buf[0];
    let lo = buf[1];
    let r = ((hi as u16) << 8u16) | (lo as u16);
    assert(r == hi * 256 + lo) by (bit_vector)
        requires
            r == ((hi as u16) << 8u16) | (lo as u16),
    ;
    r
}

/// The bytes of an I2C write that stores `value` into the register pair that
/// starts at `reg_hi`, most significant byte first.
pub fn u16_write_frame(reg_hi: u8, value: u16) -> (r: [u8; 3])
    ensures
        r[0] == reg_hi,
        r[1] == value / 256,
        r[2] == value % 256,
        be_u16(r[1], r[2]) == value,
{
    let hi = (value >> 8u16) as u8;
    let lo = (value & 0xFF) as u8;
    assert(hi == value / 256 && lo == value % 256) by (bit_vector)
        requires
            hi == (value >> 8u16) as u8,
            lo == (value & 0xFF) as u8,
    ;
    [reg_hi, hi, lo]
}

/// The configuration read back from the bytes of the configuration register.
pub fn config_from_register(buf: [u8; 2]) -> (r: Config)
    ensures
        r@ == be_u16(buf[0], buf[1]) & Config::INNER_MASK,
        r == Config::from_register_spec(buf),
{
    Config::new(u16_from_be_bytes(buf))
}

/// The bytes of the I2C write that stores `config` into the sensor.
pub fn config_write_frame(config: Config) -> (r: [u8; 3])
    ensures
        r[0] == REG_CONF_HI,
        be_u16(r[1], r[2]) == config@ & Config::INNER_MASK,
{
    u16_write_frame(REG_CONF_HI, config.inner())
}

/// The bytes written by a read-modify-write of the configuration: the
/// register is read as `buf`, `f` changes the configuration, and the result
/// is written back.
pub fn mut_config_frame<F: FnOnce(Config) -> Config>(buf: [u8; 2], f: F) -> (r: [u8; 3])
    requires
        f.requires((Config::from_register_spec(buf),)),
    ensures
        Config::from_register_spec(buf)@ == be_u16(buf[0], buf[1]) & Config::INNER_MASK,
        exists|c: Config|
            {
                &&& f.ensures((Config::from_register_spec(buf),), c)
                &&& r[0] == REG_CONF_HI
                &&& be_u16(r[1], r[2]) == c@ & Config::INNER_MASK
            },
{
    let config = config_from_register(buf);
    let changed = f(config);
    config_write_frame(changed)
}

impl Config {
    /// The configuration that `config_from_register` gives for `buf`: the
    /// register value with the power mode bits cleared (see
    /// `lemma_from_register_spec`).
    pub closed spec fn from_register_spec(buf: [u8; 2]) -> Config {
        Config(be_u16(buf[0], buf[1]) & Config::INNER_MASK)
    }
}

/// The configuration read from `buf` holds the big-endian register value
/// with the power mode bits cleared.
pub proof fn lemma_from_register_spec(buf: [u8; 2])
    ensures
        Config::from_register_spec(buf)@ == be_u16(buf[0], buf[1]) & Config::INNER_MASK,
{
}

/// The 12-bit raw angle, scaled to the full 16-bit range.
pub open spec fn scaled_angle(raw: u16) -> int {
    (raw & 0x0FFF) * 0xFFFF / 0x0FFF
}

/// The angle that a reading of the angle register stands for: its low twelve
/// bits, scaled from 0..=0x0FFF to 0..=0xFFFF.
pub fn angle_from_raw(raw: u16) -> (r: u16)
    ensures
        r == scaled_angle(raw),
{
    let value = raw & 0b0000_1111_1111_1111;
    assert(value <= 0x0FFF) by (bit_vector)
        requires
            value == raw & 0x0FFFu16,
    ;
    assert(value * 0xFFFF / 0x0FFF <= 0xFFFF) by (nonlinear_arith)
        requires
            value <= 0x0FFF,
    ;
    ((value as u32) * 0xFFFF / 0x0FFF) as u16
}

/// The angle read from the bytes of the angle register.
pub fn angle_from_register(buf: [u8; 2]) -> (r: u16)
    ensures
        r == scaled_angle(be_u16(buf[0], buf[1])),
{
    angle_from_raw(u16_from_be_bytes(buf))
}

/// The status read from the byte of the status register.
pub fn status_from_register(byte: u8) -> (r: Status)
    ensures
        r@ == byte & Status::ALL,
{
    Status::from_bits_truncate(byte)
}

/// A value written as a register pair reads back unchanged.
pub proof fn lemma_be_u16_round_trip(value: u16)
    ensures
        be_u16((value / 256) as u8, (value % 256) as u8) == value,
{
}

/// `new` and `inner` keep the same bits: the inner value of a new
/// configuration is its argument with the power mode bits cleared, and a
/// configuration made from an inner value has that inner value.
pub proof fn lemma_new_inner(x: u16)
    ensures
        (x & Config::INNER_MASK) & Config::INNER_MASK == x & Config::INNER_MASK,
        field(x & Config::INNER_MASK, Config::POWER_MODE, 14) == 0,
{
    assert((x & 0x3FFFu16) & 0x3FFFu16 == x & 0x3FFFu16 && ((x & 0x3FFFu16) & 0xC000u16) >> 14u16 == 0) by (bit_vector);
}

/// Writing a configuration and reading the register back gives a
/// configuration with the same bits outside the power mode field, whose
/// power mode reads as `Nom`.
pub proof fn lemma_config_write_read(c: u16)
    ensures
        be_u16(((c & Config::INNER_MASK) / 256) as u8, ((c & Config::INNER_MASK) % 256) as u8)
            & Config::INNER_MASK == c & Config::INNER_MASK,
        PowerMode::from_code(
            field(c & Config::INNER_MASK, Config::POWER_MODE, 14),
        ) == Ok::<PowerMode, TryFromReprError>(PowerMode::Nom),
{
    lemma_new_inner(c);
}

/// The scaled angle depends only on the low twelve bits of the reading,
/// maps 0 to 0 and 0x0FFF to 0xFFFF, and never decreases as the reading grows.
pub proof fn lemma_scaled_angle(a: u16, b: u16)
    ensures
        scaled_angle(a) == scaled_angle(a & 0x0FFF),
        scaled_angle(0) == 0,
        scaled_angle(0x0FFF) == 0xFFFF,
        a & 0x0FFF <= b & 0x0FFF ==> scaled_angle(a) <= scaled_angle(b),
        0 <= scaled_angle(a) <= 0xFFFF,
{
    assert({
        &&& (a & 0x0FFFu16) & 0x0FFFu16 == a & 0x0FFFu16
        &&& 0u16 & 0x0FFFu16 == 0
        &&& 0x0FFFu16 & 0x0FFFu16 == 0x0FFF
        &&& (a & 0x0FFFu16) <= 0x0FFF
    }) by (bit_vector);
    let x: int = (a & 0x0FFF) as int;
    let y: int = (b & 0x0FFF) as int;
    if x <= y {
        assert(x * 0xFFFF <= y * 0xFFFF) by (nonlinear_arith)
            requires
                x <= y,
        ;
        vstd::arithmetic::div_mod::lemma_div_is_ordered(x * 0xFFFF, y * 0xFFFF, 0x0FFF);
    }
    assert(x * 0xFFFF / 0x0FFF <= 0xFFFF) by (nonlinear_arith)
        requires
            0 <= x <= 0x0FFF,
    ;
}

/// Over the twelve significant bits the scaled angle rises by at least 16
/// per step, so it is strictly increasing, and it is 0 only at 0 and 0xFFFF
/// only at 0x0FFF.
pub proof fn lemma_scaled_angle_steps(a: u16, b: u16)
    ensures
        (a & 0x0FFF) < (b & 0x0FFF) ==> scaled_angle(b) - scaled_angle(a) >= 16 * ((b & 0x0FFF) - (a & 0x0FFF)),
        scaled_angle(a) == 0 <==> a & 0x0FFF == 0,
        scaled_angle(a) == 0xFFFF <==> a & 0x0FFF == 0x0FFF,
{
    assert((a & 0x0FFFu16) <= 0x0FFF && (b & 0x0FFFu16) <= 0x0FFF) by (bit_vector);
    let x: int = (a & 0x0FFF) as int;
    let y: int = (b & 0x0FFF) as int;
    lemma_scaled_split(x);
    lemma_scaled_split(y);
    if x < y {
        assert(15 * x <= 15 * y);
        vstd::arithmetic::div_mod::lemma_div_is_ordered(15 * x, 15 * y, 0x0FFF);
    }
    if x <= 0x0FFE {
        assert(15 * x <= 15 * 0x0FFE);
        vstd::arithmetic::div_mod::lemma_div_is_ordered(15 * x, 15 * 0x0FFEint, 0x0FFF);
    }
}

/// `v * 0xFFFF / 0x0FFF` is `16 * v` plus a remainder term below 15.
proof fn lemma_scaled_split(v: int)
    requires
        0 <= v <= 0x0FFF,
    ensures
        v * 0xFFFF / 0x0FFF == 16 * v + (15 * v) / 0x0FFF,
        0 <= (15 * v) / 0x0FFF <= 15,
{
    let t = 15 * v;
    let q = t / 0x0FFF;
    let r = t % 0x0FFF;
    vstd::arithmetic::div_mod::lemma_fundamental_div_mod(t, 0x0FFF);
    assert(v * 0xFFFF == (16 * v + q) * 0x0FFF + r) by (nonlinear_arith)
        requires
            t == 15 * v,
            t == 0x0FFF * q + r,
    ;
    vstd::arithmetic::div_mod::lemma_fundamental_div_mod_converse(v * 0xFFFF, 0x0FFF, 16 * v + q, r);
    vstd::arithmetic::div_mod::lemma_div_is_ordered(15 * v, 15 * 0x0FFFint, 0x0FFF);
    vstd::arithmetic::div_mod::lemma_div_pos_is_pos(15 * v, 0x0FFF);
}

/// What `inner` reads after a setter: setting the power mode leaves it
/// unchanged, and every other setter ORs its code, shifted into place, into it.
pub proof fn lemma_inner_after_set(
    bits: u16,
    p: PowerMode,
    h: Hysteresis,
    s: SlowFilter,
    f: FastFilterThreshold,
    w: Watchdog,
)
    ensures
        or_field(bits, p.code(), 14) & Config::INNER_MASK == bits & Config::INNER_MASK,
        or_field(bits, h.code(), 12) & Config::INNER_MASK == (bits & Config::INNER_MASK) | (h.code() << 12u16),
        or_field(bits, s.code(), 6) & Config::INNER_MASK == (bits & Config::INNER_MASK) | (s.code() << 6u16),
        or_field(bits, f.code(), 3) & Config::INNER_MASK == (bits & Config::INNER_MASK) | (f.code() << 3u16),
        or_field(bits, w.code(), 2) & Config::INNER_MASK == (bits & Config::INNER_MASK) | (w.code() << 2u16),
{
    let cp = p.code();
    let ch = h.code();
    let cs = s.code();
    let cf = f.code();
    let cw = w.code();
    assert(cp <= 3 && ch <= 3 && cs <= 3 && cf <= 7 && cw <= 1);
    assert({
        &&& (bits | (cp << 14u16)) & 0x3FFFu16 == bits & 0x3FFFu16
        &&& (bits | (ch << 12u16)) & 0x3FFFu16 == (bits & 0x3FFFu16) | (ch << 12u16)
        &&& (bits | (cs << 6u16)) & 0x3FFFu16 == (bits & 0x3FFFu16) | (cs << 6u16)
        &&& (bits | (cf << 3u16)) & 0x3FFFu16 == (bits & 0x3FFFu16) | (cf << 3u16)
        &&& (bits | (cw << 2u16)) & 0x3FFFu16 == (bits & 0x3FFFu16) | (cw << 2u16)
    }) by (bit_vector)
        requires
            cp <= 3,
            ch <= 3,
            cs <= 3,
            cf <= 7,
            cw <= 1,
    ;
}

/// One setter call on a configuration.
#[derive(Clone, Copy, Debug, PartialEq, Eq, Structural)]
pub enum ConfigSetting {
    PowerMode(PowerMode),
    Hysteresis(Hysteresis),
    SlowFilter(SlowFilter),
    FastFilterThreshold(FastFilterThreshold),
    Watchdog(Watchdog),
}

/// The register contents after the setter call `s`.
pub open spec fn apply_setting(bits: u16, s: ConfigSetting) -> u16 {
    match s {
        ConfigSetting::PowerMode(p) => or_field(bits, p.code(), 14),
        ConfigSetting::Hysteresis(h) => or_field(bits, h.code(), 12),
        ConfigSetting::SlowFilter(f) => or_field(bits, f.code(), 6),
        ConfigSetting::FastFilterThreshold(t) => or_field(bits, t.code(), 3),
        ConfigSetting::Watchdog(w) => or_field(bits, w.code(), 2),
    }
}

/// The register contents after the setter calls of `ss`, in order.
pub open spec fn apply_settings(bits: u16, ss: Seq<ConfigSetting>) -> u16
    decreases ss.len(),
{
    if ss.len() == 0 {
        bits
    } else {
        apply_settings(apply_setting(bits, ss[0]), ss.drop_first())
    }
}

/// What the setter call `s` adds to `inner`: nothing for the power mode, else
/// its code shifted into place.
pub open spec fn inner_contribution(s: ConfigSetting) -> u16 {
    match s {
        ConfigSetting::PowerMode(_) => 0,
        ConfigSetting::Hysteresis(h) => h.code() << 12u16,
        ConfigSetting::SlowFilter(f) => f.code() << 6u16,
        ConfigSetting::FastFilterThreshold(t) => t.code() << 3u16,
        ConfigSetting::Watchdog(w) => w.code() << 2u16,
    }
}

/// The OR of what the setter calls of `ss` add to `inner`.
pub open spec fn inner_contributions(ss: Seq<ConfigSetting>) -> u16
    decreases ss.len(),
{
    if ss.len() == 0 {
        0
    } else {
        inner_contribution(ss[0]) | inner_contributions(ss.drop_first())
    }
}

/// After any sequence of setter calls, `inner` is the inner value before
/// them OR-ed with each call's code shifted into place; power mode calls
/// change nothing, setters only add bits, and the result stays within
/// `INNER_MASK`. Starting from `Config::new(x)`, the value before is
/// `x & INNER_MASK`.
pub proof fn lemma_inner_after_settings(bits: u16, ss: Seq<ConfigSetting>)
    ensures
        apply_settings(bits, ss) & Config::INNER_MASK == (bits & Config::INNER_MASK) | inner_contributions(ss),
        inner_contributions(ss) & !Config::INNER_MASK == 0,
    decreases ss.len(),
{
    assert(forall|a: u16| #[trigger] (a | 0u16) == a && 0u16 & !0x3FFFu16 == 0) by (bit_vector);
    if ss.len() > 0 {
        let s = ss[0];
        let b1 = apply_setting(bits, s);
        let c = inner_contribution(s);
        let rest = ss.drop_first();
        match s {
            ConfigSetting::PowerMode(p) => {
                lemma_inner_after_set(bits, p, Hysteresis::Off, SlowFilter::X16, FastFilterThreshold::SlowFilterOnly, Watchdog::Off);
            },
            ConfigSetting::Hysteresis(h) => {
                lemma_inner_after_set(bits, PowerMode::Nom, h, SlowFilter::X16, FastFilterThreshold::SlowFilterOnly, Watchdog::Off);
            },
            ConfigSetting::SlowFilter(f) => {
                lemma_inner_after_set(bits, PowerMode::Nom, Hysteresis::Off, f, FastFilterThreshold::SlowFilterOnly, Watchdog::Off);
            },
            ConfigSetting::FastFilterThreshold(t) => {
                lemma_inner_after_set(bits, PowerMode::Nom, Hysteresis::Off, SlowFilter::X16, t, Watchdog::Off);
            },
            ConfigSetting::Watchdog(w) => {
                lemma_inner_after_set(bits, PowerMode::Nom, Hysteresis::Off, SlowFilter::X16, FastFilterThreshold::SlowFilterOnly, w);
            },
        }
        lemma_inner_after_settings(b1, rest);
        let a = bits & 0x3FFFu16;
        let r = inner_contributions(rest);
        let k: u16 = match s {
            ConfigSetting::PowerMode(_) => 0,
            ConfigSetting::Hysteresis(h) => h.code(),
            ConfigSetting::SlowFilter(f) => f.code(),
            ConfigSetting::FastFilterThreshold(t) => t.code(),
            ConfigSetting::Watchdog(w) => w.code(),
        };
        assert({
            &&& (a | c) | r == a | (c | r)
            &&& (c | r) & !0x3FFFu16 == 0
        }) by (bit_vector)
            requires
                r & !0x3FFFu16 == 0,
                k <= 7,
                c == 0 || (c == k << 12u16 && k <= 3) || (c == k << 6u16 && k <= 3) || c == k << 3u16 || (c
                    == k << 2u16 && k <= 1),
        ;
    }
}

/// The configuration that the input task writes to both sensors: nominal
/// power, hysteresis of one LSB, the slowest filter (lowest noise), a fast
/// filter threshold of 18 counts, and the watchdog off so the sensor never
/// moves into low power mode.
pub fn sensor_config() -> (r: Config)
    ensures
        r@ == apply_settings(
            0,
            seq![
                ConfigSetting::PowerMode(PowerMode::Nom),
                ConfigSetting::Hysteresis(Hysteresis::One),
                ConfigSetting::SlowFilter(SlowFilter::X16),
                ConfigSetting::FastFilterThreshold(FastFilterThreshold::Counts18),
                ConfigSetting::Watchdog(Watchdog::Off),
            ],
        ),
        r@ & Config::INNER_MASK == (Hysteresis::One.code() << 12u16) | (SlowFilter::X16.code() << 6u16)
            | (FastFilterThreshold::Counts18.code() << 3u16) | (Watchdog::Off.code() << 2u16),
        r@ & Config::INNER_MASK == 0x1020,
        PowerMode::from_code(field(r@, Config::POWER_MODE, 14)) == Ok::<PowerMode, TryFromReprError>(PowerMode::Nom),
        Hysteresis::from_code(field(r@, Config::HYSTERESIS, 12)) == Ok::<Hysteresis, TryFromReprError>(Hysteresis::One),
        SlowFilter::from_code(field(r@, Config::SLOW_FILTER, 6)) == Ok::<SlowFilter, TryFromReprError>(SlowFilter::X16),
        FastFilterThreshold::from_code(field(r@, Config::FAST_FILTER_THRESHOLD, 3))
            == Ok::<FastFilterThreshold, TryFromReprError>(FastFilterThreshold::Counts18),
        Watchdog::from_code(field(r@, Config::WATCHDOG, 2)) == Ok::<Watchdog, TryFromReprError>(Watchdog::Off),
{
    let mut cfg = Config::new(0);
    cfg.set_power_mode(PowerMode::Nom);
    cfg.set_hysteresis(Hysteresis::One);
    cfg.set_slow_filter(SlowFilter::X16);
    cfg.set_fast_filter_threshold(FastFilterThreshold::Counts18);
    cfg.set_watchdog(Watchdog::Off);
    proof {
        let ss = seq![
            ConfigSetting::PowerMode(PowerMode::Nom),
            ConfigSetting::Hysteresis(Hysteresis::One),
            ConfigSetting::SlowFilter(SlowFilter::X16),
            ConfigSetting::FastFilterThreshold(FastFilterThreshold::Counts18),
            ConfigSetting::Watchdog(Watchdog::Off),
        ];
        let s1 = ss.drop_first();
        let s2 = s1.drop_first();
        let s3 = s2.drop_first();
        let s4 = s3.drop_first();
        let s5 = s4.drop_first();
        assert(s5.len() == 0);
        assert(ss[0] == ConfigSetting::PowerMode(PowerMode::Nom));
        assert(s1[0] == ConfigSetting::Hysteresis(Hysteresis::One));
        assert(s2[0] == ConfigSetting::SlowFilter(SlowFilter::X16));
        assert(s3[0] == ConfigSetting::FastFilterThreshold(FastFilterThreshold::Counts18));
        assert(s4[0] == ConfigSetting::Watchdog(Watchdog::Off));
        reveal_with_fuel(apply_settings, 6);
        let v = cfg@;
        assert({
            &&& v == 0x1020u16
            &&& 0u16 & 0x3FFFu16 == 0u16
            &&& (v & 0xC000u16) >> 14u16 == 0
            &&& (v & 0x3000u16) >> 12u16 == 1
            &&& (v & 0x00C0u16) >> 6u16 == 0
            &&& (v & 0x0038u16) >> 3u16 == 4
            &&& (v & 0x0004u16) >> 2u16 == 0
            &&& v & 0x3FFFu16 == 0x1020u16
            &&& (1u16 << 12u16) | (0u16 << 6u16) | (4u16 << 3u16) | (0u16 << 2u16) == 0x1020u16
        }) by (bit_vector)
            requires
                v == (((((0u16 & 0x3FFFu16) | (0u16 << 14u16)) | (1u16 << 12u16)) | (0u16 << 6u16)) | (4u16
                    << 3u16)) | (0u16 << 2u16),
        ;
    }
    cfg
}

/// Truncating keeps only defined flags, and truncating twice changes nothing.
pub proof fn lemma_status_truncate(bits: u8)
    ensures
        (bits & Status::ALL) & Status::ALL == bits & Status::ALL,
        (bits & Status::ALL) & !Status::ALL == 0,
{
    assert((bits & 0x38u8) & 0x38u8 == bits & 0x38u8 && (bits & 0x38u8) & !0x38u8 == 0) by (bit_vector);
}

/// Every variant converts to its field value and back, and exactly the
/// values up to 3 name a variant.
pub proof fn lemma_power_mode_codes(t: PowerMode, v: u16)
    ensures
        PowerMode::from_code(t.code()) == Ok::<PowerMode, TryFromReprError>(t),
        t.code() <= 3,
        PowerMode::from_code(v) is Ok <==> v <= 3,
        PowerMode::from_code(v) matches Ok(u) ==> u.code() == v,
        PowerMode::from_code(v) matches Err(e) ==> e.input == v,
{
}

/// Every variant converts to its field value and back, and exactly the
/// values up to 3 name a variant.
pub proof fn lemma_hysteresis_codes(t: Hysteresis, v: u16)
    ensures
        Hysteresis::from_code(t.code()) == Ok::<Hysteresis, TryFromReprError>(t),
        t.code() <= 3,
        Hysteresis::from_code(v) is Ok <==> v <= 3,
        Hysteresis::from_code(v) matches Ok(u) ==> u.code() == v,
        Hysteresis::from_code(v) matches Err(e) ==> e.input == v,
{
}

/// Every variant converts to its field value and back, and exactly the
/// values up to 3 name a variant.
pub proof fn lemma_slow_filter_codes(t: SlowFilter, v: u16)
    ensures
        SlowFilter::from_code(t.code()) == Ok::<SlowFilter, TryFromReprError>(t),
        t.code() <= 3,
        SlowFilter::from_code(v) is Ok <==> v <= 3,
        SlowFilter::from_code(v) matches Ok(u) ==> u.code() == v,
        SlowFilter::from_code(v) matches Err(e) ==> e.input == v,
{
}

/// Every variant converts to its field value and back, and exactly the
/// values up to 7 name a variant.
pub proof fn lemma_fast_filter_threshold_codes(t: FastFilterThreshold, v: u16)
    ensures
        FastFilterThreshold::from_code(t.code()) == Ok::<FastFilterThreshold, TryFromReprError>(t),
        t.code() <= 7,
        FastFilterThreshold::from_code(v) is Ok <==> v <= 7,
        FastFilterThreshold::from_code(v) matches Ok(u) ==> u.code() == v,
        FastFilterThreshold::from_code(v) matches Err(e) ==> e.input == v,
{
}

/// Every variant converts to its field value and back, and exactly the
/// values up to 1 name a variant.
pub proof fn lemma_watchdog_codes(t: Watchdog, v: u16)
    ensures
        Watchdog::from_code(t.code()) == Ok::<Watchdog, TryFromReprError>(t),
        t.code() <= 1,
        Watchdog::from_code(v) is Ok <==> v <= 1,
        Watchdog::from_code(v) matches Ok(u) ==> u.code() == v,
        Watchdog::from_code(v) matches Err(e) ==> e.input == v,
{
}

/// The register value of each power mode setting, as the AS5600
/// defines it: writing a setting puts this value into the field, and
/// reading the value back decodes to that setting.
pub proof fn lemma_power_mode_register_values(x: PowerMode, v: u16)
    ensures
        PowerMode::Nom.code() == 0,
        PowerMode::Lpm1.code() == 1,
        PowerMode::Lpm2.code() == 2,
        PowerMode::Lpm3.code() == 3,
        PowerMode::from_code(0) == Ok::<PowerMode, TryFromReprError>(PowerMode::Nom),
        PowerMode::from_code(1) == Ok::<PowerMode, TryFromReprError>(PowerMode::Lpm1),
        PowerMode::from_code(2) == Ok::<PowerMode, TryFromReprError>(PowerMode::Lpm2),
        PowerMode::from_code(3) == Ok::<PowerMode, TryFromReprError>(PowerMode::Lpm3),
        v > 3 ==> PowerMode::from_code(v) == Err::<PowerMode, TryFromReprError>(TryFromReprError { input: v }),
        PowerMode::from_code(x.code()) == Ok::<PowerMode, TryFromReprError>(x),
{
}

/// The register value of each hysteresis setting, as the AS5600
/// defines it: writing a setting puts this value into the field, and
/// reading the value back decodes to that setting.
pub proof fn lemma_hysteresis_register_values(x: Hysteresis, v: u16)
    ensures
        Hysteresis::Off.code() == 0,
        Hysteresis::One.code() == 1,
        Hysteresis::Two.code() == 2,
        Hysteresis::Three.code() == 3,
        Hysteresis::from_code(0) == Ok::<Hysteresis, TryFromReprError>(Hysteresis::Off),
        Hysteresis::from_code(1) == Ok::<Hysteresis, TryFromReprError>(Hysteresis::One),
        Hysteresis::from_code(2) == Ok::<Hysteresis, TryFromReprError>(Hysteresis::Two),
        Hysteresis::from_code(3) == Ok::<Hysteresis, TryFromReprError>(Hysteresis::Three),
        v > 3 ==> Hysteresis::from_code(v) == Err::<Hysteresis, TryFromReprError>(TryFromReprError { input: v }),
        Hysteresis::from_code(x.code()) == Ok::<Hysteresis, TryFromReprError>(x),
{
}

/// The register value of each slow filter setting, as the AS5600
/// defines it: writing a setting puts this value into the field, and
/// reading the value back decodes to that setting.
pub proof fn lemma_slow_filter_register_values(x: SlowFilter, v: u16)
    ensures
        SlowFilter::X16.code() == 0,
        SlowFilter::X8.code() == 1,
        SlowFilter::X4.code() == 2,
        SlowFilter::X2.code() == 3,
        SlowFilter::from_code(0) == Ok::<SlowFilter, TryFromReprError>(SlowFilter::X16),
        SlowFilter::from_code(1) == Ok::<SlowFilter, TryFromReprError>(SlowFilter::X8),
        SlowFilter::from_code(2) == Ok::<SlowFilter, TryFromReprError>(SlowFilter::X4),
        SlowFilter::from_code(3) == Ok::<SlowFilter, TryFromReprError>(SlowFilter::X2),
        v > 3 ==> SlowFilter::from_code(v) == Err::<SlowFilter, TryFromReprError>(TryFromReprError { input: v }),
        SlowFilter::from_code(x.code()) == Ok::<SlowFilter, TryFromReprError>(x),
{
}

/// The register value of each fast filter threshold setting, as the AS5600
/// defines it: writing a setting puts this value into the field, and
/// reading the value back decodes to that setting.
pub proof fn lemma_fast_filter_threshold_register_values(x: FastFilterThreshold, v: u16)
    ensures
        FastFilterThreshold::SlowFilterOnly.code() == 0,
        FastFilterThreshold::Counts6.code() == 1,
        FastFilterThreshold::Counts7.code() == 2,
        FastFilterThreshold::Counts9.code() == 3,
        FastFilterThreshold::Counts18.code() == 4,
        FastFilterThreshold::Counts21.code() == 5,
        FastFilterThreshold::Counts24.code() == 6,
        FastFilterThreshold::Counts10.code() == 7,
        FastFilterThreshold::from_code(0) == Ok::<FastFilterThreshold, TryFromReprError>(FastFilterThreshold::SlowFilterOnly),
        FastFilterThreshold::from_code(1) == Ok::<FastFilterThreshold, TryFromReprError>(FastFilterThreshold::Counts6),
        FastFilterThreshold::from_code(2) == Ok::<FastFilterThreshold, TryFromReprError>(FastFilterThreshold::Counts7),
        FastFilterThreshold::from_code(3) == Ok::<FastFilterThreshold, TryFromReprError>(FastFilterThreshold::Counts9),
        FastFilterThreshold::from_code(4) == Ok::<FastFilterThreshold, TryFromReprError>(FastFilterThreshold::Counts18),
        FastFilterThreshold::from_code(5) == Ok::<FastFilterThreshold, TryFromReprError>(FastFilterThreshold::Counts21),
        FastFilterThreshold::from_code(6) == Ok::<FastFilterThreshold, TryFromReprError>(FastFilterThreshold::Counts24),
        FastFilterThreshold::from_code(7) == Ok::<FastFilterThreshold, TryFromReprError>(FastFilterThreshold::Counts10),
        v > 7 ==> FastFilterThreshold::from_code(v) == Err::<FastFilterThreshold, TryFromReprError>(TryFromReprError { input: v }),
        FastFilterThreshold::from_code(x.code()) == Ok::<FastFilterThreshold, TryFromReprError>(x),
{
}

/// The register value of each watchdog setting, as the AS5600
/// defines it: writing a setting puts this value into the field, and
/// reading the value back decodes to that setting.
pub proof fn lemma_watchdog_register_values(x: Watchdog, v: u16)
    ensures
        Watchdog::Off.code() == 0,
        Watchdog::On.code() == 1,
        Watchdog::from_code(0) == Ok::<Watchdog, TryFromReprError>(Watchdog::Off),
        Watchdog::from_code(1) == Ok::<Watchdog, TryFromReprError>(Watchdog::On),
        v > 1 ==> Watchdog::from_code(v) == Err::<Watchdog, TryFromReprError>(TryFromReprError { input: v }),
        Watchdog::from_code(x.code()) == Ok::<Watchdog, TryFromReprError>(x),
{
}

} // verus!

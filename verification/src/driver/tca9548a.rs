//! Channel selection of the TCA9548A I2C multiplexer.
use vstd::prelude::*;

verus! {

/// I2C address of the TCA9548A.
pub const ADDRESS: u8 = 0x70;

/// The control byte that connects `channel` alone to the upstream bus.
pub open spec fn select_byte(channel: u8) -> u8 {
    1u8 << channel
}

/// What selecting `channel` must write, given the channel the multiplexer is
/// known to have selected: nothing when it is the same channel, else the
/// control byte of `channel`.
pub open spec fn select_action(selected: Option<u8>, channel: u8) -> Option<u8> {
    if selected == Some(channel) {
        None
    } else {
        Some(select_byte(channel))
    }
}

/// A TCA9548A on the bus `I2C`, with the channel it was last told to select.
pub struct Tca9548a<I2C> {
    i2c: I2C,
    channel: Option<u8>,
}

impl<I2C> Tca9548a<I2C> {
    /// The channel that the multiplexer has acknowledged selecting, if any.
    pub closed spec fn selected(&self) -> Option<u8> {
        self.channel
    }

    /// The upstream bus.
    pub closed spec fn bus(&self) -> I2C {
        self.i2c
    }

    pub fn new(i2c: I2C) -> (r: Self)
        ensures
            r.selected() == None::<u8>,
            r.bus() == i2c,
    {
        Tca9548a { i2c, channel: None }
    }

    /// The control byte to write before talking to a device on `channel`, or
    /// `None` when the multiplexer already has `channel` selected.
    pub fn select_request(&self, channel: u8) -> (r: Option<u8>)
        requires
            self.selected() == Some(channel) || channel < 8,
        ensures
            r == select_action(self.selected(), channel),
    {
        if self.channel == Some(channel) {
            return None;
        }
        Some(1u8 << channel)
    }

    /// Records that the write selecting `channel` succeeded.
    pub fn selected_ok(&mut self, channel: u8)
        ensures
            final(self).selected() == Some(channel),
            final(self).bus() == old(self).bus(),
    {
        self.channel = Some(channel);
    }

    /// The upstream bus, for a write or a transaction.
    pub fn bus_mut(&mut self) -> (r: &mut I2C)
        ensures
            *r == old(self).bus(),
            final(self).bus() == *final(r),
            final(self).selected() == old(self).selected(),
    {
        &mut self.i2c
    }
}

/// Once a channel is selected, selecting it again writes nothing; selecting
/// any other channel writes a control byte with exactly that channel's bit
/// set, so one channel alone is connected.
pub proof fn lemma_select(selected: Option<u8>, channel: u8)
    requires
        channel < 8,
    ensures
        select_action(Some(channel), channel) == None::<u8>,
        selected != Some(channel) ==> select_action(selected, channel) == Some(select_byte(channel)),
        forall|j: u8| j < 8 ==> (((select_byte(channel) >> j) & 1u8 == 1u8) <==> j == channel),
        select_byte(channel) != 0,
{
    let b = select_byte(channel);
    assert(forall|j: u8| j < 8 ==> (((b >> j) & 1u8 == 1u8) <==> j == channel)) by (bit_vector)
        requires
            b == 1u8 << channel,
            channel < 8,
    ;
    assert(b != 0) by (bit_vector)
        requires
            b == 1u8 << channel,
            channel < 8,
    ;
}

} // verus!

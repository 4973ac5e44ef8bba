//! One LED channel: a frame buffer paired with the hardware channel number
//! it is transmitted on. The hardware hand-off itself (registering the
//! buffer with the transmitter and starting a transfer) lives with the
//! driver glue outside this engine.

use vstd::prelude::*;
use crate::rgb::{Rgb, RgbBuffer};

verus! {

/// A channel's frame buffer and its channel number.
pub struct LedChannel<const N: usize> {
    buffer: RgbBuffer<N>,
    channel_number: u8,
}

impl<const N: usize> View for LedChannel<N> {
    type V = Seq<Rgb>;

    closed spec fn view(&self) -> Seq<Rgb> {
        self.buffer@
    }
}

impl<const N: usize> LedChannel<N> {
    /// The hardware channel number the buffer is transmitted on.
    pub closed spec fn spec_channel_number(&self) -> u8 {
        self.channel_number
    }

    /// A channel with an all-black buffer of `N` pixels.
    pub fn new(channel_number: u8) -> (c: LedChannel<N>)
        ensures
            c@.len() == N,
            forall|i: int| 0 <= i < N ==> c@[i] == (Rgb { r: 0, g: 0, b: 0 }),
            c.spec_channel_number() == channel_number,
    {
        LedChannel { buffer: RgbBuffer::new(), channel_number }
    }

    /// The channel number.
    pub fn channel_number(&self) -> (n: u8)
        ensures
            n == self.spec_channel_number(),
    {
        self.channel_number
    }

    /// Sets every pixel of the channel's buffer to the given color.
    pub fn fill(&mut self, r: u8, g: u8, b: u8)
        ensures
            final(self)@.len() == old(self)@.len(),
            forall|i: int| 0 <= i < old(self)@.len() ==> final(self)@[i] == (Rgb { r, g, b }),
            final(self).spec_channel_number() == old(self).spec_channel_number(),
    {
        self.buffer.fill(Rgb::new(r, g, b));
    }

    /// Sets every pixel of the channel's buffer to black.
    pub fn clear(&mut self)
        ensures
            final(self)@.len() == old(self)@.len(),
            forall|i: int|
                0 <= i < old(self)@.len() ==> final(self)@[i] == (Rgb { r: 0, g: 0, b: 0 }),
            final(self).spec_channel_number() == old(self).spec_channel_number(),
    {
        self.buffer.fill(Rgb::black());
    }

    /// The channel's frame buffer, for a generator to write into directly.
    pub fn buffer_mut(&mut self) -> (buf: &mut RgbBuffer<N>)
        ensures
            buf@ == old(self)@,
            final(self)@ == final(buf)@,
            final(self).spec_channel_number() == old(self).spec_channel_number(),
    {
        &mut self.buffer
    }

    /// The backing storage of the channel's frame buffer. The caller must
    /// leave the length unchanged: the hardware sink expects `N` colors.
    pub fn as_mut_slice(&mut self) -> (leds: &mut Vec<Rgb>)
        ensures
            leds@ == old(self)@,
            final(self)@ == final(leds)@,
            final(self).spec_channel_number() == old(self).spec_channel_number(),
    {
        self.buffer.as_mut_slice()
    }
}

} // verus!

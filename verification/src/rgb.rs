//! The hardware-facing color value and frame buffer: a contiguous sequence
//! of three-byte red-green-blue values, the wire contract toward the
//! hardware sink.

use vstd::prelude::*;
use crate::math::sat_add_int;

verus! {

/// One three-byte RGB value as the transmitter consumes it.
#[derive(Copy, Clone, Debug, PartialEq, Eq, Structural)]
pub struct Rgb {
    pub r: u8,
    pub g: u8,
    pub b: u8,
}

impl Rgb {
    pub fn new(r: u8, g: u8, b: u8) -> (c: Rgb)
        ensures
            c == (Rgb { r, g, b }),
    {
        Rgb { r, g, b }
    }

    /// The all-zero color.
    pub fn black() -> (c: Rgb)
        ensures
            c == (Rgb { r: 0, g: 0, b: 0 }),
    {
        Rgb { r: 0, g: 0, b: 0 }
    }

    /// The channelwise saturating sum of two colors.
    pub fn add(&self, other: Rgb) -> (c: Rgb)
        ensures
            c.r as int == sat_add_int(self.r as int, other.r as int, 255),
            c.g as int == sat_add_int(self.g as int, other.g as int, 255),
            c.b as int == sat_add_int(self.b as int, other.b as int, 255),
    {
        Rgb {
            r: if self.r as u16 + other.r as u16 > 255 {
                255
            } else {
                self.r + other.r
            },
            g: if self.g as u16 + other.g as u16 > 255 {
                255
            } else {
                self.g + other.g
            },
            b: if self.b as u16 + other.b as u16 > 255 {
                255
            } else {
                self.b + other.b
            },
        }
    }
}

/// A frame buffer of `N` RGB values. `new` creates it with exactly `N`
/// colors and the buffer's own methods keep that length; a caller that
/// writes through [`RgbBuffer::as_mut_slice`] must preserve the length
/// itself, since the hardware driver reads a fixed-length region.
pub struct RgbBuffer<const N: usize> {
    leds: Vec<Rgb>,
}

impl<const N: usize> View for RgbBuffer<N> {
    type V = Seq<Rgb>;

    closed spec fn view(&self) -> Seq<Rgb> {
        self.leds@
    }
}

impl<const N: usize> RgbBuffer<N> {
    /// A buffer of `N` black pixels.
    pub fn new() -> (buf: RgbBuffer<N>)
        ensures
            buf@.len() == N,
            forall|i: int| 0 <= i < N ==> buf@[i] == (Rgb { r: 0, g: 0, b: 0 }),
    {
        let mut leds: Vec<Rgb> = Vec::new();
        let mut i: usize = 0;
        while i < N
            invariant
                i <= N,
                leds@.len() == i,
                forall|j: int| 0 <= j < i ==> leds@[j] == (Rgb { r: 0, g: 0, b: 0 }),
            decreases N - i,
        {
            leds.push(Rgb { r: 0, g: 0, b: 0 });
            i = i + 1;
        }
        RgbBuffer { leds }
    }

    /// Sets every pixel to `color`; the length is unchanged.
    pub fn fill(&mut self, color: Rgb)
        ensures
            final(self)@.len() == old(self)@.len(),
            forall|i: int| 0 <= i < old(self)@.len() ==> final(self)@[i] == color,
    {
        let len = self.leds.len();
        let mut i: usize = 0;
        while i < len
            invariant
                i <= len,
                self.leds@.len() == len,
                forall|j: int| 0 <= j < i ==> self.leds@[j] == color,
            decreases len - i,
        {
            self.leds[i] = color;
            i = i + 1;
        }
    }

    /// The backing storage, for a generator to write into directly. The
    /// caller must leave the length unchanged: the hardware sink expects
    /// `N` colors.
    pub fn as_mut_slice(&mut self) -> (leds: &mut Vec<Rgb>)
        ensures
            leds@ == old(self)@,
            final(self)@ == final(leds)@,
    {
        &mut self.leds
    }

    /// How many pixels the buffer holds.
    pub fn len(&self) -> (n: usize)
        ensures
            n == self@.len(),
    {
        self.leds.len()
    }
}

} // verus!

//! The core traits of the engine: the numeric value domain, envelopes,
//! parameters, generators and modifiers.

use vstd::prelude::*;
use crate::math::{clamp_int, mul_div_int, progress_int, sat_add_int, sat_sub_int};
use crate::pixel::Pixel;

verus! {

/// An unsigned fixed-point value domain for envelope sampling.
///
/// A domain value always lies in `[0, Self::max_int()]`; `max_int()` stands
/// for the fraction `1.0`. The same combinator code runs over 8-bit, 16-bit
/// or 32-bit domains, trading precision against arithmetic cost.
pub trait EnvelopeValue: Copy + Sized {
    /// The mathematical integer a domain value stands for.
    spec fn to_int(self) -> int;

    /// The greatest value of the domain, standing for the fraction `1.0`.
    spec fn max_int() -> int;

    /// Every domain value lies in `[0, max_int()]`.
    proof fn lemma_in_range(self)
        ensures
            0 <= self.to_int() <= Self::max_int(),
    ;

    /// The domain is at least as wide as one bit.
    proof fn lemma_max_positive()
        ensures
            Self::max_int() >= 1,
    ;

    fn zero() -> (r: Self)
        ensures
            r.to_int() == 0,
    ;

    fn one() -> (r: Self)
        ensures
            r.to_int() == 1,
    ;

    fn max_value() -> (r: Self)
        ensures
            r.to_int() == Self::max_int(),
    ;

    /// The fraction `elapsed / duration` of the domain's range.
    fn from_progress(elapsed: u32, duration: u32) -> (r: Self)
        requires
            0 < duration,
            elapsed <= duration,
        ensures
            r.to_int() == progress_int(elapsed as int, duration as int, Self::max_int()),
    ;

    fn saturating_add(self, other: Self) -> (r: Self)
        ensures
            r.to_int() == sat_add_int(self.to_int(), other.to_int(), Self::max_int()),
    ;

    fn saturating_sub(self, other: Self) -> (r: Self)
        ensures
            r.to_int() == sat_sub_int(self.to_int(), other.to_int()),
    ;

    /// The fixed-point product `self * other / max`, never above `max`.
    fn saturating_mul_div(self, other: Self) -> (r: Self)
        ensures
            r.to_int() == mul_div_int(self.to_int(), other.to_int(), Self::max_int()),
    ;

    fn clamp_value(self, min: Self, max: Self) -> (r: Self)
        requires
            min.to_int() <= max.to_int(),
        ensures
            r.to_int() == clamp_int(self.to_int(), min.to_int(), max.to_int()),
    ;

    fn le(self, other: Self) -> (r: bool)
        ensures
            r == (self.to_int() <= other.to_int()),
    ;

    fn to_u32(self) -> (r: u32)
        ensures
            r as int == self.to_int(),
    ;
}

/// A pure time-to-value curve together with a liveness predicate.
///
/// `spec_sample` is the mathematical model of the curve; `sample` computes
/// it. Every envelope's sample lies in `[0, T::max_int()]` for every `now`.
pub trait Envelope<T: EnvelopeValue>: Sized {
    /// Configuration under which the envelope's arithmetic is defined
    /// (for instance, a positive period).
    spec fn wf(&self) -> bool;

    /// The value of the curve at `now`, as a mathematical integer.
    spec fn spec_sample(&self, now: u32) -> int;

    /// Whether the envelope is still alive at `now`.
    spec fn spec_alive(&self, now: u32) -> bool;

    fn sample(&self, now: u32) -> (r: T)
        requires
            self.wf(),
        ensures
            r.to_int() == self.spec_sample(now),
            0 <= self.spec_sample(now) <= T::max_int(),
    ;

    fn is_alive(&self, now: u32) -> (r: bool)
        requires
            self.wf(),
        ensures
            r == self.spec_alive(now),
    ;
}

/// An adapter that exposes either a constant or an envelope-derived value
/// of the concrete type a generator or modifier field needs.
pub trait Parameter<T>: Sized {
    /// Configuration under which the parameter's arithmetic is defined.
    spec fn wf(&self) -> bool;

    /// The value the parameter takes at `now`.
    spec fn spec_sample(&self, now: u32) -> T;

    fn sample(&self, now: u32) -> (r: T)
        requires
            self.wf(),
        ensures
            r == self.spec_sample(now),
    ;
}

/// A parameter that yields a hue on the circular `0` to `255` scale.
pub trait HueParameter: Sized {
    /// Configuration under which the hue computation is defined.
    spec fn wf(&self) -> bool;

    /// The hue the parameter takes at `now`.
    spec fn spec_sample(&self, now: u32) -> u8;

    fn sample(&self, now: u32) -> (r: u8)
        requires
            self.wf(),
        ensures
            r == self.spec_sample(now),
    ;
}

/// A stateful effect that writes colors into a pixel buffer as a function
/// of time.
///
/// `generate` rewrites the buffer to `spec_buffer` of the old buffer and
/// advances the generator's own state to `spec_step`; it never changes the
/// buffer's length, and it writes its whole affected region before
/// returning. Liveness is a pure function of `now`.
pub trait Generator: Sized {
    /// Configuration under which the generator's arithmetic is defined.
    spec fn wf(&self) -> bool;

    /// Whether the effect is still alive at `now`.
    spec fn spec_alive(&self, now: u32) -> bool;

    /// The buffer contents after generating over `buffer` at `now`.
    spec fn spec_buffer(&self, buffer: Seq<Pixel>, now: u32) -> Seq<Pixel>;

    /// The generator's own state after generating over `buffer` at `now`.
    spec fn spec_step(&self, buffer: Seq<Pixel>, now: u32) -> Self;

    fn generate(&mut self, buffer: &mut Vec<Pixel>, now: u32)
        requires
            old(self).wf(),
        ensures
            final(buffer)@ == old(self).spec_buffer(old(buffer)@, now),
            final(buffer)@.len() == old(buffer)@.len(),
            *final(self) == old(self).spec_step(old(buffer)@, now),
            final(self).wf(),
    ;

    fn is_alive(&self, now: u32) -> (r: bool)
        requires
            self.wf(),
        ensures
            r == self.spec_alive(now),
    ;
}

/// An in-place, order-sensitive transform over a pixel buffer, applied
/// after generation.
///
/// `modify` rewrites the buffer to `spec_buffer` of the old buffer and
/// advances the modifier's own state to `spec_step` (most modifiers are
/// stateless; a pseudo-random one is not); it never changes the buffer's
/// length.
pub trait Modifier: Sized {
    /// Configuration under which the modifier's arithmetic is defined.
    spec fn wf(&self) -> bool;

    /// The buffer contents after modifying `buffer` at `now`.
    spec fn spec_buffer(&self, buffer: Seq<Pixel>, now: u32) -> Seq<Pixel>;

    /// The modifier's own state after modifying `buffer` at `now`.
    spec fn spec_step(&self, buffer: Seq<Pixel>, now: u32) -> Self;

    fn modify(&mut self, buffer: &mut Vec<Pixel>, now: u32)
        requires
            old(self).wf(),
        ensures
            final(buffer)@ == old(self).spec_buffer(old(buffer)@, now),
            final(buffer)@.len() == old(buffer)@.len(),
            *final(self) == old(self).spec_step(old(buffer)@, now),
            final(self).wf(),
    ;
}

/// A stateless curve-shaping function over the unit interval, represented
/// in fixed point: both the argument and the result run from `0` to
/// `65535`, standing for `0.0` to `1.0`.
///
/// Every curve is exact at the endpoints: `ease(0) == 0` and
/// `ease(65535) == 65535`.
pub trait Easing: Sized {
    /// The value of the curve at `t`.
    spec fn spec_ease(&self, t: u16) -> int;

    fn ease(&self, t: u16) -> (r: u16)
        ensures
            r as int == self.spec_ease(t),
            t == 0 ==> r == 0,
            t == 65535 ==> r == 65535,
    ;
}

} // verus!

//! The engine's cross-cutting laws: statements that relate several
//! components, proved once and for all inputs. The range law — every
//! envelope's sample lies in `[0, max]` for every time — is stated directly
//! on [`crate::traits::Envelope::sample`] and proved by every envelope
//! implementation.

use vstd::prelude::*;
use crate::builder::WithModifier;
use crate::combinators::{Invert, Max, Min, Product, Sum};
use crate::generators::spec_falloff;
use crate::modifiers::{spec_reverse, Reverse, Sparkle};
use crate::pixel::{spec_bucket, spec_from_hsv, spec_to_hsv, Pixel};
use crate::traits::{Envelope, EnvelopeValue, Generator, HueParameter, Modifier, Parameter};

verus! {

/// A product of two envelopes is alive exactly when both inner envelopes
/// are alive; a sum, minimum or maximum is alive exactly when either inner
/// envelope is.
pub proof fn law_combinator_liveness<E1, E2, T>(
    product: &Product<E1, E2>,
    sum: &Sum<E1, E2>,
    min: &Min<E1, E2>,
    max: &Max<E1, E2>,
    now: u32,
) where E1: Envelope<T>, E2: Envelope<T>, T: EnvelopeValue
    ensures
        <Product<E1, E2> as Envelope<T>>::spec_alive(product, now) == (product.env1.spec_alive(now)
            && product.env2.spec_alive(now)),
        <Sum<E1, E2> as Envelope<T>>::spec_alive(sum, now) == (sum.env1.spec_alive(now)
            || sum.env2.spec_alive(now)),
        <Min<E1, E2> as Envelope<T>>::spec_alive(min, now) == (min.env1.spec_alive(now)
            || min.env2.spec_alive(now)),
        <Max<E1, E2> as Envelope<T>>::spec_alive(max, now) == (max.env1.spec_alive(now)
            || max.env2.spec_alive(now)),
{
}

/// Inverting an envelope reflects every sample about the domain maximum,
/// exactly: the inverted envelope's value at any time is the maximum minus
/// the inner envelope's value at that time.
pub proof fn law_invert_sample<E, T>(inverted: &Invert<E>, now: u32) where
    E: Envelope<T>,
    T: EnvelopeValue,

    ensures
        <Invert<E> as Envelope<T>>::spec_sample(inverted, now) == T::max_int()
            - inverted.inner.spec_sample(now),
        <Invert<E> as Envelope<T>>::spec_alive(inverted, now) == inverted.inner.spec_alive(now),
{
}

/// A generator decorated with [`Reverse`] produces exactly the reverse of
/// the undecorated generator's output at the same timestamp, whatever the
/// generator and whatever the buffer: the builder applies the generator
/// first and the modifier after it.
pub proof fn law_reverse_decoration<G: Generator>(
    decorated: &WithModifier<G, Reverse>,
    buffer: Seq<Pixel>,
    now: u32,
)
    ensures
        decorated.spec_buffer(buffer, now) == spec_reverse(
            decorated.generator.spec_buffer(buffer, now),
        ),
{
}

/// Sparkle is deterministic: its output buffer and its advanced seed are
/// functions of the modifier state, the buffer and the timestamp alone, so
/// two sparkle modifiers in equal states fed equal buffers at equal times
/// produce bit-identical buffers and end in equal states.
pub proof fn law_sparkle_deterministic<Chance, Hue, Sat, Intensity>(
    first: &Sparkle<Chance, Hue, Sat, Intensity>,
    second: &Sparkle<Chance, Hue, Sat, Intensity>,
    buffer: Seq<Pixel>,
    now: u32,
) where Chance: Parameter<u8>, Hue: HueParameter, Sat: Parameter<u8>, Intensity: Parameter<u8>
    requires
        *first == *second,
    ensures
        first.spec_buffer(buffer, now) == second.spec_buffer(buffer, now),
        first.spec_step(buffer, now) == second.spec_step(buffer, now),
{
}

/// An achromatic color whose channel value is one of the color table's
/// eight quantization levels survives the HSV round trip exactly: its hue
/// and saturation read back as zero and the table returns the identical
/// gray. Chromatic colors, and grays off the eight levels, only round-trip
/// up to the table's quantization.
pub proof fn law_achromatic_bucket_round_trip(v: u8)
    requires
        v as int == spec_bucket(v as int),
    ensures
        spec_to_hsv(Pixel { r: v, g: v, b: v }) == (0int, 0int, v as int),
        spec_from_hsv(0, 0, v as int) == (Pixel { r: v, g: v, b: v }),
{
    assert(spec_bucket(0int) == 0);
}

/// The moving generators' falloff is full at the window's center and zero
/// at its edge: the blend contributes the whole sampled intensity at
/// distance zero and nothing from `width` pixels away.
pub proof fn law_falloff_edges(width: int)
    requires
        width > 0,
    ensures
        spec_falloff(0, width) == 255,
        spec_falloff(width, width) == 0,
{
    assert(width * 255 / width == 255) by (nonlinear_arith)
        requires
            width > 0,
    ;
}

} // verus!

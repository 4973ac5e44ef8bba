//! The builder: composes one generator with zero or more modifiers into a
//! single composite generator, built once and reused every frame.

use vstd::prelude::*;
use crate::pixel::Pixel;
use crate::traits::{Generator, Modifier};

verus! {

/// A generator decorated with one modifier: on `generate` it first
/// delegates to the inner generator, then applies the modifier to the
/// buffer the generator produced. Liveness delegates to the inner generator
/// alone: modifiers neither extend nor shorten an effect's lifetime.
pub struct WithModifier<G, M> {
    pub generator: G,
    pub modifier: M,
}

impl<G: Generator, M: Modifier> Generator for WithModifier<G, M> {
    open spec fn wf(&self) -> bool {
        self.generator.wf() && self.modifier.wf()
    }

    open spec fn spec_alive(&self, now: u32) -> bool {
        self.generator.spec_alive(now)
    }

    open spec fn spec_buffer(&self, buffer: Seq<Pixel>, now: u32) -> Seq<Pixel> {
        self.modifier.spec_buffer(self.generator.spec_buffer(buffer, now), now)
    }

    open spec fn spec_step(&self, buffer: Seq<Pixel>, now: u32) -> Self {
        WithModifier {
            generator: self.generator.spec_step(buffer, now),
            modifier: self.modifier.spec_step(self.generator.spec_buffer(buffer, now), now),
        }
    }

    fn generate(&mut self, buffer: &mut Vec<Pixel>, now: u32) {
        self.generator.generate(buffer, now);
        self.modifier.modify(buffer, now);
    }

    fn is_alive(&self, now: u32) -> (r: bool) {
        self.generator.is_alive(now)
    }
}

/// Assembles a composite generator: `new` wraps a generator,
/// `with_modifier` appends one modifier to the chain, and `build` yields
/// the finished composite. Modifiers run in the order they were added.
pub struct EffectBuilder<G> {
    pub generator: G,
}

impl<G> EffectBuilder<G> {
    pub fn new(generator: G) -> (r: EffectBuilder<G>)
        ensures
            r.generator == generator,
    {
        EffectBuilder { generator }
    }

    pub fn with_modifier<M: Modifier>(self, modifier: M) -> (r: EffectBuilder<
        WithModifier<G, M>,
    >) where G: Generator
        ensures
            r.generator.generator == self.generator,
            r.generator.modifier == modifier,
    {
        EffectBuilder { generator: WithModifier { generator: self.generator, modifier } }
    }

    pub fn build(self) -> (r: G)
        ensures
            r == self.generator,
    {
        self.generator
    }
}

} // verus!

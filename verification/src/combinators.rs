//! Algebraic combinators that build new envelopes out of existing ones.

use vstd::prelude::*;
use crate::math::{clamp_int, mul_div_int, sat_add_int};
use crate::traits::{Envelope, EnvelopeValue};

verus! {

/// The fixed-point product `a * b / max` of two envelopes (amplitude
/// modulation); alive only while both inner envelopes are alive.
pub struct Product<E1, E2> {
    pub env1: E1,
    pub env2: E2,
}

impl<E1, E2, T> Envelope<T> for Product<E1, E2> where
    E1: Envelope<T>,
    E2: Envelope<T>,
    T: EnvelopeValue,
 {
    open spec fn wf(&self) -> bool {
        self.env1.wf() && self.env2.wf()
    }

    open spec fn spec_sample(&self, now: u32) -> int {
        mul_div_int(self.env1.spec_sample(now), self.env2.spec_sample(now), T::max_int())
    }

    open spec fn spec_alive(&self, now: u32) -> bool {
        self.env1.spec_alive(now) && self.env2.spec_alive(now)
    }

    fn sample(&self, now: u32) -> (r: T) {
        let v1 = self.env1.sample(now);
        let v2 = self.env2.sample(now);
        let r = v1.saturating_mul_div(v2);
        proof {
            r.lemma_in_range();
        }
        r
    }

    fn is_alive(&self, now: u32) -> (r: bool) {
        self.env1.is_alive(now) && self.env2.is_alive(now)
    }
}

/// The saturating sum of two envelopes; alive while either inner envelope
/// is alive.
pub struct Sum<E1, E2> {
    pub env1: E1,
    pub env2: E2,
}

impl<E1, E2, T> Envelope<T> for Sum<E1, E2> where
    E1: Envelope<T>,
    E2: Envelope<T>,
    T: EnvelopeValue,
 {
    open spec fn wf(&self) -> bool {
        self.env1.wf() && self.env2.wf()
    }

    open spec fn spec_sample(&self, now: u32) -> int {
        sat_add_int(self.env1.spec_sample(now), self.env2.spec_sample(now), T::max_int())
    }

    open spec fn spec_alive(&self, now: u32) -> bool {
        self.env1.spec_alive(now) || self.env2.spec_alive(now)
    }

    fn sample(&self, now: u32) -> (r: T) {
        let v1 = self.env1.sample(now);
        let v2 = self.env2.sample(now);
        let r = v1.saturating_add(v2);
        proof {
            r.lemma_in_range();
        }
        r
    }

    fn is_alive(&self, now: u32) -> (r: bool) {
        self.env1.is_alive(now) || self.env2.is_alive(now)
    }
}

/// The pointwise minimum of two envelopes; alive while either inner
/// envelope is alive.
pub struct Min<E1, E2> {
    pub env1: E1,
    pub env2: E2,
}

impl<E1, E2, T> Envelope<T> for Min<E1, E2> where
    E1: Envelope<T>,
    E2: Envelope<T>,
    T: EnvelopeValue,
 {
    open spec fn wf(&self) -> bool {
        self.env1.wf() && self.env2.wf()
    }

    open spec fn spec_sample(&self, now: u32) -> int {
        let v1 = self.env1.spec_sample(now);
        let v2 = self.env2.spec_sample(now);
        if v1 <= v2 {
            v1
        } else {
            v2
        }
    }

    open spec fn spec_alive(&self, now: u32) -> bool {
        self.env1.spec_alive(now) || self.env2.spec_alive(now)
    }

    fn sample(&self, now: u32) -> (r: T) {
        let v1 = self.env1.sample(now);
        let v2 = self.env2.sample(now);
        let r = if v1.le(v2) {
            v1
        } else {
            v2
        };
        proof {
            r.lemma_in_range();
        }
        r
    }

    fn is_alive(&self, now: u32) -> (r: bool) {
        self.env1.is_alive(now) || self.env2.is_alive(now)
    }
}

/// The pointwise maximum of two envelopes; alive while either inner
/// envelope is alive.
pub struct Max<E1, E2> {
    pub env1: E1,
    pub env2: E2,
}

impl<E1, E2, T> Envelope<T> for Max<E1, E2> where
    E1: Envelope<T>,
    E2: Envelope<T>,
    T: EnvelopeValue,
 {
    open spec fn wf(&self) -> bool {
        self.env1.wf() && self.env2.wf()
    }

    open spec fn spec_sample(&self, now: u32) -> int {
        let v1 = self.env1.spec_sample(now);
        let v2 = self.env2.spec_sample(now);
        if v1 >= v2 {
            v1
        } else {
            v2
        }
    }

    open spec fn spec_alive(&self, now: u32) -> bool {
        self.env1.spec_alive(now) || self.env2.spec_alive(now)
    }

    fn sample(&self, now: u32) -> (r: T) {
        let v1 = self.env1.sample(now);
        let v2 = self.env2.sample(now);
        let r = if v1.le(v2) {
            v2
        } else {
            v1
        };
        proof {
            r.lemma_in_range();
        }
        r
    }

    fn is_alive(&self, now: u32) -> (r: bool) {
        self.env1.is_alive(now) || self.env2.is_alive(now)
    }
}

/// The reflection `max - value` of an envelope; alive while the inner
/// envelope is alive.
pub struct Invert<E> {
    pub inner: E,
}

impl<E, T> Envelope<T> for Invert<E> where E: Envelope<T>, T: EnvelopeValue {
    open spec fn wf(&self) -> bool {
        self.inner.wf()
    }

    open spec fn spec_sample(&self, now: u32) -> int {
        T::max_int() - self.inner.spec_sample(now)
    }

    open spec fn spec_alive(&self, now: u32) -> bool {
        self.inner.spec_alive(now)
    }

    fn sample(&self, now: u32) -> (r: T) {
        let v = self.inner.sample(now);
        let r = T::max_value().saturating_sub(v);
        proof {
            r.lemma_in_range();
        }
        r
    }

    fn is_alive(&self, now: u32) -> (r: bool) {
        self.inner.is_alive(now)
    }
}

/// An envelope constrained to `[min, max]`; alive while the inner envelope
/// is alive.
pub struct Clamp<E, T> {
    pub inner: E,
    pub min: T,
    pub max: T,
}

impl<E, T> Envelope<T> for Clamp<E, T> where E: Envelope<T>, T: EnvelopeValue {
    open spec fn wf(&self) -> bool {
        self.inner.wf() && self.min.to_int() <= self.max.to_int()
    }

    open spec fn spec_sample(&self, now: u32) -> int {
        clamp_int(self.inner.spec_sample(now), self.min.to_int(), self.max.to_int())
    }

    open spec fn spec_alive(&self, now: u32) -> bool {
        self.inner.spec_alive(now)
    }

    fn sample(&self, now: u32) -> (r: T) {
        let v = self.inner.sample(now);
        let r = v.clamp_value(self.min, self.max);
        proof {
            r.lemma_in_range();
        }
        r
    }

    fn is_alive(&self, now: u32) -> (r: bool) {
        self.inner.is_alive(now)
    }
}

} // verus!

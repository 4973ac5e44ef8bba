//! Parameter adapters: constants and envelope-driven range mappings.

use vstd::prelude::*;
use core::marker::PhantomData;
use crate::traits::{Envelope, EnvelopeValue, Parameter};

verus! {

/// A parameter that always yields the same value, whatever the time.
pub struct StaticParam<T>(pub T);

impl<T: Copy> Parameter<T> for StaticParam<T> {
    open spec fn wf(&self) -> bool {
        true
    }

    open spec fn spec_sample(&self, now: u32) -> T {
        self.0
    }

    fn sample(&self, now: u32) -> (r: T) {
        self.0
    }
}

/// A parameter that samples an envelope, normalizes the sample against the
/// envelope domain's maximum, and maps it linearly into `[min, max]` of the
/// destination integer type. The same envelope can feed parameters of
/// different destination widths.
pub struct DynamicParam<E, T> {
    pub envelope: E,
    pub min: u32,
    pub max: u32,
    pub domain: PhantomData<T>,
}

impl<E, T> DynamicParam<E, T> {
    pub fn new(envelope: E, min: u32, max: u32) -> (r: DynamicParam<E, T>)
        ensures
            r.envelope == envelope,
            r.min == min,
            r.max == max,
    {
        DynamicParam { envelope, min, max, domain: PhantomData }
    }
}

/// The linear range mapping shared by every [`DynamicParam`] destination
/// width: `sample / domain_max` of the way from `min` to `max`.
pub open spec fn spec_range_map(sample: int, domain_max: int, min: int, max: int) -> int {
    min + sample * (max - min) / domain_max
}

/// The mapped value stays within `[min, max]` when the sample lies within
/// the domain.
proof fn lemma_range_map_bounds(sample: int, domain_max: int, min: int, max: int)
    requires
        0 <= sample <= domain_max,
        1 <= domain_max,
        0 <= min <= max,
    ensures
        min <= spec_range_map(sample, domain_max, min, max) <= max,
{
    assert(sample * (max - min) >= 0) by (nonlinear_arith)
        requires
            sample >= 0,
            max >= min,
    ;
    assert(sample * (max - min) / domain_max >= 0) by (nonlinear_arith)
        requires
            sample * (max - min) >= 0,
            domain_max >= 1,
    ;
    assert(sample * (max - min) <= domain_max * (max - min)) by (nonlinear_arith)
        requires
            sample <= domain_max,
            max >= min,
    ;
    assert(sample * (max - min) / domain_max <= domain_max * (max - min) / domain_max)
        by (nonlinear_arith)
        requires
            domain_max >= 1,
            sample * (max - min) <= domain_max * (max - min),
    ;
    assert(domain_max * (max - min) / domain_max == max - min) by (nonlinear_arith)
        requires
            domain_max >= 1,
    ;
}

/// The range-mapping computation shared by the destination widths, over
/// `u32` bounds.
fn range_map<E, T>(param: &DynamicParam<E, T>, now: u32) -> (r: u32)
    where E: Envelope<T>, T: EnvelopeValue
    requires
        param.envelope.wf(),
        param.min <= param.max,
    ensures
        r as int == spec_range_map(
            param.envelope.spec_sample(now),
            T::max_int(),
            param.min as int,
            param.max as int,
        ),
        param.min <= r <= param.max,
{
    let t = param.envelope.sample(now);
    let t32 = t.to_u32();
    let domain_max = T::max_value().to_u32();
    proof {
        T::lemma_max_positive();
        lemma_range_map_bounds(
            t32 as int,
            domain_max as int,
            param.min as int,
            param.max as int,
        );
        assert((t32 as int) * (param.max as int - param.min as int) <= (u32::MAX as int) * (
        u32::MAX as int)) by (nonlinear_arith)
            requires
                t32 <= u32::MAX,
                0 <= param.max as int - param.min as int <= u32::MAX as int,
        ;
    }
    let scaled = ((t32 as u64) * ((param.max - param.min) as u64) / (domain_max as u64)) as u32;
    param.min + scaled
}

impl<E, T> Parameter<u8> for DynamicParam<E, T> where E: Envelope<T>, T: EnvelopeValue {
    open spec fn wf(&self) -> bool {
        self.envelope.wf() && self.min <= self.max && self.max <= 255
    }

    open spec fn spec_sample(&self, now: u32) -> u8 {
        spec_range_map(
            self.envelope.spec_sample(now),
            T::max_int(),
            self.min as int,
            self.max as int,
        ) as u8
    }

    fn sample(&self, now: u32) -> (r: u8) {
        range_map(self, now) as u8
    }
}

impl<E, T> Parameter<u16> for DynamicParam<E, T> where E: Envelope<T>, T: EnvelopeValue {
    open spec fn wf(&self) -> bool {
        self.envelope.wf() && self.min <= self.max && self.max <= 65535
    }

    open spec fn spec_sample(&self, now: u32) -> u16 {
        spec_range_map(
            self.envelope.spec_sample(now),
            T::max_int(),
            self.min as int,
            self.max as int,
        ) as u16
    }

    fn sample(&self, now: u32) -> (r: u16) {
        range_map(self, now) as u16
    }
}

impl<E, T> Parameter<u32> for DynamicParam<E, T> where E: Envelope<T>, T: EnvelopeValue {
    open spec fn wf(&self) -> bool {
        self.envelope.wf() && self.min <= self.max
    }

    open spec fn spec_sample(&self, now: u32) -> u32 {
        spec_range_map(
            self.envelope.spec_sample(now),
            T::max_int(),
            self.min as int,
            self.max as int,
        ) as u32
    }

    fn sample(&self, now: u32) -> (r: u32) {
        range_map(self, now)
    }
}

} // verus!

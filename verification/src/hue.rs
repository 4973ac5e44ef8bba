//! Hue parameters: constants, steady rotation, and oscillation between two
//! hues. Hue lives on the circular `0` to `255` scale, so arithmetic wraps
//! instead of clamping.

use vstd::prelude::*;
use crate::math::{elapsed_since, sat_add_int, sat_sub_int};
use crate::traits::HueParameter;

verus! {

/// A fixed hue.
pub struct StaticHue {
    pub hue_normalized: u8,
}

impl StaticHue {
    /// The hue `degrees / 360` of the way around the circle, on the
    /// `0` to `255` scale.
    pub fn from_degrees(degrees: u16) -> (r: StaticHue)
        requires
            degrees <= 360,
        ensures
            r.spec_hue() == (degrees as int) * 255 / 360,
    {
        StaticHue { hue_normalized: ((degrees as u32) * 255 / 360) as u8 }
    }

    /// A hue given directly on the `0` to `255` scale.
    pub fn from_normalized(value: u8) -> (r: StaticHue)
        ensures
            r.spec_hue() == value as int,
    {
        StaticHue { hue_normalized: value }
    }

    /// The stored hue.
    pub open spec fn spec_hue(&self) -> int {
        self.hue_normalized as int
    }
}

impl HueParameter for StaticHue {
    open spec fn wf(&self) -> bool {
        true
    }

    open spec fn spec_sample(&self, now: u32) -> u8 {
        self.hue_normalized
    }

    fn sample(&self, now: u32) -> (r: u8) {
        self.hue_normalized
    }
}

/// A hue that advances at a constant rate, given in thousandths of a degree
/// per millisecond, wrapping around the circle.
pub struct RotatingHue {
    pub start_time: u32,
    pub millidegrees_per_ms: u32,
}

impl HueParameter for RotatingHue {
    open spec fn wf(&self) -> bool {
        true
    }

    open spec fn spec_sample(&self, now: u32) -> u8 {
        let elapsed = sat_sub_int(now as int, self.start_time as int);
        let degrees = (elapsed * self.millidegrees_per_ms as int / 1000) % 360;
        (degrees * 255 / 360) as u8
    }

    fn sample(&self, now: u32) -> (r: u8) {
        let elapsed = elapsed_since(now, self.start_time);
        proof {
            assert((elapsed as int) * (self.millidegrees_per_ms as int) <= (u32::MAX as int) * (
            u32::MAX as int)) by (nonlinear_arith)
                requires
                    elapsed <= u32::MAX,
                    self.millidegrees_per_ms <= u32::MAX,
            ;
            assert((elapsed as int) * (self.millidegrees_per_ms as int) >= 0) by (nonlinear_arith)
                requires
                    elapsed >= 0,
                    self.millidegrees_per_ms >= 0,
            ;
        }
        let degrees = ((elapsed as u64) * (self.millidegrees_per_ms as u64) / 1000) % 360;
        ((degrees * 255 / 360) as u32) as u8
    }
}

/// A hue that sweeps back and forth between `hue1` and `hue2` along a
/// triangle wave of the given period.
pub struct HueOscillate {
    pub start_time: u32,
    pub period: u32,
    pub hue1: u8,
    pub hue2: u8,
}

impl HueOscillate {
    /// The triangle-wave interpolation between the two hues at a phase
    /// `doubled / (2 * period)` of the way through a cycle.
    pub open spec fn spec_wave(&self, doubled: int) -> int {
        if doubled < self.period as int {
            let progress = doubled * 255 / (self.period as int);
            let range = sat_sub_int(self.hue2 as int, self.hue1 as int);
            sat_add_int(self.hue1 as int, progress * range / 255, 255)
        } else {
            let progress = (doubled - self.period as int) * 255 / (self.period as int);
            let range = sat_sub_int(self.hue1 as int, self.hue2 as int);
            sat_add_int(self.hue2 as int, progress * range / 255, 255)
        }
    }
}

impl HueParameter for HueOscillate {
    open spec fn wf(&self) -> bool {
        self.period > 0
    }

    open spec fn spec_sample(&self, now: u32) -> u8 {
        let elapsed = sat_sub_int(now as int, self.start_time as int);
        self.spec_wave((elapsed % (self.period as int)) * 2) as u8
    }

    fn sample(&self, now: u32) -> (r: u8) {
        let elapsed = elapsed_since(now, self.start_time);
        let in_cycle = (elapsed % self.period) as u64;
        let doubled = in_cycle * 2;
        let period64 = self.period as u64;
        if doubled < period64 {
            proof {
                lemma_wave_progress(doubled as int, self.period as int);
            }
            let progress = ((doubled * 255) / period64) as u8;
            let range = if self.hue2 >= self.hue1 {
                self.hue2 - self.hue1
            } else {
                0
            };
            proof {
                lemma_hue_step_bound(progress as int, range as int);
            }
            let step = ((progress as u16 * range as u16) / 255) as u8;
            if self.hue1 as u16 + step as u16 > 255 {
                255
            } else {
                self.hue1 + step
            }
        } else {
            let descending = doubled - period64;
            proof {
                lemma_wave_progress(descending as int, self.period as int);
            }
            let progress = ((descending * 255) / period64) as u8;
            let range = if self.hue1 >= self.hue2 {
                self.hue1 - self.hue2
            } else {
                0
            };
            proof {
                lemma_hue_step_bound(progress as int, range as int);
            }
            let step = ((progress as u16 * range as u16) / 255) as u8;
            if self.hue2 as u16 + step as u16 > 255 {
                255
            } else {
                self.hue2 + step
            }
        }
    }
}

/// A phase less than one period maps to a progress fraction within the hue
/// scale.
proof fn lemma_wave_progress(phase: int, period: int)
    requires
        0 <= phase < period,
    ensures
        0 <= phase * 255 / period <= 255,
{
    assert(phase * 255 <= period * 255) by (nonlinear_arith)
        requires
            phase <= period,
    ;
    assert(phase * 255 / period <= period * 255 / period) by (nonlinear_arith)
        requires
            period > 0,
            phase * 255 <= period * 255,
    ;
    assert(period * 255 / period == 255) by (nonlinear_arith)
        requires
            period > 0,
    ;
    assert(phase * 255 / period >= 0) by (nonlinear_arith)
        requires
            phase >= 0,
            period > 0,
    ;
}

/// A progress fraction times a hue range, divided back, stays within the
/// range.
proof fn lemma_hue_step_bound(progress: int, range: int)
    requires
        0 <= progress <= 255,
        0 <= range <= 255,
    ensures
        0 <= progress * range / 255 <= range,
{
    assert(progress * range <= 255 * range) by (nonlinear_arith)
        requires
            progress <= 255,
            range >= 0,
    ;
    assert(progress * range / 255 <= 255 * range / 255) by (nonlinear_arith)
        requires
            progress * range <= 255 * range,
    ;
    assert(255 * range / 255 == range) by (nonlinear_arith);
    assert(progress * range >= 0) by (nonlinear_arith)
        requires
            progress >= 0,
            range >= 0,
    ;
}

} // verus!

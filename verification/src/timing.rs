//! The primitive waveform envelopes: pure functions of elapsed time.

use vstd::prelude::*;
use crate::math::{elapsed_since, mul_div_int, progress_int, sat_sub_int};
use crate::traits::{Envelope, EnvelopeValue};

verus! {

/// One period of `(sin(2*pi*phase) + 1) / 2` sampled at 256 points and
/// quantized to `[0, 255]`; the table that replaces runtime trigonometry.
pub const SINE_LUT: [u8; 256] = [
    128, 131, 134, 137, 140, 143, 146, 149, 152, 155, 158, 162, 165, 167, 170, 173, 176, 179, 182,
    185, 188, 190, 193, 196, 198, 201, 203, 206, 208, 211, 213, 215, 218, 220, 222, 224, 226, 228,
    230, 232, 234, 235, 237, 238, 240, 241, 243, 244, 245, 246, 248, 249, 250, 250, 251, 252, 253,
    253, 254, 254, 254, 255, 255, 255, 255, 255, 255, 255, 254, 254, 254, 253, 253, 252, 251, 250,
    250, 249, 248, 246, 245, 244, 243, 241, 240, 238, 237, 235, 234, 232, 230, 228, 226, 224, 222,
    220, 218, 215, 213, 211, 208, 206, 203, 201, 198, 196, 193, 190, 188, 185, 182, 179, 176, 173,
    170, 167, 165, 162, 158, 155, 152, 149, 146, 143, 140, 137, 134, 131, 128, 124, 121, 118, 115,
    112, 109, 106, 103, 100, 97, 93, 90, 88, 85, 82, 79, 76, 73, 70, 67, 65, 62, 59, 57, 54, 52,
    49, 47, 44, 42, 40, 37, 35, 33, 31, 29, 27, 25, 23, 21, 20, 18, 17, 15, 14, 12, 11, 10, 9, 7,
    6, 5, 5, 4, 3, 2, 2, 1, 1, 1, 0, 0, 0, 0, 0, 0, 0, 1, 1, 1, 2, 2, 3, 4, 5, 5, 6, 7, 9, 10, 11,
    12, 14, 15, 17, 18, 20, 21, 23, 25, 27, 29, 31, 33, 35, 37, 40, 42, 44, 47, 49, 52, 54, 57, 59,
    62, 65, 67, 70, 73, 76, 79, 82, 85, 88, 90, 93, 97, 100, 103, 106, 109, 112, 115, 118, 121,
    124,
];

/// An envelope that always samples to the domain's representation of one
/// unit and never dies.
pub struct Constant;

impl<T: EnvelopeValue> Envelope<T> for Constant {
    open spec fn wf(&self) -> bool {
        true
    }

    open spec fn spec_sample(&self, now: u32) -> int {
        1
    }

    open spec fn spec_alive(&self, now: u32) -> bool {
        true
    }

    fn sample(&self, now: u32) -> (r: T) {
        proof {
            T::lemma_max_positive();
        }
        T::one()
    }

    fn is_alive(&self, now: u32) -> (r: bool) {
        true
    }
}

/// A linear ramp from zero to the domain maximum over `duration`
/// milliseconds, saturating at the maximum afterwards. `inverted` flips the
/// ramp: maximum down to zero, saturating at zero.
pub struct Fade {
    pub start_time: u32,
    pub duration: u32,
    pub inverted: bool,
}

impl<T: EnvelopeValue> Envelope<T> for Fade {
    open spec fn wf(&self) -> bool {
        true
    }

    open spec fn spec_sample(&self, now: u32) -> int {
        let elapsed = sat_sub_int(now as int, self.start_time as int);
        let up = if elapsed >= self.duration as int {
            T::max_int()
        } else {
            progress_int(elapsed, self.duration as int, T::max_int())
        };
        if self.inverted {
            T::max_int() - up
        } else {
            up
        }
    }

    open spec fn spec_alive(&self, now: u32) -> bool {
        (now as int) < self.start_time as int + self.duration as int
    }

    fn sample(&self, now: u32) -> (r: T) {
        let elapsed = elapsed_since(now, self.start_time);
        let r = if elapsed >= self.duration {
            if self.inverted {
                T::zero()
            } else {
                T::max_value()
            }
        } else {
            let progress = T::from_progress(elapsed, self.duration);
            proof {
                progress.lemma_in_range();
            }
            if self.inverted {
                T::max_value().saturating_sub(progress)
            } else {
                progress
            }
        };
        proof {
            r.lemma_in_range();
        }
        r
    }

    fn is_alive(&self, now: u32) -> (r: bool) {
        (now as u64) < self.start_time as u64 + self.duration as u64
    }
}

/// A symmetric ramp up and back down once per `period` milliseconds,
/// always alive.
pub struct Triangle {
    pub start_time: u32,
    pub period: u32,
}

impl<T: EnvelopeValue> Envelope<T> for Triangle {
    open spec fn wf(&self) -> bool {
        self.period > 0
    }

    open spec fn spec_sample(&self, now: u32) -> int {
        let elapsed = sat_sub_int(now as int, self.start_time as int);
        let in_cycle = elapsed % (self.period as int);
        let doubled = in_cycle * 2;
        if doubled < self.period as int {
            progress_int(doubled, self.period as int, T::max_int())
        } else {
            T::max_int() - progress_int(doubled - self.period as int, self.period as int, T::max_int())
        }
    }

    open spec fn spec_alive(&self, now: u32) -> bool {
        true
    }

    fn sample(&self, now: u32) -> (r: T) {
        let elapsed = elapsed_since(now, self.start_time);
        let in_cycle = elapsed % self.period;
        let doubled = (in_cycle as u64) * 2;
        let r = if doubled < self.period as u64 {
            T::from_progress(doubled as u32, self.period)
        } else {
            let descending = (doubled - self.period as u64) as u32;
            let progress = T::from_progress(descending, self.period);
            proof {
                progress.lemma_in_range();
            }
            T::max_value().saturating_sub(progress)
        };
        proof {
            r.lemma_in_range();
        }
        r
    }

    fn is_alive(&self, now: u32) -> (r: bool) {
        true
    }
}

/// One period of a sine wave mapped into the value domain through
/// [`SINE_LUT`], always alive.
pub struct Sine {
    pub start_time: u32,
    pub period: u32,
}

impl<T: EnvelopeValue> Envelope<T> for Sine {
    open spec fn wf(&self) -> bool {
        self.period > 0
    }

    open spec fn spec_sample(&self, now: u32) -> int {
        let elapsed = sat_sub_int(now as int, self.start_time as int);
        let in_cycle = elapsed % (self.period as int);
        let phase = in_cycle * 256 / (self.period as int);
        progress_int(SINE_LUT[phase] as int, 255, T::max_int())
    }

    open spec fn spec_alive(&self, now: u32) -> bool {
        true
    }

    fn sample(&self, now: u32) -> (r: T) {
        let elapsed = elapsed_since(now, self.start_time);
        let in_cycle = (elapsed % self.period) as u64;
        let phase = (in_cycle * 256 / (self.period as u64)) as usize;
        proof {
            assert((in_cycle as int) * 256 < (self.period as int) * 256) by (nonlinear_arith)
                requires
                    in_cycle < self.period,
            ;
            assert((in_cycle as int) * 256 / (self.period as int) < 256) by (nonlinear_arith)
                requires
                    self.period > 0,
                    (in_cycle as int) * 256 < (self.period as int) * 256,
            ;
        }
        let sine_u8 = SINE_LUT[phase];
        let r = T::from_progress(sine_u8 as u32, 255);
        proof {
            r.lemma_in_range();
        }
        r
    }

    fn is_alive(&self, now: u32) -> (r: bool) {
        true
    }
}

/// The domain maximum for the first `duty_cycle / 255` fraction of each
/// period and zero for the rest, always alive.
pub struct Square {
    pub start_time: u32,
    pub period: u32,
    /// Fraction of the period spent at the maximum, as a fraction of 255.
    pub duty_cycle: u8,
}

impl<T: EnvelopeValue> Envelope<T> for Square {
    open spec fn wf(&self) -> bool {
        self.period > 0
    }

    open spec fn spec_sample(&self, now: u32) -> int {
        let elapsed = sat_sub_int(now as int, self.start_time as int);
        let in_cycle = elapsed % (self.period as int);
        let threshold = (self.period as int) * (self.duty_cycle as int) / 255;
        if in_cycle < threshold {
            T::max_int()
        } else {
            0
        }
    }

    open spec fn spec_alive(&self, now: u32) -> bool {
        true
    }

    fn sample(&self, now: u32) -> (r: T) {
        let elapsed = elapsed_since(now, self.start_time);
        let in_cycle = (elapsed % self.period) as u64;
        proof {
            assert((self.period as int) * (self.duty_cycle as int) <= 0xffff_ffff * 255)
                by (nonlinear_arith)
                requires
                    self.period <= 0xffff_ffffu32,
                    self.duty_cycle <= 255,
            ;
        }
        let threshold = (self.period as u64) * (self.duty_cycle as u64) / 255;
        let r = if in_cycle < threshold {
            T::max_value()
        } else {
            T::zero()
        };
        proof {
            T::lemma_max_positive();
        }
        r
    }

    fn is_alive(&self, now: u32) -> (r: bool) {
        true
    }
}

/// A linear ramp from zero to the domain maximum that restarts at every
/// period boundary, always alive.
pub struct Sawtooth {
    pub start_time: u32,
    pub period: u32,
}

impl<T: EnvelopeValue> Envelope<T> for Sawtooth {
    open spec fn wf(&self) -> bool {
        self.period > 0
    }

    open spec fn spec_sample(&self, now: u32) -> int {
        let elapsed = sat_sub_int(now as int, self.start_time as int);
        progress_int(elapsed % (self.period as int), self.period as int, T::max_int())
    }

    open spec fn spec_alive(&self, now: u32) -> bool {
        true
    }

    fn sample(&self, now: u32) -> (r: T) {
        let elapsed = elapsed_since(now, self.start_time);
        let in_cycle = elapsed % self.period;
        let r = T::from_progress(in_cycle, self.period);
        proof {
            r.lemma_in_range();
        }
        r
    }

    fn is_alive(&self, now: u32) -> (r: bool) {
        true
    }
}

/// The four-phase attack-decay-sustain-release envelope. Each phase is
/// selected purely by comparing elapsed time against the cumulative phase
/// boundaries, so sampling is idempotent and order-independent. Dead once
/// the total duration has elapsed.
pub struct ADSR {
    pub start_time: u32,
    /// Ramp from zero to the maximum over this many milliseconds.
    pub attack: u32,
    /// Fall from the maximum to the sustain level over this many milliseconds.
    pub decay: u32,
    /// Level held during sustain, as a fraction of 255.
    pub sustain_level: u8,
    /// How long the sustain level is held.
    pub sustain_duration: u32,
    /// Fall from the sustain level to zero over this many milliseconds.
    pub release: u32,
}

impl ADSR {
    /// The sustain level mapped into the value domain.
    pub open spec fn spec_sustain<T: EnvelopeValue>(&self) -> int {
        progress_int(self.sustain_level as int, 255, T::max_int())
    }
}

impl<T: EnvelopeValue> Envelope<T> for ADSR {
    open spec fn wf(&self) -> bool {
        true
    }

    open spec fn spec_sample(&self, now: u32) -> int {
        let elapsed = sat_sub_int(now as int, self.start_time as int);
        let sustain = self.spec_sustain::<T>();
        if elapsed < self.attack as int {
            progress_int(elapsed, self.attack as int, T::max_int())
        } else if elapsed < self.attack as int + self.decay as int {
            let decay_progress = progress_int(elapsed - self.attack as int, self.decay as int, T::max_int());
            T::max_int() - mul_div_int(T::max_int() - sustain, decay_progress, T::max_int())
        } else if elapsed < self.attack as int + self.decay as int + self.sustain_duration as int {
            sustain
        } else {
            let release_elapsed = elapsed - (self.attack as int + self.decay as int + self.sustain_duration as int);
            if release_elapsed >= self.release as int {
                0
            } else {
                let remaining = T::max_int() - progress_int(release_elapsed, self.release as int, T::max_int());
                mul_div_int(sustain, remaining, T::max_int())
            }
        }
    }

    open spec fn spec_alive(&self, now: u32) -> bool {
        (now as int) < self.start_time as int + self.attack as int + self.decay as int
            + self.sustain_duration as int + self.release as int
    }

    fn sample(&self, now: u32) -> (r: T) {
        let elapsed = elapsed_since(now, self.start_time);
        let r = if elapsed < self.attack {
            T::from_progress(elapsed, self.attack)
        } else if (elapsed as u64) < self.attack as u64 + self.decay as u64 {
            let decay_elapsed = elapsed - self.attack;
            let decay_progress = T::from_progress(decay_elapsed, self.decay);
            let sustain_t = T::from_progress(self.sustain_level as u32, 255);
            proof {
                sustain_t.lemma_in_range();
            }
            let range = T::max_value().saturating_sub(sustain_t);
            let drop = range.saturating_mul_div(decay_progress);
            proof {
                drop.lemma_in_range();
            }
            T::max_value().saturating_sub(drop)
        } else if (elapsed as u64) < self.attack as u64 + self.decay as u64 + self.sustain_duration as u64 {
            T::from_progress(self.sustain_level as u32, 255)
        } else {
            let release_start = self.attack as u64 + self.decay as u64 + self.sustain_duration as u64;
            let release_elapsed = (elapsed as u64 - release_start) as u32;
            if release_elapsed >= self.release {
                T::zero()
            } else {
                let release_progress = T::from_progress(release_elapsed, self.release);
                proof {
                    release_progress.lemma_in_range();
                }
                let sustain_t = T::from_progress(self.sustain_level as u32, 255);
                let remaining = T::max_value().saturating_sub(release_progress);
                sustain_t.saturating_mul_div(remaining)
            }
        };
        proof {
            r.lemma_in_range();
        }
        r
    }

    fn is_alive(&self, now: u32) -> (r: bool) {
        (now as u64) < self.start_time as u64 + self.attack as u64 + self.decay as u64
            + self.sustain_duration as u64 + self.release as u64
    }
}

} // verus!

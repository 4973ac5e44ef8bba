//! Lifetime and utility wrappers around envelopes.

use vstd::prelude::*;
use crate::math::{elapsed_since, progress_int, sat_add_int, sat_sub_int};
use crate::traits::{Envelope, EnvelopeValue};

verus! {

/// An envelope that samples as its inner envelope but is forced dead once
/// `duration` milliseconds have passed, whatever the inner envelope says.
pub struct TimeLimited<E> {
    pub inner: E,
    pub start_time: u32,
    pub duration: u32,
}

impl<E, T> Envelope<T> for TimeLimited<E> where E: Envelope<T>, T: EnvelopeValue {
    open spec fn wf(&self) -> bool {
        self.inner.wf()
    }

    open spec fn spec_sample(&self, now: u32) -> int {
        self.inner.spec_sample(now)
    }

    open spec fn spec_alive(&self, now: u32) -> bool {
        (now as int) < self.start_time as int + self.duration as int && self.inner.spec_alive(now)
    }

    fn sample(&self, now: u32) -> (r: T) {
        self.inner.sample(now)
    }

    fn is_alive(&self, now: u32) -> (r: bool) {
        (now as u64) < self.start_time as u64 + self.duration as u64 && self.inner.is_alive(now)
    }
}

/// An envelope that samples as its inner envelope but is forced dead after
/// `max_loops` full periods have elapsed.
pub struct LoopCount<E> {
    pub inner: E,
    pub start_time: u32,
    pub period: u32,
    pub max_loops: u32,
}

impl<E, T> Envelope<T> for LoopCount<E> where E: Envelope<T>, T: EnvelopeValue {
    open spec fn wf(&self) -> bool {
        self.inner.wf() && self.period > 0
    }

    open spec fn spec_sample(&self, now: u32) -> int {
        self.inner.spec_sample(now)
    }

    open spec fn spec_alive(&self, now: u32) -> bool {
        sat_sub_int(now as int, self.start_time as int) / (self.period as int)
            < self.max_loops as int && self.inner.spec_alive(now)
    }

    fn sample(&self, now: u32) -> (r: T) {
        self.inner.sample(now)
    }

    fn is_alive(&self, now: u32) -> (r: bool) {
        let elapsed = elapsed_since(now, self.start_time);
        let loops_completed = elapsed / self.period;
        loops_completed < self.max_loops && self.inner.is_alive(now)
    }
}

/// 256 samples of the exponential decay curve `exp(-5 t)` for `t` in
/// `[0, 1]`, quantized to `[0, 255]`; the table that replaces a runtime
/// `exp` call in [`Pulse`].
pub const DECAY_LUT: [u8; 256] = [
    255, 250, 245, 240, 235, 230, 226, 221, 217, 212, 208, 204, 200, 196, 192, 188, 184, 181, 177,
    174, 170, 167, 163, 160, 157, 154, 151, 148, 145, 142, 139, 136, 134, 131, 128, 126, 123, 121,
    118, 116, 114, 111, 109, 107, 105, 103, 101, 99, 97, 95, 93, 91, 89, 87, 86, 84, 82, 81, 79,
    77, 76, 74, 73, 71, 70, 68, 67, 65, 64, 63, 61, 60, 59, 58, 56, 55, 54, 53, 52, 51, 50, 49, 48,
    47, 46, 45, 44, 43, 42, 41, 40, 39, 38, 37, 37, 36, 35, 34, 33, 33, 32, 31, 30, 30, 29, 28, 28,
    27, 26, 26, 25, 24, 24, 23, 23, 22, 22, 21, 21, 20, 20, 19, 19, 18, 18, 17, 17, 16, 16, 15, 15,
    15, 14, 14, 13, 13, 13, 12, 12, 12, 11, 11, 11, 10, 10, 10, 9, 9, 9, 9, 8, 8, 8, 8, 7, 7, 7, 7,
    7, 6, 6, 6, 6, 6, 5, 5, 5, 5, 5, 5, 4, 4, 4, 4, 4, 4, 4, 3, 3, 3, 3, 3, 3, 3, 3, 3, 2, 2, 2, 2,
    2, 2, 2, 2, 2, 2, 2, 1, 1, 1, 1, 1, 1, 1, 1, 1, 1, 1, 1, 1, 1, 1, 1, 1, 1, 1, 0, 0, 0, 0, 0, 0,
    0, 0, 0, 0, 0, 0, 0, 0, 0, 0, 0, 0, 0, 0, 0, 0, 0, 0, 0, 0, 0, 0, 0, 0, 0, 0, 0, 0, 0, 0, 0, 0,
    0, 0,
];

/// A linear attack to the domain maximum followed by a table-driven
/// exponential decay to zero; dead once attack and decay have elapsed.
pub struct Pulse {
    pub start_time: u32,
    pub attack: u32,
    pub decay: u32,
}

impl Pulse {
    /// The decay-table index for a point `decay_elapsed` milliseconds into
    /// the decay phase, capped at the last entry.
    pub open spec fn spec_decay_index(&self, decay_elapsed: int) -> int {
        let i = decay_elapsed * 256 / (self.decay as int);
        if i <= 255 {
            i
        } else {
            255
        }
    }
}

impl<T: EnvelopeValue> Envelope<T> for Pulse {
    open spec fn wf(&self) -> bool {
        true
    }

    open spec fn spec_sample(&self, now: u32) -> int {
        let elapsed = sat_sub_int(now as int, self.start_time as int);
        if elapsed < self.attack as int {
            progress_int(elapsed, self.attack as int, T::max_int())
        } else if elapsed < self.attack as int + self.decay as int {
            let idx = self.spec_decay_index(elapsed - self.attack as int);
            progress_int(DECAY_LUT[idx] as int, 255, T::max_int())
        } else {
            0
        }
    }

    open spec fn spec_alive(&self, now: u32) -> bool {
        (now as int) < self.start_time as int + self.attack as int + self.decay as int
    }

    fn sample(&self, now: u32) -> (r: T) {
        let elapsed = elapsed_since(now, self.start_time);
        let r = if elapsed < self.attack {
            T::from_progress(elapsed, self.attack)
        } else if (elapsed as u64) < self.attack as u64 + self.decay as u64 {
            let decay_elapsed = elapsed - self.attack;
            let wide = (decay_elapsed as u64) * 256 / (self.decay as u64);
            let idx: usize = if wide <= 255 {
                wide as usize
            } else {
                255
            };
            proof {
                assert((decay_elapsed as int) * 256 / (self.decay as int) >= 0)
                    by (nonlinear_arith)
                    requires
                        self.decay > 0,
                ;
            }
            let decay_value = DECAY_LUT[idx];
            T::from_progress(decay_value as u32, 255)
        } else {
            T::zero()
        };
        proof {
            r.lemma_in_range();
        }
        r
    }

    fn is_alive(&self, now: u32) -> (r: bool) {
        (now as u64) < self.start_time as u64 + self.attack as u64 + self.decay as u64
    }
}

/// A position envelope obtained by numerically integrating a velocity
/// envelope: the inner envelope is sampled every `dt_ms` milliseconds from
/// `start_time`, each sample is scaled into a position increment through
/// `velocity_scale`, and the accumulated position wraps around the domain
/// maximum. Sampling cost grows with elapsed time, so long-running callers
/// must rebase `start_time` periodically.
pub struct VelocityIntegral<V> {
    pub start_time: u32,
    pub velocity_envelope: V,
    pub initial_position: u32,
    pub dt_ms: u32,
    pub velocity_scale: u32,
}

/// The position increment that the velocity sample of step `i` contributes
/// to a [`VelocityIntegral`].
pub open spec fn vi_delta<V: Envelope<T>, T: EnvelopeValue>(
    vi: &VelocityIntegral<V>,
    i: int,
) -> int {
    vi.velocity_envelope.spec_sample((vi.start_time + i * vi.dt_ms) as u32)
        * (vi.velocity_scale as int) / T::max_int()
}

/// The accumulated position of a [`VelocityIntegral`] after `steps`
/// integration steps, saturating at the greatest `u32`.
pub open spec fn vi_position<V: Envelope<T>, T: EnvelopeValue>(
    vi: &VelocityIntegral<V>,
    steps: nat,
) -> int
    decreases steps,
{
    if steps == 0 {
        vi.initial_position as int
    } else {
        sat_add_int(
            vi_position::<V, T>(vi, (steps - 1) as nat),
            vi_delta::<V, T>(vi, steps - 1),
            u32::MAX as int,
        )
    }
}

/// How many integration steps a [`VelocityIntegral`] sample at `now` takes:
/// one full step per `dt_ms` of elapsed time, and at least one.
pub open spec fn vi_steps<V>(vi: &VelocityIntegral<V>, now: u32) -> nat {
    let s = sat_sub_int(now as int, vi.start_time as int) / (vi.dt_ms as int);
    if s >= 1 {
        s as nat
    } else {
        1
    }
}

impl<V, T> Envelope<T> for VelocityIntegral<V> where V: Envelope<T>, T: EnvelopeValue {
    open spec fn wf(&self) -> bool {
        self.velocity_envelope.wf() && self.dt_ms > 0
    }

    open spec fn spec_sample(&self, now: u32) -> int {
        vi_position::<V, T>(self, vi_steps(self, now)) % T::max_int()
    }

    open spec fn spec_alive(&self, now: u32) -> bool {
        self.velocity_envelope.spec_alive(now)
    }

    fn sample(&self, now: u32) -> (r: T) {
        let elapsed = elapsed_since(now, self.start_time);
        let raw_steps = elapsed / self.dt_ms;
        let steps: u32 = if raw_steps >= 1 {
            raw_steps
        } else {
            1
        };
        assert(steps as nat == vi_steps(self, now));
        let max_u32 = T::max_value().to_u32();
        proof {
            T::lemma_max_positive();
        }
        let mut position: u32 = self.initial_position;
        let mut i: u32 = 0;
        while i < steps
            invariant
                self.wf(),
                i <= steps,
                elapsed == sat_sub_int(now as int, self.start_time as int),
                self.start_time as int + elapsed as int <= u32::MAX as int,
                steps as nat == vi_steps(self, now),
                steps == elapsed / self.dt_ms || steps == 1,
                position as int == vi_position::<V, T>(self, i as nat),
                max_u32 as int == T::max_int(),
                max_u32 >= 1,
            decreases steps - i,
        {
            proof {
                if steps == elapsed / self.dt_ms {
                    assert((i as int) * (self.dt_ms as int) <= (steps as int - 1) * (self.dt_ms
                        as int)) by (nonlinear_arith)
                        requires
                            i < steps,
                            self.dt_ms > 0,
                    ;
                    assert((steps as int) * (self.dt_ms as int) <= elapsed as int)
                        by (nonlinear_arith)
                        requires
                            self.dt_ms > 0,
                            steps as int == elapsed as int / (self.dt_ms as int),
                            elapsed >= 0,
                    ;
                    assert((steps as int - 1) * (self.dt_ms as int) <= (steps as int) * (self.dt_ms
                        as int)) by (nonlinear_arith)
                        requires
                            self.dt_ms > 0,
                    ;
                } else {
                    assert(i == 0);
                }
            }
            let t = self.start_time + i * self.dt_ms;
            let velocity = self.velocity_envelope.sample(t);
            let velocity_u32 = velocity.to_u32();
            proof {
                assert((velocity_u32 as int) * (self.velocity_scale as int) <= (u32::MAX as int)
                    * (u32::MAX as int)) by (nonlinear_arith)
                    requires
                        velocity_u32 <= u32::MAX,
                        self.velocity_scale <= u32::MAX,
                ;
            }
            let delta_wide = (velocity_u32 as u64) * (self.velocity_scale as u64) / (max_u32
                as u64);
            proof {
                velocity.lemma_in_range();
                assert((velocity_u32 as int) * (self.velocity_scale as int) / (max_u32 as int)
                    <= self.velocity_scale as int) by (nonlinear_arith)
                    requires
                        max_u32 >= 1,
                        0 <= velocity_u32 <= max_u32,
                        self.velocity_scale >= 0,
                ;
                assert((velocity_u32 as int) * (self.velocity_scale as int) / (max_u32 as int)
                    >= 0) by (nonlinear_arith)
                    requires
                        max_u32 >= 1,
                        velocity_u32 >= 0,
                        self.velocity_scale >= 0,
                ;
            }
            let delta = delta_wide as u32;
            position = if position as u64 + delta as u64 > u32::MAX as u64 {
                u32::MAX
            } else {
                position + delta
            };
            i = i + 1;
        }
        let wrapped = position % max_u32;
        let r = T::from_progress(wrapped, max_u32);
        proof {
            assert(wrapped as int == vi_position::<V, T>(self, vi_steps(self, now)) % T::max_int());
            assert(progress_int(wrapped as int, max_u32 as int, T::max_int()) == wrapped as int)
                by (nonlinear_arith)
                requires
                    max_u32 >= 1,
                    max_u32 as int == T::max_int(),
                    0 <= wrapped < max_u32,
            ;
            r.lemma_in_range();
        }
        r
    }

    fn is_alive(&self, now: u32) -> (r: bool) {
        self.velocity_envelope.is_alive(now)
    }
}

} // verus!

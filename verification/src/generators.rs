//! Generators: effects that write colors into a pixel buffer as a function
//! of time. Each generator owns its parameters and writes only the index
//! range it affects; a generator is alive until its configured duration has
//! elapsed.

use vstd::prelude::*;
use crate::math::{elapsed_since, sat_sub_int};
use crate::pixel::{lemma_channel_product_bound, spec_add, spec_from_hsv, Pixel};
use crate::traits::{Generator, HueParameter, Parameter};

verus! {

/// Fills the whole buffer with one HSV-derived color.
pub struct SolidColor<Intensity, Hue, Sat> {
    pub start_time: u32,
    pub duration: u32,
    pub intensity: Intensity,
    pub hue: Hue,
    pub saturation: Sat,
}

impl<Intensity, Hue, Sat> Generator for SolidColor<Intensity, Hue, Sat> where
    Intensity: Parameter<u8>,
    Hue: HueParameter,
    Sat: Parameter<u8>,
 {
    open spec fn wf(&self) -> bool {
        self.intensity.wf() && self.hue.wf() && self.saturation.wf()
    }

    open spec fn spec_alive(&self, now: u32) -> bool {
        (now as int) < self.start_time as int + self.duration as int
    }

    open spec fn spec_buffer(&self, buffer: Seq<Pixel>, now: u32) -> Seq<Pixel> {
        Seq::new(
            buffer.len(),
            |i: int|
                spec_from_hsv(
                    self.hue.spec_sample(now) as int,
                    self.saturation.spec_sample(now) as int,
                    self.intensity.spec_sample(now) as int,
                ),
        )
    }

    open spec fn spec_step(&self, buffer: Seq<Pixel>, now: u32) -> Self {
        *self
    }

    fn generate(&mut self, buffer: &mut Vec<Pixel>, now: u32) {
        let intensity = self.intensity.sample(now);
        let hue = self.hue.sample(now);
        let saturation = self.saturation.sample(now);
        let color = Pixel::from_hsv(hue, saturation, intensity);
        let len = buffer.len();
        let mut i: usize = 0;
        while i < len
            invariant
                i <= len,
                buffer@.len() == len,
                color == spec_from_hsv(
                    self.hue.spec_sample(now) as int,
                    self.saturation.spec_sample(now) as int,
                    self.intensity.spec_sample(now) as int,
                ),
                forall|j: int| 0 <= j < i ==> buffer@[j] == color,
                forall|j: int| i <= j < len ==> buffer@[j] == old(buffer)@[j],
            decreases len - i,
        {
            buffer[i] = color;
            i = i + 1;
        }
        proof {
            assert(buffer@ =~= old(self).spec_buffer(old(buffer)@, now));
        }
    }

    fn is_alive(&self, now: u32) -> (r: bool) {
        (now as u64) < self.start_time as u64 + self.duration as u64
    }
}

/// The hue an index of a gradient receives: a linear interpolation from
/// `hue_start` at index zero to `hue_end` at the last index, taking the
/// shorter, wrapping path around the hue circle when `hue_end` lies below
/// `hue_start`.
pub open spec fn spec_gradient_hue(hue_start: int, hue_end: int, t: int) -> int {
    if hue_end >= hue_start {
        hue_start + (hue_end - hue_start) * t / 255
    } else {
        (hue_start + (256 + hue_end - hue_start) * t / 255) % 256
    }
}

/// The interpolation position of index `i` in a buffer of length `len`:
/// `i / (len - 1)` of the way along, on the `0` to `255` scale.
pub open spec fn spec_gradient_t(i: int, len: int) -> int {
    let denom = if len - 1 >= 1 {
        len - 1
    } else {
        1
    };
    i * 255 / denom
}

/// Interpolates hue across the buffer, from `hue_start` at the first pixel
/// to `hue_end` at the last, wrapping around the hue circle along the
/// shorter path.
pub struct Gradient<Intensity, Hue1, Hue2, Sat> {
    pub start_time: u32,
    pub duration: u32,
    pub intensity: Intensity,
    pub hue_start: Hue1,
    pub hue_end: Hue2,
    pub saturation: Sat,
}

impl<Intensity, Hue1, Hue2, Sat> Generator for Gradient<Intensity, Hue1, Hue2, Sat> where
    Intensity: Parameter<u8>,
    Hue1: HueParameter,
    Hue2: HueParameter,
    Sat: Parameter<u8>,
 {
    open spec fn wf(&self) -> bool {
        self.intensity.wf() && self.hue_start.wf() && self.hue_end.wf() && self.saturation.wf()
    }

    open spec fn spec_alive(&self, now: u32) -> bool {
        (now as int) < self.start_time as int + self.duration as int
    }

    open spec fn spec_buffer(&self, buffer: Seq<Pixel>, now: u32) -> Seq<Pixel> {
        Seq::new(
            buffer.len(),
            |i: int|
                spec_from_hsv(
                    spec_gradient_hue(
                        self.hue_start.spec_sample(now) as int,
                        self.hue_end.spec_sample(now) as int,
                        spec_gradient_t(i, buffer.len() as int),
                    ),
                    self.saturation.spec_sample(now) as int,
                    self.intensity.spec_sample(now) as int,
                ),
        )
    }

    open spec fn spec_step(&self, buffer: Seq<Pixel>, now: u32) -> Self {
        *self
    }

    fn generate(&mut self, buffer: &mut Vec<Pixel>, now: u32) {
        let intensity = self.intensity.sample(now);
        let hue_start = self.hue_start.sample(now);
        let hue_end = self.hue_end.sample(now);
        let saturation = self.saturation.sample(now);
        let len = buffer.len();
        let denom: usize = if len >= 2 {
            len - 1
        } else {
            1
        };
        let mut i: usize = 0;
        while i < len
            invariant
                i <= len,
                buffer@.len() == len,
                denom as int == (if len as int - 1 >= 1 {
                    len as int - 1
                } else {
                    1int
                }),
                hue_start == self.hue_start.spec_sample(now),
                hue_end == self.hue_end.spec_sample(now),
                saturation == self.saturation.spec_sample(now),
                intensity == self.intensity.spec_sample(now),
                forall|j: int|
                    0 <= j < i ==> buffer@[j] == spec_from_hsv(
                        spec_gradient_hue(
                            hue_start as int,
                            hue_end as int,
                            spec_gradient_t(j, len as int),
                        ),
                        saturation as int,
                        intensity as int,
                    ),
                forall|j: int| i <= j < len ==> buffer@[j] == old(buffer)@[j],
            decreases len - i,
        {
            proof {
                assert((i as int) * 255 <= (denom as int) * 255) by (nonlinear_arith)
                    requires
                        i <= denom,
                ;
                assert((i as int) * 255 / (denom as int) <= (denom as int) * 255 / (denom as int))
                    by (nonlinear_arith)
                    requires
                        denom >= 1,
                        (i as int) * 255 <= (denom as int) * 255,
                ;
                assert((denom as int) * 255 / (denom as int) == 255) by (nonlinear_arith)
                    requires
                        denom >= 1,
                ;
                assert((i as int) * 255 / (denom as int) >= 0) by (nonlinear_arith)
                    requires
                        denom >= 1,
                ;
            }
            let t = ((i as u128) * 255 / (denom as u128)) as u8;
            let hue: u8 = if hue_end >= hue_start {
                proof {
                    lemma_gradient_step(hue_end as int - hue_start as int, t as int);
                }
                hue_start + (((hue_end - hue_start) as u16 * t as u16) / 255) as u8
            } else {
                proof {
                    lemma_gradient_step(256 + hue_end as int - hue_start as int, t as int);
                }
                let span = 256 + hue_end as u16 - hue_start as u16;
                let step = (span * t as u16) / 255;
                ((hue_start as u16 + step) % 256) as u8
            };
            let color = Pixel::from_hsv(hue, saturation, intensity);
            buffer[i] = color;
            i = i + 1;
        }
        proof {
            assert(buffer@ =~= old(self).spec_buffer(old(buffer)@, now));
        }
    }

    fn is_alive(&self, now: u32) -> (r: bool) {
        (now as u64) < self.start_time as u64 + self.duration as u64
    }
}

/// A hue span scaled by a progress fraction of 255 stays within the span.
proof fn lemma_gradient_step(span: int, t: int)
    requires
        0 <= span <= 256,
        0 <= t <= 255,
    ensures
        0 <= span * t / 255 <= span,
{
    assert(span * t <= span * 255) by (nonlinear_arith)
        requires
            t <= 255,
            span >= 0,
    ;
    assert(span * t / 255 <= span * 255 / 255) by (nonlinear_arith)
        requires
            span * t <= span * 255,
    ;
    assert(span * 255 / 255 == span) by (nonlinear_arith);
    assert(span * t >= 0) by (nonlinear_arith)
        requires
            span >= 0,
            t >= 0,
    ;
}

/// Alternates between two hues every `stripe_width` pixels; a sampled width
/// below one pixel is clamped to one.
pub struct Stripes<Intensity, Hue1, Hue2, Sat, Width> {
    pub start_time: u32,
    pub duration: u32,
    pub intensity: Intensity,
    pub hue1: Hue1,
    pub hue2: Hue2,
    pub saturation: Sat,
    pub stripe_width: Width,
}

/// The clamp that keeps a sampled stripe width at one pixel or more.
pub open spec fn spec_stripe_width(sampled: int) -> int {
    if sampled >= 1 {
        sampled
    } else {
        1
    }
}

impl<Intensity, Hue1, Hue2, Sat, Width> Generator for Stripes<
    Intensity,
    Hue1,
    Hue2,
    Sat,
    Width,
> where
    Intensity: Parameter<u8>,
    Hue1: HueParameter,
    Hue2: HueParameter,
    Sat: Parameter<u8>,
    Width: Parameter<usize>,
 {
    open spec fn wf(&self) -> bool {
        self.intensity.wf() && self.hue1.wf() && self.hue2.wf() && self.saturation.wf()
            && self.stripe_width.wf()
    }

    open spec fn spec_alive(&self, now: u32) -> bool {
        (now as int) < self.start_time as int + self.duration as int
    }

    open spec fn spec_buffer(&self, buffer: Seq<Pixel>, now: u32) -> Seq<Pixel> {
        let width = spec_stripe_width(self.stripe_width.spec_sample(now) as int);
        Seq::new(
            buffer.len(),
            |i: int|
                spec_from_hsv(
                    if (i / width) % 2 == 0 {
                        self.hue1.spec_sample(now) as int
                    } else {
                        self.hue2.spec_sample(now) as int
                    },
                    self.saturation.spec_sample(now) as int,
                    self.intensity.spec_sample(now) as int,
                ),
        )
    }

    open spec fn spec_step(&self, buffer: Seq<Pixel>, now: u32) -> Self {
        *self
    }

    fn generate(&mut self, buffer: &mut Vec<Pixel>, now: u32) {
        let intensity = self.intensity.sample(now);
        let hue1 = self.hue1.sample(now);
        let hue2 = self.hue2.sample(now);
        let saturation = self.saturation.sample(now);
        let sampled = self.stripe_width.sample(now);
        let width: usize = if sampled >= 1 {
            sampled
        } else {
            1
        };
        let len = buffer.len();
        let mut i: usize = 0;
        while i < len
            invariant
                i <= len,
                buffer@.len() == len,
                width as int == spec_stripe_width(self.stripe_width.spec_sample(now) as int),
                width >= 1,
                hue1 == self.hue1.spec_sample(now),
                hue2 == self.hue2.spec_sample(now),
                saturation == self.saturation.spec_sample(now),
                intensity == self.intensity.spec_sample(now),
                forall|j: int|
                    0 <= j < i ==> buffer@[j] == spec_from_hsv(
                        if (j / width as int) % 2 == 0 {
                            hue1 as int
                        } else {
                            hue2 as int
                        },
                        saturation as int,
                        intensity as int,
                    ),
                forall|j: int| i <= j < len ==> buffer@[j] == old(buffer)@[j],
            decreases len - i,
        {
            let stripe_index = (i / width) % 2;
            let hue = if stripe_index == 0 {
                hue1
            } else {
                hue2
            };
            let color = Pixel::from_hsv(hue, saturation, intensity);
            buffer[i] = color;
            i = i + 1;
        }
        proof {
            assert(buffer@ =~= old(self).spec_buffer(old(buffer)@, now));
        }
    }

    fn is_alive(&self, now: u32) -> (r: bool) {
        (now as u64) < self.start_time as u64 + self.duration as u64
    }
}

/// The distance between two positions on the strip.
pub open spec fn dist_int(a: int, b: int) -> int {
    if a >= b {
        a - b
    } else {
        b - a
    }
}

/// The linear spatial falloff of the moving generators: full at the center,
/// zero from `width` pixels away.
pub open spec fn spec_falloff(dist: int, width: int) -> int {
    if dist >= width {
        0
    } else {
        (width - dist) * 255 / width
    }
}

/// One pixel of a moving generator's window: within `width` of the center
/// the falloff-scaled color is blended in by saturating addition, outside
/// the window the pixel is untouched.
pub open spec fn spec_window_blend(
    px: Pixel,
    dist: int,
    width: int,
    intensity: int,
    hue: int,
    saturation: int,
) -> Pixel {
    if dist <= width {
        spec_add(
            px,
            spec_from_hsv(hue, saturation, intensity * spec_falloff(dist, width) / 255),
        )
    } else {
        px
    }
}

/// The in-window case of [`spec_window_blend`].
fn window_blend(px: Pixel, dist: u8, width: u8, intensity: u8, hue: u8, saturation: u8) -> (r:
    Pixel)
    requires
        dist <= width,
    ensures
        r == spec_window_blend(
            px,
            dist as int,
            width as int,
            intensity as int,
            hue as int,
            saturation as int,
        ),
{
    let falloff: u8 = if dist >= width {
        0
    } else {
        proof {
            lemma_falloff_bound(dist as int, width as int);
        }
        (((width - dist) as u32 * 255) / width as u32) as u8
    };
    proof {
        lemma_channel_product_bound(intensity as int, falloff as int);
    }
    let scaled = ((intensity as u16 * falloff as u16) / 255) as u8;
    let color = Pixel::from_hsv(hue, saturation, scaled);
    px.add(color)
}

/// Within the window the falloff stays a fraction of 255.
proof fn lemma_falloff_bound(dist: int, width: int)
    requires
        0 <= dist < width,
    ensures
        0 <= (width - dist) * 255 / width <= 255,
{
    assert((width - dist) * 255 <= width * 255) by (nonlinear_arith)
        requires
            dist >= 0,
            width > 0,
    ;
    assert((width - dist) * 255 / width <= width * 255 / width) by (nonlinear_arith)
        requires
            width > 0,
            (width - dist) * 255 <= width * 255,
    ;
    assert(width * 255 / width == 255) by (nonlinear_arith)
        requires
            width > 0,
    ;
    assert((width - dist) * 255 >= 0) by (nonlinear_arith)
        requires
            dist < width,
    ;
    assert((width - dist) * 255 / width >= 0) by (nonlinear_arith)
        requires
            width > 0,
            (width - dist) * 255 >= 0,
    ;
}

/// A single moving peak with linear falloff over `width` pixels to either
/// side of `position`, blended by saturating addition into the existing
/// buffer contents; indices outside the buffer are skipped.
pub struct Chase<Pos, Width, Intensity, Hue, Sat> {
    pub start_time: u32,
    pub duration: u32,
    pub position: Pos,
    pub width: Width,
    pub intensity: Intensity,
    pub hue: Hue,
    pub saturation: Sat,
}

impl<Pos, Width, Intensity, Hue, Sat> Generator for Chase<Pos, Width, Intensity, Hue, Sat> where
    Pos: Parameter<u16>,
    Width: Parameter<u8>,
    Intensity: Parameter<u8>,
    Hue: HueParameter,
    Sat: Parameter<u8>,
 {
    open spec fn wf(&self) -> bool {
        self.position.wf() && self.width.wf() && self.intensity.wf() && self.hue.wf()
            && self.saturation.wf()
    }

    open spec fn spec_alive(&self, now: u32) -> bool {
        (now as int) < self.start_time as int + self.duration as int
    }

    open spec fn spec_buffer(&self, buffer: Seq<Pixel>, now: u32) -> Seq<Pixel> {
        Seq::new(
            buffer.len(),
            |i: int|
                spec_window_blend(
                    buffer[i],
                    dist_int(i, self.position.spec_sample(now) as int),
                    self.width.spec_sample(now) as int,
                    self.intensity.spec_sample(now) as int,
                    self.hue.spec_sample(now) as int,
                    self.saturation.spec_sample(now) as int,
                ),
        )
    }

    open spec fn spec_step(&self, buffer: Seq<Pixel>, now: u32) -> Self {
        *self
    }

    fn generate(&mut self, buffer: &mut Vec<Pixel>, now: u32) {
        let pos = self.position.sample(now);
        let width = self.width.sample(now);
        let intensity = self.intensity.sample(now);
        let hue = self.hue.sample(now);
        let saturation = self.saturation.sample(now);
        let len = buffer.len();
        let mut i: usize = 0;
        while i < len
            invariant
                i <= len,
                buffer@.len() == len,
                pos == self.position.spec_sample(now),
                width == self.width.spec_sample(now),
                intensity == self.intensity.spec_sample(now),
                hue == self.hue.spec_sample(now),
                saturation == self.saturation.spec_sample(now),
                forall|j: int|
                    0 <= j < i ==> buffer@[j] == spec_window_blend(
                        old(buffer)@[j],
                        dist_int(j, pos as int),
                        width as int,
                        intensity as int,
                        hue as int,
                        saturation as int,
                    ),
                forall|j: int| i <= j < len ==> buffer@[j] == old(buffer)@[j],
            decreases len - i,
        {
            let di: u64 = if i as u64 >= pos as u64 {
                i as u64 - pos as u64
            } else {
                pos as u64 - i as u64
            };
            if di <= width as u64 {
                let cur = buffer[i];
                buffer[i] = window_blend(cur, di as u8, width, intensity, hue, saturation);
            }
            i = i + 1;
        }
        proof {
            assert(buffer@ =~= old(self).spec_buffer(old(buffer)@, now));
        }
    }

    fn is_alive(&self, now: u32) -> (r: bool) {
        (now as u64) < self.start_time as u64 + self.duration as u64
    }
}

/// Two symmetric edges expanding away from a fixed center position, each
/// with the same falloff and additive blending as [`Chase`]; the edge
/// distance grows linearly with elapsed time at `spread_millipixels_per_ms`
/// thousandths of a pixel per millisecond. When the two windows overlap,
/// a pixel receives both contributions in turn.
pub struct Pulse<Width, Intensity, Hue, Sat> {
    pub start_time: u32,
    pub duration: u32,
    pub position: usize,
    /// Expansion speed, in thousandths of a pixel per millisecond.
    pub spread_millipixels_per_ms: u32,
    pub width: Width,
    pub intensity: Intensity,
    pub hue: Hue,
    pub saturation: Sat,
}

/// How far the edges of a [`Pulse`] have moved from its center after
/// `elapsed` milliseconds at `speed` thousandths of a pixel per millisecond.
pub open spec fn spec_spread_distance(elapsed: int, speed: int) -> int {
    elapsed * speed / 1000
}

impl<Width, Intensity, Hue, Sat> Generator for Pulse<Width, Intensity, Hue, Sat> where
    Width: Parameter<u8>,
    Intensity: Parameter<u8>,
    Hue: HueParameter,
    Sat: Parameter<u8>,
 {
    open spec fn wf(&self) -> bool {
        self.width.wf() && self.intensity.wf() && self.hue.wf() && self.saturation.wf()
    }

    open spec fn spec_alive(&self, now: u32) -> bool {
        (now as int) < self.start_time as int + self.duration as int
    }

    open spec fn spec_buffer(&self, buffer: Seq<Pixel>, now: u32) -> Seq<Pixel> {
        let distance = spec_spread_distance(
            sat_sub_int(now as int, self.start_time as int),
            self.spread_millipixels_per_ms as int,
        );
        let width = self.width.spec_sample(now) as int;
        let intensity = self.intensity.spec_sample(now) as int;
        let hue = self.hue.spec_sample(now) as int;
        let saturation = self.saturation.spec_sample(now) as int;
        Seq::new(
            buffer.len(),
            |i: int|
                spec_window_blend(
                    spec_window_blend(
                        buffer[i],
                        dist_int(i, self.position as int - distance),
                        width,
                        intensity,
                        hue,
                        saturation,
                    ),
                    dist_int(i, self.position as int + distance),
                    width,
                    intensity,
                    hue,
                    saturation,
                ),
        )
    }

    open spec fn spec_step(&self, buffer: Seq<Pixel>, now: u32) -> Self {
        *self
    }

    fn generate(&mut self, buffer: &mut Vec<Pixel>, now: u32) {
        let elapsed = elapsed_since(now, self.start_time);
        let width = self.width.sample(now);
        let intensity = self.intensity.sample(now);
        let hue = self.hue.sample(now);
        let saturation = self.saturation.sample(now);
        proof {
            assert((elapsed as int) * (self.spread_millipixels_per_ms as int) <= (u32::MAX
                as int) * (u32::MAX as int)) by (nonlinear_arith)
                requires
                    elapsed <= u32::MAX,
                    self.spread_millipixels_per_ms <= u32::MAX,
            ;
            assert((elapsed as int) * (self.spread_millipixels_per_ms as int) >= 0)
                by (nonlinear_arith)
                requires
                    elapsed >= 0,
                    self.spread_millipixels_per_ms >= 0,
            ;
        }
        let distance = (elapsed as u64) * (self.spread_millipixels_per_ms as u64) / 1000;
        let len = buffer.len();
        let mut i: usize = 0;
        while i < len
            invariant
                i <= len,
                buffer@.len() == len,
                distance as int == spec_spread_distance(
                    sat_sub_int(now as int, self.start_time as int),
                    self.spread_millipixels_per_ms as int,
                ),
                width == self.width.spec_sample(now),
                intensity == self.intensity.spec_sample(now),
                hue == self.hue.spec_sample(now),
                saturation == self.saturation.spec_sample(now),
                forall|j: int|
                    0 <= j < i ==> buffer@[j] == spec_window_blend(
                        spec_window_blend(
                            old(buffer)@[j],
                            dist_int(j, self.position as int - distance as int),
                            width as int,
                            intensity as int,
                            hue as int,
                            saturation as int,
                        ),
                        dist_int(j, self.position as int + distance as int),
                        width as int,
                        intensity as int,
                        hue as int,
                        saturation as int,
                    ),
                forall|j: int| i <= j < len ==> buffer@[j] == old(buffer)@[j],
            decreases len - i,
        {
            let shifted = i as u128 + distance as u128;
            let d1: u128 = if shifted >= self.position as u128 {
                shifted - self.position as u128
            } else {
                self.position as u128 - shifted
            };
            assert(d1 as int == dist_int(i as int, self.position as int - distance as int));
            let mut cur = buffer[i];
            if d1 <= width as u128 {
                cur = window_blend(cur, d1 as u8, width, intensity, hue, saturation);
            }
            let far_edge = self.position as u128 + distance as u128;
            let d2: u128 = if i as u128 >= far_edge {
                i as u128 - far_edge
            } else {
                far_edge - i as u128
            };
            assert(d2 as int == dist_int(i as int, self.position as int + distance as int));
            if d2 <= width as u128 {
                cur = window_blend(cur, d2 as u8, width, intensity, hue, saturation);
            }
            buffer[i] = cur;
            i = i + 1;
        }
        proof {
            assert(buffer@ =~= old(self).spec_buffer(old(buffer)@, now));
        }
    }

    fn is_alive(&self, now: u32) -> (r: bool) {
        (now as u64) < self.start_time as u64 + self.duration as u64
    }
}

} // verus!

//! Modifiers: in-place transforms over a pixel buffer, applied after
//! generation in builder-declared order.

use vstd::prelude::*;
use crate::pixel::{
    lemma_channel_product_bound,
    spec_adjust_saturation,
    spec_from_hsv,
    spec_gamma_correct,
    spec_lerp,
    spec_scale,
    spec_shift_hue,
    Pixel,
};
use crate::traits::{HueParameter, Modifier, Parameter};

verus! {

/// Scales every pixel by a sampled brightness factor (255 = full
/// brightness).
pub struct Brightness<Factor> {
    pub factor: Factor,
}

impl<Factor: Parameter<u8>> Modifier for Brightness<Factor> {
    open spec fn wf(&self) -> bool {
        self.factor.wf()
    }

    open spec fn spec_buffer(&self, buffer: Seq<Pixel>, now: u32) -> Seq<Pixel> {
        Seq::new(buffer.len(), |i: int| spec_scale(buffer[i], self.factor.spec_sample(now) as int))
    }

    open spec fn spec_step(&self, buffer: Seq<Pixel>, now: u32) -> Self {
        *self
    }

    fn modify(&mut self, buffer: &mut Vec<Pixel>, now: u32) {
        let factor = self.factor.sample(now);
        let len = buffer.len();
        let mut i: usize = 0;
        while i < len
            invariant
                i <= len,
                buffer@.len() == len,
                factor == self.factor.spec_sample(now),
                forall|j: int|
                    0 <= j < i ==> buffer@[j] == spec_scale(old(buffer)@[j], factor as int),
                forall|j: int| i <= j < len ==> buffer@[j] == old(buffer)@[j],
            decreases len - i,
        {
            let cur = buffer[i];
            buffer[i] = cur.scale(factor);
            i = i + 1;
        }
        proof {
            assert(buffer@ =~= old(self).spec_buffer(old(buffer)@, now));
        }
    }
}

/// Scales every pixel's saturation by a sampled factor (0 = grayscale,
/// 255 = saturation unchanged).
pub struct Saturation<Factor> {
    pub factor: Factor,
}

impl<Factor: Parameter<u8>> Modifier for Saturation<Factor> {
    open spec fn wf(&self) -> bool {
        self.factor.wf()
    }

    open spec fn spec_buffer(&self, buffer: Seq<Pixel>, now: u32) -> Seq<Pixel> {
        Seq::new(
            buffer.len(),
            |i: int| spec_adjust_saturation(buffer[i], self.factor.spec_sample(now) as int),
        )
    }

    open spec fn spec_step(&self, buffer: Seq<Pixel>, now: u32) -> Self {
        *self
    }

    fn modify(&mut self, buffer: &mut Vec<Pixel>, now: u32) {
        let factor = self.factor.sample(now);
        let len = buffer.len();
        let mut i: usize = 0;
        while i < len
            invariant
                i <= len,
                buffer@.len() == len,
                factor == self.factor.spec_sample(now),
                forall|j: int|
                    0 <= j < i ==> buffer@[j] == spec_adjust_saturation(
                        old(buffer)@[j],
                        factor as int,
                    ),
                forall|j: int| i <= j < len ==> buffer@[j] == old(buffer)@[j],
            decreases len - i,
        {
            let cur = buffer[i];
            buffer[i] = cur.adjust_saturation(factor);
            i = i + 1;
        }
        proof {
            assert(buffer@ =~= old(self).spec_buffer(old(buffer)@, now));
        }
    }
}

/// Advances every pixel's hue by a sampled amount, wrapping around the hue
/// circle.
pub struct HueShift<Amount> {
    pub amount: Amount,
}

impl<Amount: Parameter<u8>> Modifier for HueShift<Amount> {
    open spec fn wf(&self) -> bool {
        self.amount.wf()
    }

    open spec fn spec_buffer(&self, buffer: Seq<Pixel>, now: u32) -> Seq<Pixel> {
        Seq::new(
            buffer.len(),
            |i: int| spec_shift_hue(buffer[i], self.amount.spec_sample(now) as int),
        )
    }

    open spec fn spec_step(&self, buffer: Seq<Pixel>, now: u32) -> Self {
        *self
    }

    fn modify(&mut self, buffer: &mut Vec<Pixel>, now: u32) {
        let shift = self.amount.sample(now);
        let len = buffer.len();
        let mut i: usize = 0;
        while i < len
            invariant
                i <= len,
                buffer@.len() == len,
                shift == self.amount.spec_sample(now),
                forall|j: int|
                    0 <= j < i ==> buffer@[j] == spec_shift_hue(old(buffer)@[j], shift as int),
                forall|j: int| i <= j < len ==> buffer@[j] == old(buffer)@[j],
            decreases len - i,
        {
            let cur = buffer[i];
            buffer[i] = cur.shift_hue(shift);
            i = i + 1;
        }
        proof {
            assert(buffer@ =~= old(self).spec_buffer(old(buffer)@, now));
        }
    }
}

/// Passes every pixel through the fixed gamma 2.2 table.
pub struct GammaCorrection;

impl Modifier for GammaCorrection {
    open spec fn wf(&self) -> bool {
        true
    }

    open spec fn spec_buffer(&self, buffer: Seq<Pixel>, now: u32) -> Seq<Pixel> {
        Seq::new(buffer.len(), |i: int| spec_gamma_correct(buffer[i]))
    }

    open spec fn spec_step(&self, buffer: Seq<Pixel>, now: u32) -> Self {
        *self
    }

    fn modify(&mut self, buffer: &mut Vec<Pixel>, now: u32) {
        let len = buffer.len();
        let mut i: usize = 0;
        while i < len
            invariant
                i <= len,
                buffer@.len() == len,
                forall|j: int| 0 <= j < i ==> buffer@[j] == spec_gamma_correct(old(buffer)@[j]),
                forall|j: int| i <= j < len ==> buffer@[j] == old(buffer)@[j],
            decreases len - i,
        {
            let cur = buffer[i];
            buffer[i] = cur.gamma_correct();
            i = i + 1;
        }
        proof {
            assert(buffer@ =~= old(self).spec_buffer(old(buffer)@, now));
        }
    }
}

/// Multiplicatively fades every pixel toward black by a sampled rate
/// (255 = no decay); applied every frame without clearing, it leaves
/// fading trails behind moving generators.
pub struct Decay<Rate> {
    pub rate: Rate,
}

impl<Rate: Parameter<u8>> Modifier for Decay<Rate> {
    open spec fn wf(&self) -> bool {
        self.rate.wf()
    }

    open spec fn spec_buffer(&self, buffer: Seq<Pixel>, now: u32) -> Seq<Pixel> {
        Seq::new(buffer.len(), |i: int| spec_scale(buffer[i], self.rate.spec_sample(now) as int))
    }

    open spec fn spec_step(&self, buffer: Seq<Pixel>, now: u32) -> Self {
        *self
    }

    fn modify(&mut self, buffer: &mut Vec<Pixel>, now: u32) {
        let rate = self.rate.sample(now);
        let len = buffer.len();
        let mut i: usize = 0;
        while i < len
            invariant
                i <= len,
                buffer@.len() == len,
                rate == self.rate.spec_sample(now),
                forall|j: int| 0 <= j < i ==> buffer@[j] == spec_scale(old(buffer)@[j], rate as int),
                forall|j: int| i <= j < len ==> buffer@[j] == old(buffer)@[j],
            decreases len - i,
        {
            let cur = buffer[i];
            buffer[i] = cur.scale(rate);
            i = i + 1;
        }
        proof {
            assert(buffer@ =~= old(self).spec_buffer(old(buffer)@, now));
        }
    }
}

/// The trail effect: the same multiplicative fade toward black as
/// [`Decay`], under the name the builder examples use.
pub struct Trail<DecayRate> {
    pub decay_rate: DecayRate,
}

impl<DecayRate: Parameter<u8>> Modifier for Trail<DecayRate> {
    open spec fn wf(&self) -> bool {
        self.decay_rate.wf()
    }

    open spec fn spec_buffer(&self, buffer: Seq<Pixel>, now: u32) -> Seq<Pixel> {
        Seq::new(
            buffer.len(),
            |i: int| spec_scale(buffer[i], self.decay_rate.spec_sample(now) as int),
        )
    }

    open spec fn spec_step(&self, buffer: Seq<Pixel>, now: u32) -> Self {
        *self
    }

    fn modify(&mut self, buffer: &mut Vec<Pixel>, now: u32) {
        let decay = self.decay_rate.sample(now);
        let len = buffer.len();
        let mut i: usize = 0;
        while i < len
            invariant
                i <= len,
                buffer@.len() == len,
                decay == self.decay_rate.spec_sample(now),
                forall|j: int|
                    0 <= j < i ==> buffer@[j] == spec_scale(old(buffer)@[j], decay as int),
                forall|j: int| i <= j < len ==> buffer@[j] == old(buffer)@[j],
            decreases len - i,
        {
            let cur = buffer[i];
            buffer[i] = cur.scale(decay);
            i = i + 1;
        }
        proof {
            assert(buffer@ =~= old(self).spec_buffer(old(buffer)@, now));
        }
    }
}

/// A single forward pass that blends each pixel toward its predecessor,
/// weighted by half the sampled strength: a deliberately cheap, O(n)
/// approximation of a blur, not a true Gaussian. Buffers shorter than two
/// pixels are left unchanged.
pub struct Blur<Strength> {
    pub strength: Strength,
}

impl<Strength: Parameter<u8>> Modifier for Blur<Strength> {
    open spec fn wf(&self) -> bool {
        self.strength.wf()
    }

    open spec fn spec_buffer(&self, buffer: Seq<Pixel>, now: u32) -> Seq<Pixel> {
        if buffer.len() < 2 {
            buffer
        } else {
            let t = self.strength.spec_sample(now) as int / 2;
            Seq::new(
                buffer.len(),
                |i: int|
                    if i == 0 {
                        buffer[0]
                    } else {
                        spec_lerp(buffer[i], buffer[i - 1], t)
                    },
            )
        }
    }

    open spec fn spec_step(&self, buffer: Seq<Pixel>, now: u32) -> Self {
        *self
    }

    fn modify(&mut self, buffer: &mut Vec<Pixel>, now: u32) {
        let len = buffer.len();
        if len < 2 {
            return ;
        }
        let strength = self.strength.sample(now);
        let t = strength / 2;
        let mut prev = buffer[0];
        let mut i: usize = 1;
        while i < len
            invariant
                1 <= i <= len,
                buffer@.len() == len,
                len >= 2,
                t == self.strength.spec_sample(now) as int / 2,
                prev == old(buffer)@[i - 1],
                buffer@[0] == old(buffer)@[0],
                forall|j: int|
                    1 <= j < i ==> buffer@[j] == spec_lerp(
                        old(buffer)@[j],
                        old(buffer)@[j - 1],
                        t as int,
                    ),
                forall|j: int| i <= j < len ==> buffer@[j] == old(buffer)@[j],
            decreases len - i,
        {
            let current = buffer[i];
            buffer[i] = current.lerp(&prev, t);
            prev = current;
            i = i + 1;
        }
        proof {
            assert(buffer@ =~= old(self).spec_buffer(old(buffer)@, now));
        }
    }
}

/// Where a circularly rotated buffer reads its pixel from: `shift` places
/// toward lower indices, wrapping around.
pub open spec fn spec_rotate(buffer: Seq<Pixel>, shift: int) -> Seq<Pixel> {
    Seq::new(buffer.len(), |i: int| buffer[(i - shift) % (buffer.len() as int)])
}

/// The rotation amount of a [`Shift`] with the given sampled offset over a
/// buffer of length `len`: the offset normalized modulo the length, as a
/// euclidean remainder, so a positive offset rotates toward higher indices
/// and a negative one toward lower indices.
pub open spec fn spec_shift_amount(offset: int, len: int) -> int {
    offset % len
}

/// Reverses `buffer` between `lo` (inclusive) and `hi` (exclusive), in
/// place; everything outside the range is untouched.
fn reverse_range(buffer: &mut Vec<Pixel>, lo: usize, hi: usize)
    requires
        lo <= hi <= old(buffer)@.len(),
    ensures
        final(buffer)@.len() == old(buffer)@.len(),
        forall|j: int|
            lo <= j < hi ==> #[trigger] final(buffer)@[j] == old(buffer)@[lo + hi - 1 - j],
        forall|j: int|
            (0 <= j < lo || hi <= j < old(buffer)@.len()) ==> final(buffer)@[j] == old(buffer)@[j],
{
    let span = hi - lo;
    let mut i: usize = 0;
    while i < span / 2
        invariant
            i <= span / 2,
            span == hi - lo,
            lo <= hi <= buffer@.len(),
            buffer@.len() == old(buffer)@.len(),
            forall|j: int|
                lo <= j < lo + i ==> #[trigger] buffer@[j] == old(buffer)@[lo + hi - 1 - j],
            forall|j: int|
                lo <= j < lo + i ==> buffer@[lo + hi - 1 - j] == #[trigger] old(buffer)@[j],
            forall|j: int| lo + i <= j < hi - i ==> buffer@[j] == old(buffer)@[j],
            forall|j: int|
                (0 <= j < lo || hi <= j < buffer@.len()) ==> buffer@[j] == old(buffer)@[j],
        decreases span / 2 - i,
    {
        let a = buffer[lo + i];
        let b = buffer[hi - 1 - i];
        buffer[lo + i] = b;
        buffer[hi - 1 - i] = a;
        i = i + 1;
    }
}

/// The euclidean remainder of a sampled offset modulo the buffer length.
fn euclid_rem(offset: i64, len: usize) -> (r: usize)
    requires
        len > 0,
    ensures
        r as int == (offset as int) % (len as int),
        r < len,
{
    if offset >= 0 {
        ((offset as u64) % (len as u64)) as usize
    } else {
        let magnitude: u64 = if offset == i64::MIN {
            // The magnitude of the least offset does not fit in `i64`.
            9223372036854775808u64
        } else {
            (-offset) as u64
        };
        let m = (magnitude % (len as u64)) as usize;
        proof {
            lemma_neg_mod(magnitude as int, len as int);
        }
        if m == 0 {
            0
        } else {
            len - m
        }
    }
}

/// The euclidean remainder of a negative number: the divisor minus the
/// magnitude's remainder, except where the magnitude divides evenly.
proof fn lemma_neg_mod(magnitude: int, len: int)
    requires
        magnitude >= 0,
        len > 0,
    ensures
        (-magnitude) % len == (if magnitude % len == 0 {
            0int
        } else {
            len - magnitude % len
        }),
{
    let q = magnitude / len;
    let r = magnitude % len;
    vstd::arithmetic::div_mod::lemma_fundamental_div_mod(magnitude, len);
    vstd::arithmetic::div_mod::lemma_mod_bound(magnitude, len);
    if r == 0 {
        assert(len * (-q) + 0 == -magnitude) by (nonlinear_arith)
            requires
                magnitude == len * q + 0,
        ;
        vstd::arithmetic::div_mod::lemma_mod_multiples_vanish(-q, 0, len);
        vstd::arithmetic::div_mod::lemma_small_mod(0nat, len as nat);
    } else {
        assert(len * (-q - 1) + (len - r) == -magnitude) by (nonlinear_arith)
            requires
                magnitude == len * q + r,
        ;
        vstd::arithmetic::div_mod::lemma_mod_multiples_vanish(-q - 1, len - r, len);
        vstd::arithmetic::div_mod::lemma_small_mod((len - r) as nat, len as nat);
    }
}

/// Circular rotation of the buffer by a sampled offset, normalized modulo
/// the buffer length: a positive offset moves pixels toward higher indices,
/// a negative one toward lower indices. The rotation runs in place, by
/// three reversals, allocating nothing.
pub struct Shift<Offset> {
    pub offset: Offset,
}

impl<Offset: Parameter<i64>> Modifier for Shift<Offset> {
    open spec fn wf(&self) -> bool {
        self.offset.wf()
    }

    open spec fn spec_buffer(&self, buffer: Seq<Pixel>, now: u32) -> Seq<Pixel> {
        if buffer.len() == 0 {
            buffer
        } else {
            spec_rotate(
                buffer,
                spec_shift_amount(self.offset.spec_sample(now) as int, buffer.len() as int),
            )
        }
    }

    open spec fn spec_step(&self, buffer: Seq<Pixel>, now: u32) -> Self {
        *self
    }

    fn modify(&mut self, buffer: &mut Vec<Pixel>, now: u32) {
        let offset = self.offset.sample(now);
        let len = buffer.len();
        if len == 0 {
            proof {
                assert(buffer@ =~= old(self).spec_buffer(old(buffer)@, now));
            }
            return ;
        }
        let shift = euclid_rem(offset, len);
        let ghost orig = buffer@;
        reverse_range(buffer, 0, len);
        let ghost once = buffer@;
        reverse_range(buffer, 0, shift);
        let ghost twice = buffer@;
        reverse_range(buffer, shift, len);
        proof {
            assert forall|i: int| 0 <= i < len implies buffer@[i] == orig[(i - shift as int) % (
            len as int)] by {
                if i < shift {
                    // Untouched by the third pass; the second pass read it
                    // from the first pass's mirror position.
                    assert(buffer@[i] == twice[i]);
                    assert(twice[i] == once[shift - 1 - i]);
                    assert(once[shift - 1 - i] == orig[len - shift + i]);
                    vstd::arithmetic::div_mod::lemma_mod_multiples_vanish(
                        1,
                        i - shift as int,
                        len as int,
                    );
                    vstd::arithmetic::div_mod::lemma_small_mod(
                        (len - shift + i) as nat,
                        len as nat,
                    );
                } else {
                    // Placed by the third pass from the untouched middle of
                    // the second pass.
                    assert(buffer@[i] == twice[shift + len - 1 - i]);
                    assert(twice[shift + len - 1 - i] == once[shift + len - 1 - i]);
                    assert(once[shift + len - 1 - i] == orig[i - shift as int]);
                    vstd::arithmetic::div_mod::lemma_small_mod((i - shift) as nat, len as nat);
                }
            }
            assert(buffer@ =~= old(self).spec_buffer(old(buffer)@, now));
        }
    }
}

/// The buffer after the first `steps` reflection writes of a [`Mirror`]
/// with the given length: write `k` copies the pixel now at index `k` onto
/// index `len - 1 - k`, in order, so later writes see earlier ones.
pub open spec fn spec_mirror_rec(buffer: Seq<Pixel>, steps: nat) -> Seq<Pixel>
    decreases steps,
{
    if steps == 0 {
        buffer
    } else {
        let prev = spec_mirror_rec(buffer, (steps - 1) as nat);
        prev.update(buffer.len() - steps, prev[steps - 1])
    }
}

/// Reflects the pixels below `center` onto the mirrored high-index
/// positions, in place.
pub struct Mirror {
    pub center: usize,
}

impl Modifier for Mirror {
    open spec fn wf(&self) -> bool {
        true
    }

    open spec fn spec_buffer(&self, buffer: Seq<Pixel>, now: u32) -> Seq<Pixel> {
        let steps = if self.center as int <= buffer.len() as int {
            self.center as nat
        } else {
            buffer.len()
        };
        spec_mirror_rec(buffer, steps)
    }

    open spec fn spec_step(&self, buffer: Seq<Pixel>, now: u32) -> Self {
        *self
    }

    fn modify(&mut self, buffer: &mut Vec<Pixel>, now: u32) {
        let len = buffer.len();
        let bound = if self.center <= len {
            self.center
        } else {
            len
        };
        let mut i: usize = 0;
        while i < bound
            invariant
                i <= bound,
                bound <= len,
                buffer@.len() == len,
                old(buffer)@.len() == len,
                bound as nat == (if self.center as int <= len as int {
                    self.center as nat
                } else {
                    len as nat
                }),
                buffer@ == spec_mirror_rec(old(buffer)@, i as nat),
            decreases bound - i,
        {
            let px = buffer[i];
            let mirror_idx = len - (i + 1);
            buffer[mirror_idx] = px;
            proof {
                let prev = spec_mirror_rec(old(buffer)@, i as nat);
                assert(spec_mirror_rec(old(buffer)@, (i + 1) as nat) == prev.update(
                    old(buffer)@.len() - ((i + 1) as nat),
                    prev[(i + 1) as nat - 1],
                ));
            }
            i = i + 1;
        }
    }
}

/// The buffer in reverse order.
pub open spec fn spec_reverse(buffer: Seq<Pixel>) -> Seq<Pixel> {
    Seq::new(buffer.len(), |i: int| buffer[buffer.len() - 1 - i])
}

/// Reverses the buffer.
pub struct Reverse;

impl Modifier for Reverse {
    open spec fn wf(&self) -> bool {
        true
    }

    open spec fn spec_buffer(&self, buffer: Seq<Pixel>, now: u32) -> Seq<Pixel> {
        spec_reverse(buffer)
    }

    open spec fn spec_step(&self, buffer: Seq<Pixel>, now: u32) -> Self {
        *self
    }

    fn modify(&mut self, buffer: &mut Vec<Pixel>, now: u32) {
        let len = buffer.len();
        reverse_range(buffer, 0, len);
        proof {
            assert(buffer@ =~= old(self).spec_buffer(old(buffer)@, now));
        }
    }
}

/// One advance of the linear-congruential pseudo-random generator behind
/// [`Sparkle`].
pub open spec fn spec_lcg(seed: int) -> int {
    (seed * 1103515245 + 12345) % 4294967296
}

/// The pseudo-random seed after `steps` advances from `seed`.
pub open spec fn spec_seed_after(seed: int, steps: nat) -> int
    decreases steps,
{
    if steps == 0 {
        seed
    } else {
        spec_lcg(spec_seed_after(seed, (steps - 1) as nat))
    }
}

/// Whether the pixel at index `i` sparkles: the draw for that pixel, the
/// top byte of the seed after `i + 1` advances, falls below `chance`.
pub open spec fn spec_sparkles(seed: int, i: int, chance: int) -> bool {
    spec_seed_after(seed, (i + 1) as nat) / 16777216 < chance
}

/// Replaces each pixel with a fixed sampled color wherever a deterministic
/// pseudo-random draw falls below the sampled chance. The seed is modifier
/// state, advanced once per pixel, so a given seed and call sequence
/// reproduces the same buffers exactly.
pub struct Sparkle<Chance, Hue, Sat, Intensity> {
    pub chance: Chance,
    pub hue: Hue,
    pub saturation: Sat,
    pub intensity: Intensity,
    pub seed: u32,
}

impl<Chance, Hue, Sat, Intensity> Modifier for Sparkle<Chance, Hue, Sat, Intensity> where
    Chance: Parameter<u8>,
    Hue: HueParameter,
    Sat: Parameter<u8>,
    Intensity: Parameter<u8>,
 {
    open spec fn wf(&self) -> bool {
        self.chance.wf() && self.hue.wf() && self.saturation.wf() && self.intensity.wf()
    }

    open spec fn spec_buffer(&self, buffer: Seq<Pixel>, now: u32) -> Seq<Pixel> {
        Seq::new(
            buffer.len(),
            |i: int|
                if spec_sparkles(self.seed as int, i, self.chance.spec_sample(now) as int) {
                    spec_from_hsv(
                        self.hue.spec_sample(now) as int,
                        self.saturation.spec_sample(now) as int,
                        self.intensity.spec_sample(now) as int,
                    )
                } else {
                    buffer[i]
                },
        )
    }

    open spec fn spec_step(&self, buffer: Seq<Pixel>, now: u32) -> Self {
        Sparkle {
            chance: self.chance,
            hue: self.hue,
            saturation: self.saturation,
            intensity: self.intensity,
            seed: spec_seed_after(self.seed as int, buffer.len()) as u32,
        }
    }

    fn modify(&mut self, buffer: &mut Vec<Pixel>, now: u32) {
        let chance = self.chance.sample(now);
        let hue = self.hue.sample(now);
        let saturation = self.saturation.sample(now);
        let intensity = self.intensity.sample(now);
        let color = Pixel::from_hsv(hue, saturation, intensity);
        let len = buffer.len();
        let mut seed = self.seed;
        let mut i: usize = 0;
        while i < len
            invariant
                i <= len,
                buffer@.len() == len,
                chance == self.chance.spec_sample(now),
                color == spec_from_hsv(
                    self.hue.spec_sample(now) as int,
                    self.saturation.spec_sample(now) as int,
                    self.intensity.spec_sample(now) as int,
                ),
                seed as int == spec_seed_after(self.seed as int, i as nat),
                forall|j: int|
                    0 <= j < i ==> buffer@[j] == (if spec_sparkles(
                        self.seed as int,
                        j,
                        chance as int,
                    ) {
                        color
                    } else {
                        old(buffer)@[j]
                    }),
                forall|j: int| i <= j < len ==> buffer@[j] == old(buffer)@[j],
            decreases len - i,
        {
            seed = (((seed as u64) * 1103515245 + 12345) % 4294967296) as u32;
            assert(seed as int == spec_seed_after(self.seed as int, (i + 1) as nat));
            let draw = (seed / 16777216) as u8;
            if draw < chance {
                buffer[i] = color;
            }
            i = i + 1;
        }
        self.seed = seed;
        proof {
            assert(buffer@ =~= old(self).spec_buffer(old(buffer)@, now));
            assert(*self == old(self).spec_step(old(buffer)@, now));
        }
    }
}

} // verus!

//! The packed three-channel color value and its table-driven HSV
//! conversions.

use vstd::prelude::*;
use crate::math::sat_add_int;

verus! {

/// Gamma 2.2 correction curve sampled at all 256 channel values: entry `i`
/// is `(i / 255) ^ 2.2 * 255`, rounded to the nearest integer.
pub const GAMMA_22_LUT: [u8; 256] = [
    0, 0, 0, 0, 0, 0, 0, 0, 0, 0, 0, 0, 0, 0, 0, 1, 1, 1, 1, 1, 1, 1, 1, 1, 1, 2, 2, 2, 2, 2, 2,
    2, 3, 3, 3, 3, 3, 4, 4, 4, 4, 5, 5, 5, 5, 6, 6, 6, 6, 7, 7, 7, 8, 8, 8, 9, 9, 9, 10, 10, 11,
    11, 11, 12, 12, 13, 13, 13, 14, 14, 15, 15, 16, 16, 17, 17, 18, 18, 19, 19, 20, 20, 21, 22,
    22, 23, 23, 24, 25, 25, 26, 26, 27, 28, 28, 29, 30, 30, 31, 32, 33, 33, 34, 35, 35, 36, 37,
    38, 39, 39, 40, 41, 42, 43, 43, 44, 45, 46, 47, 48, 49, 49, 50, 51, 52, 53, 54, 55, 56, 57,
    58, 59, 60, 61, 62, 63, 64, 65, 66, 67, 68, 69, 70, 71, 73, 74, 75, 76, 77, 78, 79, 81, 82,
    83, 84, 85, 87, 88, 89, 90, 91, 93, 94, 95, 97, 98, 99, 100, 102, 103, 105, 106, 107, 109,
    110, 111, 113, 114, 116, 117, 119, 120, 121, 123, 124, 126, 127, 129, 130, 132, 133, 135, 137,
    138, 140, 141, 143, 145, 146, 148, 149, 151, 153, 154, 156, 158, 159, 161, 163, 165, 166, 168,
    170, 172, 173, 175, 177, 179, 181, 182, 184, 186, 188, 190, 192, 194, 196, 197, 199, 201, 203,
    205, 207, 209, 211, 213, 215, 217, 219, 221, 223, 225, 227, 229, 231, 234, 236, 238, 240, 242,
    244, 246, 248, 251, 253, 255,
];

/// A packed RGB color: three independent 8-bit channel intensities, exactly
/// three bytes, transferred byte for byte into the hardware transmit buffer.
#[derive(Copy, Clone, Debug, PartialEq, Eq, Structural)]
pub struct Pixel {
    pub r: u8,
    pub g: u8,
    pub b: u8,
}

/// The integer HSV-to-RGB conversion behind the color table: `h` is a hue
/// in whole degrees (`0` to `359`), `s` and `v` are fractions of 255.
pub open spec fn spec_hsv_to_rgb(h: int, s: int, v: int) -> Pixel {
    if s == 0 {
        Pixel { r: v as u8, g: v as u8, b: v as u8 }
    } else {
        let region = h / 60;
        let remainder = (h % 60) * 255 / 60;
        let p = (v * (255 - s) / 255) as u8;
        let q = (v * (255 - s * remainder / 255) / 255) as u8;
        let t = (v * (255 - s * (255 - remainder) / 255) / 255) as u8;
        let vv = v as u8;
        if region == 0 {
            Pixel { r: vv, g: t, b: p }
        } else if region == 1 {
            Pixel { r: q, g: vv, b: p }
        } else if region == 2 {
            Pixel { r: p, g: vv, b: t }
        } else if region == 3 {
            Pixel { r: p, g: q, b: vv }
        } else if region == 4 {
            Pixel { r: t, g: p, b: vv }
        } else {
            Pixel { r: vv, g: p, b: q }
        }
    }
}

/// The quantization the color table applies to a saturation or value
/// channel: eight buckets, each mapped to its representative level.
pub open spec fn spec_bucket(x: int) -> int {
    (x / 32) * 255 / 7
}

/// What [`Pixel::from_hsv`] returns: the table entry for full-resolution
/// hue and bucket-quantized saturation and value.
pub open spec fn spec_from_hsv(hue: int, saturation: int, value: int) -> Pixel {
    spec_hsv_to_rgb(hue * 360 / 256, spec_bucket(saturation), spec_bucket(value))
}

/// What [`Pixel::to_hsv_u8`] returns, with hue, saturation and value each
/// mapped onto `0` to `255`.
pub open spec fn spec_to_hsv(p: Pixel) -> (int, int, int) {
    let max = max3(p.r as int, p.g as int, p.b as int);
    let min = min3(p.r as int, p.g as int, p.b as int);
    let delta = max - min;
    if delta == 0 {
        (0, 0, max)
    } else {
        let saturation = delta * 255 / max;
        let hue = if max == p.r as int {
            if p.g >= p.b {
                (p.g - p.b) * 256 / (delta * 6)
            } else {
                (256 - (p.b - p.g) * 256 / (delta * 6)) % 256
            }
        } else if max == p.g as int {
            if p.b >= p.r {
                85 + (p.b - p.r) * 256 / (delta * 6)
            } else {
                85 - (p.r - p.b) * 256 / (delta * 6)
            }
        } else {
            if p.r >= p.g {
                171 + (p.r - p.g) * 256 / (delta * 6)
            } else {
                171 - (p.g - p.r) * 256 / (delta * 6)
            }
        };
        (hue, saturation, max)
    }
}

/// The greater of three integers.
pub open spec fn max3(a: int, b: int, c: int) -> int {
    if a >= b && a >= c {
        a
    } else if b >= c {
        b
    } else {
        c
    }
}

/// The least of three integers.
pub open spec fn min3(a: int, b: int, c: int) -> int {
    if a <= b && a <= c {
        a
    } else if b <= c {
        b
    } else {
        c
    }
}

/// One channel scaled by a fraction of 255.
pub open spec fn spec_scale_channel(c: int, factor: int) -> int {
    c * factor / 255
}

/// One channel moved `t / 255` of the way toward `to`, rounding the step
/// toward zero.
pub open spec fn spec_lerp_channel(from: int, to: int, t: int) -> int {
    if to >= from {
        from + (to - from) * t / 255
    } else {
        from - (from - to) * t / 255
    }
}

/// What [`Pixel::scale`] returns.
pub open spec fn spec_scale(p: Pixel, factor: int) -> Pixel {
    Pixel {
        r: spec_scale_channel(p.r as int, factor) as u8,
        g: spec_scale_channel(p.g as int, factor) as u8,
        b: spec_scale_channel(p.b as int, factor) as u8,
    }
}

/// What [`Pixel::add`] returns: the channelwise saturating sum.
pub open spec fn spec_add(p: Pixel, other: Pixel) -> Pixel {
    Pixel {
        r: sat_add_int(p.r as int, other.r as int, 255) as u8,
        g: sat_add_int(p.g as int, other.g as int, 255) as u8,
        b: sat_add_int(p.b as int, other.b as int, 255) as u8,
    }
}

/// What [`Pixel::lerp`] returns.
pub open spec fn spec_lerp(p: Pixel, other: Pixel, t: int) -> Pixel {
    Pixel {
        r: spec_lerp_channel(p.r as int, other.r as int, t) as u8,
        g: spec_lerp_channel(p.g as int, other.g as int, t) as u8,
        b: spec_lerp_channel(p.b as int, other.b as int, t) as u8,
    }
}

/// What [`Pixel::gamma_correct`] returns.
pub open spec fn spec_gamma_correct(p: Pixel) -> Pixel {
    Pixel {
        r: GAMMA_22_LUT[p.r as int],
        g: GAMMA_22_LUT[p.g as int],
        b: GAMMA_22_LUT[p.b as int],
    }
}

/// What [`Pixel::shift_hue`] returns: the hue advanced by `shift`, wrapping
/// around the hue circle.
pub open spec fn spec_shift_hue(p: Pixel, shift: int) -> Pixel {
    let (h, s, v) = spec_to_hsv(p);
    spec_from_hsv((h + shift) % 256, s, v)
}

/// What [`Pixel::adjust_saturation`] returns: the saturation scaled by a
/// fraction of 255.
pub open spec fn spec_adjust_saturation(p: Pixel, factor: int) -> Pixel {
    let (h, s, v) = spec_to_hsv(p);
    spec_from_hsv(h, s * factor / 255, v)
}

/// The integer HSV-to-RGB conversion used to build the color table: `h` is
/// a hue in whole degrees (up to `359`), `s` and `v` are fractions of 255.
pub fn hsv_to_rgb(h: u16, s: u8, v: u8) -> (r: Pixel)
    requires
        h < 360,
    ensures
        r == spec_hsv_to_rgb(h as int, s as int, v as int),
{
    if s == 0 {
        return Pixel { r: v, g: v, b: v };
    }
    let h32 = h as u32;
    let s32 = s as u32;
    let v32 = v as u32;
    let region = h32 / 60;
    let remainder = (h32 % 60) * 255 / 60;
    proof {
        lemma_channel_product_bound(v as int, 255 - s as int);
        assert((s as int) * (remainder as int) / 255 <= 255) by (nonlinear_arith)
            requires
                s <= 255,
                0 <= remainder <= 255,
        ;
        assert((s as int) * (remainder as int) / 255 >= 0) by (nonlinear_arith)
            requires
                s >= 0,
                remainder >= 0,
        ;
        assert((s as int) * (255 - remainder as int) / 255 <= 255) by (nonlinear_arith)
            requires
                s <= 255,
                0 <= remainder <= 255,
        ;
        assert((s as int) * (255 - remainder as int) / 255 >= 0) by (nonlinear_arith)
            requires
                s >= 0,
                remainder <= 255,
        ;
    }
    let p_q = s32 * remainder / 255;
    let t_q = s32 * (255 - remainder) / 255;
    proof {
        lemma_channel_product_bound(v as int, 255 - p_q as int);
        lemma_channel_product_bound(v as int, 255 - t_q as int);
    }
    let p = (v32 * (255 - s32) / 255) as u8;
    let q = (v32 * (255 - p_q) / 255) as u8;
    let t = (v32 * (255 - t_q) / 255) as u8;
    if region == 0 {
        Pixel { r: v, g: t, b: p }
    } else if region == 1 {
        Pixel { r: q, g: v, b: p }
    } else if region == 2 {
        Pixel { r: p, g: v, b: t }
    } else if region == 3 {
        Pixel { r: p, g: q, b: v }
    } else if region == 4 {
        Pixel { r: t, g: p, b: v }
    } else {
        Pixel { r: v, g: p, b: q }
    }
}

/// A channel value times a fraction of 255, divided back, stays a channel
/// value.
pub proof fn lemma_channel_product_bound(v: int, w: int)
    requires
        0 <= v <= 255,
        0 <= w <= 255,
    ensures
        0 <= v * w / 255 <= 255,
{
    assert(v * w <= 255 * 255) by (nonlinear_arith)
        requires
            0 <= v <= 255,
            0 <= w <= 255,
    ;
    assert(v * w >= 0) by (nonlinear_arith)
        requires
            v >= 0,
            w >= 0,
    ;
}

impl Pixel {
    pub fn new(r: u8, g: u8, b: u8) -> (p: Pixel)
        ensures
            p == (Pixel { r, g, b }),
    {
        Pixel { r, g, b }
    }

    /// The all-zero color.
    pub fn black() -> (p: Pixel)
        ensures
            p == (Pixel { r: 0, g: 0, b: 0 }),
    {
        Pixel { r: 0, g: 0, b: 0 }
    }

    /// Each channel scaled by `factor / 255`.
    pub fn scale(&self, factor: u8) -> (p: Pixel)
        ensures
            p == spec_scale(*self, factor as int),
    {
        proof {
            lemma_channel_product_bound(self.r as int, factor as int);
            lemma_channel_product_bound(self.g as int, factor as int);
            lemma_channel_product_bound(self.b as int, factor as int);
        }
        Pixel {
            r: ((self.r as u16 * factor as u16) / 255) as u8,
            g: ((self.g as u16 * factor as u16) / 255) as u8,
            b: ((self.b as u16 * factor as u16) / 255) as u8,
        }
    }

    /// The channelwise saturating sum of two colors.
    pub fn add(&self, other: Pixel) -> (p: Pixel)
        ensures
            p == spec_add(*self, other),
    {
        Pixel {
            r: if self.r as u16 + other.r as u16 > 255 {
                255
            } else {
                self.r + other.r
            },
            g: if self.g as u16 + other.g as u16 > 255 {
                255
            } else {
                self.g + other.g
            },
            b: if self.b as u16 + other.b as u16 > 255 {
                255
            } else {
                self.b + other.b
            },
        }
    }

    /// The color-table entry for the given hue, saturation and value, each
    /// on `0` to `255`. Saturation and value are quantized to eight levels;
    /// hue keeps its full resolution.
    pub fn from_hsv(hue: u8, saturation: u8, value: u8) -> (p: Pixel)
        ensures
            p == spec_from_hsv(hue as int, saturation as int, value as int),
    {
        let h = ((hue as u32) * 360 / 256) as u16;
        let s = ((saturation as u32 / 32) * 255 / 7) as u8;
        let v = ((value as u32 / 32) * 255 / 7) as u8;
        hsv_to_rgb(h, s, v)
    }

    /// Each channel moved `t / 255` of the way toward the matching channel
    /// of `other`.
    pub fn lerp(&self, other: &Pixel, t: u8) -> (p: Pixel)
        ensures
            p == spec_lerp(*self, *other, t as int),
    {
        Pixel {
            r: lerp_channel(self.r, other.r, t),
            g: lerp_channel(self.g, other.g, t),
            b: lerp_channel(self.b, other.b, t),
        }
    }

    /// Each channel passed through the gamma 2.2 table.
    pub fn gamma_correct(&self) -> (p: Pixel)
        ensures
            p == spec_gamma_correct(*self),
    {
        Pixel {
            r: GAMMA_22_LUT[self.r as usize],
            g: GAMMA_22_LUT[self.g as usize],
            b: GAMMA_22_LUT[self.b as usize],
        }
    }

    /// The saturation scaled by `factor / 255`, through an HSV round trip.
    pub fn adjust_saturation(&self, factor: u8) -> (p: Pixel)
        ensures
            p == spec_adjust_saturation(*self, factor as int),
    {
        let (h, s, v) = self.to_hsv_u8();
        proof {
            lemma_channel_product_bound(s as int, factor as int);
        }
        let new_s = ((s as u16 * factor as u16) / 255) as u8;
        Pixel::from_hsv(h, new_s, v)
    }

    /// The hue advanced by `shift`, wrapping around the hue circle.
    pub fn shift_hue(&self, shift: u8) -> (p: Pixel)
        ensures
            p == spec_shift_hue(*self, shift as int),
    {
        let (h, s, v) = self.to_hsv_u8();
        let new_h = ((h as u16 + shift as u16) % 256) as u8;
        Pixel::from_hsv(new_h, s, v)
    }

    /// The hue, saturation and value of this color, each on `0` to `255`.
    pub fn to_hsv_u8(&self) -> (hsv: (u8, u8, u8))
        ensures
            (hsv.0 as int, hsv.1 as int, hsv.2 as int) == spec_to_hsv(*self),
    {
        let max = if self.r >= self.g && self.r >= self.b {
            self.r
        } else if self.g >= self.b {
            self.g
        } else {
            self.b
        };
        let min = if self.r <= self.g && self.r <= self.b {
            self.r
        } else if self.g <= self.b {
            self.g
        } else {
            self.b
        };
        let delta = max - min;
        if delta == 0 {
            return (0, 0, max);
        }
        proof {
            assert((delta as int) * 255 / (max as int) <= 255) by (nonlinear_arith)
                requires
                    0 < delta <= max,
            ;
            assert((delta as int) * 255 / (max as int) >= 0) by (nonlinear_arith)
                requires
                    delta > 0,
                    max > 0,
            ;
        }
        let saturation = ((delta as u32 * 255) / max as u32) as u8;
        let d6 = delta as u32 * 6;
        let hue: u8 = if max == self.r {
            if self.g >= self.b {
                proof {
                    lemma_hue_diff_bound(self.g as int - self.b as int, delta as int);
                }
                (((self.g - self.b) as u32 * 256) / d6) as u8
            } else {
                proof {
                    lemma_hue_diff_bound(self.b as int - self.g as int, delta as int);
                }
                let wrapped = 256 - ((self.b - self.g) as u32 * 256) / d6;
                (wrapped % 256) as u8
            }
        } else if max == self.g {
            if self.b >= self.r {
                proof {
                    lemma_hue_diff_bound(self.b as int - self.r as int, delta as int);
                }
                (85 + ((self.b - self.r) as u32 * 256) / d6) as u8
            } else {
                proof {
                    lemma_hue_diff_bound(self.r as int - self.b as int, delta as int);
                }
                (85 - ((self.r - self.b) as u32 * 256) / d6) as u8
            }
        } else {
            if self.r >= self.g {
                proof {
                    lemma_hue_diff_bound(self.r as int - self.g as int, delta as int);
                }
                (171 + ((self.r - self.g) as u32 * 256) / d6) as u8
            } else {
                proof {
                    lemma_hue_diff_bound(self.g as int - self.r as int, delta as int);
                }
                (171 - ((self.g - self.r) as u32 * 256) / d6) as u8
            }
        };
        (hue, saturation, max)
    }
}

/// The difference of two channels both lying between a color's extremes,
/// scaled by 256 and divided by six times the extremes' distance, is at
/// most a sixth of the hue circle.
proof fn lemma_hue_diff_bound(diff: int, delta: int)
    requires
        0 <= diff <= delta,
        0 < delta,
    ensures
        0 <= diff * 256 / (delta * 6) <= 43,
{
    assert(diff * 256 <= delta * 256) by (nonlinear_arith)
        requires
            diff <= delta,
    ;
    assert(delta * 6 > 0) by (nonlinear_arith)
        requires
            delta > 0,
    ;
    assert(diff * 256 / (delta * 6) <= delta * 256 / (delta * 6)) by (nonlinear_arith)
        requires
            delta * 6 > 0,
            diff * 256 <= delta * 256,
    ;
    assert(delta * 256 / (delta * 6) <= 43) by (nonlinear_arith)
        requires
            delta > 0,
    ;
    assert(diff * 256 / (delta * 6) >= 0) by (nonlinear_arith)
        requires
            diff >= 0,
            delta > 0,
    ;
}

/// One channel of [`Pixel::lerp`]: `from` moved `t / 255` of the way
/// toward `to`.
fn lerp_channel(from: u8, to: u8, t: u8) -> (r: u8)
    ensures
        r as int == spec_lerp_channel(from as int, to as int, t as int),
{
    if to >= from {
        proof {
            lemma_channel_product_bound((to - from) as int, t as int);
            assert((to as int - from as int) * (t as int) / 255 <= to as int - from as int)
                by (nonlinear_arith)
                requires
                    0 <= to as int - from as int <= 255,
                    0 <= t <= 255,
            ;
        }
        from + (((to - from) as u16 * t as u16) / 255) as u8
    } else {
        proof {
            lemma_channel_product_bound((from - to) as int, t as int);
            assert((from as int - to as int) * (t as int) / 255 <= from as int - to as int)
                by (nonlinear_arith)
                requires
                    0 <= from as int - to as int <= 255,
                    0 <= t <= 255,
            ;
        }
        from - (((from - to) as u16 * t as u16) / 255) as u8
    }
}

} // verus!

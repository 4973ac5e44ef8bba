//! The 8-bit, 16-bit and 32-bit instances of the envelope value domain.

use vstd::prelude::*;
use crate::math::{clamp_int, mul_div_int, progress_int, sat_add_int, sat_sub_int};
use crate::traits::EnvelopeValue;

verus! {

impl EnvelopeValue for u8 {
    open spec fn to_int(self) -> int {
        self as int
    }

    open spec fn max_int() -> int {
        255
    }

    proof fn lemma_in_range(self) {
    }

    proof fn lemma_max_positive() {
    }

    fn zero() -> u8 {
        0
    }

    fn one() -> u8 {
        1
    }

    fn max_value() -> u8 {
        255
    }

    fn from_progress(elapsed: u32, duration: u32) -> (r: u8)
    {
        let wide: u64 = (elapsed as u64) * 255 / (duration as u64);
        proof {
            assert((elapsed as int) * 255 <= (duration as int) * 255) by (nonlinear_arith)
                requires
                    elapsed <= duration,
            ;
            assert((duration as int) * 255 / (duration as int) == 255) by (nonlinear_arith)
                requires
                    duration > 0,
            ;
            assert((elapsed as int) * 255 / (duration as int) <= (duration as int) * 255 / (duration as int))
                by (nonlinear_arith)
                requires
                    duration > 0,
                    (elapsed as int) * 255 <= (duration as int) * 255,
            ;
            assert((elapsed as int) * 255 / (duration as int) >= 0) by (nonlinear_arith)
                requires
                    duration > 0,
            ;
        }
        wide as u8
    }

    fn saturating_add(self, other: u8) -> (r: u8) {
        if self as u16 + other as u16 > 255 {
            255
        } else {
            self + other
        }
    }

    fn saturating_sub(self, other: u8) -> (r: u8) {
        if self >= other {
            self - other
        } else {
            0
        }
    }

    fn saturating_mul_div(self, other: u8) -> (r: u8) {
        proof {
            assert((self as int) * (other as int) <= 255 * 255) by (nonlinear_arith)
                requires
                    self <= 255,
                    other <= 255,
            ;
            assert((self as int) * (other as int) / 255 <= 255) by (nonlinear_arith)
                requires
                    self <= 255,
                    other <= 255,
            ;
            assert((self as int) * (other as int) / 255 >= 0) by (nonlinear_arith);
        }
        let wide: u16 = (self as u16) * (other as u16) / 255;
        wide as u8
    }

    fn clamp_value(self, min: u8, max: u8) -> (r: u8) {
        if self < min {
            min
        } else if self > max {
            max
        } else {
            self
        }
    }

    fn le(self, other: u8) -> (r: bool) {
        self <= other
    }

    fn to_u32(self) -> (r: u32) {
        self as u32
    }
}

impl EnvelopeValue for u16 {
    open spec fn to_int(self) -> int {
        self as int
    }

    open spec fn max_int() -> int {
        65535
    }

    proof fn lemma_in_range(self) {
    }

    proof fn lemma_max_positive() {
    }

    fn zero() -> u16 {
        0
    }

    fn one() -> u16 {
        1
    }

    fn max_value() -> u16 {
        65535
    }

    fn from_progress(elapsed: u32, duration: u32) -> (r: u16)
    {
        let wide: u64 = (elapsed as u64) * 65535 / (duration as u64);
        proof {
            assert((elapsed as int) * 65535 <= (duration as int) * 65535) by (nonlinear_arith)
                requires
                    elapsed <= duration,
            ;
            assert((duration as int) * 65535 / (duration as int) == 65535) by (nonlinear_arith)
                requires
                    duration > 0,
            ;
            assert((elapsed as int) * 65535 / (duration as int)
                <= (duration as int) * 65535 / (duration as int)) by (nonlinear_arith)
                requires
                    duration > 0,
                    (elapsed as int) * 65535 <= (duration as int) * 65535,
            ;
            assert((elapsed as int) * 65535 / (duration as int) >= 0) by (nonlinear_arith)
                requires
                    duration > 0,
            ;
        }
        wide as u16
    }

    fn saturating_add(self, other: u16) -> (r: u16) {
        if self as u32 + other as u32 > 65535 {
            65535
        } else {
            self + other
        }
    }

    fn saturating_sub(self, other: u16) -> (r: u16) {
        if self >= other {
            self - other
        } else {
            0
        }
    }

    fn saturating_mul_div(self, other: u16) -> (r: u16) {
        proof {
            assert((self as int) * (other as int) <= 65535 * 65535) by (nonlinear_arith)
                requires
                    self <= 65535,
                    other <= 65535,
            ;
            assert((self as int) * (other as int) / 65535 <= 65535) by (nonlinear_arith)
                requires
                    self <= 65535,
                    other <= 65535,
            ;
            assert((self as int) * (other as int) / 65535 >= 0) by (nonlinear_arith);
        }
        let wide: u32 = (self as u32) * (other as u32) / 65535;
        wide as u16
    }

    fn clamp_value(self, min: u16, max: u16) -> (r: u16) {
        if self < min {
            min
        } else if self > max {
            max
        } else {
            self
        }
    }

    fn le(self, other: u16) -> (r: bool) {
        self <= other
    }

    fn to_u32(self) -> (r: u32) {
        self as u32
    }
}

impl EnvelopeValue for u32 {
    open spec fn to_int(self) -> int {
        self as int
    }

    open spec fn max_int() -> int {
        4294967295
    }

    proof fn lemma_in_range(self) {
    }

    proof fn lemma_max_positive() {
    }

    fn zero() -> u32 {
        0
    }

    fn one() -> u32 {
        1
    }

    fn max_value() -> u32 {
        4294967295
    }

    fn from_progress(elapsed: u32, duration: u32) -> (r: u32)
    {
        let wide: u64 = (elapsed as u64) * 4294967295 / (duration as u64);
        proof {
            assert((elapsed as int) * 4294967295 <= (duration as int) * 4294967295)
                by (nonlinear_arith)
                requires
                    elapsed <= duration,
            ;
            assert((duration as int) * 4294967295 / (duration as int) == 4294967295)
                by (nonlinear_arith)
                requires
                    duration > 0,
            ;
            assert((elapsed as int) * 4294967295 / (duration as int)
                <= (duration as int) * 4294967295 / (duration as int)) by (nonlinear_arith)
                requires
                    duration > 0,
                    (elapsed as int) * 4294967295 <= (duration as int) * 4294967295,
            ;
            assert((elapsed as int) * 4294967295 / (duration as int) >= 0) by (nonlinear_arith)
                requires
                    duration > 0,
            ;
        }
        wide as u32
    }

    fn saturating_add(self, other: u32) -> (r: u32) {
        if self as u64 + other as u64 > 4294967295 {
            4294967295
        } else {
            self + other
        }
    }

    fn saturating_sub(self, other: u32) -> (r: u32) {
        if self >= other {
            self - other
        } else {
            0
        }
    }

    fn saturating_mul_div(self, other: u32) -> (r: u32) {
        proof {
            assert((self as int) * (other as int) <= 4294967295 * 4294967295)
                by (nonlinear_arith)
                requires
                    self <= 4294967295u32,
                    other <= 4294967295u32,
            ;
            assert((self as int) * (other as int) / 4294967295 <= 4294967295)
                by (nonlinear_arith)
                requires
                    self <= 4294967295u32,
                    other <= 4294967295u32,
            ;
            assert((self as int) * (other as int) / 4294967295 >= 0) by (nonlinear_arith);
        }
        let wide: u64 = (self as u64) * (other as u64) / 4294967295;
        wide as u32
    }

    fn clamp_value(self, min: u32, max: u32) -> (r: u32) {
        if self < min {
            min
        } else if self > max {
            max
        } else {
            self
        }
    }

    fn le(self, other: u32) -> (r: bool) {
        self <= other
    }

    fn to_u32(self) -> (r: u32) {
        self
    }
}

} // verus!

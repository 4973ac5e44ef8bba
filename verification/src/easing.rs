//! The easing library: stateless curve-shaping functions over the unit
//! interval, in fixed point. The argument and result run from `0` to
//! `65535`, standing for `0.0` to `1.0`; every curve is exact at both
//! endpoints. The exponential, elastic and back families need runtime
//! transcendentals and live outside this fixed-point engine.

use vstd::prelude::*;
use crate::traits::Easing;

verus! {

/// The fixed-point value standing for `1.0`.
pub const EASE_ONE: u16 = 65535;

/// A nonnegative quotient stays at or below the unit cap when its numerator
/// is at most the cap times the denominator.
proof fn lemma_unit_div(num: int, den: int)
    requires
        den > 0,
        0 <= num <= 65535 * den,
    ensures
        0 <= num / den <= 65535,
{
    assert(num / den <= 65535 * den / den) by (nonlinear_arith)
        requires
            den > 0,
            num <= 65535 * den,
    ;
    assert(65535 * den / den == 65535) by (nonlinear_arith)
        requires
            den > 0,
    ;
    assert(num / den >= 0) by (nonlinear_arith)
        requires
            num >= 0,
            den > 0,
    ;
}

/// The single final division every easing branch ends in.
fn unit_div(num: u128, den: u128) -> (r: u16)
    requires
        den > 0,
        num as int <= 65535 * den as int,
    ensures
        r as int == num as int / den as int,
{
    proof {
        lemma_unit_div(num as int, den as int);
    }
    (num / den) as u16
}

/// The square of a unit-interval value.
fn unit_sq(t: u128) -> (r: u128)
    requires
        t <= 65535,
    ensures
        r as int == t as int * t as int,
        r <= 65535 * 65535,
{
    proof {
        assert(t as int * t as int <= 65535 * 65535) by (nonlinear_arith)
            requires
                t <= 65535,
        ;
        assert(t as int * t as int >= 0) by (nonlinear_arith);
    }
    t * t
}

/// The cube of a unit-interval value.
fn unit_cube(t: u128) -> (r: u128)
    requires
        t <= 65535,
    ensures
        r as int == t as int * t as int * t as int,
        r <= 65535 * 65535 * 65535,
{
    proof {
        assert(t as int * t as int <= 65535 * 65535) by (nonlinear_arith)
            requires
                t <= 65535,
        ;
        assert(t as int * t as int >= 0) by (nonlinear_arith);
        assert((t as int * t as int) * (t as int) <= 65535 * 65535 * 65535) by (nonlinear_arith)
            requires
                t <= 65535,
                0 <= t as int * t as int <= 65535 * 65535,
        ;
        assert((t as int * t as int) * (t as int) >= 0) by (nonlinear_arith)
            requires
                t as int * t as int >= 0,
                t >= 0,
        ;
    }
    t * t * t
}

/// The fourth power of a unit-interval value.
fn unit_pow4(t: u128) -> (r: u128)
    requires
        t <= 65535,
    ensures
        r as int == t as int * t as int * t as int * t as int,
        r <= 65535 * 65535 * 65535 * 65535,
{
    let ttt = unit_cube(t);
    proof {
        assert((t as int * t as int * t as int) * (t as int) <= 65535 * 65535 * 65535 * 65535)
            by (nonlinear_arith)
            requires
                t <= 65535,
                0 <= t as int * t as int * t as int <= 65535 * 65535 * 65535,
        ;
        assert((t as int * t as int * t as int) * (t as int) >= 0) by (nonlinear_arith)
            requires
                t as int * t as int * t as int >= 0,
                t >= 0,
        ;
        assert(t as int * t as int * t as int >= 0) by (nonlinear_arith);
    }
    ttt * t
}

/// The identity curve.
pub struct Linear;

impl Easing for Linear {
    open spec fn spec_ease(&self, t: u16) -> int {
        t as int
    }

    fn ease(&self, t: u16) -> (r: u16) {
        t
    }
}

/// Quadratic acceleration from zero velocity: `t * t`.
pub struct EaseInQuad;

impl Easing for EaseInQuad {
    open spec fn spec_ease(&self, t: u16) -> int {
        (t as int) * (t as int) / 65535int
    }

    fn ease(&self, t: u16) -> (r: u16) {
        let tt = unit_sq(t as u128);
        let r = unit_div(tt, 65535);
        proof {
            assert(0int * 0 / 65535int == 0) by (nonlinear_arith);
            assert(65535int * 65535 / 65535int == 65535) by (nonlinear_arith);
        }
        r
    }
}

/// Quadratic deceleration to zero velocity: `t * (2 - t)`.
pub struct EaseOutQuad;

impl Easing for EaseOutQuad {
    open spec fn spec_ease(&self, t: u16) -> int {
        (t as int) * (2 * 65535int - t as int) / 65535int
    }

    fn ease(&self, t: u16) -> (r: u16) {
        proof {
            assert((t as int) * (2 * 65535 - t as int) <= 65535 * 65535) by (nonlinear_arith)
                requires
                    t <= 65535,
            ;
            assert((t as int) * (2 * 65535 - t as int) >= 0) by (nonlinear_arith)
                requires
                    t <= 65535,
            ;
        }
        let num = (t as u128) * (2 * 65535 - t as u128);
        let r = unit_div(num, 65535);
        proof {
            assert(0int * (2 * 65535int - 0) / 65535int == 0) by (nonlinear_arith);
            assert(65535int * (2 * 65535int - 65535) / 65535int == 65535) by (nonlinear_arith);
        }
        r
    }
}

/// Quadratic acceleration for the first half, quadratic deceleration for
/// the second.
pub struct EaseInOutQuad;

impl Easing for EaseInOutQuad {
    open spec fn spec_ease(&self, t: u16) -> int {
        if 2 * (t as int) < 65535 {
            2 * ((t as int) * (t as int)) / 65535int
        } else {
            (4 * (t as int) * 65535 - 2 * ((t as int) * (t as int)) - 65535int * 65535) / 65535int
        }
    }

    fn ease(&self, t: u16) -> (r: u16) {
        let tt = unit_sq(t as u128);
        if 2 * (t as u32) < 65535 {
            proof {
                assert(2 * ((t as int) * (t as int)) <= 65535 * 65535) by (nonlinear_arith)
                    requires
                        2 * (t as int) < 65535,
                ;
                assert((t as int) * (t as int) >= 0) by (nonlinear_arith);
            }
            let r = unit_div(2 * tt, 65535);
            proof {
                assert(2 * (0int * 0) / 65535int == 0) by (nonlinear_arith);
            }
            r
        } else {
            proof {
                assert(4 * (t as int) * 65535 - 2 * ((t as int) * (t as int)) - 65535 * 65535 >= 0)
                    by (nonlinear_arith)
                    requires
                        2 * (t as int) >= 65535,
                        t <= 65535,
                ;
                assert(4 * (t as int) * 65535 - 2 * ((t as int) * (t as int)) - 65535 * 65535
                    <= 65535 * 65535) by (nonlinear_arith)
                    requires
                        t <= 65535,
                ;
                assert((4 * (t as int)) * 65535 == 4 * (t as int) * 65535);
            }
            let scaled = (4 * (t as u128)) * 65535;
            let num = scaled - 2 * tt - 65535 * 65535;
            let r = unit_div(num, 65535);
            proof {
                assert((4 * 65535int * 65535 - 2 * (65535int * 65535) - 65535int * 65535)
                    / 65535int == 65535) by (nonlinear_arith);
            }
            r
        }
    }
}

/// Cubic acceleration from zero velocity: `t^3`.
pub struct EaseInCubic;

impl Easing for EaseInCubic {
    open spec fn spec_ease(&self, t: u16) -> int {
        (t as int) * (t as int) * (t as int) / (65535int * 65535)
    }

    fn ease(&self, t: u16) -> (r: u16) {
        let ttt = unit_cube(t as u128);
        let r = unit_div(ttt, 65535 * 65535);
        proof {
            assert(0int * 0 * 0 / (65535int * 65535) == 0) by (nonlinear_arith);
            assert(65535int * 65535 * 65535 / (65535int * 65535) == 65535) by (nonlinear_arith);
        }
        r
    }
}

/// Cubic deceleration to zero velocity: `1 + (t - 1)^3`.
pub struct EaseOutCubic;

impl Easing for EaseOutCubic {
    open spec fn spec_ease(&self, t: u16) -> int {
        let back = 65535 - t as int;
        (65535int * 65535 * 65535 - back * back * back) / (65535int * 65535)
    }

    fn ease(&self, t: u16) -> (r: u16) {
        let bbb = unit_cube(65535 - t as u128);
        let num = 65535 * 65535 * 65535 - bbb;
        let r = unit_div(num, 65535 * 65535);
        proof {
            assert((65535int * 65535 * 65535 - 65535int * 65535 * 65535) / (65535int * 65535)
                == 0) by (nonlinear_arith);
            assert((65535int * 65535 * 65535 - 0int * 0 * 0) / (65535int * 65535) == 65535)
                by (nonlinear_arith);
        }
        r
    }
}

/// Cubic acceleration for the first half, cubic deceleration for the
/// second.
pub struct EaseInOutCubic;

impl Easing for EaseInOutCubic {
    open spec fn spec_ease(&self, t: u16) -> int {
        if 2 * (t as int) < 65535 {
            4 * ((t as int) * (t as int) * (t as int)) / (65535int * 65535)
        } else {
            let back = 65535 - t as int;
            (65535int * 65535 * 65535 - 4 * (back * back * back)) / (65535int * 65535)
        }
    }

    fn ease(&self, t: u16) -> (r: u16) {
        if 2 * (t as u32) < 65535 {
            let ttt = unit_cube(t as u128);
            proof {
                assert(4 * ((t as int) * (t as int) * (t as int)) <= 65535 * (65535 * 65535))
                    by (nonlinear_arith)
                    requires
                        2 * (t as int) < 65535,
                ;
                assert((t as int) * (t as int) * (t as int) >= 0) by (nonlinear_arith);
                assert(4 * (0int * 0 * 0) / (65535int * 65535) == 0) by (nonlinear_arith);
            }
            unit_div(4 * ttt, 65535 * 65535)
        } else {
            let bbb = unit_cube(65535 - t as u128);
            proof {
                let b = 65535int - t as int;
                assert(4 * (b * b * b) <= 65535 * 65535 * 65535) by (nonlinear_arith)
                    requires
                        2 * (t as int) >= 65535,
                        t <= 65535,
                        b == 65535int - t as int,
                ;
                assert(b * b * b >= 0) by (nonlinear_arith)
                    requires
                        b >= 0,
                ;
            }
            let num = 65535 * 65535 * 65535 - 4 * bbb;
            let r = unit_div(num, 65535 * 65535);
            proof {
                assert((65535int * 65535 * 65535 - 4 * (0int * 0 * 0)) / (65535int * 65535)
                    == 65535) by (nonlinear_arith);
            }
            r
        }
    }
}

/// Quartic acceleration from zero velocity: `t^4`.
pub struct EaseInQuart;

impl Easing for EaseInQuart {
    open spec fn spec_ease(&self, t: u16) -> int {
        (t as int) * (t as int) * (t as int) * (t as int) / (65535int * 65535 * 65535)
    }

    fn ease(&self, t: u16) -> (r: u16) {
        let t4 = unit_pow4(t as u128);
        let r = unit_div(t4, 65535 * 65535 * 65535);
        proof {
            assert(0int * 0 * 0 * 0 / (65535int * 65535 * 65535) == 0) by (nonlinear_arith);
            assert(65535int * 65535 * 65535 * 65535 / (65535int * 65535 * 65535) == 65535)
                by (nonlinear_arith);
        }
        r
    }
}

/// Quartic deceleration to zero velocity: `1 - (t - 1)^4`.
pub struct EaseOutQuart;

impl Easing for EaseOutQuart {
    open spec fn spec_ease(&self, t: u16) -> int {
        let back = 65535 - t as int;
        (65535int * 65535 * 65535 * 65535 - back * back * back * back) / (65535int * 65535 * 65535)
    }

    fn ease(&self, t: u16) -> (r: u16) {
        let b4 = unit_pow4(65535 - t as u128);
        let num = 65535 * 65535 * 65535 * 65535 - b4;
        let r = unit_div(num, 65535 * 65535 * 65535);
        proof {
            assert((65535int * 65535 * 65535 * 65535 - 65535int * 65535 * 65535 * 65535) / (
            65535int * 65535 * 65535) == 0) by (nonlinear_arith);
            assert((65535int * 65535 * 65535 * 65535 - 0int * 0 * 0 * 0) / (65535int * 65535
                * 65535) == 65535) by (nonlinear_arith);
        }
        r
    }
}

/// Quartic acceleration for the first half, quartic deceleration for the
/// second.
pub struct EaseInOutQuart;

impl Easing for EaseInOutQuart {
    open spec fn spec_ease(&self, t: u16) -> int {
        if 2 * (t as int) < 65535 {
            8 * ((t as int) * (t as int) * (t as int) * (t as int)) / (65535int * 65535 * 65535)
        } else {
            let back = 65535 - t as int;
            (65535int * 65535 * 65535 * 65535 - 8 * (back * back * back * back)) / (65535int
                * 65535 * 65535)
        }
    }

    fn ease(&self, t: u16) -> (r: u16) {
        if 2 * (t as u32) < 65535 {
            let t4 = unit_pow4(t as u128);
            proof {
                assert(8 * ((t as int) * (t as int) * (t as int) * (t as int)) <= 65535 * (65535
                    * 65535 * 65535)) by (nonlinear_arith)
                    requires
                        2 * (t as int) < 65535,
                ;
                assert((t as int) * (t as int) * (t as int) * (t as int) >= 0) by (nonlinear_arith);
                assert(8 * (0int * 0 * 0 * 0) / (65535int * 65535 * 65535) == 0)
                    by (nonlinear_arith);
            }
            unit_div(8 * t4, 65535 * 65535 * 65535)
        } else {
            let b4 = unit_pow4(65535 - t as u128);
            proof {
                let b = 65535int - t as int;
                assert(8 * (b * b * b * b) <= 65535 * 65535 * 65535 * 65535) by (nonlinear_arith)
                    requires
                        2 * (t as int) >= 65535,
                        t <= 65535,
                        b == 65535int - t as int,
                ;
                assert(b * b * b * b >= 0) by (nonlinear_arith);
            }
            let num = 65535 * 65535 * 65535 * 65535 - 8 * b4;
            let r = unit_div(num, 65535 * 65535 * 65535);
            proof {
                assert((65535int * 65535 * 65535 * 65535 - 8 * (0int * 0 * 0 * 0)) / (65535int
                    * 65535 * 65535) == 65535) by (nonlinear_arith);
            }
            r
        }
    }
}

/// The four-segment piecewise parabola of the bounce family, expressed over
/// the fixed-point unit interval with the classical constants `7.5625` and
/// `2.75` as exact rationals.
pub open spec fn spec_bounce_out(t: int) -> int {
    if 11 * t < 4 * 65535 {
        121 * (t * t) / (16 * 65535int)
    } else if 11 * t < 8 * 65535 {
        let u = 11 * t - 6 * 65535;
        (u * u + 12 * (65535int * 65535)) / (16 * 65535int)
    } else if 11 * t < 10 * 65535 {
        let u = 11 * t - 9 * 65535;
        (u * u + 15 * (65535int * 65535)) / (16 * 65535int)
    } else {
        let u = 22 * t - 21 * 65535;
        (u * u + 63 * (65535int * 65535)) / (64 * 65535int)
    }
}

/// The shared executable body of the bounce family.
fn bounce_out(t: u16) -> (r: u16)
    ensures
        r as int == spec_bounce_out(t as int),
        t == 0 ==> r == 0,
        t == 65535 ==> r == 65535,
{
    let t128 = t as u128;
    if 11 * t128 < 4 * 65535 {
        let tt = unit_sq(t128);
        proof {
            assert(121 * ((t as int) * (t as int)) <= 65535 * (16 * 65535)) by (nonlinear_arith)
                requires
                    0 <= 11 * (t as int) < 4 * 65535,
            ;
            assert((t as int) * (t as int) >= 0) by (nonlinear_arith);
            assert(121 * (0int * 0) / (16 * 65535int) == 0) by (nonlinear_arith);
        }
        unit_div(121 * tt, 16 * 65535)
    } else if 11 * t128 < 8 * 65535 {
        let u: u128 = if 11 * t128 >= 6 * 65535 {
            11 * t128 - 6 * 65535
        } else {
            6 * 65535 - 11 * t128
        };
        proof {
            let ui = 11 * (t as int) - 6 * 65535;
            assert(u as int * u as int == ui * ui) by (nonlinear_arith)
                requires
                    u as int == ui || u as int == -ui,
            ;
            assert(u as int * u as int <= (2 * 65535int) * (2 * 65535int)) by (nonlinear_arith)
                requires
                    0 <= u <= 2 * 65535,
            ;
            assert(ui * ui + 12 * (65535int * 65535) <= 65535 * (16 * 65535)) by (nonlinear_arith)
                requires
                    ui == 11 * (t as int) - 6 * 65535,
                    4 * 65535 <= 11 * (t as int) < 8 * 65535,
            ;
            assert(ui * ui >= 0) by (nonlinear_arith);
        }
        let uu = u * u;
        unit_div(uu + 12 * (65535 * 65535), 16 * 65535)
    } else if 11 * t128 < 10 * 65535 {
        let u: u128 = if 11 * t128 >= 9 * 65535 {
            11 * t128 - 9 * 65535
        } else {
            9 * 65535 - 11 * t128
        };
        proof {
            let ui = 11 * (t as int) - 9 * 65535;
            assert(u as int * u as int == ui * ui) by (nonlinear_arith)
                requires
                    u as int == ui || u as int == -ui,
            ;
            assert(u as int * u as int <= 65535int * 65535) by (nonlinear_arith)
                requires
                    0 <= u <= 65535,
            ;
            assert(ui * ui + 15 * (65535int * 65535) <= 65535 * (16 * 65535)) by (nonlinear_arith)
                requires
                    ui == 11 * (t as int) - 9 * 65535,
                    8 * 65535 <= 11 * (t as int) < 10 * 65535,
            ;
            assert(ui * ui >= 0) by (nonlinear_arith);
        }
        let uu = u * u;
        unit_div(uu + 15 * (65535 * 65535), 16 * 65535)
    } else {
        let u: u128 = if 22 * t128 >= 21 * 65535 {
            22 * t128 - 21 * 65535
        } else {
            21 * 65535 - 22 * t128
        };
        proof {
            let ui = 22 * (t as int) - 21 * 65535;
            assert(u as int * u as int == ui * ui) by (nonlinear_arith)
                requires
                    u as int == ui || u as int == -ui,
            ;
            assert(u as int * u as int <= 65535int * 65535) by (nonlinear_arith)
                requires
                    0 <= u <= 65535,
            ;
            assert(ui * ui + 63 * (65535int * 65535) <= 65535 * (64 * 65535)) by (nonlinear_arith)
                requires
                    ui == 22 * (t as int) - 21 * 65535,
                    10 * 65535 <= 11 * (t as int),
                    t <= 65535,
            ;
            assert(ui * ui >= 0) by (nonlinear_arith);
        }
        let uu = u * u;
        let r = unit_div(uu + 63 * (65535 * 65535), 64 * 65535);
        proof {
            assert((65535int * 65535 + 63 * (65535int * 65535)) / (64 * 65535int) == 65535)
                by (nonlinear_arith);
        }
        r
    }
}

/// Bounce deceleration: three diminishing rebounds after the main drop.
pub struct BounceOut;

impl Easing for BounceOut {
    open spec fn spec_ease(&self, t: u16) -> int {
        spec_bounce_out(t as int)
    }

    fn ease(&self, t: u16) -> (r: u16) {
        bounce_out(t)
    }
}

/// Bounce acceleration: the mirror image of [`BounceOut`].
pub struct BounceIn;

impl Easing for BounceIn {
    open spec fn spec_ease(&self, t: u16) -> int {
        65535int - spec_bounce_out(65535int - t as int)
    }

    fn ease(&self, t: u16) -> (r: u16) {
        let inner = bounce_out(65535 - t);
        proof {
            lemma_bounce_out_in_range(65535int - t as int);
        }
        65535 - inner
    }
}

/// Bounce acceleration for the first half, bounce deceleration for the
/// second.
pub struct BounceInOut;

impl Easing for BounceInOut {
    open spec fn spec_ease(&self, t: u16) -> int {
        if 2 * (t as int) < 65535 {
            (65535int - spec_bounce_out(65535int - 2 * (t as int))) / 2
        } else {
            (65535int + spec_bounce_out(2 * (t as int) - 65535int)) / 2
        }
    }

    fn ease(&self, t: u16) -> (r: u16) {
        if 2 * (t as u32) < 65535 {
            let inner = bounce_out(65535 - 2 * t);
            proof {
                lemma_bounce_out_in_range(65535int - 2 * (t as int));
            }
            (65535 - inner) / 2
        } else {
            let arg = (2 * (t as u32) - 65535) as u16;
            let inner = bounce_out(arg);
            proof {
                lemma_bounce_out_in_range(2 * (t as int) - 65535int);
            }
            ((65535 + inner as u32) / 2) as u16
        }
    }
}

/// The bounce curve never leaves the unit interval.
proof fn lemma_bounce_out_in_range(t: int)
    requires
        0 <= t <= 65535,
    ensures
        0 <= spec_bounce_out(t) <= 65535,
{
    if 11 * t < 4 * 65535 {
        assert(121 * (t * t) <= 65535 * (16 * 65535)) by (nonlinear_arith)
            requires
                0 <= t,
                11 * t < 4 * 65535,
        ;
        assert(t * t >= 0) by (nonlinear_arith);
        lemma_unit_div(121 * (t * t), 16 * 65535int);
    } else if 11 * t < 8 * 65535 {
        let u = 11 * t - 6 * 65535;
        assert(u * u + 12 * (65535int * 65535) <= 65535 * (16 * 65535)) by (nonlinear_arith)
            requires
                u == 11 * t - 6 * 65535,
                4 * 65535 <= 11 * t < 8 * 65535,
        ;
        assert(u * u >= 0) by (nonlinear_arith);
        lemma_unit_div(u * u + 12 * (65535int * 65535), 16 * 65535int);
    } else if 11 * t < 10 * 65535 {
        let u = 11 * t - 9 * 65535;
        assert(u * u + 15 * (65535int * 65535) <= 65535 * (16 * 65535)) by (nonlinear_arith)
            requires
                u == 11 * t - 9 * 65535,
                8 * 65535 <= 11 * t < 10 * 65535,
        ;
        assert(u * u >= 0) by (nonlinear_arith);
        lemma_unit_div(u * u + 15 * (65535int * 65535), 16 * 65535int);
    } else {
        let u = 22 * t - 21 * 65535;
        assert(u * u + 63 * (65535int * 65535) <= 65535 * (64 * 65535)) by (nonlinear_arith)
            requires
                u == 22 * t - 21 * 65535,
                10 * 65535 <= 11 * t,
                t <= 65535,
        ;
        assert(u * u >= 0) by (nonlinear_arith);
        lemma_unit_div(u * u + 63 * (65535int * 65535), 64 * 65535int);
    }
}

} // verus!

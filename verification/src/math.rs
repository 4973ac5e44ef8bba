//! Integer models of the saturating fixed-point arithmetic that the whole
//! engine is specified against.

use vstd::prelude::*;

verus! {

/// The value `elapsed / duration` of the way from `0` to `max`, rounded down.
pub open spec fn progress_int(elapsed: int, duration: int, max: int) -> int {
    elapsed * max / duration
}

/// Addition that saturates at `max`.
pub open spec fn sat_add_int(a: int, b: int, max: int) -> int {
    if a + b > max {
        max
    } else {
        a + b
    }
}

/// Subtraction that saturates at `0`.
pub open spec fn sat_sub_int(a: int, b: int) -> int {
    if a >= b {
        a - b
    } else {
        0
    }
}

/// The fixed-point product of two fractions of `max`: `a * b / max`.
pub open spec fn mul_div_int(a: int, b: int, max: int) -> int {
    a * b / max
}

/// `v` constrained to `[lo, hi]`.
pub open spec fn clamp_int(v: int, lo: int, hi: int) -> int {
    if v < lo {
        lo
    } else if v > hi {
        hi
    } else {
        v
    }
}

/// Saturating subtraction on `u32`, the elapsed-time computation used by
/// every envelope: sampling before `start_time` yields elapsed time `0`.
pub fn elapsed_since(now: u32, start_time: u32) -> (r: u32)
    ensures
        r == sat_sub_int(now as int, start_time as int),
{
    if now >= start_time {
        now - start_time
    } else {
        0
    }
}

} // verus!

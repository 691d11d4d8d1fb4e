//! Fixed-point scalars for the vehicle model.
//!
//! Every physical quantity is carried as an `i64` holding the quantity
//! multiplied by [`SCALE`]: one raw unit is one millionth of the physical
//! unit. Products and quotients of such numbers are computed in `i128`
//! and rescaled with a division that truncates toward zero, which is
//! exactly what the hardware division of Rust's signed integers does.

use vstd::prelude::*;

verus! {

/// Raw units per physical unit.
pub const SCALE: i64 = 1_000_000;

/// Upper bound on every configuration parameter, in raw units
/// (one thousand physical units).
pub const PARAM_LIMIT: i64 = 1_000_000_000;

/// Upper bound on a time step, in raw units (one thousand seconds).
pub const DT_LIMIT: i64 = 1_000_000_000;

/// Division truncating toward zero (the semantics of `/` on `i64`/`i128`),
/// as opposed to the Euclidean `/` of ghost arithmetic.
pub open spec fn div_t(a: int, b: int) -> int {
    if a >= 0 {
        a / b
    } else {
        -((-a) / b)
    }
}

pub open spec fn min_s(a: int, b: int) -> int {
    if a < b {
        a
    } else {
        b
    }
}

pub open spec fn max_s(a: int, b: int) -> int {
    if a > b {
        a
    } else {
        b
    }
}

pub open spec fn abs_s(a: int) -> int {
    if a >= 0 {
        a
    } else {
        -a
    }
}

/// Sign of `a`: `-1`, `0` or `1`.
pub open spec fn sgn_s(a: int) -> int {
    if a > 0 {
        1
    } else if a < 0 {
        -1
    } else {
        0
    }
}

pub open spec fn clamp_s(x: int, lo: int, hi: int) -> int {
    if x < lo {
        lo
    } else if x > hi {
        hi
    } else {
        x
    }
}

/// Saturation to the `i64` range, for the two quantities (heading and
/// position) that accumulate without a modelled bound.
pub open spec fn sat64(x: int) -> int {
    clamp_s(x, i64::MIN as int, i64::MAX as int)
}

/// Truncating division never grows a magnitude and never flips a sign.
pub proof fn lemma_div_t_shrinks(x: int, d: int)
    requires
        d >= 1,
    ensures
        x >= 0 ==> 0 <= div_t(x, d) <= x,
        x <= 0 ==> x <= div_t(x, d) <= 0,
{
    if x >= 0 {
        assert(0 <= x / d <= x) by (nonlinear_arith)
            requires
                x >= 0,
                d >= 1,
        ;
    } else {
        assert(0 <= (-x) / d <= -x) by (nonlinear_arith)
            requires
                -x >= 0,
                d >= 1,
        ;
    }
}

/// Truncating division is monotone in the dividend for non-negative dividends.
pub proof fn lemma_div_t_ordered(x: int, y: int, d: int)
    requires
        d >= 1,
        0 <= x <= y,
    ensures
        div_t(x, d) <= div_t(y, d),
{
    assert(x / d <= y / d) by (nonlinear_arith)
        requires
            d >= 1,
            0 <= x <= y,
    ;
}

} // verus!

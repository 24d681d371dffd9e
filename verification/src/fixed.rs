//! Fixed-point ground layer: the scales the library computes at, the
//! truncating division that all scaling steps use, and clamping.

use vstd::prelude::*;

verus! {

/// One model unit, in ticks: coordinates and quaternion components are
/// integers counting `SCALE`-ths of a unit (five decimal digits).
pub const SCALE: i64 = 100_000;

/// Saturation bound for orientation components: sixteen units.  A genuine
/// rotation history keeps components within one unit or so; the bound only
/// keeps every computation total.
pub const QMAX: i64 = 1_600_000;

/// Largest magnitude of a model coordinate: ten thousand units.
pub const COORD_LIMIT: i64 = 1_000_000_000;

/// Largest canvas centre coordinate and side length, in milli-pixels.
pub const CANVAS_LIMIT: i64 = 1_000_000_000;

/// Saturation bound for the pan offset, in milli-pixels (a billion pixels).
pub const PAN_LIMIT: i64 = 1_000_000_000_000;

/// Division by a positive divisor, truncating toward zero, as the machine
/// division does.
pub open spec fn tdiv(a: int, b: int) -> int
    recommends
        b > 0,
{
    if a >= 0 {
        a / b
    } else {
        -((-a) / b)
    }
}

/// Clamp `v` into `[lo, hi]`.
pub open spec fn clip(v: int, lo: int, hi: int) -> int
    recommends
        lo <= hi,
{
    if v < lo {
        lo
    } else if v > hi {
        hi
    } else {
        v
    }
}

/// Clamp a wide intermediate value into the `i64` range.
pub open spec fn sat64(v: int) -> int {
    clip(v, i64::MIN as int, i64::MAX as int)
}

/// `|a| <= aa` and `|b| <= bb` bound the product by `aa * bb`.
pub proof fn lemma_mul_bound(a: int, b: int, aa: int, bb: int)
    requires
        -aa <= a <= aa,
        -bb <= b <= bb,
    ensures
        -(aa * bb) <= a * b <= aa * bb,
{
    assert(-(aa * bb) <= a * b <= aa * bb) by (nonlinear_arith)
        requires
            -aa <= a <= aa,
            -bb <= b <= bb,
    ;
}

/// Truncating division never grows the magnitude, and a bound `aa` on the
/// numerator carries over to the bound `aa / b` on the quotient.
pub proof fn lemma_tdiv_bound(a: int, b: int, aa: int)
    requires
        b > 0,
        -aa <= a <= aa,
    ensures
        -(aa / b) <= tdiv(a, b) <= aa / b,
        -aa <= tdiv(a, b) <= aa,
{
    vstd::arithmetic::div_mod::lemma_div_pos_is_pos(aa, b);
    vstd::arithmetic::div_mod::lemma_div_nonincreasing(aa, b);
    if a >= 0 {
        vstd::arithmetic::div_mod::lemma_div_pos_is_pos(a, b);
        vstd::arithmetic::div_mod::lemma_div_is_ordered(a, aa, b);
    } else {
        vstd::arithmetic::div_mod::lemma_div_pos_is_pos(-a, b);
        vstd::arithmetic::div_mod::lemma_div_is_ordered(-a, aa, b);
    }
}

} // verus!

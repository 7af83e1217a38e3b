use vstd::prelude::*;
use vstd::arithmetic::div_mod::lemma_div_is_ordered;

verus! {

/// Absolute value.
pub open spec fn abs(x: int) -> int {
    if x < 0 {
        -x
    } else {
        x
    }
}

/// Quotient of `x` by `d`, rounded toward zero.
pub open spec fn tdiv(x: int, d: int) -> int {
    if (x < 0) == (d < 0) {
        abs(x) / abs(d)
    } else {
        -(abs(x) / abs(d))
    }
}

/// Remainder of `x` by `d`, with the sign of `x`.
pub open spec fn trem(x: int, d: int) -> int {
    if x < 0 {
        -(abs(x) % abs(d))
    } else {
        abs(x) % abs(d)
    }
}

/// A quotient rounded toward zero is no larger in size than the dividend, and
/// fits in an `i128` unless it is `i128::MIN` divided by `-1`.
pub proof fn lemma_tdiv_fits(x: i128, d: i128)
    requires
        d != 0,
        !(x == i128::MIN && d == -1),
    ensures
        abs(tdiv(x as int, d as int)) <= abs(x as int),
        i128::MIN <= tdiv(x as int, d as int) <= i128::MAX,
{
    let a = abs(x as int);
    let b = abs(d as int);
    assert(a / b <= a) by (nonlinear_arith)
        requires
            a >= 0,
            b >= 1,
    ;
    assert(b == 1 || a / b <= a / 2) by (nonlinear_arith)
        requires
            a >= 0,
            b >= 1,
    ;
    assert(a / 1 == a);
}

/// Dividing by a positive number keeps the order of dividends.
pub proof fn lemma_tdiv_monotonic(x: int, y: int, d: int)
    requires
        x <= y,
        d > 0,
    ensures
        tdiv(x, d) <= tdiv(y, d),
{
    if 0 <= x {
        lemma_div_is_ordered(x, y, d);
    } else if y < 0 {
        lemma_div_is_ordered(-y, -x, d);
    } else {
        lemma_div_is_ordered(0, -x, d);
        lemma_div_is_ordered(0, y, d);
    }
}

} // verus!

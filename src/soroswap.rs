use vstd::prelude::*;
use vstd::arithmetic::div_mod::lemma_mod_pos_bound;
use crate::arith::{abs, lemma_tdiv_fits, tdiv, trem};

verus! {

/// Quotient rounded toward zero, then raised by one when the division is inexact.
pub open spec fn ceiling_div_spec(x: int, y: int) -> int {
    if trem(x, y) != 0 {
        tdiv(x, y) + 1
    } else {
        tdiv(x, y)
    }
}

pub fn checked_ceiling_div(x: i128, y: i128) -> (r: i128)
    requires
        y != 0,
        i128::MIN <= ceiling_div_spec(x as int, y as int) <= i128::MAX,
        !(x == i128::MIN && y == -1),
    ensures
        r == ceiling_div_spec(x as int, y as int),
{
    proof {
        lemma_mod_pos_bound(abs(x as int), abs(y as int));
    }
    let q = x.checked_div(y).unwrap();
    let m = x.checked_rem(y).unwrap();
    if m != 0 {
        q + 1
    } else {
        q
    }
}

/// Share of the input that a Soroswap pair keeps as its fee, in parts per ten thousand.
pub const SOROSWAP_FEE: i128 = 30;

pub const SOROSWAP_FEEM: i128 = 10_000;

/// Fee that a Soroswap pair takes from `amount_in`: rounded up.
pub open spec fn soroswap_fee(amount_in: int) -> int {
    ceiling_div_spec(amount_in * SOROSWAP_FEE, SOROSWAP_FEEM as int)
}

/// Constant-product output for `amount_in` less the pair's fee, selling into
/// `reserve_x` and buying out of `reserve_y`.
pub open spec fn soroswap_out(amount_in: int, reserve_x: int, reserve_y: int) -> int {
    let less_fee = amount_in - soroswap_fee(amount_in);
    tdiv(less_fee * reserve_y, reserve_x + less_fee)
}

/// The reserve sold into comes first, the one bought from second.
pub open spec fn oriented(reserves: (i128, i128), reverse: bool) -> (int, int) {
    if reverse {
        (reserves.1 as int, reserves.0 as int)
    } else {
        (reserves.0 as int, reserves.1 as int)
    }
}

/// Every intermediate value of the Soroswap output formula fits in an `i128`,
/// and the divisor is non-zero.
pub open spec fn soroswap_out_defined(amount_in: int, reserve_x: int, reserve_y: int) -> bool {
    let less_fee = amount_in - soroswap_fee(amount_in);
    let num = less_fee * reserve_y;
    let den = reserve_x + less_fee;
    &&& i128::MIN <= amount_in * SOROSWAP_FEE <= i128::MAX
    &&& i128::MIN <= less_fee <= i128::MAX
    &&& i128::MIN <= num <= i128::MAX
    &&& i128::MIN <= den <= i128::MAX
    &&& den != 0
    &&& !(num == i128::MIN && den == -1)
}

/// Estimated output of a Soroswap pair for `amount_in`; `reverse` sells into
/// the second reserve.
pub fn calc_soroswap_amount_out(amount_in: i128, reserves: &(i128, i128), reverse: bool) -> (r: i128)
    requires
        soroswap_out_defined(amount_in as int, oriented(*reserves, reverse).0, oriented(*reserves, reverse).1),
    ensures
        r == soroswap_out(amount_in as int, oriented(*reserves, reverse).0, oriented(*reserves, reverse).1),
{
    let reserve_x: i128;
    let reserve_y: i128;
    if reverse {
        reserve_x = reserves.1;
        reserve_y = reserves.0;
    } else {
        reserve_x = reserves.0;
        reserve_y = reserves.1;
    }
    let scaled = amount_in * SOROSWAP_FEE;
    proof {
        let a = abs(scaled as int);
        assert(a == 0 || a / 10000 + 1 <= a) by (nonlinear_arith)
            requires
                a >= 0,
        ;
    }
    let fee = checked_ceiling_div(scaled, SOROSWAP_FEEM);
    let amount_in_less_fee = amount_in - fee;
    let numerator = amount_in_less_fee * reserve_y;
    let denominator = reserve_x + amount_in_less_fee;
    proof {
        lemma_tdiv_fits(numerator, denominator);
    }
    numerator.checked_div(denominator).unwrap()
}

/// Estimated output of a Soroswap pair, or `None` where the formula leaves the
/// range of `i128` or divides by zero.
pub fn checked_soroswap_amount_out(amount_in: i128, reserves: &(i128, i128), reverse: bool) -> (r: Option<i128>)
    ensures
        r is Some <==> soroswap_out_defined(amount_in as int, oriented(*reserves, reverse).0, oriented(*reserves, reverse).1),
        r is Some ==> r->0 == soroswap_out(amount_in as int, oriented(*reserves, reverse).0, oriented(*reserves, reverse).1),
{
    let (reserve_x, reserve_y) = if reverse {
        (reserves.1, reserves.0)
    } else {
        (reserves.0, reserves.1)
    };
    let scaled = match amount_in.checked_mul(SOROSWAP_FEE) {
        Some(v) => v,
        None => {
            return None;
        },
    };
    proof {
        let a = abs(scaled as int);
        assert(a == 0 || a / 10000 + 1 <= a) by (nonlinear_arith)
            requires
                a >= 0,
        ;
    }
    let fee = checked_ceiling_div(scaled, SOROSWAP_FEEM);
    let less_fee = match amount_in.checked_sub(fee) {
        Some(v) => v,
        None => {
            return None;
        },
    };
    let numerator = less_fee.checked_mul(reserve_y);
    let denominator = reserve_x.checked_add(less_fee);
    match (numerator, denominator) {
        (Some(n), Some(d)) => {
            if d == 0 || (n == i128::MIN && d == -1) {
                None
            } else {
                Some(calc_soroswap_amount_out(amount_in, reserves, reverse))
            }
        },
        _ => None,
    }
}

/// The pair of amounts that a Soroswap pair is asked to pay out for a hop that
/// buys the side `bi`: the estimated output on that side, nothing on the other.
pub open spec fn soroswap_outputs_spec(out: int, bi: u32) -> (int, int) {
    if bi == 0 {
        (out, 0)
    } else {
        (0, out)
    }
}

/// What to ask a Soroswap pair to pay out when `amount_in` has been sent to it
/// and it holds `reserves`; `bi` is the side bought. `None` where the estimate
/// is not defined.
pub fn soroswap_swap_outputs(amount_in: i128, reserves: &(i128, i128), bi: u32) -> (r: Option<(i128, i128)>)
    requires
        bi == 0 || bi == 1,
    ensures
        r is Some <==> soroswap_out_defined(amount_in as int, oriented(*reserves, bi == 0).0, oriented(*reserves, bi == 0).1),
        r is Some ==> ((r->0).0 as int, (r->0).1 as int) == soroswap_outputs_spec(
            soroswap_out(amount_in as int, oriented(*reserves, bi == 0).0, oriented(*reserves, bi == 0).1),
            bi,
        ),
{
    match checked_soroswap_amount_out(amount_in, reserves, bi == 0) {
        Some(out) => {
            if bi == 0 {
                Some((out, 0))
            } else {
                Some((0, out))
            }
        },
        None => None,
    }
}

} // verus!

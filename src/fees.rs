use vstd::prelude::*;
use vstd::arithmetic::mul::lemma_mul_inequality;
use crate::arith::{lemma_tdiv_fits, lemma_tdiv_monotonic, tdiv};

verus! {

/// Rates are given in parts per thousand.
pub const FEE_DENOMINATOR: i128 = 1000;

/// What the swap earned over its estimate; nothing when it fell short.
pub open spec fn profit(estimated: int, actual: int) -> int {
    if actual > estimated {
        actual - estimated
    } else {
        0
    }
}

/// `share` parts per thousand of `amount`, rounded toward zero.
pub open spec fn fee_share(amount: int, share: int) -> int {
    tdiv(amount * share, FEE_DENOMINATOR as int)
}

/// The fee charged on a swap: a share of the profit plus a flat share of what
/// was bought, both taken on the amounts before the fee.
pub open spec fn swap_fee(estimated: int, bought: int, vfee: int, ffee: int) -> int {
    fee_share(profit(estimated, bought), vfee) + fee_share(bought, ffee)
}

/// Each step of the fee computation stays within `i128`.
pub open spec fn swap_fee_defined(estimated: int, bought: int, vfee: int, ffee: int) -> bool {
    let p = profit(estimated, bought);
    &&& p <= i128::MAX
    &&& i128::MIN <= p * vfee <= i128::MAX
    &&& i128::MIN <= bought * ffee <= i128::MAX
    &&& i128::MIN <= swap_fee(estimated, bought, vfee, ffee) <= i128::MAX
}

/// Profit of `actual` over `estimated`, or zero when there is none.
pub fn calc_profit(estimated: i128, actual: i128) -> (r: i128)
    requires
        profit(estimated as int, actual as int) <= i128::MAX,
    ensures
        r == profit(estimated as int, actual as int),
{
    if actual <= estimated {
        0
    } else {
        actual - estimated
    }
}

/// `share` parts per thousand of `amount`, rounded toward zero.
pub fn calc_fee(amount: i128, share: u32) -> (r: i128)
    requires
        i128::MIN <= amount * share <= i128::MAX,
    ensures
        r == fee_share(amount as int, share as int),
{
    let scaled = amount * (share as i128);
    proof {
        lemma_tdiv_fits(scaled, FEE_DENOMINATOR);
    }
    scaled.checked_div(FEE_DENOMINATOR).unwrap()
}

/// The fee on a swap that bought `bought` against an estimate of `estimated`,
/// or `None` where the computation leaves the range of `i128`.
pub fn charged_fee(estimated: i128, bought: i128, vfee: u32, ffee: u32) -> (r: Option<i128>)
    ensures
        r is Some <==> swap_fee_defined(estimated as int, bought as int, vfee as int, ffee as int),
        r is Some ==> r->0 == swap_fee(estimated as int, bought as int, vfee as int, ffee as int),
{
    let p: i128 = if bought <= estimated {
        0
    } else {
        match bought.checked_sub(estimated) {
            Some(d) => d,
            None => {
                return None;
            },
        }
    };
    if p.checked_mul(vfee as i128).is_none() || bought.checked_mul(ffee as i128).is_none() {
        return None;
    }
    let variable = calc_fee(p, vfee);
    let fixed = calc_fee(bought, ffee);
    variable.checked_add(fixed)
}

/// The fee never decreases as the amount bought grows, for fixed rates and
/// estimate.
pub proof fn lemma_fee_monotonic(estimated: int, b1: int, b2: int, vfee: nat, ffee: nat)
    requires
        b1 <= b2,
    ensures
        swap_fee(estimated, b1, vfee as int, ffee as int) <= swap_fee(estimated, b2, vfee as int, ffee as int),
{
    let p1 = profit(estimated, b1);
    let p2 = profit(estimated, b2);
    lemma_mul_inequality(p1, p2, vfee as int);
    lemma_mul_inequality(b1, b2, ffee as int);
    lemma_tdiv_monotonic(p1 * vfee, p2 * vfee, FEE_DENOMINATOR as int);
    lemma_tdiv_monotonic(b1 * ffee, b2 * ffee, FEE_DENOMINATOR as int);
}

/// For a non-negative estimate and amount bought, the fee is at most both rates
/// applied to the whole amount bought.
pub proof fn lemma_fee_bounded(estimated: int, bought: int, vfee: nat, ffee: nat)
    requires
        0 <= estimated,
        0 <= bought,
    ensures
        swap_fee(estimated, bought, vfee as int, ffee as int) <= fee_share(bought, vfee as int) + fee_share(bought, ffee as int),
{
    let p = profit(estimated, bought);
    lemma_mul_inequality(p, bought, vfee as int);
    lemma_tdiv_monotonic(p * vfee, bought * vfee, FEE_DENOMINATOR as int);
}

/// No share of the profit is charged when the swap bought no more than estimated.
pub proof fn lemma_no_profit_no_variable_fee(estimated: int, bought: int, vfee: nat)
    requires
        bought <= estimated,
    ensures
        fee_share(profit(estimated, bought), vfee as int) == 0,
{
    assert(profit(estimated, bought) * vfee == 0);
}

} // verus!

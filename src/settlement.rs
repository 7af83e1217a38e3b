use vstd::prelude::*;
use crate::types::BrokerError;

verus! {

/// Verdict on the broker's balances around the hops: the selling token must
/// have gone down by exactly the planned amount, the buying token up by at
/// least the minimum. The `after` balances already carry the adjustments for
/// the fee's settlement.
pub open spec fn settlement_verdict(
    planned_sold: int,
    min_bought: int,
    selling_before: int,
    selling_after: int,
    buying_before: int,
    buying_after: int,
) -> Result<(), BrokerError> {
    if selling_before - selling_after != planned_sold {
        Err(BrokerError::Misconduct)
    } else if buying_after - buying_before < min_bought {
        Err(BrokerError::Unfeasible)
    } else {
        Ok(())
    }
}

/// Checks the broker's balances against the plan: `Misconduct` where the
/// selling token moved by anything but `planned_sold`, else `Unfeasible` where
/// less than `min_bought` of the buying token came in.
pub fn verify_balances(
    planned_sold: i128,
    min_bought: i128,
    selling_before: i128,
    selling_after: i128,
    buying_before: i128,
    buying_after: i128,
) -> (r: Result<(), BrokerError>)
    ensures
        r == settlement_verdict(
            planned_sold as int,
            min_bought as int,
            selling_before as int,
            selling_after as int,
            buying_before as int,
            buying_after as int,
        ),
{
    let sold_exact = match selling_before.checked_sub(selling_after) {
        Some(d) => d == planned_sold,
        None => false,
    };
    if !sold_exact {
        return Err(BrokerError::Misconduct);
    }
    let enough = match buying_after.checked_sub(buying_before) {
        Some(d) => d >= min_bought,
        None => buying_after > buying_before,
    };
    if !enough {
        return Err(BrokerError::Unfeasible);
    }
    Ok(())
}

/// Verdict on the fee token: the broker must hold exactly the retained fee
/// more than before the swap, and that fee is never negative.
pub open spec fn fee_verdict(fee_before: int, fee_after: int, retained: int) -> Result<(), BrokerError> {
    if fee_after - fee_before != retained || retained < 0 {
        Err(BrokerError::Misconduct)
    } else {
        Ok(())
    }
}

/// Checks that the broker's fee-token balance grew by exactly `retained`.
pub fn verify_fee_balance(fee_before: i128, fee_after: i128, retained: i128) -> (r: Result<(), BrokerError>)
    ensures
        r == fee_verdict(fee_before as int, fee_after as int, retained as int),
{
    let exact = match fee_after.checked_sub(fee_before) {
        Some(d) => d == retained,
        None => false,
    };
    if !exact || retained < 0 {
        Err(BrokerError::Misconduct)
    } else {
        Ok(())
    }
}

} // verus!

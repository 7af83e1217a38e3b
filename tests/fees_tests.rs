use stellar_broker::fees::{calc_fee, calc_profit, charged_fee};

#[test]
fn profit_is_excess_over_estimate() {
    assert_eq!(calc_profit(70, 80), 10);
    assert_eq!(calc_profit(80, 80), 0);
    assert_eq!(calc_profit(90, 80), 0);
    assert_eq!(calc_profit(-5, 10), 15);
}

#[test]
fn fee_share_in_parts_per_thousand() {
    assert_eq!(calc_fee(10, 150), 1);
    assert_eq!(calc_fee(80, 10), 0);
    assert_eq!(calc_fee(1000, 10), 10);
    assert_eq!(calc_fee(1999, 1), 1);
    assert_eq!(calc_fee(0, 1000), 0);
    // Rounds toward zero on a negative amount.
    assert_eq!(calc_fee(-1999, 1), -1);
}

#[test]
fn charged_fee_example() {
    // profit 10: floor(10*150/1000) + floor(80*10/1000) = 1 + 0
    assert_eq!(charged_fee(70, 80, 150, 10), Some(1));
}

#[test]
fn charged_fee_no_profit_only_flat() {
    assert_eq!(charged_fee(100, 80, 150, 10), Some(0));
    assert_eq!(charged_fee(1000, 800, 999, 100), Some(80));
}

#[test]
fn charged_fee_is_monotonic_in_bought() {
    let mut last = charged_fee(500, 0, 150, 10).unwrap();
    let mut bought = 0i128;
    while bought <= 2000 {
        let fee = charged_fee(500, bought, 150, 10).unwrap();
        assert!(fee >= last);
        let bound = calc_fee(bought, 150) + calc_fee(bought, 10);
        assert!(fee <= bound);
        last = fee;
        bought += 37;
    }
}

#[test]
fn charged_fee_overflow_is_none() {
    assert_eq!(charged_fee(0, i128::MAX, 0, 2), None);
    assert_eq!(charged_fee(i128::MIN, i128::MAX, 1, 0), None);
}

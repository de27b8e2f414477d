use arbi_transfer::gas::estimate_arb_transfer_gas_fee;
use arbi_transfer::gas::manual_gas_price;
use arbi_transfer::gas::marked_up_gas_limit;
use arbi_transfer::gas::marked_up_gas_price;

#[test]
fn manual_price_shifts_gwei_exactly() {
    assert_eq!(manual_gas_price(2), 2_000_000_000);
    assert_eq!(manual_gas_price(0), 0);
    assert_eq!(manual_gas_price(1), 1_000_000_000);
    assert_eq!(manual_gas_price(u64::MAX), u64::MAX as u128 * 1_000_000_000);
}

#[test]
fn queried_price_takes_markup_with_floor() {
    assert_eq!(marked_up_gas_price(100), 110);
    assert_eq!(marked_up_gas_price(10), 11);
    // 15 * 110 = 1650; floor(1650 / 100) = 16
    assert_eq!(marked_up_gas_price(15), 16);
    assert_eq!(marked_up_gas_price(0), 0);
    assert_eq!(marked_up_gas_price(1), 1);
}

#[test]
fn estimate_takes_limit_markup_with_floor() {
    assert_eq!(marked_up_gas_limit(21_000), 27_300);
    assert_eq!(marked_up_gas_limit(100), 130);
    // 7 * 130 = 910; floor(910 / 100) = 9
    assert_eq!(marked_up_gas_limit(7), 9);
    assert_eq!(marked_up_gas_limit(0), 0);
}

#[test]
fn basic_transfer_fee_is_price_times_limit() {
    let est = estimate_arb_transfer_gas_fee(1_000_000_000);
    assert_eq!(est.gas_price_wei, 1_000_000_000);
    assert_eq!(est.gas_limit, 21_000);
    assert_eq!(est.fee_wei, 21_000_000_000_000);
    assert_eq!(est.fee_eth, "0.000021000000000000");
}

#[test]
fn zero_price_gives_zero_fee() {
    let est = estimate_arb_transfer_gas_fee(0);
    assert_eq!(est.fee_wei, 0);
    assert_eq!(est.fee_eth, "0.000000000000000000");
}

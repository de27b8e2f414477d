//! Gas pricing policies: a manual price given in gwei is shifted to base
//! units with no markup; a network-queried price takes a fixed 110%
//! markup; a network gas estimate takes a fixed 130% markup. Both markups
//! multiply first and divide by 100 afterwards, rounding down once.

use vstd::prelude::*;
use crate::units::format_base_units;
use crate::units::spec_format_base_units;

verus! {

/// Base units ("wei") in one gwei.
pub const WEI_PER_GWEI: u128 = 1_000_000_000;

/// Gas units charged for a plain native-currency transfer between
/// externally owned accounts.
pub const BASIC_TRANSFER_GAS_LIMIT: u64 = 21_000;

/// Percent applied to a network-queried gas price.
pub const GAS_PRICE_MARKUP_PERCENT: u128 = 110;

/// Percent applied to a network gas estimate.
pub const GAS_LIMIT_MARKUP_PERCENT: u128 = 130;

/// The gas price when the operator fixes it by hand: the gwei value
/// shifted to base units, exactly, with no markup applied.
pub fn manual_gas_price(gwei: u64) -> (price: u128)
    ensures
        price == gwei * WEI_PER_GWEI,
{
    (gwei as u128) * WEI_PER_GWEI
}

/// The gas price selected from a network-queried price: the queried value
/// multiplied by 110, then divided by 100, rounding down. Multiplication
/// comes first so that the division truncates only once.
pub fn marked_up_gas_price(queried: u128) -> (r: u128)
    requires
        queried * GAS_PRICE_MARKUP_PERCENT <= u128::MAX,
    ensures
        r == queried * GAS_PRICE_MARKUP_PERCENT / 100,
{
    queried * GAS_PRICE_MARKUP_PERCENT / 100
}

/// The gas limit selected from a network estimate: the estimate
/// multiplied by 130, then divided by 100, rounding down.
pub fn marked_up_gas_limit(estimate: u128) -> (r: u128)
    requires
        estimate * GAS_LIMIT_MARKUP_PERCENT <= u128::MAX,
    ensures
        r == estimate * GAS_LIMIT_MARKUP_PERCENT / 100,
{
    estimate * GAS_LIMIT_MARKUP_PERCENT / 100
}

/// A fee estimate for a basic transfer: the queried price, the fixed
/// basic-transfer gas limit, their product in base units, and the product
/// rendered in major units.
pub struct GasEstimate {
    /// Queried gas price, in base units per gas unit.
    pub gas_price_wei: u128,
    /// Gas units of a basic transfer.
    pub gas_limit: u64,
    /// Estimated fee, in base units.
    pub fee_wei: u128,
    /// The fee rendered in major units.
    pub fee_eth: String,
}

/// The estimated fee of a basic transfer at gas price `gas_price_wei`:
/// price times the fixed 21000-unit limit, with the product also rendered
/// in major units.
pub fn estimate_arb_transfer_gas_fee(gas_price_wei: u128) -> (r: GasEstimate)
    requires
        gas_price_wei * BASIC_TRANSFER_GAS_LIMIT <= u128::MAX,
    ensures
        r.gas_price_wei == gas_price_wei,
        r.gas_limit == BASIC_TRANSFER_GAS_LIMIT,
        r.fee_wei == gas_price_wei * BASIC_TRANSFER_GAS_LIMIT,
        r.fee_eth@ == spec_format_base_units((gas_price_wei * BASIC_TRANSFER_GAS_LIMIT) as u128),
{
    let fee_wei: u128 = gas_price_wei * (BASIC_TRANSFER_GAS_LIMIT as u128);
    let fee_eth = format_base_units(fee_wei);
    GasEstimate { gas_price_wei, gas_limit: BASIC_TRANSFER_GAS_LIMIT, fee_wei, fee_eth }
}

} // verus!

//! The error taxonomy of the transfer tool. Every failure is fatal to the
//! current invocation: nothing is retried, the error propagates to the
//! entry point. Each variant carries enough context to diagnose the
//! failure without re-running.

use vstd::prelude::*;
use crate::address::Address;
use crate::chain::TxHandle;

verus! {

/// A definitive failure reason of a workflow or query.
#[derive(Debug)]
pub enum TransferError {
    /// The destination (or queried) address string is malformed.
    AddressFormat,
    /// The amount string is not a valid non-negative decimal with at most
    /// 18 fractional digits, or it does not fit the amount type.
    AmountFormat,
    /// The signing credential could not produce a valid sender address.
    Credential,
    /// The sender's balance is strictly below the requested amount; both
    /// quantities are carried, in base units.
    InsufficientFunds { required: u128, available: u128 },
    /// The node rejected the provisional transaction during gas estimation.
    Estimation,
    /// The node rejected the signed transaction at broadcast.
    Broadcast,
    /// The transaction was broadcast but reported dropped or replaced
    /// before confirming; the handle is surfaced for manual lookup.
    Confirmation { handle: TxHandle },
    /// A connection or timeout failure at some step's network round-trip.
    RpcTransport,
    /// The queried address holds no contract code on the connected chain;
    /// the address and the chain id are carried to diagnose a wrong-network
    /// mistake.
    ContractNotDeployed { address: Address, chain_id: u64 },
}

} // verus!

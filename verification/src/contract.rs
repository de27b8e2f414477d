//! Deployment guard of the read-only contract tasks: before any method is
//! invoked on a contract, the code stored at its address is fetched, and
//! an empty result means no contract is deployed there — commonly because
//! the tool is connected to the wrong network.

use vstd::prelude::*;
use crate::address::Address;
use crate::error::TransferError;

verus! {

/// Decides from the fetched code bytes whether a contract is deployed at
/// `address` on the chain `chain_id`. Succeeds, handing the address back
/// for the calls to come, exactly when the code is nonempty; an empty
/// code answer fails with the queried address and chain id, before any
/// method call is attempted.
pub fn check_contract_deployed(address: Address, chain_id: u64, code: &Vec<u8>) -> (r: Result<
    Address,
    TransferError,
>)
    ensures
        r is Ok <==> code@.len() > 0,
        r matches Ok(a) ==> a@ == address@ && a.wf() == address.wf(),
        r matches Err(e) ==> (e matches TransferError::ContractNotDeployed {
            address: a,
            chain_id: c,
        } && a@ == address@ && c == chain_id),
{
    if code.len() > 0 {
        Ok(address)
    } else {
        Err(TransferError::ContractNotDeployed { address, chain_id })
    }
}

} // verus!

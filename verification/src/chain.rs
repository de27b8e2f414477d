//! Values that cross the boundary to the chain: the handle a broadcast
//! returns and the receipt that confirmation produces.

use vstd::prelude::*;

verus! {

/// Number of bytes in a transaction hash.
pub const TX_HASH_BYTES: usize = 32;

/// Opaque identifier of a broadcast transaction, used to poll for its
/// receipt and surfaced to the caller on a confirmation failure.
#[derive(Debug)]
pub struct TxHandle {
    pub hash: Vec<u8>,
}

impl TxHandle {
    /// The hash bytes, as the mathematical model of a handle.
    pub open spec fn view(&self) -> Seq<u8> {
        self.hash@
    }

    /// A well-formed handle holds exactly `TX_HASH_BYTES` bytes.
    pub open spec fn wf(&self) -> bool {
        self.hash@.len() == TX_HASH_BYTES
    }

    /// An independent copy with the same hash bytes.
    pub fn duplicate(&self) -> (r: TxHandle)
        ensures
            r@ == self@,
            r.wf() == self.wf(),
    {
        let mut out: Vec<u8> = Vec::new();
        let mut i: usize = 0;
        while i < self.hash.len()
            invariant
                i <= self.hash@.len(),
                out@ == self.hash@.take(i as int),
            decreases self.hash@.len() - i,
        {
            out.push(self.hash[i]);
            i = i + 1;
        }
        proof {
            assert(out@ =~= self.hash@);
        }
        TxHandle { hash: out }
    }
}

/// What the chain reports once a transaction is included in a block.
#[derive(Debug)]
pub struct ConfirmationReceipt {
    /// Number of the block that includes the transaction.
    pub block_number: u64,
    /// Hash of that block.
    pub block_hash: Vec<u8>,
    /// Whether the chain executed the transaction successfully.
    pub status_ok: bool,
}

} // verus!

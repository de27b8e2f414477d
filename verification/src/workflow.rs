//! The transfer workflow: a strict pipeline from input validation through
//! balance check, gas pricing, gas estimation, assembly, broadcast and
//! confirmation, with no retry and no re-entered step (only the
//! confirmation poll repeats). The workflow itself performs no I/O: it
//! hands its caller one action at a time and consumes the chain's answer
//! as an event, so every decision in the pipeline is checked here, and
//! the caller's loop stays free of logic.

use vstd::prelude::*;
use crate::address::Address;
use crate::address::parse_address;
use crate::address::valid_address_str;
use crate::address::address_value;
use crate::chain::ConfirmationReceipt;
use crate::chain::TxHandle;
use crate::error::TransferError;
use crate::gas::WEI_PER_GWEI;
use crate::gas::GAS_PRICE_MARKUP_PERCENT;
use crate::gas::GAS_LIMIT_MARKUP_PERCENT;
use crate::gas::manual_gas_price;
use crate::gas::marked_up_gas_price;
use crate::gas::marked_up_gas_limit;
use crate::units::parse_base_units;
use crate::units::valid_amount_str;
use crate::units::amount_value;
use vstd::pervasive::unreached;

verus! {

/// The provisional transaction handed to gas estimation: the transfer
/// without its gas fields.
pub struct ProvisionalTx {
    pub from: Address,
    pub to: Address,
    pub amount_wei: u128,
}

/// A fully assembled transfer, ready to sign and broadcast. Constructed
/// only after the balance check has passed; consumed exactly once by
/// submission. Sequence number and chain id are the signer's and the
/// node's responsibility.
pub struct TransferRequest {
    pub from: Address,
    pub to: Address,
    pub amount_wei: u128,
    pub gas_price_wei: u128,
    pub gas_limit: u128,
}

/// Where the workflow stands. Every state before `Confirmed` or `Failed`
/// waits for exactly one answer from the chain.
pub enum WorkflowState {
    /// Sender resolved and inputs parsed; the balance query is pending.
    InputsValidated {
        from: Address,
        to: Address,
        amount_wei: u128,
        manual_gas_price_gwei: Option<u64>,
    },
    /// Balance found sufficient; the gas price query is pending.
    BalanceChecked { from: Address, to: Address, amount_wei: u128, balance_wei: u128 },
    /// Gas price chosen; the gas estimate is pending.
    GasPriced {
        from: Address,
        to: Address,
        amount_wei: u128,
        balance_wei: u128,
        gas_price_wei: u128,
    },
    /// Transaction assembled and handed out for signing; the broadcast
    /// answer is pending.
    Assembled { amount_wei: u128, balance_wei: u128, gas_price_wei: u128, gas_limit: u128 },
    /// Broadcast accepted; receipt polling is pending.
    Broadcast { handle: TxHandle, amount_wei: u128, balance_wei: u128 },
    /// Terminal success: one confirmation observed.
    Confirmed { receipt: ConfirmationReceipt, handle: TxHandle },
    /// Terminal failure, from any step.
    Failed { error: TransferError },
}

/// One answer from the chain client, fed back by the caller.
pub enum ChainEvent {
    /// The sender's balance, in base units.
    Balance { wei: u128 },
    /// The network gas price, in base units per gas unit.
    GasPrice { wei_per_gas: u128 },
    /// The node's gas estimate for the provisional transaction.
    GasEstimate { units: u128 },
    /// The node rejected the provisional transaction.
    EstimateRejected,
    /// The node accepted the signed transaction.
    Broadcasted { handle: TxHandle },
    /// The node rejected the signed transaction.
    BroadcastRejected,
    /// The transaction was included in a block.
    Confirmed { receipt: ConfirmationReceipt },
    /// No receipt yet; poll again.
    StillPending,
    /// The node reports the transaction dropped or replaced.
    Dropped,
    /// A connection or timeout failure on this round-trip.
    TransportFailed,
}

/// The next piece of outside work the workflow asks of its caller.
pub enum WorkflowAction {
    /// Query the balance of this account.
    QueryBalance { account: Address },
    /// Query the network gas price.
    QueryGasPrice,
    /// Ask the node for a gas estimate of this provisional transaction.
    EstimateGas { tx: ProvisionalTx },
    /// Sign this request and broadcast it.
    SignAndBroadcast { request: TransferRequest },
    /// Poll for the receipt of this transaction.
    PollReceipt { handle: TxHandle },
    /// Nothing: the workflow is finished, in `Confirmed` or `Failed`.
    Finish,
}

/// One transfer attempt, driven to completion by its caller's loop.
pub struct Workflow {
    pub state: WorkflowState,
}

impl Workflow {
    /// Well-formedness: addresses and handles have their fixed lengths,
    /// and every state past the balance check carries an amount no
    /// greater than the balance it observed.
    pub open spec fn wf(&self) -> bool {
        match self.state {
            WorkflowState::InputsValidated { from, to, .. } => from.wf() && to.wf(),
            WorkflowState::BalanceChecked { from, to, amount_wei, balance_wei } => from.wf()
                && to.wf() && amount_wei <= balance_wei,
            WorkflowState::GasPriced { from, to, amount_wei, balance_wei, .. } => from.wf()
                && to.wf() && amount_wei <= balance_wei,
            WorkflowState::Assembled { amount_wei, balance_wei, .. } => amount_wei <= balance_wei,
            WorkflowState::Broadcast { handle, amount_wei, balance_wei } => handle.wf()
                && amount_wei <= balance_wei,
            WorkflowState::Confirmed { handle, .. } => handle.wf(),
            WorkflowState::Failed { .. } => true,
        }
    }

    /// Whether the workflow has ended, in success or failure.
    pub open spec fn finished(&self) -> bool {
        self.state is Confirmed || self.state is Failed
    }

    /// The events a state can consume: exactly the possible answers to
    /// the action it is waiting on. The two multiplication bounds keep
    /// the markup arithmetic inside the integer type; an answer past
    /// them has no representable marked-up value.
    pub open spec fn accepts(&self, e: ChainEvent) -> bool {
        match self.state {
            WorkflowState::InputsValidated { .. } => (e matches ChainEvent::Balance { .. }) || (
            e is TransportFailed),
            WorkflowState::BalanceChecked { .. } => (e matches ChainEvent::GasPrice { wei_per_gas }
                && wei_per_gas * GAS_PRICE_MARKUP_PERCENT <= u128::MAX) || (e is TransportFailed),
            WorkflowState::GasPriced { .. } => (e matches ChainEvent::GasEstimate { units } && units
                * GAS_LIMIT_MARKUP_PERCENT <= u128::MAX) || (e is EstimateRejected) || (
            e is TransportFailed),
            WorkflowState::Assembled { .. } => (e matches ChainEvent::Broadcasted { handle }
                && handle.wf()) || (e is BroadcastRejected) || (e is TransportFailed),
            WorkflowState::Broadcast { .. } => (e matches ChainEvent::Confirmed { .. }) || (
            e is StillPending) || (e is Dropped) || (e is TransportFailed),
            WorkflowState::Confirmed { .. } => false,
            WorkflowState::Failed { .. } => false,
        }
    }

    /// Steps 1 and 2: resolve the sender identity and validate the
    /// inputs. `sender` is the address the credential derives, or `None`
    /// when the credential cannot produce one. On success the workflow
    /// waits for the sender's balance; on any malformed input it fails
    /// without asking anything of the chain.
    pub fn begin(
        sender: Option<Address>,
        to: &str,
        amount_major: &str,
        manual_gas_price_gwei: Option<u64>,
    ) -> (r: (Workflow, WorkflowAction))
        requires
            sender matches Some(a) ==> a.wf(),
        ensures
            r.0.wf(),
            r.1 is Finish <==> r.0.finished(),
            sender is None ==> (r.0.state matches WorkflowState::Failed { error }
                && error is Credential),
            sender is Some && !valid_address_str(to@) ==> (
            r.0.state matches WorkflowState::Failed { error } && error is AddressFormat),
            sender is Some && valid_address_str(to@) && !(valid_amount_str(amount_major@)
                && amount_value(amount_major@) <= u128::MAX) ==> (
            r.0.state matches WorkflowState::Failed { error } && error is AmountFormat),
            sender matches Some(f) ==> valid_address_str(to@) ==> valid_amount_str(amount_major@)
                && amount_value(amount_major@) <= u128::MAX ==> {
                &&& r.0.state matches WorkflowState::InputsValidated {
                    from,
                    to: t,
                    amount_wei,
                    manual_gas_price_gwei: m,
                }
                &&& from@ == f@
                &&& t@ == address_value(to@)
                &&& amount_wei == amount_value(amount_major@)
                &&& m == manual_gas_price_gwei
                &&& (r.1 matches WorkflowAction::QueryBalance { account } && account@ == f@)
            },
    {
        let from = match sender {
            Some(a) => a,
            None => {
                return (
                    Workflow { state: WorkflowState::Failed { error: TransferError::Credential } },
                    WorkflowAction::Finish,
                );
            },
        };
        let to_addr = match parse_address(to) {
            Ok(a) => a,
            Err(e) => {
                return (Workflow { state: WorkflowState::Failed { error: e } },
                WorkflowAction::Finish);
            },
        };
        let amount_wei = match parse_base_units(amount_major) {
            Ok(v) => v,
            Err(e) => {
                return (Workflow { state: WorkflowState::Failed { error: e } },
                WorkflowAction::Finish);
            },
        };
        let account = from.duplicate();
        (
            Workflow {
                state: WorkflowState::InputsValidated {
                    from,
                    to: to_addr,
                    amount_wei,
                    manual_gas_price_gwei,
                },
            },
            WorkflowAction::QueryBalance { account },
        )
    }

    /// Consumes the chain's answer to the pending action and moves one
    /// step. Each clause below pins the step exactly: the balance check
    /// gates everything after it, a manual gas price bypasses both the
    /// price query and the markup, the two markups multiply before they
    /// divide, a dropped transaction fails with its handle surfaced, and
    /// a transport failure is fatal at every step.
    pub fn on_event(self, e: ChainEvent) -> (r: (Workflow, WorkflowAction))
        requires
            self.wf(),
            self.accepts(e),
        ensures
            r.0.wf(),
            r.1 is Finish <==> r.0.finished(),
            // transport failure is fatal wherever it strikes
            e is TransportFailed ==> (r.0.state matches WorkflowState::Failed { error }
                && error is RpcTransport),
            // step 3: insufficient balance fails at once, with both values
            self.state matches WorkflowState::InputsValidated { amount_wei, .. }
                ==> e matches ChainEvent::Balance { wei } ==> wei < amount_wei ==> (
            r.0.state matches WorkflowState::Failed { error }
                && error matches TransferError::InsufficientFunds { required, available }
                && required == amount_wei && available == wei),
            // step 3 passed, no manual price: ask the network for one
            self.state matches WorkflowState::InputsValidated {
                from,
                to,
                amount_wei,
                manual_gas_price_gwei: None,
            } ==> e matches ChainEvent::Balance { wei } ==> wei >= amount_wei ==> {
                &&& r.0.state matches WorkflowState::BalanceChecked {
                    from: f2,
                    to: t2,
                    amount_wei: a2,
                    balance_wei: b2,
                }
                &&& f2@ == from@
                &&& t2@ == to@
                &&& a2 == amount_wei
                &&& b2 == wei
                &&& r.1 is QueryGasPrice
            },
            // step 3 passed, manual price: shift gwei to base units, skip
            // the query and the markup, and go straight to estimation
            self.state matches WorkflowState::InputsValidated {
                from,
                to,
                amount_wei,
                manual_gas_price_gwei: Some(gwei),
            } ==> e matches ChainEvent::Balance { wei } ==> wei >= amount_wei ==> {
                &&& r.0.state matches WorkflowState::GasPriced {
                    from: f2,
                    to: t2,
                    amount_wei: a2,
                    balance_wei: b2,
                    gas_price_wei,
                }
                &&& f2@ == from@
                &&& t2@ == to@
                &&& a2 == amount_wei
                &&& b2 == wei
                &&& gas_price_wei == gwei * WEI_PER_GWEI
                &&& (r.1 matches WorkflowAction::EstimateGas { tx } && tx.from@ == from@ && tx.to@
                    == to@ && tx.amount_wei == amount_wei)
            },
            // step 4: queried price takes the 110% markup, floor once
            self.state matches WorkflowState::BalanceChecked { from, to, amount_wei, balance_wei }
                ==> e matches ChainEvent::GasPrice { wei_per_gas } ==> {
                &&& r.0.state matches WorkflowState::GasPriced {
                    from: f2,
                    to: t2,
                    amount_wei: a2,
                    balance_wei: b2,
                    gas_price_wei,
                }
                &&& f2@ == from@
                &&& t2@ == to@
                &&& a2 == amount_wei
                &&& b2 == balance_wei
                &&& gas_price_wei == wei_per_gas * GAS_PRICE_MARKUP_PERCENT / 100
                &&& (r.1 matches WorkflowAction::EstimateGas { tx } && tx.from@ == from@ && tx.to@
                    == to@ && tx.amount_wei == amount_wei)
            },
            // step 5: the estimate takes the 130% markup; step 6: assembly
            self.state matches WorkflowState::GasPriced {
                from,
                to,
                amount_wei,
                balance_wei,
                gas_price_wei,
            } ==> e matches ChainEvent::GasEstimate { units } ==> {
                &&& r.0.state matches WorkflowState::Assembled {
                    amount_wei: a2,
                    balance_wei: b2,
                    gas_price_wei: g2,
                    gas_limit,
                }
                &&& a2 == amount_wei
                &&& b2 == balance_wei
                &&& g2 == gas_price_wei
                &&& gas_limit == units * GAS_LIMIT_MARKUP_PERCENT / 100
                &&& (r.1 matches WorkflowAction::SignAndBroadcast { request } && request.from@
                    == from@ && request.to@ == to@ && request.amount_wei == amount_wei
                    && request.gas_price_wei == gas_price_wei && request.gas_limit == units
                    * GAS_LIMIT_MARKUP_PERCENT / 100)
            },
            // step 5 fails fatally when the node rejects the provisional
            self.state is GasPriced && e is EstimateRejected ==> (
            r.0.state matches WorkflowState::Failed { error } && error is Estimation),
            // step 7: the broadcast handle is kept and polled
            self.state matches WorkflowState::Assembled { .. }
                ==> e matches ChainEvent::Broadcasted { handle } ==> {
                &&& (r.0.state matches WorkflowState::Broadcast { handle: h2, .. } && h2@
                    == handle@)
                &&& (r.1 matches WorkflowAction::PollReceipt { handle: h3 } && h3@ == handle@)
            },
            self.state is Assembled && e is BroadcastRejected ==> (
            r.0.state matches WorkflowState::Failed { error } && error is Broadcast),
            // step 8: confirmation ends the workflow with the receipt
            self.state matches WorkflowState::Broadcast { handle, .. }
                ==> e matches ChainEvent::Confirmed { receipt } ==> (
            r.0.state matches WorkflowState::Confirmed { receipt: rc, handle: h2 } && rc == receipt
                && h2@ == handle@),
            // step 8: a pending answer polls again, the only repeated step
            self.state matches WorkflowState::Broadcast { handle, .. } ==> e is StillPending ==> {
                &&& (r.0.state matches WorkflowState::Broadcast { handle: h2, .. } && h2@
                    == handle@)
                &&& (r.1 matches WorkflowAction::PollReceipt { handle: h3 } && h3@ == handle@)
            },
            // step 8: a dropped transaction fails with its handle surfaced
            self.state matches WorkflowState::Broadcast { handle, .. } ==> e is Dropped ==> (
            r.0.state matches WorkflowState::Failed { error }
                && error matches TransferError::Confirmation { handle: h2 } && h2@ == handle@),
    {
        match (self.state, e) {
            (_, ChainEvent::TransportFailed) => (
                Workflow { state: WorkflowState::Failed { error: TransferError::RpcTransport } },
                WorkflowAction::Finish,
            ),
            (
                WorkflowState::InputsValidated { from, to, amount_wei, manual_gas_price_gwei },
                ChainEvent::Balance { wei },
            ) => {
                if wei < amount_wei {
                    (
                        Workflow {
                            state: WorkflowState::Failed {
                                error: TransferError::InsufficientFunds {
                                    required: amount_wei,
                                    available: wei,
                                },
                            },
                        },
                        WorkflowAction::Finish,
                    )
                } else {
                    match manual_gas_price_gwei {
                        None => (
                            Workflow {
                                state: WorkflowState::BalanceChecked {
                                    from,
                                    to,
                                    amount_wei,
                                    balance_wei: wei,
                                },
                            },
                            WorkflowAction::QueryGasPrice,
                        ),
                        Some(gwei) => {
                            let gas_price_wei = manual_gas_price(gwei);
                            let tx = ProvisionalTx {
                                from: from.duplicate(),
                                to: to.duplicate(),
                                amount_wei,
                            };
                            (
                                Workflow {
                                    state: WorkflowState::GasPriced {
                                        from,
                                        to,
                                        amount_wei,
                                        balance_wei: wei,
                                        gas_price_wei,
                                    },
                                },
                                WorkflowAction::EstimateGas { tx },
                            )
                        },
                    }
                }
            },
            (
                WorkflowState::BalanceChecked { from, to, amount_wei, balance_wei },
                ChainEvent::GasPrice { wei_per_gas },
            ) => {
                let gas_price_wei = marked_up_gas_price(wei_per_gas);
                let tx = ProvisionalTx { from: from.duplicate(), to: to.duplicate(), amount_wei };
                (
                    Workflow {
                        state: WorkflowState::GasPriced {
                            from,
                            to,
                            amount_wei,
                            balance_wei,
                            gas_price_wei,
                        },
                    },
                    WorkflowAction::EstimateGas { tx },
                )
            },
            (
                WorkflowState::GasPriced { from, to, amount_wei, balance_wei, gas_price_wei },
                ChainEvent::GasEstimate { units },
            ) => {
                let gas_limit = marked_up_gas_limit(units);
                let request = TransferRequest {
                    from,
                    to,
                    amount_wei,
                    gas_price_wei,
                    gas_limit,
                };
                (
                    Workflow {
                        state: WorkflowState::Assembled {
                            amount_wei,
                            balance_wei,
                            gas_price_wei,
                            gas_limit,
                        },
                    },
                    WorkflowAction::SignAndBroadcast { request },
                )
            },
            (WorkflowState::GasPriced { .. }, ChainEvent::EstimateRejected) => (
                Workflow { state: WorkflowState::Failed { error: TransferError::Estimation } },
                WorkflowAction::Finish,
            ),
            (
                WorkflowState::Assembled { amount_wei, balance_wei, .. },
                ChainEvent::Broadcasted { handle },
            ) => {
                let poll = handle.duplicate();
                (
                    Workflow {
                        state: WorkflowState::Broadcast { handle, amount_wei, balance_wei },
                    },
                    WorkflowAction::PollReceipt { handle: poll },
                )
            },
            (WorkflowState::Assembled { .. }, ChainEvent::BroadcastRejected) => (
                Workflow { state: WorkflowState::Failed { error: TransferError::Broadcast } },
                WorkflowAction::Finish,
            ),
            (
                WorkflowState::Broadcast { handle, .. },
                ChainEvent::Confirmed { receipt },
            ) => (
                Workflow { state: WorkflowState::Confirmed { receipt, handle } },
                WorkflowAction::Finish,
            ),
            (
                WorkflowState::Broadcast { handle, amount_wei, balance_wei },
                ChainEvent::StillPending,
            ) => {
                let poll = handle.duplicate();
                (
                    Workflow {
                        state: WorkflowState::Broadcast { handle, amount_wei, balance_wei },
                    },
                    WorkflowAction::PollReceipt { handle: poll },
                )
            },
            (WorkflowState::Broadcast { handle, .. }, ChainEvent::Dropped) => (
                Workflow {
                    state: WorkflowState::Failed {
                        error: TransferError::Confirmation { handle },
                    },
                },
                WorkflowAction::Finish,
            ),
            _ => unreached(),
        }
    }
}

/// Balance gate law: a well-formed workflow stands in a state past the
/// balance check — gas priced, assembled or broadcast — only with a
/// requested amount no greater than the balance it observed there. With
/// the contracts of `begin` and `on_event`, which establish and preserve
/// well-formedness, no run of the workflow reaches gas pricing, signing
/// or broadcast when the balance falls short of the amount.
pub proof fn law_balance_gates_submission(w: Workflow)
    requires
        w.wf(),
    ensures
        w.state matches WorkflowState::GasPriced { amount_wei, balance_wei, .. } ==> amount_wei
            <= balance_wei,
        w.state matches WorkflowState::Assembled { amount_wei, balance_wei, .. } ==> amount_wei
            <= balance_wei,
        w.state matches WorkflowState::Broadcast { amount_wei, balance_wei, .. } ==> amount_wei
            <= balance_wei,
{
}

} // verus!

use arbi_transfer::address::Address;
use arbi_transfer::address::parse_address;
use arbi_transfer::chain::ConfirmationReceipt;
use arbi_transfer::chain::TxHandle;
use arbi_transfer::error::TransferError;
use arbi_transfer::workflow::ChainEvent;
use arbi_transfer::workflow::Workflow;
use arbi_transfer::workflow::WorkflowAction;
use arbi_transfer::workflow::WorkflowState;

fn sender() -> Address {
    parse_address("0x1111111111111111111111111111111111111111").unwrap()
}

const TO: &str = "0x2222222222222222222222222222222222222222";

// five base units, written in major units
const FIVE_WEI: &str = "0.000000000000000005";

fn handle() -> TxHandle {
    TxHandle { hash: vec![0xab; 32] }
}

fn receipt() -> ConfirmationReceipt {
    ConfirmationReceipt { block_number: 190_345_117, block_hash: vec![0xcd; 32], status_ok: true }
}

#[test]
fn begin_asks_for_the_sender_balance() {
    let (w, a) = Workflow::begin(Some(sender()), TO, "1.5", None);
    assert!(matches!(w.state, WorkflowState::InputsValidated { amount_wei, .. }
        if amount_wei == 1_500_000_000_000_000_000));
    assert!(matches!(a, WorkflowAction::QueryBalance { ref account }
        if account.bytes == sender().bytes));
}

#[test]
fn begin_fails_without_a_credential() {
    let (w, a) = Workflow::begin(None, TO, "1.5", None);
    assert!(matches!(
        w.state,
        WorkflowState::Failed { error: TransferError::Credential }
    ));
    assert!(matches!(a, WorkflowAction::Finish));
}

#[test]
fn begin_fails_on_a_malformed_destination() {
    let (w, a) = Workflow::begin(Some(sender()), "0xnot-an-address", "1.5", None);
    assert!(matches!(
        w.state,
        WorkflowState::Failed { error: TransferError::AddressFormat }
    ));
    assert!(matches!(a, WorkflowAction::Finish));
}

#[test]
fn begin_fails_on_a_malformed_amount() {
    let (w, a) = Workflow::begin(Some(sender()), TO, "-0.5", None);
    assert!(matches!(
        w.state,
        WorkflowState::Failed { error: TransferError::AmountFormat }
    ));
    assert!(matches!(a, WorkflowAction::Finish));
}

#[test]
fn sufficient_balance_proceeds_past_the_check() {
    // balance 10 base units, amount 5: the workflow moves on to gas pricing
    let (w, _) = Workflow::begin(Some(sender()), TO, FIVE_WEI, None);
    let (w, a) = w.on_event(ChainEvent::Balance { wei: 10 });
    assert!(matches!(w.state, WorkflowState::BalanceChecked { amount_wei: 5, balance_wei: 10, .. }));
    assert!(matches!(a, WorkflowAction::QueryGasPrice));
}

#[test]
fn insufficient_balance_fails_at_once_with_both_values() {
    // balance 3 base units, amount 5: no gas query, no broadcast
    let (w, _) = Workflow::begin(Some(sender()), TO, FIVE_WEI, None);
    let (w, a) = w.on_event(ChainEvent::Balance { wei: 3 });
    assert!(matches!(
        w.state,
        WorkflowState::Failed {
            error: TransferError::InsufficientFunds { required: 5, available: 3 }
        }
    ));
    assert!(matches!(a, WorkflowAction::Finish));
}

#[test]
fn exact_balance_is_sufficient() {
    let (w, _) = Workflow::begin(Some(sender()), TO, FIVE_WEI, None);
    let (w, _) = w.on_event(ChainEvent::Balance { wei: 5 });
    assert!(matches!(w.state, WorkflowState::BalanceChecked { .. }));
}

#[test]
fn manual_gas_price_skips_the_query_and_the_markup() {
    // manual price 2 gwei: 2_000_000_000 base units, no gas price query
    let (w, _) = Workflow::begin(Some(sender()), TO, FIVE_WEI, Some(2));
    let (w, a) = w.on_event(ChainEvent::Balance { wei: 10 });
    assert!(matches!(w.state, WorkflowState::GasPriced { gas_price_wei: 2_000_000_000, .. }));
    assert!(matches!(a, WorkflowAction::EstimateGas { ref tx } if tx.amount_wei == 5));
}

#[test]
fn queried_gas_price_takes_the_markup() {
    let (w, _) = Workflow::begin(Some(sender()), TO, FIVE_WEI, None);
    let (w, _) = w.on_event(ChainEvent::Balance { wei: 10 });
    let (w, a) = w.on_event(ChainEvent::GasPrice { wei_per_gas: 100_000_000 });
    assert!(matches!(w.state, WorkflowState::GasPriced { gas_price_wei: 110_000_000, .. }));
    assert!(matches!(a, WorkflowAction::EstimateGas { ref tx }
        if tx.from.bytes == sender().bytes && tx.amount_wei == 5));
}

#[test]
fn gas_estimate_takes_the_limit_markup() {
    // estimate 21000: selected limit floor(21000 * 130 / 100) = 27300
    let (w, _) = Workflow::begin(Some(sender()), TO, FIVE_WEI, Some(2));
    let (w, _) = w.on_event(ChainEvent::Balance { wei: 10 });
    let (w, a) = w.on_event(ChainEvent::GasEstimate { units: 21_000 });
    assert!(matches!(w.state, WorkflowState::Assembled { gas_limit: 27_300, .. }));
    match a {
        WorkflowAction::SignAndBroadcast { request } => {
            assert_eq!(request.gas_limit, 27_300);
            assert_eq!(request.gas_price_wei, 2_000_000_000);
            assert_eq!(request.amount_wei, 5);
            assert_eq!(request.from.bytes, sender().bytes);
            assert_eq!(request.to.bytes, parse_address(TO).unwrap().bytes);
        }
        other => panic!("expected a broadcast action, got {:?}", kind_of(&other)),
    }
}

#[test]
fn rejected_estimate_is_fatal() {
    let (w, _) = Workflow::begin(Some(sender()), TO, FIVE_WEI, Some(2));
    let (w, _) = w.on_event(ChainEvent::Balance { wei: 10 });
    let (w, a) = w.on_event(ChainEvent::EstimateRejected);
    assert!(matches!(
        w.state,
        WorkflowState::Failed { error: TransferError::Estimation }
    ));
    assert!(matches!(a, WorkflowAction::Finish));
}

#[test]
fn broadcast_hands_out_the_handle_for_polling() {
    let (w, _) = Workflow::begin(Some(sender()), TO, FIVE_WEI, Some(2));
    let (w, _) = w.on_event(ChainEvent::Balance { wei: 10 });
    let (w, _) = w.on_event(ChainEvent::GasEstimate { units: 21_000 });
    let (w, a) = w.on_event(ChainEvent::Broadcasted { handle: handle() });
    assert!(matches!(w.state, WorkflowState::Broadcast { ref handle, .. }
        if handle.hash == vec![0xab; 32]));
    assert!(matches!(a, WorkflowAction::PollReceipt { ref handle }
        if handle.hash == vec![0xab; 32]));
}

#[test]
fn rejected_broadcast_is_fatal() {
    let (w, _) = Workflow::begin(Some(sender()), TO, FIVE_WEI, Some(2));
    let (w, _) = w.on_event(ChainEvent::Balance { wei: 10 });
    let (w, _) = w.on_event(ChainEvent::GasEstimate { units: 21_000 });
    let (w, a) = w.on_event(ChainEvent::BroadcastRejected);
    assert!(matches!(
        w.state,
        WorkflowState::Failed { error: TransferError::Broadcast }
    ));
    assert!(matches!(a, WorkflowAction::Finish));
}

#[test]
fn pending_receipt_polls_again() {
    let (w, _) = Workflow::begin(Some(sender()), TO, FIVE_WEI, Some(2));
    let (w, _) = w.on_event(ChainEvent::Balance { wei: 10 });
    let (w, _) = w.on_event(ChainEvent::GasEstimate { units: 21_000 });
    let (w, _) = w.on_event(ChainEvent::Broadcasted { handle: handle() });
    let (w, a) = w.on_event(ChainEvent::StillPending);
    assert!(matches!(w.state, WorkflowState::Broadcast { .. }));
    assert!(matches!(a, WorkflowAction::PollReceipt { ref handle }
        if handle.hash == vec![0xab; 32]));
}

#[test]
fn confirmation_ends_the_workflow_with_the_receipt() {
    let (w, _) = Workflow::begin(Some(sender()), TO, FIVE_WEI, Some(2));
    let (w, _) = w.on_event(ChainEvent::Balance { wei: 10 });
    let (w, _) = w.on_event(ChainEvent::GasEstimate { units: 21_000 });
    let (w, _) = w.on_event(ChainEvent::Broadcasted { handle: handle() });
    let (w, a) = w.on_event(ChainEvent::Confirmed { receipt: receipt() });
    assert!(matches!(w.state, WorkflowState::Confirmed { ref receipt, .. }
        if receipt.block_number == 190_345_117 && receipt.status_ok));
    assert!(matches!(a, WorkflowAction::Finish));
}

#[test]
fn dropped_transaction_fails_with_its_handle_surfaced() {
    // broadcast succeeded, polling reports dropped: the hash stays available
    let (w, _) = Workflow::begin(Some(sender()), TO, FIVE_WEI, Some(2));
    let (w, _) = w.on_event(ChainEvent::Balance { wei: 10 });
    let (w, _) = w.on_event(ChainEvent::GasEstimate { units: 21_000 });
    let (w, _) = w.on_event(ChainEvent::Broadcasted { handle: handle() });
    let (w, a) = w.on_event(ChainEvent::Dropped);
    assert!(matches!(
        w.state,
        WorkflowState::Failed { error: TransferError::Confirmation { ref handle } }
        if handle.hash == vec![0xab; 32]
    ));
    assert!(matches!(a, WorkflowAction::Finish));
}

#[test]
fn transport_failure_is_fatal_at_every_step() {
    let (w, _) = Workflow::begin(Some(sender()), TO, FIVE_WEI, None);
    let (w, a) = w.on_event(ChainEvent::TransportFailed);
    assert!(matches!(
        w.state,
        WorkflowState::Failed { error: TransferError::RpcTransport }
    ));
    assert!(matches!(a, WorkflowAction::Finish));

    let (w2, _) = Workflow::begin(Some(sender()), TO, FIVE_WEI, None);
    let (w2, _) = w2.on_event(ChainEvent::Balance { wei: 10 });
    let (w2, _) = w2.on_event(ChainEvent::TransportFailed);
    assert!(matches!(
        w2.state,
        WorkflowState::Failed { error: TransferError::RpcTransport }
    ));
}

fn kind_of(a: &WorkflowAction) -> &'static str {
    match a {
        WorkflowAction::QueryBalance { .. } => "query balance",
        WorkflowAction::QueryGasPrice => "query gas price",
        WorkflowAction::EstimateGas { .. } => "estimate gas",
        WorkflowAction::SignAndBroadcast { .. } => "sign and broadcast",
        WorkflowAction::PollReceipt { .. } => "poll receipt",
        WorkflowAction::Finish => "finish",
    }
}

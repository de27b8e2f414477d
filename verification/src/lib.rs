//! Verified core of a small native-currency transfer tool for an EVM-style
//! chain: exact decimal/base-unit conversion, address parsing, gas pricing
//! policies, the transfer workflow state machine, and the contract-deployment
//! guard. All network I/O and signing stay outside this crate; callers drive
//! the workflow by performing the actions it requests and feeding the chain's
//! answers back as events.

pub mod address;
pub mod chain;
pub mod contract;
pub mod error;
pub mod gas;
pub mod units;
pub mod workflow;

//! A settlement ledger for escrowed remittances.
//!
//! A sender escrows an amount for a registered payout agent. The agent
//! confirms the payout and receives the amount less the platform fee, or the
//! sender cancels and is refunded in full. Each remittance is settled at
//! most once; the fees accumulate until the administrator withdraws them.
//!
//! The ledger moves no funds and keeps no clock itself. An operation takes
//! the time and the caller's authorization as arguments and answers with the
//! [`Event`] that describes what it did; the event of a fund-moving operation
//! names the [`Transfer`] that belongs to it.
//!
//! - [`types`]: addresses, remittance records, events and transfers.
//! - [`errors`]: the error kinds.
//! - [`fees`]: the basis-point fee and overflow-checked amount arithmetic.
//! - [`validation`]: checks on addresses.
//! - [`storage`]: the store and its typed accessors.
//! - [`model`]: each operation as a function of the store's contents.
//! - [`contract`]: the ledger and its operations.
//! - [`laws`]: what holds across states and calls.
//! - [`custody`]: what the ledger owes, and that transfers match the books.
//! - [`history`]: what holds after any sequence of calls.

use vstd::prelude::*;

pub mod contract;
pub mod custody;
pub mod errors;
pub mod fees;
pub mod history;
pub mod laws;
pub mod model;
pub mod storage;
pub mod types;
pub mod validation;

pub use contract::SwiftRemitContract;
pub use errors::ContractError;
pub use model::Call;
pub use storage::{LedgerState, Storage};
pub use types::{Address, AddressKind, Auth, Event, Party, Remittance, RemittanceStatus, Transfer};
pub use validation::validate_address;

verus! {

} // verus!

//! Error kinds reported by the ledger's operations.

use vstd::prelude::*;

verus! {

/// Every way an operation can be refused. An operation that returns an error
/// has changed nothing.
#[derive(Copy, Clone, Debug, PartialEq, Eq, Structural, PartialOrd, Ord)]
pub enum ContractError {
    /// The ledger has already been set up.
    AlreadyInitialized,
    /// The ledger has not been set up yet.
    NotInitialized,
    /// The amount is zero or negative.
    InvalidAmount,
    /// The fee rate exceeds 10000 basis points.
    InvalidFeeBps,
    /// The named agent is not registered.
    AgentNotRegistered,
    /// No remittance is stored under the id.
    RemittanceNotFound,
    /// The remittance is no longer pending.
    InvalidStatus,
    /// An amount or the id counter left its integer range.
    Overflow,
    /// There are no accumulated fees to pay out.
    NoFeesToWithdraw,
    /// The address is not well formed.
    InvalidAddress,
    /// The remittance's expiry time has passed.
    SettlementExpired,
    /// The remittance has already been settled.
    DuplicateSettlement,
    /// Settlements are suspended.
    ContractPaused,
}

impl ContractError {
    /// The numeric code under which the error is reported to a host.
    pub open spec fn spec_code(self) -> u32 {
        match self {
            ContractError::AlreadyInitialized => 1,
            ContractError::NotInitialized => 2,
            ContractError::InvalidAmount => 3,
            ContractError::InvalidFeeBps => 4,
            ContractError::AgentNotRegistered => 5,
            ContractError::RemittanceNotFound => 6,
            ContractError::InvalidStatus => 7,
            ContractError::Overflow => 8,
            ContractError::NoFeesToWithdraw => 9,
            ContractError::InvalidAddress => 10,
            ContractError::SettlementExpired => 11,
            ContractError::DuplicateSettlement => 12,
            ContractError::ContractPaused => 13,
        }
    }

    /// Returns the numeric code of the error.
    #[verifier::when_used_as_spec(spec_code)]
    pub fn code(self) -> (c: u32)
        ensures
            c == self.spec_code(),
            1 <= c <= 13,
    {
        match self {
            ContractError::AlreadyInitialized => 1,
            ContractError::NotInitialized => 2,
            ContractError::InvalidAmount => 3,
            ContractError::InvalidFeeBps => 4,
            ContractError::AgentNotRegistered => 5,
            ContractError::RemittanceNotFound => 6,
            ContractError::InvalidStatus => 7,
            ContractError::Overflow => 8,
            ContractError::NoFeesToWithdraw => 9,
            ContractError::InvalidAddress => 10,
            ContractError::SettlementExpired => 11,
            ContractError::DuplicateSettlement => 12,
            ContractError::ContractPaused => 13,
        }
    }
}

} // verus!

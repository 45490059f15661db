//! The ledger as a state machine over store contents: for each operation,
//! what it answers in a given state and what the state is afterwards.
//!
//! An operation that answers with an error leaves the state as it was. The
//! checks of an operation are made in a fixed order, and the first one that
//! fails names the error. A [`Call`] names an operation with its arguments,
//! so that sequences of operations can be spoken of.

use crate::errors::ContractError;
use crate::fees::{fee_computable, fee_of, in_amount_range};
use crate::storage::LedgerState;
use crate::types::{Address, Event, Remittance, RemittanceStatus};
use crate::validation::address_ok;
use vstd::prelude::*;

verus! {

impl LedgerState {
    /// The answer of `initialize`.
    pub open spec fn initialize(self, admin: Address, usdc_token: Address, fee_bps: u32) -> Result<
        Event,
        ContractError,
    > {
        if self.admin is Some {
            Err(ContractError::AlreadyInitialized)
        } else if fee_bps > 10000 {
            Err(ContractError::InvalidFeeBps)
        } else {
            Ok(Event::Initialized { admin, asset: usdc_token, fee_bps })
        }
    }

    /// The state after a successful `initialize`.
    pub open spec fn after_initialize(
        self,
        admin: Address,
        usdc_token: Address,
        fee_bps: u32,
    ) -> LedgerState {
        LedgerState {
            admin: Some(admin),
            usdc_token: Some(usdc_token),
            platform_fee_bps: Some(fee_bps),
            remittance_counter: Some(0),
            accumulated_fees: Some(0),
            ..self
        }
    }

    /// The answer of `register_agent` (`registered`) and of `remove_agent`.
    pub open spec fn set_agent(self, agent: Address, registered: bool) -> Result<
        Event,
        ContractError,
    > {
        match self.admin {
            None => Err(ContractError::NotInitialized),
            Some(admin) => if registered {
                Ok(Event::AgentRegistered { agent, admin })
            } else {
                Ok(Event::AgentRemoved { agent, admin })
            },
        }
    }

    /// The state after a successful `register_agent` or `remove_agent`.
    pub open spec fn after_set_agent(self, agent: Address, registered: bool) -> LedgerState {
        LedgerState { agents: self.agents.insert(agent, registered), ..self }
    }

    /// The answer of `update_fee`. The event carries the rate that was in
    /// force before the call.
    pub open spec fn update_fee(self, fee_bps: u32) -> Result<Event, ContractError> {
        match self.admin {
            None => Err(ContractError::NotInitialized),
            Some(admin) => if fee_bps > 10000 {
                Err(ContractError::InvalidFeeBps)
            } else {
                Ok(
                    Event::FeeUpdated {
                        admin,
                        old_fee_bps: match self.platform_fee_bps {
                            Some(old_fee_bps) => old_fee_bps,
                            None => fee_bps,
                        },
                        new_fee_bps: fee_bps,
                    },
                )
            },
        }
    }

    /// The state after a successful `update_fee`.
    pub open spec fn after_update_fee(self, fee_bps: u32) -> LedgerState {
        LedgerState { platform_fee_bps: Some(fee_bps), ..self }
    }

    /// The answer of `pause` (`paused`) and of `unpause`.
    pub open spec fn set_pause(self, paused: bool) -> Result<Event, ContractError> {
        match self.admin {
            None => Err(ContractError::NotInitialized),
            Some(admin) => if paused {
                Ok(Event::Paused { admin })
            } else {
                Ok(Event::Unpaused { admin })
            },
        }
    }

    /// The state after a successful `pause` or `unpause`.
    pub open spec fn after_set_pause(self, paused: bool) -> LedgerState {
        LedgerState { paused: Some(paused), ..self }
    }

    /// The answer of `create_remittance`.
    pub open spec fn create_remittance(
        self,
        sender: Address,
        agent: Address,
        amount: i128,
        expiry: Option<u64>,
    ) -> Result<Event, ContractError> {
        if amount <= 0 {
            Err(ContractError::InvalidAmount)
        } else if !self.agent_registered(agent) {
            Err(ContractError::AgentNotRegistered)
        } else if self.platform_fee_bps is None {
            Err(ContractError::NotInitialized)
        } else if !fee_computable(amount as int, self.platform_fee_bps->0 as int) {
            Err(ContractError::Overflow)
        } else if self.usdc_token is None {
            Err(ContractError::NotInitialized)
        } else if self.remittance_counter is None {
            Err(ContractError::NotInitialized)
        } else if self.remittance_counter->0 == u64::MAX {
            Err(ContractError::Overflow)
        } else {
            Ok(
                Event::RemittanceCreated {
                    id: (self.remittance_counter->0 + 1) as u64,
                    sender,
                    agent,
                    asset: self.usdc_token->0,
                    amount,
                    fee: fee_of(amount as int, self.platform_fee_bps->0 as int) as i128,
                },
            )
        }
    }

    /// The state after a successful `create_remittance`: the new record is
    /// stored as pending under the next id, and the counter stands at it.
    pub open spec fn after_create_remittance(
        self,
        sender: Address,
        agent: Address,
        amount: i128,
        expiry: Option<u64>,
    ) -> LedgerState {
        let id = (self.remittance_counter->0 + 1) as u64;
        let record = Remittance {
            id,
            sender,
            agent,
            amount,
            fee: fee_of(amount as int, self.platform_fee_bps->0 as int) as i128,
            status: RemittanceStatus::Pending,
            expiry,
        };
        LedgerState {
            remittances: self.remittances.insert(id, record),
            remittance_counter: Some(id),
            ..self
        }
    }

    /// Whether the record under `remittance_id` can no longer be settled at
    /// the time `now`: it has an expiry, and `now` is strictly after it.
    pub open spec fn expired(self, remittance_id: u64, now: u64) -> bool {
        match self.remittances[remittance_id].expiry {
            Some(expiry) => now > expiry,
            None => false,
        }
    }

    /// The answer of `confirm_payout` at the time `now`.
    pub open spec fn confirm_payout(self, remittance_id: u64, now: u64) -> Result<
        Event,
        ContractError,
    > {
        let record = self.remittances[remittance_id];
        if self.is_paused() {
            Err(ContractError::ContractPaused)
        } else if !self.remittances.contains_key(remittance_id) {
            Err(ContractError::RemittanceNotFound)
        } else if record.status != RemittanceStatus::Pending {
            Err(ContractError::InvalidStatus)
        } else if self.settlements.contains(remittance_id) {
            Err(ContractError::DuplicateSettlement)
        } else if self.expired(remittance_id, now) {
            Err(ContractError::SettlementExpired)
        } else if !address_ok(record.agent) {
            Err(ContractError::InvalidAddress)
        } else if !in_amount_range(record.amount - record.fee) {
            Err(ContractError::Overflow)
        } else if self.usdc_token is None {
            Err(ContractError::NotInitialized)
        } else if self.accumulated_fees is None {
            Err(ContractError::NotInitialized)
        } else if !in_amount_range(self.accumulated_fees->0 + record.fee) {
            Err(ContractError::Overflow)
        } else {
            Ok(
                Event::RemittanceCompleted {
                    id: remittance_id,
                    sender: record.sender,
                    agent: record.agent,
                    asset: self.usdc_token->0,
                    payout: (record.amount - record.fee) as i128,
                },
            )
        }
    }

    /// The state after a successful `confirm_payout`: the fee is added to
    /// the accumulated fees, the record is completed, and its settlement
    /// marker is set.
    pub open spec fn after_confirm_payout(self, remittance_id: u64) -> LedgerState {
        let record = self.remittances[remittance_id];
        LedgerState {
            accumulated_fees: Some((self.accumulated_fees->0 + record.fee) as i128),
            remittances: self.remittances.insert(
                remittance_id,
                record.with_status(RemittanceStatus::Completed),
            ),
            settlements: self.settlements.insert(remittance_id),
            ..self
        }
    }

    /// The answer of `cancel_remittance`.
    pub open spec fn cancel_remittance(self, remittance_id: u64) -> Result<Event, ContractError> {
        let record = self.remittances[remittance_id];
        if !self.remittances.contains_key(remittance_id) {
            Err(ContractError::RemittanceNotFound)
        } else if record.status != RemittanceStatus::Pending {
            Err(ContractError::InvalidStatus)
        } else if self.usdc_token is None {
            Err(ContractError::NotInitialized)
        } else {
            Ok(
                Event::RemittanceCancelled {
                    id: remittance_id,
                    sender: record.sender,
                    agent: record.agent,
                    asset: self.usdc_token->0,
                    amount: record.amount,
                },
            )
        }
    }

    /// The state after a successful `cancel_remittance`.
    pub open spec fn after_cancel_remittance(self, remittance_id: u64) -> LedgerState {
        let record = self.remittances[remittance_id];
        LedgerState {
            remittances: self.remittances.insert(
                remittance_id,
                record.with_status(RemittanceStatus::Cancelled),
            ),
            ..self
        }
    }

    /// The answer of `withdraw_fees`.
    pub open spec fn withdraw_fees(self, to: Address) -> Result<Event, ContractError> {
        if self.admin is None {
            Err(ContractError::NotInitialized)
        } else if !address_ok(to) {
            Err(ContractError::InvalidAddress)
        } else if self.accumulated_fees is None {
            Err(ContractError::NotInitialized)
        } else if self.accumulated_fees->0 <= 0 {
            Err(ContractError::NoFeesToWithdraw)
        } else if self.usdc_token is None {
            Err(ContractError::NotInitialized)
        } else {
            Ok(
                Event::FeesWithdrawn {
                    admin: self.admin->0,
                    to,
                    asset: self.usdc_token->0,
                    amount: self.accumulated_fees->0,
                },
            )
        }
    }

    /// The state after a successful `withdraw_fees`.
    pub open spec fn after_withdraw_fees(self) -> LedgerState {
        LedgerState { accumulated_fees: Some(0), ..self }
    }

    /// Whose authorization an administrative operation asks for: the
    /// administrator's, once there is one.
    pub open spec fn admin_signer(self) -> Option<Address> {
        self.admin
    }

    /// Whose authorization `confirm_payout` asks for: that of the agent named
    /// in the record, once the pause check has passed and the record is found.
    pub open spec fn confirm_signer(self, remittance_id: u64) -> Option<Address> {
        if !self.is_paused() && self.remittances.contains_key(remittance_id) {
            Some(self.remittances[remittance_id].agent)
        } else {
            None
        }
    }

    /// Whose authorization `cancel_remittance` asks for: that of the sender
    /// named in the record, once the record is found.
    pub open spec fn cancel_signer(self, remittance_id: u64) -> Option<Address> {
        if self.remittances.contains_key(remittance_id) {
            Some(self.remittances[remittance_id].sender)
        } else {
            None
        }
    }
}

/// The state after an operation that answered `answer`: `next` if it
/// succeeded, and the state before it otherwise.
pub open spec fn outcome(
    before: LedgerState,
    answer: Result<Event, ContractError>,
    next: LedgerState,
) -> LedgerState {
    if answer is Ok {
        next
    } else {
        before
    }
}

/// One call of an operation, with its arguments.
#[derive(Copy, Clone, Debug, PartialEq, Eq, Structural)]
pub enum Call {
    Initialize { admin: Address, usdc_token: Address, fee_bps: u32 },
    RegisterAgent { agent: Address },
    RemoveAgent { agent: Address },
    UpdateFee { fee_bps: u32 },
    CreateRemittance { sender: Address, agent: Address, amount: i128, expiry: Option<u64> },
    ConfirmPayout { remittance_id: u64, now: u64 },
    CancelRemittance { remittance_id: u64 },
    WithdrawFees { to: Address },
    Pause,
    Unpause,
}

impl LedgerState {
    /// What the ledger answers to `call`.
    pub open spec fn answer(self, call: Call) -> Result<Event, ContractError> {
        match call {
            Call::Initialize { admin, usdc_token, fee_bps } => self.initialize(
                admin,
                usdc_token,
                fee_bps,
            ),
            Call::RegisterAgent { agent } => self.set_agent(agent, true),
            Call::RemoveAgent { agent } => self.set_agent(agent, false),
            Call::UpdateFee { fee_bps } => self.update_fee(fee_bps),
            Call::CreateRemittance { sender, agent, amount, expiry } => self.create_remittance(
                sender,
                agent,
                amount,
                expiry,
            ),
            Call::ConfirmPayout { remittance_id, now } => self.confirm_payout(remittance_id, now),
            Call::CancelRemittance { remittance_id } => self.cancel_remittance(remittance_id),
            Call::WithdrawFees { to } => self.withdraw_fees(to),
            Call::Pause => self.set_pause(true),
            Call::Unpause => self.set_pause(false),
        }
    }

    /// The state after `call` if it succeeds.
    pub open spec fn effect(self, call: Call) -> LedgerState {
        match call {
            Call::Initialize { admin, usdc_token, fee_bps } => self.after_initialize(
                admin,
                usdc_token,
                fee_bps,
            ),
            Call::RegisterAgent { agent } => self.after_set_agent(agent, true),
            Call::RemoveAgent { agent } => self.after_set_agent(agent, false),
            Call::UpdateFee { fee_bps } => self.after_update_fee(fee_bps),
            Call::CreateRemittance {
                sender,
                agent,
                amount,
                expiry,
            } => self.after_create_remittance(sender, agent, amount, expiry),
            Call::ConfirmPayout { remittance_id, .. } => self.after_confirm_payout(remittance_id),
            Call::CancelRemittance { remittance_id } => self.after_cancel_remittance(
                remittance_id,
            ),
            Call::WithdrawFees { .. } => self.after_withdraw_fees(),
            Call::Pause => self.after_set_pause(true),
            Call::Unpause => self.after_set_pause(false),
        }
    }

    /// The state after `call`, whether it succeeds or not.
    pub open spec fn step(self, call: Call) -> LedgerState {
        outcome(self, self.answer(call), self.effect(call))
    }

    /// Whose authorization `call` asks for, if anyone's.
    pub open spec fn signer(self, call: Call) -> Option<Address> {
        match call {
            Call::Initialize { .. } => None,
            Call::CreateRemittance { sender, .. } => Some(sender),
            Call::ConfirmPayout { remittance_id, .. } => self.confirm_signer(remittance_id),
            Call::CancelRemittance { remittance_id } => self.cancel_signer(remittance_id),
            _ => self.admin_signer(),
        }
    }

    /// By how much `call` lets custody grow: the custody change of its
    /// event, and nothing if it fails.
    pub open spec fn inflow(self, call: Call) -> int {
        match self.answer(call) {
            Ok(event) => event.custody_change(),
            Err(_) => 0,
        }
    }
}

} // verus!

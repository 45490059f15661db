//! The ledger and its operations.
//!
//! Every operation is one atomic step: it answers with the event that
//! describes what it did, or with an error, and then nothing has changed.
//! An event of a fund-moving operation names a transfer (see
//! [`Event::transfer`]). The caller has to make that transfer together with
//! the step: if the transfer cannot be made, the state from before the call
//! has to be kept in place of the new one.
//!
//! Operations that act for a principal take an [`Auth`]; the caller vouches
//! that this principal authorized the call.

use crate::custody::{
    law_cancel_moves_amount_out, law_confirm_moves_payout_out, law_create_moves_amount_in,
    law_withdraw_moves_fees_out,
};
use crate::errors::ContractError;
use crate::fees::{calculate_fee, checked_difference, checked_sum, fee_bps_valid, next_id};
use crate::history::law_step;
use crate::laws::{
    law_administration_sound, law_cancel_sound, law_confirm_sound, law_create_sound,
    law_initialize_sound, law_withdraw_sound,
};
use crate::model::{outcome, Call};
use crate::storage::{
    get_accumulated_fees, get_admin, get_platform_fee_bps, get_remittance,
    get_remittance_counter, get_usdc_token, has_admin, has_settlement_hash, is_agent_registered,
    is_paused, set_accumulated_fees, set_admin, set_agent_registered, set_paused,
    set_platform_fee_bps, set_remittance, set_remittance_counter, set_settlement_hash,
    set_usdc_token, LedgerState, Storage,
};
use crate::types::{Address, Auth, Event, Remittance, RemittanceStatus};
use crate::validation::validate_address;
use vstd::prelude::*;

verus! {

/// A settlement ledger: the store and the operations on it.
#[derive(Debug)]
pub struct SwiftRemitContract {
    pub storage: Storage,
}

impl Clone for SwiftRemitContract {
    /// Makes a copy in the same state. A caller whose host cannot undo a
    /// step keeps one, to put it back if the step's transfer fails.
    fn clone(&self) -> (copy: SwiftRemitContract)
        ensures
            copy@ == self@,
    {
        SwiftRemitContract { storage: self.storage.clone() }
    }
}

impl View for SwiftRemitContract {
    type V = LedgerState;

    open spec fn view(&self) -> LedgerState {
        self.storage@
    }
}

impl SwiftRemitContract {
    /// Whether `auth` speaks for `signer`, where there is one.
    pub open spec fn authorized(auth: Auth, signer: Option<Address>) -> bool {
        signer matches Some(principal) ==> auth.covers(principal)
    }

    /// Makes a ledger that has not been set up: its store is empty.
    pub fn new() -> (ledger: SwiftRemitContract)
        ensures
            ledger@ == LedgerState::empty(),
            ledger@.sound(),
    {
        SwiftRemitContract { storage: Storage::new() }
    }

    /// Makes a ledger over a given store.
    pub fn with_storage(storage: Storage) -> (ledger: SwiftRemitContract)
        ensures
            ledger.storage == storage,
    {
        SwiftRemitContract { storage }
    }

    /// Sets the ledger up with its administrator, its asset and its fee rate;
    /// the id counter and the accumulated fees start at zero. This succeeds
    /// once: `AlreadyInitialized` if an administrator is stored,
    /// `InvalidFeeBps` if the rate exceeds 10000.
    pub fn initialize(&mut self, admin: Address, usdc_token: Address, fee_bps: u32) -> (r: Result<
        Event,
        ContractError,
    >)
        ensures
            r == old(self)@.initialize(admin, usdc_token, fee_bps),
            final(self)@ == outcome(
                old(self)@,
                r,
                old(self)@.after_initialize(admin, usdc_token, fee_bps),
            ),
            old(self)@.sound() ==> final(self)@.sound(),
    {
        proof {
            if self@.sound() {
                law_initialize_sound(self@, admin, usdc_token, fee_bps);
            }
        }
        if has_admin(&self.storage) {
            return Err(ContractError::AlreadyInitialized);
        }
        if !fee_bps_valid(fee_bps) {
            return Err(ContractError::InvalidFeeBps);
        }
        set_admin(&mut self.storage, &admin);
        set_usdc_token(&mut self.storage, &usdc_token);
        set_platform_fee_bps(&mut self.storage, fee_bps);
        set_remittance_counter(&mut self.storage, 0);
        set_accumulated_fees(&mut self.storage, 0);
        Ok(Event::Initialized { admin, asset: usdc_token, fee_bps })
    }

    /// Registers `agent`, on the administrator's authority:
    /// `NotInitialized` if there is no administrator.
    pub fn register_agent(&mut self, auth: &Auth, agent: Address) -> (r: Result<
        Event,
        ContractError,
    >)
        requires
            Self::authorized(*auth, old(self)@.admin_signer()),
        ensures
            r == old(self)@.set_agent(agent, true),
            final(self)@ == outcome(old(self)@, r, old(self)@.after_set_agent(agent, true)),
            old(self)@.sound() ==> final(self)@.sound(),
    {
        proof {
            if self@.sound() {
                law_administration_sound(self@, agent, true, 0);
            }
        }
        let admin = match get_admin(&self.storage) {
            Ok(admin) => admin,
            Err(e) => {
                return Err(e);
            },
        };
        set_agent_registered(&mut self.storage, &agent, true);
        Ok(Event::AgentRegistered { agent, admin })
    }

    /// Takes the registration of `agent` away, on the administrator's
    /// authority: `NotInitialized` if there is no administrator. Remittances
    /// already created for the agent stay as they are.
    pub fn remove_agent(&mut self, auth: &Auth, agent: Address) -> (r: Result<
        Event,
        ContractError,
    >)
        requires
            Self::authorized(*auth, old(self)@.admin_signer()),
        ensures
            r == old(self)@.set_agent(agent, false),
            final(self)@ == outcome(old(self)@, r, old(self)@.after_set_agent(agent, false)),
            old(self)@.sound() ==> final(self)@.sound(),
    {
        proof {
            if self@.sound() {
                law_administration_sound(self@, agent, false, 0);
            }
        }
        let admin = match get_admin(&self.storage) {
            Ok(admin) => admin,
            Err(e) => {
                return Err(e);
            },
        };
        set_agent_registered(&mut self.storage, &agent, false);
        Ok(Event::AgentRemoved { agent, admin })
    }

    /// Sets the fee rate for the remittances created from now on, on the
    /// administrator's authority: `NotInitialized` if there is no
    /// administrator, `InvalidFeeBps` if the rate exceeds 10000.
    pub fn update_fee(&mut self, auth: &Auth, fee_bps: u32) -> (r: Result<Event, ContractError>)
        requires
            Self::authorized(*auth, old(self)@.admin_signer()),
        ensures
            r == old(self)@.update_fee(fee_bps),
            final(self)@ == outcome(old(self)@, r, old(self)@.after_update_fee(fee_bps)),
            old(self)@.sound() ==> final(self)@.sound(),
    {
        proof {
            if self@.sound() {
                law_administration_sound(self@, self@.admin->0, true, fee_bps);
            }
        }
        let admin = match get_admin(&self.storage) {
            Ok(admin) => admin,
            Err(e) => {
                return Err(e);
            },
        };
        if !fee_bps_valid(fee_bps) {
            return Err(ContractError::InvalidFeeBps);
        }
        let old_fee_bps = match get_platform_fee_bps(&self.storage) {
            Ok(old_fee_bps) => old_fee_bps,
            Err(_) => fee_bps,
        };
        set_platform_fee_bps(&mut self.storage, fee_bps);
        Ok(Event::FeeUpdated { admin, old_fee_bps, new_fee_bps: fee_bps })
    }

    /// Escrows `amount` from `sender` for `agent`, on the sender's
    /// authority, and returns the event with the new remittance's id and fee.
    /// The fee is fixed here, at the rate in force.
    ///
    /// `InvalidAmount` if the amount is not positive; `AgentNotRegistered` if
    /// the agent is not registered now; `Overflow` if the fee cannot be
    /// computed or the ids have run out; `NotInitialized` if the ledger has
    /// not been set up.
    pub fn create_remittance(
        &mut self,
        auth: &Auth,
        sender: Address,
        agent: Address,
        amount: i128,
        expiry: Option<u64>,
    ) -> (r: Result<Event, ContractError>)
        requires
            auth.covers(sender),
        ensures
            r == old(self)@.create_remittance(sender, agent, amount, expiry),
            final(self)@ == outcome(
                old(self)@,
                r,
                old(self)@.after_create_remittance(sender, agent, amount, expiry),
            ),
            old(self)@.sound() ==> final(self)@.sound(),
            old(self)@.sound() && r is Ok ==> final(self)@.owed() == old(self)@.owed()
                + r->Ok_0.custody_change(),
    {
        proof {
            if self@.sound() && self@.create_remittance(sender, agent, amount, expiry) is Ok {
                law_create_moves_amount_in(self@, sender, agent, amount, expiry);
            }
            if self@.sound() {
                law_create_sound(self@, sender, agent, amount, expiry);
            }
        }
        if amount <= 0 {
            return Err(ContractError::InvalidAmount);
        }
        if !is_agent_registered(&self.storage, &agent) {
            return Err(ContractError::AgentNotRegistered);
        }
        let fee_bps = match get_platform_fee_bps(&self.storage) {
            Ok(fee_bps) => fee_bps,
            Err(e) => {
                return Err(e);
            },
        };
        let fee = match calculate_fee(amount, fee_bps) {
            Ok(fee) => fee,
            Err(e) => {
                return Err(e);
            },
        };
        let usdc_token = match get_usdc_token(&self.storage) {
            Ok(usdc_token) => usdc_token,
            Err(e) => {
                return Err(e);
            },
        };
        let counter = match get_remittance_counter(&self.storage) {
            Ok(counter) => counter,
            Err(e) => {
                return Err(e);
            },
        };
        let remittance_id = match next_id(counter) {
            Ok(remittance_id) => remittance_id,
            Err(e) => {
                return Err(e);
            },
        };
        let remittance = Remittance {
            id: remittance_id,
            sender,
            agent,
            amount,
            fee,
            status: RemittanceStatus::Pending,
            expiry,
        };
        set_remittance(&mut self.storage, remittance_id, &remittance);
        set_remittance_counter(&mut self.storage, remittance_id);
        Ok(
            Event::RemittanceCreated {
                id: remittance_id,
                sender,
                agent,
                asset: usdc_token,
                amount,
                fee,
            },
        )
    }

    /// Settles the remittance under `remittance_id` at the time `now`, on
    /// the authority of the agent that the record names: the agent is paid
    /// the amount less the fee, the fee is added to the accumulated fees, the
    /// record becomes `Completed` and its settlement marker is set.
    ///
    /// The checks come in this order: `ContractPaused`, `RemittanceNotFound`,
    /// `InvalidStatus` unless the record is pending, `DuplicateSettlement` if
    /// the marker is set, `SettlementExpired` if `now` is after the expiry,
    /// `InvalidAddress`, `Overflow`, `NotInitialized`.
    pub fn confirm_payout(&mut self, auth: &Auth, remittance_id: u64, now: u64) -> (r: Result<
        Event,
        ContractError,
    >)
        requires
            Self::authorized(*auth, old(self)@.confirm_signer(remittance_id)),
        ensures
            r == old(self)@.confirm_payout(remittance_id, now),
            final(self)@ == outcome(
                old(self)@,
                r,
                old(self)@.after_confirm_payout(remittance_id),
            ),
            old(self)@.sound() ==> final(self)@.sound(),
            old(self)@.sound() && r is Ok ==> final(self)@.owed() == old(self)@.owed()
                + r->Ok_0.custody_change(),
    {
        proof {
            if self@.sound() && self@.confirm_payout(remittance_id, now) is Ok {
                law_confirm_moves_payout_out(self@, remittance_id, now);
            }
            if self@.sound() {
                law_confirm_sound(self@, remittance_id, now);
            }
        }
        if is_paused(&self.storage) {
            return Err(ContractError::ContractPaused);
        }
        let mut remittance = match get_remittance(&self.storage, remittance_id) {
            Ok(remittance) => remittance,
            Err(e) => {
                return Err(e);
            },
        };
        if remittance.status != RemittanceStatus::Pending {
            return Err(ContractError::InvalidStatus);
        }
        if has_settlement_hash(&self.storage, remittance_id) {
            return Err(ContractError::DuplicateSettlement);
        }
        if let Some(expiry_time) = remittance.expiry {
            if now > expiry_time {
                return Err(ContractError::SettlementExpired);
            }
        }
        match validate_address(&remittance.agent) {
            Ok(()) => {},
            Err(e) => {
                return Err(e);
            },
        }
        let payout_amount = match checked_difference(remittance.amount, remittance.fee) {
            Ok(payout_amount) => payout_amount,
            Err(e) => {
                return Err(e);
            },
        };
        let usdc_token = match get_usdc_token(&self.storage) {
            Ok(usdc_token) => usdc_token,
            Err(e) => {
                return Err(e);
            },
        };
        let current_fees = match get_accumulated_fees(&self.storage) {
            Ok(current_fees) => current_fees,
            Err(e) => {
                return Err(e);
            },
        };
        let new_fees = match checked_sum(current_fees, remittance.fee) {
            Ok(new_fees) => new_fees,
            Err(e) => {
                return Err(e);
            },
        };
        set_accumulated_fees(&mut self.storage, new_fees);
        remittance.status = RemittanceStatus::Completed;
        set_remittance(&mut self.storage, remittance_id, &remittance);
        set_settlement_hash(&mut self.storage, remittance_id);
        Ok(
            Event::RemittanceCompleted {
                id: remittance_id,
                sender: remittance.sender,
                agent: remittance.agent,
                asset: usdc_token,
                payout: payout_amount,
            },
        )
    }

    /// Cancels the pending remittance under `remittance_id`, on the
    /// authority of the sender that the record names: the full amount goes
    /// back to the sender and the record becomes `Cancelled`. This is open at
    /// any time, also after the expiry and while settlements are suspended.
    ///
    /// `RemittanceNotFound` if there is no such record; `InvalidStatus`
    /// unless it is pending; `NotInitialized` if no asset is stored.
    pub fn cancel_remittance(&mut self, auth: &Auth, remittance_id: u64) -> (r: Result<
        Event,
        ContractError,
    >)
        requires
            Self::authorized(*auth, old(self)@.cancel_signer(remittance_id)),
        ensures
            r == old(self)@.cancel_remittance(remittance_id),
            final(self)@ == outcome(
                old(self)@,
                r,
                old(self)@.after_cancel_remittance(remittance_id),
            ),
            old(self)@.sound() ==> final(self)@.sound(),
            old(self)@.sound() && r is Ok ==> final(self)@.owed() == old(self)@.owed()
                + r->Ok_0.custody_change(),
    {
        proof {
            if self@.sound() && self@.cancel_remittance(remittance_id) is Ok {
                law_cancel_moves_amount_out(self@, remittance_id);
            }
            if self@.sound() {
                law_cancel_sound(self@, remittance_id);
            }
        }
        let mut remittance = match get_remittance(&self.storage, remittance_id) {
            Ok(remittance) => remittance,
            Err(e) => {
                return Err(e);
            },
        };
        if remittance.status != RemittanceStatus::Pending {
            return Err(ContractError::InvalidStatus);
        }
        let usdc_token = match get_usdc_token(&self.storage) {
            Ok(usdc_token) => usdc_token,
            Err(e) => {
                return Err(e);
            },
        };
        remittance.status = RemittanceStatus::Cancelled;
        set_remittance(&mut self.storage, remittance_id, &remittance);
        Ok(
            Event::RemittanceCancelled {
                id: remittance_id,
                sender: remittance.sender,
                agent: remittance.agent,
                asset: usdc_token,
                amount: remittance.amount,
            },
        )
    }

    /// Pays the accumulated fees out to `to`, on the administrator's
    /// authority, and sets them back to zero.
    ///
    /// `NotInitialized` if the ledger has not been set up; `InvalidAddress`
    /// if `to` is not well formed; `NoFeesToWithdraw` if the accumulated fees
    /// are not positive.
    pub fn withdraw_fees(&mut self, auth: &Auth, to: Address) -> (r: Result<Event, ContractError>)
        requires
            Self::authorized(*auth, old(self)@.admin_signer()),
        ensures
            r == old(self)@.withdraw_fees(to),
            final(self)@ == outcome(old(self)@, r, old(self)@.after_withdraw_fees()),
            old(self)@.sound() ==> final(self)@.sound(),
            old(self)@.sound() && r is Ok ==> final(self)@.owed() == old(self)@.owed()
                + r->Ok_0.custody_change(),
    {
        proof {
            if self@.sound() && self@.withdraw_fees(to) is Ok {
                law_withdraw_moves_fees_out(self@, to);
            }
            if self@.sound() {
                law_withdraw_sound(self@, to);
            }
        }
        let admin = match get_admin(&self.storage) {
            Ok(admin) => admin,
            Err(e) => {
                return Err(e);
            },
        };
        match validate_address(&to) {
            Ok(()) => {},
            Err(e) => {
                return Err(e);
            },
        }
        let fees = match get_accumulated_fees(&self.storage) {
            Ok(fees) => fees,
            Err(e) => {
                return Err(e);
            },
        };
        if fees <= 0 {
            return Err(ContractError::NoFeesToWithdraw);
        }
        let usdc_token = match get_usdc_token(&self.storage) {
            Ok(usdc_token) => usdc_token,
            Err(e) => {
                return Err(e);
            },
        };
        set_accumulated_fees(&mut self.storage, 0);
        Ok(Event::FeesWithdrawn { admin, to, asset: usdc_token, amount: fees })
    }

    /// Returns the principal whose authorization `call` asks for, if there
    /// is one.
    pub fn signer(&self, call: &Call) -> (signer: Option<Address>)
        ensures
            signer == self@.signer(*call),
    {
        match *call {
            Call::Initialize { .. } => None,
            Call::CreateRemittance { sender, .. } => Some(sender),
            Call::ConfirmPayout { remittance_id, .. } => self.confirm_signer(remittance_id),
            Call::CancelRemittance { remittance_id } => self.cancel_signer(remittance_id),
            _ => self.admin_signer(),
        }
    }

    /// Carries out `call`: the operation it names, with its arguments.
    pub fn apply(&mut self, auth: &Auth, call: Call) -> (r: Result<Event, ContractError>)
        requires
            Self::authorized(*auth, old(self)@.signer(call)),
        ensures
            r == old(self)@.answer(call),
            final(self)@ == old(self)@.step(call),
            old(self)@.sound() ==> final(self)@.sound(),
            old(self)@.sound() ==> final(self)@.owed() == old(self)@.owed() + old(self)@.inflow(
                call,
            ),
    {
        proof {
            if self@.sound() {
                law_step(self@, call);
            }
        }
        match call {
            Call::Initialize { admin, usdc_token, fee_bps } => self.initialize(
                admin,
                usdc_token,
                fee_bps,
            ),
            Call::RegisterAgent { agent } => self.register_agent(auth, agent),
            Call::RemoveAgent { agent } => self.remove_agent(auth, agent),
            Call::UpdateFee { fee_bps } => self.update_fee(auth, fee_bps),
            Call::CreateRemittance { sender, agent, amount, expiry } => self.create_remittance(
                auth,
                sender,
                agent,
                amount,
                expiry,
            ),
            Call::ConfirmPayout { remittance_id, now } => self.confirm_payout(
                auth,
                remittance_id,
                now,
            ),
            Call::CancelRemittance { remittance_id } => self.cancel_remittance(
                auth,
                remittance_id,
            ),
            Call::WithdrawFees { to } => self.withdraw_fees(auth, to),
            Call::Pause => self.pause(auth),
            Call::Unpause => self.unpause(auth),
        }
    }

    /// Returns the record under `remittance_id`, or `RemittanceNotFound`.
    pub fn get_remittance(&self, remittance_id: u64) -> (r: Result<Remittance, ContractError>)
        ensures
            r == if self@.remittances.contains_key(remittance_id) {
                Ok::<Remittance, ContractError>(self@.remittances[remittance_id])
            } else {
                Err(ContractError::RemittanceNotFound)
            },
    {
        get_remittance(&self.storage, remittance_id)
    }

    /// Returns the accumulated fees, or `NotInitialized`.
    pub fn get_accumulated_fees(&self) -> (r: Result<i128, ContractError>)
        ensures
            r == match self@.accumulated_fees {
                Some(fees) => Ok::<i128, ContractError>(fees),
                None => Err(ContractError::NotInitialized),
            },
    {
        get_accumulated_fees(&self.storage)
    }

    /// Tells whether `agent` is registered.
    pub fn is_agent_registered(&self, agent: Address) -> (r: bool)
        ensures
            r == self@.agent_registered(agent),
    {
        is_agent_registered(&self.storage, &agent)
    }

    /// Returns the fee rate in basis points, or `NotInitialized`.
    pub fn get_platform_fee_bps(&self) -> (r: Result<u32, ContractError>)
        ensures
            r == match self@.platform_fee_bps {
                Some(fee_bps) => Ok::<u32, ContractError>(fee_bps),
                None => Err(ContractError::NotInitialized),
            },
    {
        get_platform_fee_bps(&self.storage)
    }

    /// Suspends settlements, on the administrator's authority:
    /// `NotInitialized` if there is no administrator. Creation, cancellation
    /// and fee withdrawal stay open.
    pub fn pause(&mut self, auth: &Auth) -> (r: Result<Event, ContractError>)
        requires
            Self::authorized(*auth, old(self)@.admin_signer()),
        ensures
            r == old(self)@.set_pause(true),
            final(self)@ == outcome(old(self)@, r, old(self)@.after_set_pause(true)),
            old(self)@.sound() ==> final(self)@.sound(),
    {
        proof {
            if self@.sound() {
                law_administration_sound(self@, self@.admin->0, true, 0);
            }
        }
        let admin = match get_admin(&self.storage) {
            Ok(admin) => admin,
            Err(e) => {
                return Err(e);
            },
        };
        set_paused(&mut self.storage, true);
        Ok(Event::Paused { admin })
    }

    /// Opens settlements again, on the administrator's authority:
    /// `NotInitialized` if there is no administrator.
    pub fn unpause(&mut self, auth: &Auth) -> (r: Result<Event, ContractError>)
        requires
            Self::authorized(*auth, old(self)@.admin_signer()),
        ensures
            r == old(self)@.set_pause(false),
            final(self)@ == outcome(old(self)@, r, old(self)@.after_set_pause(false)),
            old(self)@.sound() ==> final(self)@.sound(),
    {
        proof {
            if self@.sound() {
                law_administration_sound(self@, self@.admin->0, false, 0);
            }
        }
        let admin = match get_admin(&self.storage) {
            Ok(admin) => admin,
            Err(e) => {
                return Err(e);
            },
        };
        set_paused(&mut self.storage, false);
        Ok(Event::Unpaused { admin })
    }

    /// Tells whether settlements are suspended.
    pub fn is_paused(&self) -> (r: bool)
        ensures
            r == self@.is_paused(),
    {
        is_paused(&self.storage)
    }

    /// Returns the principal whose authorization the administrative
    /// operations ask for, if there is one.
    pub fn admin_signer(&self) -> (signer: Option<Address>)
        ensures
            signer == self@.admin_signer(),
    {
        match get_admin(&self.storage) {
            Ok(admin) => Some(admin),
            Err(_) => None,
        }
    }

    /// Returns the principal whose authorization `confirm_payout` asks for
    /// on `remittance_id`, if there is one.
    pub fn confirm_signer(&self, remittance_id: u64) -> (signer: Option<Address>)
        ensures
            signer == self@.confirm_signer(remittance_id),
    {
        if is_paused(&self.storage) {
            return None;
        }
        match get_remittance(&self.storage, remittance_id) {
            Ok(remittance) => Some(remittance.agent),
            Err(_) => None,
        }
    }

    /// Returns the principal whose authorization `cancel_remittance` asks
    /// for on `remittance_id`, if there is one.
    pub fn cancel_signer(&self, remittance_id: u64) -> (signer: Option<Address>)
        ensures
            signer == self@.cancel_signer(remittance_id),
    {
        match get_remittance(&self.storage, remittance_id) {
            Ok(remittance) => Some(remittance.sender),
            Err(_) => None,
        }
    }
}

} // verus!

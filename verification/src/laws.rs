//! What holds of the ledger's operations across states and calls.

use crate::errors::ContractError;
use crate::fees::{fee_of, lemma_fee_bounds};
use crate::model::outcome;
use crate::storage::LedgerState;
use crate::types::{Address, Event, Remittance, RemittanceStatus};
use vstd::prelude::*;

verus! {

impl LedgerState {
    /// Whether the ledger has been set up in full.
    pub open spec fn initialized(self) -> bool {
        &&& self.admin is Some
        &&& self.usdc_token is Some
        &&& self.platform_fee_bps is Some
        &&& self.remittance_counter is Some
        &&& self.accumulated_fees is Some
    }

    /// What holds of every state that the operations reach from an empty
    /// store.
    ///
    /// Before the set-up nothing is stored but, possibly, nothing at all.
    /// After it the configuration is complete, the fee rate is at most 10000,
    /// the accumulated fees are not negative, and every record sits under
    /// its own id, which the counter has reached, with a positive amount and
    /// a fee between zero and the amount. A settlement marker is set exactly
    /// for the completed records.
    pub open spec fn sound(self) -> bool {
        &&& self.admin is None ==> self == LedgerState::empty()
        &&& self.admin is Some ==> {
            &&& self.initialized()
            &&& self.platform_fee_bps->0 <= 10000
            &&& self.accumulated_fees->0 >= 0
        }
        &&& forall|id: u64| #[trigger]
            self.remittances.contains_key(id) ==> {
                let record = self.remittances[id];
                &&& record.id == id
                &&& 1 <= id <= self.remittance_counter->0
                &&& record.amount > 0
                &&& 0 <= record.fee <= record.amount
                &&& (self.settlements.contains(id) <==> record.status
                    == RemittanceStatus::Completed)
            }
        &&& forall|id: u64| #[trigger]
            self.settlements.contains(id) ==> self.remittances.contains_key(id)
    }
}

/// A remittance that is created at a rate of at most 10000 basis points has
/// the fee `floor(amount * rate / 10000)`, which is not negative and not
/// above the amount.
pub proof fn law_created_fee(
    s: LedgerState,
    sender: Address,
    agent: Address,
    amount: i128,
    expiry: Option<u64>,
)
    requires
        s.create_remittance(sender, agent, amount, expiry) is Ok,
        s.platform_fee_bps->0 <= 10000,
    ensures
        ({
            let id = (s.remittance_counter->0 + 1) as u64;
            let after = s.after_create_remittance(sender, agent, amount, expiry);
            let record = after.remittances[id];
            &&& s.create_remittance(sender, agent, amount, expiry)
                matches Ok(Event::RemittanceCreated { id: new_id, fee, .. }) && new_id == id
                && fee == record.fee
            &&& after.remittances.contains_key(id)
            &&& record.amount == amount
            &&& record.status == RemittanceStatus::Pending
            &&& record.fee == (amount * s.platform_fee_bps->0) / 10000
            &&& 0 <= record.fee <= amount
        }),
{
    lemma_fee_bounds(amount as int, s.platform_fee_bps->0 as int);
}

/// A settlement marker blocks settlement: while the marker of a remittance
/// is set, `confirm_payout` on it fails at any time, and it fails with
/// `DuplicateSettlement` where the record is found pending and settlements
/// are not suspended.
pub proof fn law_marker_blocks_settlement(s: LedgerState, remittance_id: u64, now: u64)
    requires
        s.settlements.contains(remittance_id),
    ensures
        s.confirm_payout(remittance_id, now) is Err,
        !s.is_paused() && s.remittances.contains_key(remittance_id)
            && s.remittances[remittance_id].status == RemittanceStatus::Pending
            ==> s.confirm_payout(remittance_id, now) == Err::<Event, ContractError>(
            ContractError::DuplicateSettlement,
        ),
{
}

/// A remittance is settled once. After a successful `confirm_payout` the
/// marker is set and the fee has been added to the accumulated fees; a
/// second `confirm_payout` on the same id, at any time, fails, and leaves the
/// state, and so the accumulated fees, as the first one left them. The
/// record is then completed, so the second call is refused for its status.
pub proof fn law_settled_once(s: LedgerState, remittance_id: u64, now: u64, later: u64)
    requires
        s.confirm_payout(remittance_id, now) is Ok,
    ensures
        ({
            let after = s.after_confirm_payout(remittance_id);
            let again = after.confirm_payout(remittance_id, later);
            &&& after.settlements.contains(remittance_id)
            &&& after.remittances[remittance_id].status == RemittanceStatus::Completed
            &&& after.accumulated_fees == Some(
                (s.accumulated_fees->0 + s.remittances[remittance_id].fee) as i128,
            )
            &&& again == Err::<Event, ContractError>(ContractError::InvalidStatus)
            &&& outcome(after, again, after.after_confirm_payout(remittance_id)) == after
        }),
{
}

/// Past its expiry a remittance is not settled: `confirm_payout` at a time
/// strictly after the expiry fails, so no funds move, and it fails with
/// `SettlementExpired` where settlements are not suspended, the record is
/// pending and no marker is set.
pub proof fn law_expired_not_settled(s: LedgerState, remittance_id: u64, now: u64)
    requires
        s.remittances.contains_key(remittance_id),
        s.remittances[remittance_id].expiry matches Some(expiry) && now > expiry,
    ensures
        s.confirm_payout(remittance_id, now) is Err,
        outcome(s, s.confirm_payout(remittance_id, now), s.after_confirm_payout(remittance_id))
            == s,
        !s.is_paused() && s.remittances[remittance_id].status == RemittanceStatus::Pending
            && !s.settlements.contains(remittance_id) ==> s.confirm_payout(remittance_id, now)
            == Err::<Event, ContractError>(ContractError::SettlementExpired),
{
}

/// A completed or cancelled remittance cannot be cancelled:
/// `cancel_remittance` fails with `InvalidStatus`.
pub proof fn law_cancel_needs_pending(s: LedgerState, remittance_id: u64)
    requires
        s.remittances.contains_key(remittance_id),
        s.remittances[remittance_id].status != RemittanceStatus::Pending,
    ensures
        s.cancel_remittance(remittance_id) == Err::<Event, ContractError>(
            ContractError::InvalidStatus,
        ),
{
}

/// A cancelled remittance stays cancelled and a completed one completed:
/// after a successful `cancel_remittance` or `confirm_payout` neither
/// operation succeeds on that id again.
pub proof fn law_terminal_states(s: LedgerState, remittance_id: u64, now: u64, later: u64)
    ensures
        s.cancel_remittance(remittance_id) is Ok ==> {
            let after = s.after_cancel_remittance(remittance_id);
            &&& after.remittances[remittance_id].status == RemittanceStatus::Cancelled
            &&& after.cancel_remittance(remittance_id) is Err
            &&& after.confirm_payout(remittance_id, later) is Err
        },
        s.confirm_payout(remittance_id, now) is Ok ==> {
            let after = s.after_confirm_payout(remittance_id);
            &&& after.cancel_remittance(remittance_id) is Err
            &&& after.confirm_payout(remittance_id, later) is Err
        },
{
}

/// With accumulated fees of zero, `withdraw_fees` fails with
/// `NoFeesToWithdraw`.
pub proof fn law_nothing_to_withdraw(s: LedgerState, to: Address)
    requires
        s.admin is Some,
        s.accumulated_fees == Some(0i128),
    ensures
        s.withdraw_fees(to) == Err::<Event, ContractError>(ContractError::NoFeesToWithdraw),
{
}

/// A successful `withdraw_fees` pays out all accumulated fees and sets them
/// to zero, so that a second one, to whatever address, fails with
/// `NoFeesToWithdraw`.
pub proof fn law_withdraw_empties(s: LedgerState, to: Address, next_to: Address)
    requires
        s.withdraw_fees(to) is Ok,
    ensures
        s.withdraw_fees(to)->Ok_0 matches Event::FeesWithdrawn { amount, .. } && amount
            == s.accumulated_fees->0 && amount > 0,
        s.after_withdraw_fees().accumulated_fees == Some(0i128),
        s.after_withdraw_fees().withdraw_fees(next_to) == Err::<Event, ContractError>(
            ContractError::NoFeesToWithdraw,
        ),
{
}

/// While settlements are suspended, `confirm_payout` fails with
/// `ContractPaused` on every id; `cancel_remittance`, `create_remittance`
/// and `withdraw_fees` answer as they do otherwise.
pub proof fn law_pause_stops_settlement_only(
    s: LedgerState,
    remittance_id: u64,
    now: u64,
    sender: Address,
    agent: Address,
    amount: i128,
    expiry: Option<u64>,
    to: Address,
)
    requires
        s.set_pause(true) is Ok,
    ensures
        ({
            let paused = s.after_set_pause(true);
            &&& paused.confirm_payout(remittance_id, now) == Err::<Event, ContractError>(
                ContractError::ContractPaused,
            )
            &&& paused.cancel_remittance(remittance_id) == s.cancel_remittance(remittance_id)
            &&& paused.create_remittance(sender, agent, amount, expiry) == s.create_remittance(
                sender,
                agent,
                amount,
                expiry,
            )
            &&& paused.withdraw_fees(to) == s.withdraw_fees(to)
        }),
{
}

/// The empty store is sound.
pub proof fn law_empty_sound()
    ensures
        LedgerState::empty().sound(),
{
}

/// `initialize` keeps a state sound.
pub proof fn law_initialize_sound(s: LedgerState, admin: Address, usdc_token: Address, fee_bps: u32)
    requires
        s.sound(),
    ensures
        outcome(
            s,
            s.initialize(admin, usdc_token, fee_bps),
            s.after_initialize(admin, usdc_token, fee_bps),
        ).sound(),
{
}

/// The administrative operations keep a state sound.
pub proof fn law_administration_sound(s: LedgerState, agent: Address, flag: bool, fee_bps: u32)
    requires
        s.sound(),
    ensures
        outcome(s, s.set_agent(agent, flag), s.after_set_agent(agent, flag)).sound(),
        outcome(s, s.update_fee(fee_bps), s.after_update_fee(fee_bps)).sound(),
        outcome(s, s.set_pause(flag), s.after_set_pause(flag)).sound(),
{
}

/// `create_remittance` keeps a state sound: the new record has an id of its
/// own, above all others, and a fee between zero and its amount.
pub proof fn law_create_sound(
    s: LedgerState,
    sender: Address,
    agent: Address,
    amount: i128,
    expiry: Option<u64>,
)
    requires
        s.sound(),
    ensures
        outcome(
            s,
            s.create_remittance(sender, agent, amount, expiry),
            s.after_create_remittance(sender, agent, amount, expiry),
        ).sound(),
        s.create_remittance(sender, agent, amount, expiry) is Ok ==> !s.remittances.contains_key(
            (s.remittance_counter->0 + 1) as u64,
        ),
{
    if s.create_remittance(sender, agent, amount, expiry) is Ok {
        lemma_fee_bounds(amount as int, s.platform_fee_bps->0 as int);
        let after = s.after_create_remittance(sender, agent, amount, expiry);
        let new_id = (s.remittance_counter->0 + 1) as u64;
        assert(!s.settlements.contains(new_id)) by {
            if s.settlements.contains(new_id) {
                assert(s.remittances.contains_key(new_id));
            }
        }
        assert forall|id: u64| #[trigger] after.remittances.contains_key(id) implies {
            let record = after.remittances[id];
            &&& record.id == id
            &&& 1 <= id <= after.remittance_counter->0
            &&& record.amount > 0
            &&& 0 <= record.fee <= record.amount
            &&& (after.settlements.contains(id) <==> record.status == RemittanceStatus::Completed)
        } by {
            if id != new_id {
                assert(s.remittances.contains_key(id));
            }
        }
        assert forall|id: u64| #[trigger]
            after.settlements.contains(id) implies after.remittances.contains_key(id) by {
            assert(s.settlements.contains(id));
        }
    }
}

/// `confirm_payout` keeps a state sound. In a sound state its payout is the
/// amount less the fee and is not negative.
pub proof fn law_confirm_sound(s: LedgerState, remittance_id: u64, now: u64)
    requires
        s.sound(),
    ensures
        outcome(
            s,
            s.confirm_payout(remittance_id, now),
            s.after_confirm_payout(remittance_id),
        ).sound(),
        s.confirm_payout(remittance_id, now) matches Ok(Event::RemittanceCompleted { payout, .. })
            ==> payout == s.remittances[remittance_id].amount - s.remittances[remittance_id].fee
            && payout >= 0,
{
    if s.confirm_payout(remittance_id, now) is Ok {
        let after = s.after_confirm_payout(remittance_id);
        assert(s.remittances.contains_key(remittance_id));
        assert forall|id: u64| #[trigger] after.remittances.contains_key(id) implies {
            let record = after.remittances[id];
            &&& record.id == id
            &&& 1 <= id <= after.remittance_counter->0
            &&& record.amount > 0
            &&& 0 <= record.fee <= record.amount
            &&& (after.settlements.contains(id) <==> record.status == RemittanceStatus::Completed)
        } by {
            assert(s.remittances.contains_key(id));
        }
        assert forall|id: u64| #[trigger]
            after.settlements.contains(id) implies after.remittances.contains_key(id) by {
            if id != remittance_id {
                assert(s.settlements.contains(id));
            }
        }
    }
}

/// `cancel_remittance` keeps a state sound.
pub proof fn law_cancel_sound(s: LedgerState, remittance_id: u64)
    requires
        s.sound(),
    ensures
        outcome(
            s,
            s.cancel_remittance(remittance_id),
            s.after_cancel_remittance(remittance_id),
        ).sound(),
{
    if s.cancel_remittance(remittance_id) is Ok {
        let after = s.after_cancel_remittance(remittance_id);
        assert(s.remittances.contains_key(remittance_id));
        assert forall|id: u64| #[trigger] after.remittances.contains_key(id) implies {
            let record = after.remittances[id];
            &&& record.id == id
            &&& 1 <= id <= after.remittance_counter->0
            &&& record.amount > 0
            &&& 0 <= record.fee <= record.amount
            &&& (after.settlements.contains(id) <==> record.status == RemittanceStatus::Completed)
        } by {
            assert(s.remittances.contains_key(id));
        }
        assert forall|id: u64| #[trigger]
            after.settlements.contains(id) implies after.remittances.contains_key(id) by {
            assert(s.settlements.contains(id));
        }
    }
}

/// `withdraw_fees` keeps a state sound.
pub proof fn law_withdraw_sound(s: LedgerState, to: Address)
    requires
        s.sound(),
    ensures
        outcome(s, s.withdraw_fees(to), s.after_withdraw_fees()).sound(),
{
}

/// Whether `after` is `before` with at most another status.
pub open spec fn same_terms(before: Remittance, after: Remittance) -> bool {
    after == before.with_status(after.status)
}

/// How a ledger may change over time: what was decided stays decided.
///
/// Every record stays, with its id, sender, agent, amount, fee and expiry,
/// and leaves no status but `Pending`; every settlement marker stays; the
/// administrator and the asset stay; the id counter does not go down.
pub open spec fn evolves(before: LedgerState, after: LedgerState) -> bool {
    &&& forall|id: u64| #[trigger]
        before.remittances.contains_key(id) ==> {
            &&& after.remittances.contains_key(id)
            &&& same_terms(before.remittances[id], after.remittances[id])
            &&& before.remittances[id].status != RemittanceStatus::Pending
                ==> after.remittances[id].status == before.remittances[id].status
        }
    &&& forall|id: u64| #[trigger]
        before.settlements.contains(id) ==> after.settlements.contains(id)
    &&& before.admin is Some ==> after.admin == before.admin
    &&& before.usdc_token is Some ==> after.usdc_token == before.usdc_token
    &&& before.remittance_counter matches Some(counter) ==> after.remittance_counter is Some
        && after.remittance_counter->0 >= counter
}

/// A ledger that stays as it is has evolved.
pub proof fn law_evolves_in_place(a: LedgerState)
    ensures
        evolves(a, a),
{
}

/// What evolves in two steps evolves.
pub proof fn law_evolves_in_steps(a: LedgerState, b: LedgerState, c: LedgerState)
    requires
        evolves(a, b),
        evolves(b, c),
    ensures
        evolves(a, c),
{
    assert forall|id: u64| #[trigger] a.remittances.contains_key(id) implies {
        &&& c.remittances.contains_key(id)
        &&& same_terms(a.remittances[id], c.remittances[id])
        &&& a.remittances[id].status != RemittanceStatus::Pending ==> c.remittances[id].status
            == a.remittances[id].status
    } by {
        assert(b.remittances.contains_key(id));
    }
    assert forall|id: u64| #[trigger] a.settlements.contains(id) implies c.settlements.contains(
        id,
    ) by {
        assert(b.settlements.contains(id));
    }
}

/// Every operation lets a sound ledger evolve: none deletes or rewrites a
/// record, reopens a settled or cancelled remittance, or takes a marker
/// away.
pub proof fn law_operations_evolve(
    s: LedgerState,
    admin: Address,
    usdc_token: Address,
    fee_bps: u32,
    who: Address,
    flag: bool,
    sender: Address,
    amount: i128,
    expiry: Option<u64>,
    remittance_id: u64,
    now: u64,
)
    requires
        s.sound(),
    ensures
        evolves(
            s,
            outcome(
                s,
                s.initialize(admin, usdc_token, fee_bps),
                s.after_initialize(admin, usdc_token, fee_bps),
            ),
        ),
        evolves(s, outcome(s, s.set_agent(who, flag), s.after_set_agent(who, flag))),
        evolves(s, outcome(s, s.update_fee(fee_bps), s.after_update_fee(fee_bps))),
        evolves(s, outcome(s, s.set_pause(flag), s.after_set_pause(flag))),
        evolves(
            s,
            outcome(
                s,
                s.create_remittance(sender, who, amount, expiry),
                s.after_create_remittance(sender, who, amount, expiry),
            ),
        ),
        evolves(
            s,
            outcome(
                s,
                s.confirm_payout(remittance_id, now),
                s.after_confirm_payout(remittance_id),
            ),
        ),
        evolves(
            s,
            outcome(
                s,
                s.cancel_remittance(remittance_id),
                s.after_cancel_remittance(remittance_id),
            ),
        ),
        evolves(s, outcome(s, s.withdraw_fees(who), s.after_withdraw_fees())),
{
    if s.create_remittance(sender, who, amount, expiry) is Ok {
        law_create_sound(s, sender, who, amount, expiry);
    }
}

} // verus!

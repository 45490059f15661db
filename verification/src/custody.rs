//! Accounting for custody: what the ledger owes at any time, and that every
//! operation moves exactly as much into or out of custody as its records
//! say.

use crate::model::outcome;
use crate::storage::LedgerState;
use crate::types::{Address, Remittance, RemittanceStatus};
use vstd::prelude::*;

verus! {

/// What the record under `id` holds in escrow: its amount while it is
/// pending, and nothing otherwise.
pub open spec fn escrowed(records: Map<u64, Remittance>, id: u64) -> int {
    if records.contains_key(id) && records[id].status == RemittanceStatus::Pending {
        records[id].amount as int
    } else {
        0
    }
}

/// The escrow of the records under the ids from 1 to `upto`.
pub open spec fn escrow_upto(records: Map<u64, Remittance>, upto: nat) -> int
    decreases upto,
{
    if upto == 0 {
        0
    } else {
        escrow_upto(records, (upto - 1) as nat) + escrowed(records, upto as u64)
    }
}

impl LedgerState {
    /// The escrow of all records: the sum of the pending amounts.
    pub open spec fn escrow(self) -> int {
        match self.remittance_counter {
            Some(counter) => escrow_upto(self.remittances, counter as nat),
            None => 0,
        }
    }

    /// What custody has to hold: the escrow and the accumulated fees.
    pub open spec fn owed(self) -> int {
        self.escrow() + match self.accumulated_fees {
            Some(fees) => fees as int,
            None => 0,
        }
    }
}

/// Storing a record under `id` changes the escrow of the ids up to `upto`
/// by the change in what is escrowed under `id`, if `id` is among them, and
/// not at all otherwise.
pub proof fn lemma_escrow_insert(
    records: Map<u64, Remittance>,
    id: u64,
    record: Remittance,
    upto: nat,
)
    requires
        upto <= u64::MAX,
    ensures
        escrow_upto(records.insert(id, record), upto) == escrow_upto(records, upto) + if 1 <= id
            <= upto {
            escrowed(records.insert(id, record), id) - escrowed(records, id)
        } else {
            0
        },
    decreases upto,
{
    if upto > 0 {
        lemma_escrow_insert(records, id, record, (upto - 1) as nat);
        let last = upto as u64;
        if last != id {
            assert(escrowed(records.insert(id, record), last) == escrowed(records, last));
        }
    }
}

/// The administrative operations leave what custody has to hold as it is.
pub proof fn law_administration_moves_nothing(
    s: LedgerState,
    agent: Address,
    flag: bool,
    fee_bps: u32,
)
    requires
        s.sound(),
    ensures
        outcome(s, s.set_agent(agent, flag), s.after_set_agent(agent, flag)).owed() == s.owed(),
        outcome(s, s.update_fee(fee_bps), s.after_update_fee(fee_bps)).owed() == s.owed(),
        outcome(s, s.set_pause(flag), s.after_set_pause(flag)).owed() == s.owed(),
        s.set_agent(agent, flag) is Ok ==> s.set_agent(agent, flag)->Ok_0.spec_transfer() is None,
        s.update_fee(fee_bps) is Ok ==> s.update_fee(fee_bps)->Ok_0.spec_transfer() is None,
        s.set_pause(flag) is Ok ==> s.set_pause(flag)->Ok_0.spec_transfer() is None,
{
}

/// A freshly set up ledger owes nothing.
pub proof fn law_initialize_owes_nothing(
    s: LedgerState,
    admin: Address,
    usdc_token: Address,
    fee_bps: u32,
)
    requires
        s.sound(),
        s.initialize(admin, usdc_token, fee_bps) is Ok,
    ensures
        s.after_initialize(admin, usdc_token, fee_bps).owed() == 0,
        s.initialize(admin, usdc_token, fee_bps)->Ok_0.spec_transfer() is None,
{
    assert(s == LedgerState::empty());
    let after = s.after_initialize(admin, usdc_token, fee_bps);
    assert(escrow_upto(after.remittances, 0) == 0);
}

/// `create_remittance` takes into custody exactly what it adds to the
/// escrow: the amount.
pub proof fn law_create_moves_amount_in(
    s: LedgerState,
    sender: Address,
    agent: Address,
    amount: i128,
    expiry: Option<u64>,
)
    requires
        s.create_remittance(sender, agent, amount, expiry) is Ok,
    ensures
        ({
            let event = s.create_remittance(sender, agent, amount, expiry)->Ok_0;
            let after = s.after_create_remittance(sender, agent, amount, expiry);
            &&& event.custody_change() == amount
            &&& event.spec_transfer() is Some
            &&& event.spec_transfer()->0.amount == amount
            &&& after.owed() == s.owed() + event.custody_change()
        }),
{
    let counter = s.remittance_counter->0;
    let id = (counter + 1) as u64;
    let after = s.after_create_remittance(sender, agent, amount, expiry);
    lemma_escrow_insert(s.remittances, id, after.remittances[id], counter as nat);
    assert(escrow_upto(after.remittances, id as nat) == escrow_upto(
        after.remittances,
        counter as nat,
    ) + escrowed(after.remittances, id));
}

/// `confirm_payout` takes out of custody exactly what leaves the books: the
/// amount leaves the escrow, the fee stays as an accumulated fee, and the
/// difference is paid out.
pub proof fn law_confirm_moves_payout_out(s: LedgerState, remittance_id: u64, now: u64)
    requires
        s.sound(),
        s.confirm_payout(remittance_id, now) is Ok,
    ensures
        ({
            let event = s.confirm_payout(remittance_id, now)->Ok_0;
            let after = s.after_confirm_payout(remittance_id);
            let record = s.remittances[remittance_id];
            &&& event.custody_change() == -(record.amount - record.fee)
            &&& event.spec_transfer() is Some
            &&& event.spec_transfer()->0.amount == record.amount - record.fee
            &&& after.owed() == s.owed() + event.custody_change()
        }),
{
    let after = s.after_confirm_payout(remittance_id);
    assert(s.remittances.contains_key(remittance_id));
    lemma_escrow_insert(
        s.remittances,
        remittance_id,
        after.remittances[remittance_id],
        s.remittance_counter->0 as nat,
    );
}

/// `cancel_remittance` takes out of custody exactly what leaves the escrow:
/// the full amount.
pub proof fn law_cancel_moves_amount_out(s: LedgerState, remittance_id: u64)
    requires
        s.sound(),
        s.cancel_remittance(remittance_id) is Ok,
    ensures
        ({
            let event = s.cancel_remittance(remittance_id)->Ok_0;
            let after = s.after_cancel_remittance(remittance_id);
            &&& event.custody_change() == -s.remittances[remittance_id].amount
            &&& event.spec_transfer() is Some
            &&& event.spec_transfer()->0.amount == s.remittances[remittance_id].amount
            &&& after.owed() == s.owed() + event.custody_change()
        }),
{
    let after = s.after_cancel_remittance(remittance_id);
    assert(s.remittances.contains_key(remittance_id));
    lemma_escrow_insert(
        s.remittances,
        remittance_id,
        after.remittances[remittance_id],
        s.remittance_counter->0 as nat,
    );
}

/// `withdraw_fees` takes out of custody exactly the accumulated fees, and
/// leaves the escrow alone.
pub proof fn law_withdraw_moves_fees_out(s: LedgerState, to: Address)
    requires
        s.withdraw_fees(to) is Ok,
    ensures
        ({
            let event = s.withdraw_fees(to)->Ok_0;
            let after = s.after_withdraw_fees();
            &&& event.custody_change() == -s.accumulated_fees->0
            &&& event.spec_transfer() is Some
            &&& event.spec_transfer()->0.amount == s.accumulated_fees->0
            &&& after.escrow() == s.escrow()
            &&& after.owed() == s.owed() + event.custody_change()
        }),
{
}

/// What a sound ledger owes is never negative.
pub proof fn law_owed_not_negative(s: LedgerState)
    requires
        s.sound(),
    ensures
        s.escrow() >= 0,
        s.owed() >= 0,
{
    if s.remittance_counter is Some {
        lemma_escrow_not_negative(s, s.remittance_counter->0 as nat);
    }
}

/// In a sound ledger the escrow of the ids up to `upto` is not negative.
pub proof fn lemma_escrow_not_negative(s: LedgerState, upto: nat)
    requires
        s.sound(),
        upto <= u64::MAX,
    ensures
        escrow_upto(s.remittances, upto) >= 0,
    decreases upto,
{
    if upto > 0 {
        lemma_escrow_not_negative(s, (upto - 1) as nat);
        let last = upto as u64;
        if s.remittances.contains_key(last) {
            assert(s.remittances[last].amount > 0);
        }
    }
}

} // verus!

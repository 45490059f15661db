//! Whole histories: what holds of a ledger after any sequence of calls.

use crate::custody::{
    law_administration_moves_nothing, law_cancel_moves_amount_out, law_confirm_moves_payout_out,
    law_create_moves_amount_in, law_initialize_owes_nothing, law_withdraw_moves_fees_out,
};
use crate::laws::{
    evolves, law_administration_sound, law_cancel_sound, law_confirm_sound, law_create_sound,
    law_evolves_in_place, law_evolves_in_steps, law_initialize_sound, law_marker_blocks_settlement,
    law_operations_evolve, law_withdraw_sound,
};
use crate::model::Call;
use crate::storage::LedgerState;
use vstd::prelude::*;

verus! {

/// The state in which the call at position `k` of `calls` finds a ledger
/// that started in `start`: the state after the `k` calls before it.
pub open spec fn state_at(start: LedgerState, calls: Seq<Call>, k: nat) -> LedgerState
    decreases k,
{
    if k == 0 {
        start
    } else {
        state_at(start, calls, (k - 1) as nat).step(calls[k - 1])
    }
}

/// What the first `k` calls of `calls` moved into custody, less what they
/// moved out.
pub open spec fn net_inflow(start: LedgerState, calls: Seq<Call>, k: nat) -> int
    decreases k,
{
    if k == 0 {
        0
    } else {
        net_inflow(start, calls, (k - 1) as nat) + state_at(start, calls, (k - 1) as nat).inflow(
            calls[k - 1],
        )
    }
}

/// One call keeps a sound ledger sound, lets it evolve, and changes what it
/// owes by exactly what the call moves into custody.
pub proof fn law_step(s: LedgerState, call: Call)
    requires
        s.sound(),
    ensures
        s.step(call).sound(),
        evolves(s, s.step(call)),
        s.step(call).owed() == s.owed() + s.inflow(call),
{
    match call {
        Call::Initialize { admin, usdc_token, fee_bps } => {
            law_initialize_sound(s, admin, usdc_token, fee_bps);
            law_operations_evolve(s, admin, usdc_token, fee_bps, admin, true, admin, 0, None, 0, 0);
            if s.initialize(admin, usdc_token, fee_bps) is Ok {
                law_initialize_owes_nothing(s, admin, usdc_token, fee_bps);
                assert(s == LedgerState::empty());
            }
        },
        Call::RegisterAgent { agent } => {
            law_administration_sound(s, agent, true, 0);
            law_administration_moves_nothing(s, agent, true, 0);
            law_operations_evolve(s, agent, agent, 0, agent, true, agent, 0, None, 0, 0);
        },
        Call::RemoveAgent { agent } => {
            law_administration_sound(s, agent, false, 0);
            law_administration_moves_nothing(s, agent, false, 0);
            law_operations_evolve(s, agent, agent, 0, agent, false, agent, 0, None, 0, 0);
        },
        Call::UpdateFee { fee_bps } => {
            let a = s.admin->0;
            law_administration_sound(s, a, true, fee_bps);
            law_administration_moves_nothing(s, a, true, fee_bps);
            law_operations_evolve(s, a, a, fee_bps, a, true, a, 0, None, 0, 0);
        },
        Call::CreateRemittance { sender, agent, amount, expiry } => {
            law_create_sound(s, sender, agent, amount, expiry);
            law_operations_evolve(s, sender, sender, 0, agent, true, sender, amount, expiry, 0, 0);
            if s.create_remittance(sender, agent, amount, expiry) is Ok {
                law_create_moves_amount_in(s, sender, agent, amount, expiry);
            }
        },
        Call::ConfirmPayout { remittance_id, now } => {
            let a = s.admin->0;
            law_confirm_sound(s, remittance_id, now);
            law_operations_evolve(s, a, a, 0, a, true, a, 0, None, remittance_id, now);
            if s.confirm_payout(remittance_id, now) is Ok {
                law_confirm_moves_payout_out(s, remittance_id, now);
            }
        },
        Call::CancelRemittance { remittance_id } => {
            let a = s.admin->0;
            law_cancel_sound(s, remittance_id);
            law_operations_evolve(s, a, a, 0, a, true, a, 0, None, remittance_id, 0);
            if s.cancel_remittance(remittance_id) is Ok {
                law_cancel_moves_amount_out(s, remittance_id);
            }
        },
        Call::WithdrawFees { to } => {
            law_withdraw_sound(s, to);
            law_operations_evolve(s, to, to, 0, to, true, to, 0, None, 0, 0);
            if s.withdraw_fees(to) is Ok {
                law_withdraw_moves_fees_out(s, to);
            }
        },
        Call::Pause => {
            let a = s.admin->0;
            law_administration_sound(s, a, true, 0);
            law_administration_moves_nothing(s, a, true, 0);
            law_operations_evolve(s, a, a, 0, a, true, a, 0, None, 0, 0);
        },
        Call::Unpause => {
            let a = s.admin->0;
            law_administration_sound(s, a, false, 0);
            law_administration_moves_nothing(s, a, false, 0);
            law_operations_evolve(s, a, a, 0, a, false, a, 0, None, 0, 0);
        },
    }
}

/// Whatever is called on a sound ledger, and in whatever order: the ledger
/// stays sound, every later state has evolved from every earlier one, and
/// what the ledger owes has changed by exactly what the calls moved into
/// custody, less what they moved out. Custody that matched the books at the
/// start matches them at every later time.
pub proof fn law_history(start: LedgerState, calls: Seq<Call>, earlier: nat, later: nat)
    requires
        start.sound(),
        earlier <= later <= calls.len(),
    ensures
        state_at(start, calls, later).sound(),
        evolves(state_at(start, calls, earlier), state_at(start, calls, later)),
        state_at(start, calls, later).owed() == start.owed() + net_inflow(start, calls, later),
        state_at(start, calls, later).owed() >= 0,
    decreases later,
{
    if later > 0 {
        let before = state_at(start, calls, (later - 1) as nat);
        let least = if earlier < later {
            earlier
        } else {
            (later - 1) as nat
        };
        law_history(start, calls, least, (later - 1) as nat);
        law_step(before, calls[later - 1]);
        if earlier < later {
            law_evolves_in_steps(
                state_at(start, calls, earlier),
                before,
                state_at(start, calls, later),
            );
        } else {
            law_evolves_in_place(state_at(start, calls, later));
        }
    } else {
        law_evolves_in_place(start);
    }
    crate::custody::law_owed_not_negative(state_at(start, calls, later));
}

/// A remittance is paid out at most once in any history: once a
/// `confirm_payout` on an id has succeeded, every later `confirm_payout` on
/// that id fails, whatever was called in between and whenever it comes.
pub proof fn law_paid_out_at_most_once(
    start: LedgerState,
    calls: Seq<Call>,
    first: nat,
    second: nat,
)
    requires
        start.sound(),
        first < second < calls.len(),
        calls[first as int] is ConfirmPayout,
        calls[second as int] is ConfirmPayout,
        calls[first as int]->ConfirmPayout_remittance_id
            == calls[second as int]->ConfirmPayout_remittance_id,
        state_at(start, calls, first).answer(calls[first as int]) is Ok,
    ensures
        state_at(start, calls, second).answer(calls[second as int]) is Err,
        state_at(start, calls, second).inflow(calls[second as int]) == 0,
{
    let id = calls[first as int]->ConfirmPayout_remittance_id;
    let settled = state_at(start, calls, first + 1);
    assert(settled == state_at(start, calls, first).step(calls[first as int]));
    assert(settled.settlements.contains(id));
    law_history(start, calls, first + 1, second);
    let found = state_at(start, calls, second);
    assert(found.settlements.contains(id));
    law_marker_blocks_settlement(found, id, calls[second as int]->ConfirmPayout_now);
}

} // verus!

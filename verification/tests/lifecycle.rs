use swiftremit::storage::{set_remittance, set_remittance_counter, set_settlement_hash};
use swiftremit::{
    Address, AddressKind, Auth, ContractError, Event, Party, Remittance, RemittanceStatus,
    SwiftRemitContract, Transfer,
};

fn principal(n: u128) -> Address {
    Address { kind: AddressKind::Account, hi: 0, lo: n }
}

fn admin() -> Address {
    principal(1)
}

fn usdc() -> Address {
    Address { kind: AddressKind::Contract, hi: 7, lo: 7 }
}

fn agent_a() -> Address {
    principal(2)
}

fn alice() -> Address {
    principal(3)
}

fn bob() -> Address {
    principal(4)
}

fn ready_ledger() -> SwiftRemitContract {
    let mut ledger = SwiftRemitContract::new();
    ledger.initialize(admin(), usdc(), 250).unwrap();
    ledger.register_agent(&Auth::of(admin()), agent_a()).unwrap();
    ledger
}

#[test]
fn create_gives_first_id_and_fee() {
    let mut ledger = ready_ledger();
    let event = ledger.create_remittance(&Auth::of(alice()), alice(), agent_a(), 10_000, None);
    assert_eq!(
        event,
        Ok(Event::RemittanceCreated {
            id: 1,
            sender: alice(),
            agent: agent_a(),
            asset: usdc(),
            amount: 10_000,
            fee: 250,
        })
    );
    assert_eq!(
        event.unwrap().transfer(),
        Some(Transfer {
            asset: usdc(),
            from: Party::Holder(alice()),
            to: Party::Custody,
            amount: 10_000,
        })
    );
    let record = ledger.get_remittance(1).unwrap();
    assert_eq!(record.status, RemittanceStatus::Pending);
    assert_eq!(record.amount, 10_000);
    assert_eq!(record.fee, 250);
    assert_eq!(record.id, 1);
    assert_eq!(record.sender, alice());
    assert_eq!(record.agent, agent_a());
    assert_eq!(record.expiry, None);
    assert_eq!(ledger.get_accumulated_fees(), Ok(0));
}

#[test]
fn confirm_pays_agent_and_accrues_fee_once() {
    let mut ledger = ready_ledger();
    ledger.create_remittance(&Auth::of(alice()), alice(), agent_a(), 10_000, None).unwrap();
    let event = ledger.confirm_payout(&Auth::of(agent_a()), 1, 1_000);
    assert_eq!(
        event,
        Ok(Event::RemittanceCompleted {
            id: 1,
            sender: alice(),
            agent: agent_a(),
            asset: usdc(),
            payout: 9_750,
        })
    );
    assert_eq!(
        event.unwrap().transfer(),
        Some(Transfer {
            asset: usdc(),
            from: Party::Custody,
            to: Party::Holder(agent_a()),
            amount: 9_750,
        })
    );
    assert_eq!(ledger.get_accumulated_fees(), Ok(250));
    assert_eq!(ledger.get_remittance(1).unwrap().status, RemittanceStatus::Completed);

    // The record is completed by now, and the status is looked at before the marker.
    let again = ledger.confirm_payout(&Auth::of(agent_a()), 1, 1_000);
    assert_eq!(again, Err(ContractError::InvalidStatus));
    assert_eq!(ledger.get_accumulated_fees(), Ok(250));
    assert_eq!(ledger.get_remittance(1).unwrap().status, RemittanceStatus::Completed);
}

#[test]
fn marker_on_a_pending_record_is_a_duplicate() {
    let mut ledger = ready_ledger();
    ledger.create_remittance(&Auth::of(alice()), alice(), agent_a(), 10_000, None).unwrap();
    set_settlement_hash(&mut ledger.storage, 1);
    let answer = ledger.confirm_payout(&Auth::of(agent_a()), 1, 0);
    assert_eq!(answer, Err(ContractError::DuplicateSettlement));
    assert_eq!(ledger.get_accumulated_fees(), Ok(0));
    assert_eq!(ledger.get_remittance(1).unwrap().status, RemittanceStatus::Pending);
}

#[test]
fn expired_remittance_is_refused_but_can_be_cancelled() {
    let mut ledger = ready_ledger();
    let expiry: u64 = 1_700_000_000;
    let created = ledger
        .create_remittance(&Auth::of(bob()), bob(), agent_a(), 5_000, Some(expiry))
        .unwrap();
    assert_eq!(
        created,
        Event::RemittanceCreated {
            id: 1,
            sender: bob(),
            agent: agent_a(),
            asset: usdc(),
            amount: 5_000,
            fee: 125,
        }
    );
    let late = ledger.confirm_payout(&Auth::of(agent_a()), 1, expiry + 1);
    assert_eq!(late, Err(ContractError::SettlementExpired));
    assert_eq!(ledger.get_remittance(1).unwrap().status, RemittanceStatus::Pending);
    assert_eq!(ledger.get_accumulated_fees(), Ok(0));

    let cancelled = ledger.cancel_remittance(&Auth::of(bob()), 1);
    assert_eq!(
        cancelled,
        Ok(Event::RemittanceCancelled {
            id: 1,
            sender: bob(),
            agent: agent_a(),
            asset: usdc(),
            amount: 5_000,
        })
    );
    assert_eq!(
        cancelled.unwrap().transfer(),
        Some(Transfer {
            asset: usdc(),
            from: Party::Custody,
            to: Party::Holder(bob()),
            amount: 5_000,
        })
    );
    assert_eq!(ledger.get_remittance(1).unwrap().status, RemittanceStatus::Cancelled);
}

#[test]
fn confirm_at_the_expiry_itself_succeeds() {
    let mut ledger = ready_ledger();
    ledger.create_remittance(&Auth::of(bob()), bob(), agent_a(), 5_000, Some(500)).unwrap();
    let event = ledger.confirm_payout(&Auth::of(agent_a()), 1, 500).unwrap();
    assert_eq!(
        event,
        Event::RemittanceCompleted {
            id: 1,
            sender: bob(),
            agent: agent_a(),
            asset: usdc(),
            payout: 4_875,
        }
    );
    assert_eq!(ledger.get_accumulated_fees(), Ok(125));
}

#[test]
fn pause_blocks_confirm_but_not_cancel() {
    let mut ledger = ready_ledger();
    ledger.create_remittance(&Auth::of(alice()), alice(), agent_a(), 10_000, None).unwrap();
    ledger.create_remittance(&Auth::of(bob()), bob(), agent_a(), 5_000, None).unwrap();
    assert_eq!(ledger.pause(&Auth::of(admin())), Ok(Event::Paused { admin: admin() }));
    assert!(ledger.is_paused());
    assert_eq!(
        ledger.confirm_payout(&Auth::of(agent_a()), 1, 0),
        Err(ContractError::ContractPaused)
    );
    assert_eq!(
        ledger.confirm_payout(&Auth::of(agent_a()), 2, 0),
        Err(ContractError::ContractPaused)
    );
    assert_eq!(
        ledger.confirm_payout(&Auth::of(agent_a()), 99, 0),
        Err(ContractError::ContractPaused)
    );
    assert_eq!(
        ledger.cancel_remittance(&Auth::of(alice()), 1),
        Ok(Event::RemittanceCancelled {
            id: 1,
            sender: alice(),
            agent: agent_a(),
            asset: usdc(),
            amount: 10_000,
        })
    );
    // Creation stays open as well.
    assert!(ledger.create_remittance(&Auth::of(bob()), bob(), agent_a(), 1, None).is_ok());
    assert_eq!(ledger.unpause(&Auth::of(admin())), Ok(Event::Unpaused { admin: admin() }));
    assert!(!ledger.is_paused());
    assert!(ledger.confirm_payout(&Auth::of(agent_a()), 2, 0).is_ok());
}

#[test]
fn cancel_needs_a_pending_record() {
    let mut ledger = ready_ledger();
    ledger.create_remittance(&Auth::of(alice()), alice(), agent_a(), 10_000, None).unwrap();
    ledger.create_remittance(&Auth::of(bob()), bob(), agent_a(), 5_000, None).unwrap();
    ledger.confirm_payout(&Auth::of(agent_a()), 1, 0).unwrap();
    assert_eq!(
        ledger.cancel_remittance(&Auth::of(alice()), 1),
        Err(ContractError::InvalidStatus)
    );
    ledger.cancel_remittance(&Auth::of(bob()), 2).unwrap();
    assert_eq!(ledger.cancel_remittance(&Auth::of(bob()), 2), Err(ContractError::InvalidStatus));
    assert_eq!(
        ledger.confirm_payout(&Auth::of(agent_a()), 2, 0),
        Err(ContractError::InvalidStatus)
    );
    assert_eq!(
        ledger.cancel_remittance(&Auth::of(bob()), 3),
        Err(ContractError::RemittanceNotFound)
    );
    assert_eq!(
        ledger.confirm_payout(&Auth::of(agent_a()), 3, 0),
        Err(ContractError::RemittanceNotFound)
    );
    assert_eq!(ledger.get_remittance(3), Err(ContractError::RemittanceNotFound));
    assert_eq!(ledger.get_accumulated_fees(), Ok(250));
}

#[test]
fn withdraw_empties_the_accumulated_fees() {
    let mut ledger = ready_ledger();
    let treasury = principal(9);
    assert_eq!(
        ledger.withdraw_fees(&Auth::of(admin()), treasury),
        Err(ContractError::NoFeesToWithdraw)
    );
    ledger.create_remittance(&Auth::of(alice()), alice(), agent_a(), 10_000, None).unwrap();
    ledger.create_remittance(&Auth::of(bob()), bob(), agent_a(), 5_000, None).unwrap();
    ledger.confirm_payout(&Auth::of(agent_a()), 1, 0).unwrap();
    ledger.confirm_payout(&Auth::of(agent_a()), 2, 0).unwrap();
    assert_eq!(ledger.get_accumulated_fees(), Ok(375));
    let event = ledger.withdraw_fees(&Auth::of(admin()), treasury);
    assert_eq!(
        event,
        Ok(Event::FeesWithdrawn { admin: admin(), to: treasury, asset: usdc(), amount: 375 })
    );
    assert_eq!(
        event.unwrap().transfer(),
        Some(Transfer {
            asset: usdc(),
            from: Party::Custody,
            to: Party::Holder(treasury),
            amount: 375,
        })
    );
    assert_eq!(ledger.get_accumulated_fees(), Ok(0));
    assert_eq!(
        ledger.withdraw_fees(&Auth::of(admin()), treasury),
        Err(ContractError::NoFeesToWithdraw)
    );
}

#[test]
fn create_checks_amount_agent_and_setup() {
    let mut ledger = ready_ledger();
    let auth = Auth::of(alice());
    assert_eq!(
        ledger.create_remittance(&auth, alice(), agent_a(), 0, None),
        Err(ContractError::InvalidAmount)
    );
    assert_eq!(
        ledger.create_remittance(&auth, alice(), agent_a(), -5, None),
        Err(ContractError::InvalidAmount)
    );
    assert_eq!(
        ledger.create_remittance(&auth, alice(), bob(), 100, None),
        Err(ContractError::AgentNotRegistered)
    );
    assert_eq!(
        ledger.create_remittance(&auth, alice(), agent_a(), i128::MAX, None),
        Err(ContractError::Overflow)
    );
    assert_eq!(ledger.get_remittance(1), Err(ContractError::RemittanceNotFound));

    let mut fresh = SwiftRemitContract::new();
    assert_eq!(
        fresh.create_remittance(&auth, alice(), agent_a(), 100, None),
        Err(ContractError::AgentNotRegistered)
    );
}

#[test]
fn ids_count_up_and_run_out() {
    let mut ledger = ready_ledger();
    let auth = Auth::of(alice());
    for expected in 1..=5u64 {
        match ledger.create_remittance(&auth, alice(), agent_a(), 100, None).unwrap() {
            Event::RemittanceCreated { id, .. } => assert_eq!(id, expected),
            other => panic!("unexpected event {:?}", other),
        }
    }
    set_remittance_counter(&mut ledger.storage, u64::MAX);
    assert_eq!(
        ledger.create_remittance(&auth, alice(), agent_a(), 100, None),
        Err(ContractError::Overflow)
    );
}

#[test]
fn removed_agent_still_settles_what_it_was_given() {
    let mut ledger = ready_ledger();
    ledger.create_remittance(&Auth::of(alice()), alice(), agent_a(), 10_000, None).unwrap();
    assert_eq!(
        ledger.remove_agent(&Auth::of(admin()), agent_a()),
        Ok(Event::AgentRemoved { agent: agent_a(), admin: admin() })
    );
    assert!(!ledger.is_agent_registered(agent_a()));
    assert_eq!(
        ledger.create_remittance(&Auth::of(alice()), alice(), agent_a(), 10_000, None),
        Err(ContractError::AgentNotRegistered)
    );
    assert!(ledger.confirm_payout(&Auth::of(agent_a()), 1, 0).is_ok());
}

#[test]
fn fee_is_fixed_at_creation() {
    let mut ledger = ready_ledger();
    ledger.create_remittance(&Auth::of(alice()), alice(), agent_a(), 10_000, None).unwrap();
    ledger.update_fee(&Auth::of(admin()), 1_000).unwrap();
    ledger.create_remittance(&Auth::of(alice()), alice(), agent_a(), 10_000, None).unwrap();
    assert_eq!(ledger.get_remittance(1).unwrap().fee, 250);
    assert_eq!(ledger.get_remittance(2).unwrap().fee, 1_000);
    assert_eq!(
        ledger.confirm_payout(&Auth::of(agent_a()), 1, 0),
        Ok(Event::RemittanceCompleted {
            id: 1,
            sender: alice(),
            agent: agent_a(),
            asset: usdc(),
            payout: 9_750,
        })
    );
    assert_eq!(
        ledger.confirm_payout(&Auth::of(agent_a()), 2, 0),
        Ok(Event::RemittanceCompleted {
            id: 2,
            sender: alice(),
            agent: agent_a(),
            asset: usdc(),
            payout: 9_000,
        })
    );
    assert_eq!(ledger.get_accumulated_fees(), Ok(1_250));
}

#[test]
fn confirm_reports_overflow_on_records_out_of_range() {
    let mut ledger = ready_ledger();
    let record = Remittance {
        id: 1,
        sender: alice(),
        agent: agent_a(),
        amount: i128::MIN,
        fee: 1,
        status: RemittanceStatus::Pending,
        expiry: None,
    };
    set_remittance(&mut ledger.storage, 1, &record);
    assert_eq!(ledger.confirm_payout(&Auth::of(agent_a()), 1, 0), Err(ContractError::Overflow));
    assert_eq!(ledger.get_remittance(1), Ok(record));
}

#[test]
fn signers_follow_the_records() {
    let mut ledger = SwiftRemitContract::new();
    assert_eq!(ledger.admin_signer(), None);
    ledger.initialize(admin(), usdc(), 250).unwrap();
    ledger.register_agent(&Auth::of(admin()), agent_a()).unwrap();
    assert_eq!(ledger.admin_signer(), Some(admin()));
    assert_eq!(ledger.confirm_signer(1), None);
    assert_eq!(ledger.cancel_signer(1), None);
    ledger.create_remittance(&Auth::of(alice()), alice(), agent_a(), 10_000, None).unwrap();
    assert_eq!(ledger.confirm_signer(1), Some(agent_a()));
    assert_eq!(ledger.cancel_signer(1), Some(alice()));
    ledger.pause(&Auth::of(admin())).unwrap();
    assert_eq!(ledger.confirm_signer(1), None);
    assert_eq!(ledger.cancel_signer(1), Some(alice()));
    assert!(Auth::of(alice()).authorizes(&alice()));
    assert!(!Auth::of(alice()).authorizes(&bob()));
}

fn apply(custody: &mut i128, event: &Event) {
    if let Some(transfer) = event.transfer() {
        if transfer.to == Party::Custody {
            *custody += transfer.amount;
        }
        if transfer.from == Party::Custody {
            *custody -= transfer.amount;
        }
    }
}

#[test]
fn custody_matches_the_books() {
    let mut ledger = ready_ledger();
    let mut custody: i128 = 0;
    let alice_auth = Auth::of(alice());
    let bob_auth = Auth::of(bob());
    let agent_auth = Auth::of(agent_a());

    let event = ledger.create_remittance(&alice_auth, alice(), agent_a(), 10_000, None).unwrap();
    apply(&mut custody, &event);
    let event = ledger.create_remittance(&bob_auth, bob(), agent_a(), 5_000, Some(10)).unwrap();
    apply(&mut custody, &event);
    let event = ledger.create_remittance(&bob_auth, bob(), agent_a(), 777, None).unwrap();
    apply(&mut custody, &event);
    assert_eq!(custody, 15_777);

    let event = ledger.confirm_payout(&agent_auth, 1, 0).unwrap();
    apply(&mut custody, &event);
    // 5_000 and 777 are pending, 250 are fees.
    assert_eq!(custody, 5_000 + 777 + 250);
    assert_eq!(ledger.get_accumulated_fees(), Ok(250));

    assert!(ledger.confirm_payout(&agent_auth, 1, 0).is_err());
    assert!(ledger.confirm_payout(&agent_auth, 2, 11).is_err());
    assert_eq!(custody, 5_000 + 777 + 250);

    let event = ledger.cancel_remittance(&bob_auth, 2).unwrap();
    apply(&mut custody, &event);
    assert_eq!(custody, 777 + 250);

    let event = ledger.withdraw_fees(&Auth::of(admin()), principal(9)).unwrap();
    apply(&mut custody, &event);
    assert_eq!(custody, 777);
    assert_eq!(ledger.get_accumulated_fees(), Ok(0));

    let event = ledger.confirm_payout(&agent_auth, 3, 0).unwrap();
    apply(&mut custody, &event);
    // 777 * 250 / 10000 = 19.425, so the fee is 19.
    assert_eq!(event.transfer().unwrap().amount, 758);
    assert_eq!(custody, 19);
    assert_eq!(ledger.get_accumulated_fees(), Ok(19));
}

#[test]
fn settled_remittance_stays_settled_whatever_comes_between() {
    let mut ledger = ready_ledger();
    let admin_auth = Auth::of(admin());
    let agent_auth = Auth::of(agent_a());
    ledger.create_remittance(&Auth::of(alice()), alice(), agent_a(), 10_000, Some(50)).unwrap();
    ledger.confirm_payout(&agent_auth, 1, 50).unwrap();
    let settled = ledger.get_remittance(1).unwrap();

    ledger.pause(&admin_auth).unwrap();
    assert!(ledger.confirm_payout(&agent_auth, 1, 10).is_err());
    ledger.unpause(&admin_auth).unwrap();
    ledger.update_fee(&admin_auth, 0).unwrap();
    ledger.remove_agent(&admin_auth, agent_a()).unwrap();
    ledger.register_agent(&admin_auth, agent_a()).unwrap();
    ledger.create_remittance(&Auth::of(bob()), bob(), agent_a(), 1, None).unwrap();
    ledger.withdraw_fees(&admin_auth, principal(9)).unwrap();

    assert_eq!(ledger.confirm_payout(&agent_auth, 1, 10), Err(ContractError::InvalidStatus));
    assert_eq!(ledger.cancel_remittance(&Auth::of(alice()), 1), Err(ContractError::InvalidStatus));
    assert_eq!(ledger.get_remittance(1), Ok(settled));
    assert_eq!(ledger.get_accumulated_fees(), Ok(0));
}

#[test]
fn a_copy_keeps_the_state_from_before_a_step() {
    let mut ledger = ready_ledger();
    ledger.create_remittance(&Auth::of(alice()), alice(), agent_a(), 10_000, None).unwrap();
    let saved = ledger.clone();
    ledger.confirm_payout(&Auth::of(agent_a()), 1, 0).unwrap();
    assert_eq!(ledger.get_remittance(1).unwrap().status, RemittanceStatus::Completed);

    // The transfer could not be made: the step is dropped, and can be tried again.
    let mut ledger = saved;
    assert_eq!(ledger.get_remittance(1).unwrap().status, RemittanceStatus::Pending);
    assert_eq!(ledger.get_accumulated_fees(), Ok(0));
    assert!(ledger.is_agent_registered(agent_a()));
    assert!(ledger.confirm_payout(&Auth::of(agent_a()), 1, 0).is_ok());
    assert_eq!(ledger.get_accumulated_fees(), Ok(250));
}

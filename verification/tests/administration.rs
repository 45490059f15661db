use swiftremit::{Address, AddressKind, Auth, ContractError, Event, SwiftRemitContract};

fn who(n: u128) -> Address {
    Address { kind: AddressKind::Account, hi: n, lo: 0 }
}

fn asset() -> Address {
    Address { kind: AddressKind::Contract, hi: 1, lo: 1 }
}

#[test]
fn initialize_sets_the_configuration() {
    let mut ledger = SwiftRemitContract::new();
    assert_eq!(
        ledger.initialize(who(1), asset(), 250),
        Ok(Event::Initialized { admin: who(1), asset: asset(), fee_bps: 250 })
    );
    assert_eq!(ledger.get_platform_fee_bps(), Ok(250));
    assert_eq!(ledger.get_accumulated_fees(), Ok(0));
    assert!(!ledger.is_paused());
    assert_eq!(ledger.admin_signer(), Some(who(1)));
    assert_eq!(Event::Initialized { admin: who(1), asset: asset(), fee_bps: 250 }.transfer(), None);
}

#[test]
fn initialize_works_once() {
    let mut ledger = SwiftRemitContract::new();
    ledger.initialize(who(1), asset(), 250).unwrap();
    assert_eq!(ledger.initialize(who(2), asset(), 100), Err(ContractError::AlreadyInitialized));
    assert_eq!(
        ledger.initialize(who(2), asset(), 20_000),
        Err(ContractError::AlreadyInitialized)
    );
    assert_eq!(ledger.get_platform_fee_bps(), Ok(250));
    assert_eq!(ledger.admin_signer(), Some(who(1)));
}

#[test]
fn initialize_refuses_a_rate_above_the_limit() {
    let mut ledger = SwiftRemitContract::new();
    assert_eq!(ledger.initialize(who(1), asset(), 10_001), Err(ContractError::InvalidFeeBps));
    assert_eq!(ledger.admin_signer(), None);
    assert_eq!(ledger.get_platform_fee_bps(), Err(ContractError::NotInitialized));
    assert!(ledger.initialize(who(1), asset(), 10_000).is_ok());
    assert_eq!(ledger.get_platform_fee_bps(), Ok(10_000));
}

#[test]
fn administration_needs_a_set_up_ledger() {
    let mut ledger = SwiftRemitContract::new();
    let auth = Auth::of(who(1));
    assert_eq!(ledger.register_agent(&auth, who(5)), Err(ContractError::NotInitialized));
    assert_eq!(ledger.remove_agent(&auth, who(5)), Err(ContractError::NotInitialized));
    assert_eq!(ledger.update_fee(&auth, 10), Err(ContractError::NotInitialized));
    assert_eq!(ledger.pause(&auth), Err(ContractError::NotInitialized));
    assert_eq!(ledger.unpause(&auth), Err(ContractError::NotInitialized));
    assert_eq!(ledger.withdraw_fees(&auth, who(5)), Err(ContractError::NotInitialized));
    assert_eq!(ledger.get_accumulated_fees(), Err(ContractError::NotInitialized));
    assert_eq!(ledger.get_platform_fee_bps(), Err(ContractError::NotInitialized));
    assert!(!ledger.is_agent_registered(who(5)));
    assert!(!ledger.is_paused());
}

#[test]
fn agents_are_registered_and_removed() {
    let mut ledger = SwiftRemitContract::new();
    ledger.initialize(who(1), asset(), 250).unwrap();
    let auth = Auth::of(who(1));
    assert!(!ledger.is_agent_registered(who(5)));
    assert_eq!(
        ledger.register_agent(&auth, who(5)),
        Ok(Event::AgentRegistered { agent: who(5), admin: who(1) })
    );
    assert!(ledger.is_agent_registered(who(5)));
    assert!(!ledger.is_agent_registered(who(6)));
    assert_eq!(
        ledger.remove_agent(&auth, who(5)),
        Ok(Event::AgentRemoved { agent: who(5), admin: who(1) })
    );
    assert!(!ledger.is_agent_registered(who(5)));
}

#[test]
fn update_fee_reports_the_rate_before() {
    let mut ledger = SwiftRemitContract::new();
    ledger.initialize(who(1), asset(), 250).unwrap();
    let auth = Auth::of(who(1));
    assert_eq!(
        ledger.update_fee(&auth, 300),
        Ok(Event::FeeUpdated { admin: who(1), old_fee_bps: 250, new_fee_bps: 300 })
    );
    assert_eq!(ledger.get_platform_fee_bps(), Ok(300));
    assert_eq!(ledger.update_fee(&auth, 10_001), Err(ContractError::InvalidFeeBps));
    assert_eq!(ledger.get_platform_fee_bps(), Ok(300));
    assert_eq!(
        ledger.update_fee(&auth, 0),
        Ok(Event::FeeUpdated { admin: who(1), old_fee_bps: 300, new_fee_bps: 0 })
    );
}

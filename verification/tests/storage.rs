use swiftremit::storage::{
    get_accumulated_fees, get_admin, get_platform_fee_bps, get_remittance,
    get_remittance_counter, get_usdc_token, has_admin, has_settlement_hash, is_agent_registered,
    is_paused, set_accumulated_fees, set_admin, set_agent_registered, set_paused,
    set_platform_fee_bps, set_remittance, set_remittance_counter, set_settlement_hash,
    set_usdc_token,
};
use swiftremit::{
    validate_address, Address, AddressKind, ContractError, Remittance, RemittanceStatus, Storage,
};

fn account(n: u128) -> Address {
    Address { kind: AddressKind::Account, hi: 0, lo: n }
}

#[test]
fn test_validate_valid_address() {
    let address = account(7);

    assert!(validate_address(&address).is_ok());
}

#[test]
fn validate_accepts_contracts_and_any_key() {
    let contract = Address { kind: AddressKind::Contract, hi: u128::MAX, lo: 0 };
    assert_eq!(validate_address(&contract), Ok(()));
    assert_eq!(validate_address(&account(0)), Ok(()));
}

#[test]
fn empty_store_has_nothing() {
    let store = Storage::new();
    assert!(!has_admin(&store));
    assert_eq!(get_admin(&store), Err(ContractError::NotInitialized));
    assert_eq!(get_usdc_token(&store), Err(ContractError::NotInitialized));
    assert_eq!(get_platform_fee_bps(&store), Err(ContractError::NotInitialized));
    assert_eq!(get_remittance_counter(&store), Err(ContractError::NotInitialized));
    assert_eq!(get_accumulated_fees(&store), Err(ContractError::NotInitialized));
    assert_eq!(get_remittance(&store, 1), Err(ContractError::RemittanceNotFound));
    assert!(!is_agent_registered(&store, &account(1)));
    assert!(!has_settlement_hash(&store, 1));
    assert!(!is_paused(&store));
}

#[test]
fn configuration_entries_round_trip() {
    let mut store = Storage::new();
    set_admin(&mut store, &account(1));
    set_usdc_token(&mut store, &account(2));
    set_platform_fee_bps(&mut store, 250);
    set_remittance_counter(&mut store, 9);
    set_accumulated_fees(&mut store, 1_234);
    set_paused(&mut store, true);
    assert!(has_admin(&store));
    assert_eq!(get_admin(&store), Ok(account(1)));
    assert_eq!(get_usdc_token(&store), Ok(account(2)));
    assert_eq!(get_platform_fee_bps(&store), Ok(250));
    assert_eq!(get_remittance_counter(&store), Ok(9));
    assert_eq!(get_accumulated_fees(&store), Ok(1_234));
    assert!(is_paused(&store));
    set_paused(&mut store, false);
    assert!(!is_paused(&store));
    set_platform_fee_bps(&mut store, 300);
    assert_eq!(get_platform_fee_bps(&store), Ok(300));
    assert_eq!(get_admin(&store), Ok(account(1)));
}

#[test]
fn remittance_records_are_kept_by_id() {
    let mut store = Storage::new();
    let first = Remittance {
        id: 1,
        sender: account(10),
        agent: account(20),
        amount: 10_000,
        fee: 250,
        status: RemittanceStatus::Pending,
        expiry: None,
    };
    let second = Remittance { id: 2, amount: 5_000, fee: 125, expiry: Some(77), ..first };
    set_remittance(&mut store, 1, &first);
    set_remittance(&mut store, 2, &second);
    assert_eq!(get_remittance(&store, 1), Ok(first));
    assert_eq!(get_remittance(&store, 2), Ok(second));
    assert_eq!(get_remittance(&store, 3), Err(ContractError::RemittanceNotFound));
    let done = Remittance { status: RemittanceStatus::Completed, ..first };
    set_remittance(&mut store, 1, &done);
    assert_eq!(get_remittance(&store, 1), Ok(done));
    assert_eq!(get_remittance(&store, 2), Ok(second));
}

#[test]
fn agent_flags_are_kept_by_agent() {
    let mut store = Storage::new();
    set_agent_registered(&mut store, &account(1), true);
    set_agent_registered(&mut store, &account(2), true);
    set_agent_registered(&mut store, &account(3), false);
    assert!(is_agent_registered(&store, &account(1)));
    assert!(is_agent_registered(&store, &account(2)));
    assert!(!is_agent_registered(&store, &account(3)));
    assert!(!is_agent_registered(&store, &account(4)));
    set_agent_registered(&mut store, &account(1), false);
    assert!(!is_agent_registered(&store, &account(1)));
    assert!(is_agent_registered(&store, &account(2)));
    set_agent_registered(&mut store, &account(1), true);
    assert!(is_agent_registered(&store, &account(1)));
    let contract = Address { kind: AddressKind::Contract, hi: 0, lo: 2 };
    assert!(!is_agent_registered(&store, &contract));
}

#[test]
fn settlement_markers_are_kept_by_id() {
    let mut store = Storage::new();
    set_settlement_hash(&mut store, 5);
    assert!(has_settlement_hash(&store, 5));
    assert!(!has_settlement_hash(&store, 4));
    set_settlement_hash(&mut store, 5);
    set_settlement_hash(&mut store, 4);
    assert!(has_settlement_hash(&store, 5));
    assert!(has_settlement_hash(&store, 4));
}

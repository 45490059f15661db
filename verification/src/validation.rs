//! Checks on addresses, made before funds are moved to them.

use crate::errors::ContractError;
use crate::types::Address;
use vstd::prelude::*;

verus! {

/// Whether an address can receive funds. Every address that can be built is
/// well formed, so this holds of all of them.
pub open spec fn address_ok(address: Address) -> bool {
    true
}

/// Checks that `address` can receive funds: `InvalidAddress` if it cannot.
pub fn validate_address(address: &Address) -> (r: Result<(), ContractError>)
    ensures
        r == if address_ok(*address) {
            Ok::<(), ContractError>(())
        } else {
            Err(ContractError::InvalidAddress)
        },
{
    Ok(())
}

} // verus!

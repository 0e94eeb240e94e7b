use vstd::prelude::*;

use crate::error::ContractError;

verus! {

/// Rejects a zero amount with `InvalidAmount`; accepts any positive amount.
///
/// Every mutating operation that takes an amount applies this check before
/// touching the ledger.
pub fn validate_positive_amount(amount: u128) -> (r: Result<(), ContractError>)
    ensures
        r is Ok <==> amount > 0,
        r is Err ==> r == Err::<(), ContractError>(ContractError::InvalidAmount {}),
{
    if amount == 0 {
        return Err(ContractError::InvalidAmount {});
    }
    Ok(())
}

} // verus!

//! Per-borrower exposure limit.

use vstd::prelude::*;
use crate::types::ContractError;

verus! {

/// Refuse a utilization above the borrower's exposure cap, when one is set.
pub fn check_borrower_exposure_cap(cap: Option<i128>, updated_utilized: i128) -> (r: Result<(), ContractError>)
    ensures
        r == (match cap {
            Some(c) if updated_utilized > c => Err::<(), ContractError>(ContractError::BorrowerExposureCapExceeded),
            _ => Ok::<(), ContractError>(()),
        }),
{
    if let Some(c) = cap {
        if updated_utilized > c {
            return Err(ContractError::BorrowerExposureCapExceeded);
        }
    }
    Ok(())
}

} // verus!

//! Late-fee penalty model: a flat amount per missed installment, or an APR
//! surcharge that accrual applies to delinquent lines.

use vstd::prelude::*;
use crate::types::ContractError;

verus! {

/// Payload for the [`LateFeeConfig::Flat`] variant.
#[derive(Clone, Copy, Debug, PartialEq, Eq, Structural)]
pub struct FlatFeeConfig {
    /// Token units charged once per overdue installment (must be `>= 0`).
    pub amount: i128,
}

/// Payload for the [`LateFeeConfig::AprBased`] variant.
#[derive(Clone, Copy, Debug, PartialEq, Eq, Structural)]
pub struct AprFeeConfig {
    /// Extra basis points added to the base rate while delinquent (`0..=10_000`).
    pub surcharge_bps: u32,
}

/// Configuration for the late-fee penalty applied to overdue installments.
#[derive(Clone, Copy, Debug, PartialEq, Eq, Structural)]
pub enum LateFeeConfig {
    /// Fixed flat amount charged once per overdue installment.
    Flat(FlatFeeConfig),
    /// Additive APR surcharge applied by accrual; no flat fee here.
    AprBased(AprFeeConfig),
}

/// The flat late fee owed for `missed_installments` overdue periods.
///
/// `Ok(0)` when nothing was missed or the config is APR-based;
/// `InvalidAmount` for a negative flat amount; `Overflow` when
/// `amount × missed_installments` exceeds `i128`.
pub fn compute_late_fee(config: LateFeeConfig, missed_installments: u64) -> (result: Result<i128, ContractError>)
    ensures
        missed_installments == 0 ==> result == Ok::<i128, ContractError>(0),
        missed_installments > 0 ==> match config {
            LateFeeConfig::AprBased(_) => result == Ok::<i128, ContractError>(0),
            LateFeeConfig::Flat(f) =>
                if f.amount < 0 {
                    result == Err::<i128, ContractError>(ContractError::InvalidAmount)
                } else if f.amount * missed_installments > i128::MAX {
                    result == Err::<i128, ContractError>(ContractError::Overflow)
                } else {
                    result == Ok::<i128, ContractError>((f.amount * missed_installments) as i128)
                },
        },
{
    if missed_installments == 0 {
        return Ok(0);
    }
    match config {
        LateFeeConfig::Flat(FlatFeeConfig { amount }) => {
            if amount < 0 {
                return Err(ContractError::InvalidAmount);
            }
            if amount == 0 {
                return Ok(0);
            }
            let count = missed_installments as i128;
            match amount.checked_mul(count) {
                Some(fee) => Ok(fee),
                None => Err(ContractError::Overflow),
            }
        },
        LateFeeConfig::AprBased(_) => Ok(0),
    }
}

} // verus!

//! Pure rules of borrowing and repayment: which line states accept draws,
//! how a repayment is capped and allocated, and how much collateral a
//! repayment releases.

use vstd::prelude::*;
use crate::math_utils::{mul_div, rounded_div, law_proportional_share, Rounding};
use crate::types::{ContractError, CreditStatus};

verus! {

/// The error that blocks a draw on a line in `status`, if any: Active and
/// Restricted lines accept draws (Restricted lines are still limit-checked).
pub open spec fn draw_status_error_spec(status: CreditStatus) -> Option<ContractError> {
    match status {
        CreditStatus::Active => None,
        CreditStatus::Restricted => None,
        CreditStatus::Suspended => Some(ContractError::CreditLineSuspended),
        CreditStatus::Defaulted => Some(ContractError::CreditLineDefaulted),
        CreditStatus::Closed => Some(ContractError::CreditLineClosed),
    }
}

/// Return the error that blocks a draw on a line in `status`, if any.
pub fn draw_status_error(status: CreditStatus) -> (result: Option<ContractError>)
    ensures
        result == draw_status_error_spec(status),
{
    match status {
        CreditStatus::Active => None,
        CreditStatus::Restricted => None,
        CreditStatus::Suspended => Some(ContractError::CreditLineSuspended),
        CreditStatus::Defaulted => Some(ContractError::CreditLineDefaulted),
        CreditStatus::Closed => Some(ContractError::CreditLineClosed),
    }
}

/// The part of a requested repayment that is applied: the request, capped
/// at the outstanding utilized amount.
pub open spec fn effective_repay_spec(amount: int, utilized: int) -> int {
    if amount > utilized { utilized } else { amount }
}

/// The part of an applied repayment that settles interest (interest first).
pub open spec fn interest_repaid_spec(effective: int, accrued: int) -> int {
    if effective <= accrued { effective } else { accrued }
}

/// Cap a requested repayment at the outstanding utilized amount.
pub fn effective_repay(amount: i128, utilized_amount: i128) -> (r: i128)
    ensures
        r == effective_repay_spec(amount as int, utilized_amount as int),
{
    if amount > utilized_amount { utilized_amount } else { amount }
}

/// The interest settled by an applied repayment: `min(effective, accrued)`.
pub fn interest_repaid(effective_repay: i128, accrued_interest: i128) -> (r: i128)
    ensures
        r == interest_repaid_spec(effective_repay as int, accrued_interest as int),
{
    if effective_repay <= accrued_interest { effective_repay } else { accrued_interest }
}

/// For positive amounts the applied repayment never exceeds the debt,
/// equals the debt on overpayment and the request otherwise; the interest
/// it settles never exceeds the accrued interest nor the repayment, and
/// equals the accrued interest whenever the repayment covers it.
pub proof fn law_repay_allocation(utilized: i128, accrued: i128, amount: i128)
    requires
        utilized > 0,
        amount > 0,
        accrued >= 0,
    ensures
        0 < effective_repay_spec(amount as int, utilized as int) <= utilized,
        amount >= utilized ==> effective_repay_spec(amount as int, utilized as int) == utilized,
        amount < utilized ==> effective_repay_spec(amount as int, utilized as int) == amount,
        0 <= interest_repaid_spec(effective_repay_spec(amount as int, utilized as int), accrued as int) <= accrued,
        interest_repaid_spec(effective_repay_spec(amount as int, utilized as int), accrued as int)
            <= effective_repay_spec(amount as int, utilized as int),
        effective_repay_spec(amount as int, utilized as int) >= accrued ==>
            interest_repaid_spec(effective_repay_spec(amount as int, utilized as int), accrued as int) == accrued,
{
}

/// The collateral released by a repayment: all of it when the repayment
/// clears the previous debt, otherwise the proportional share
/// `collateral × repaid / previous_utilized` rounded down.
pub open spec fn collateral_release_spec(collateral: int, effective: int, previous_utilized: int) -> int {
    if effective >= previous_utilized {
        collateral
    } else {
        rounded_div(collateral * effective, previous_utilized, Rounding::Floor)
    }
}

/// Collateral released alongside a repayment of `effective_repay` against a
/// debt of `previous_utilized`.
pub fn collateral_release_amount(collateral_balance: i128, effective_repay: i128, previous_utilized: i128) -> (r: i128)
    requires
        collateral_balance >= 0,
        effective_repay >= 0,
        previous_utilized > 0,
        effective_repay >= previous_utilized || collateral_balance * effective_repay <= u128::MAX,
    ensures
        r == collateral_release_spec(collateral_balance as int, effective_repay as int, previous_utilized as int),
        0 <= r <= collateral_balance,
{
    if effective_repay >= previous_utilized {
        collateral_balance
    } else {
        proof {
            law_proportional_share(collateral_balance as u128, effective_repay as u128, previous_utilized as u128);
        }
        mul_div(collateral_balance as u128, effective_repay as u128, previous_utilized as u128, Rounding::Floor) as i128
    }
}

} // verus!

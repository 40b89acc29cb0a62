//! Protocol fee skim split between the treasury and bounty pools.
//!
//! The treasury share is computed with floor rounding; the bounty pool
//! receives the remainder so no tokens are lost to integer division.

use vstd::prelude::*;
use crate::math_utils::{apply_bps, law_apply_bps_bounds, rounded_div, Rounding, BPS_DENOMINATOR};

verus! {

/// Maximum basis points for a fee-share ratio (100 %).
pub const MAX_FEE_SHARE_BPS: u32 = 10_000;

/// Default treasury share when unset: 100 % to treasury.
pub const DEFAULT_TREASURY_FEE_SHARE_BPS: u32 = 10_000;

/// Result of splitting a protocol fee between treasury and bounty accumulators.
#[derive(Clone, Copy, Debug, PartialEq, Eq, Structural)]
pub struct FeeSplitAmounts {
    /// Portion credited to the treasury balance.
    pub treasury_amount: i128,
    /// Portion credited to the bounty balance.
    pub bounty_amount: i128,
}

/// The treasury portion of `total_fee` at `share_bps` (floor rounded).
pub open spec fn treasury_portion(total_fee: int, share_bps: int) -> int {
    if total_fee <= 0 {
        0
    } else if share_bps >= MAX_FEE_SHARE_BPS {
        total_fee
    } else {
        rounded_div(total_fee * share_bps, BPS_DENOMINATOR as int, Rounding::Floor)
    }
}

/// Split `total_fee` by `treasury_share_bps`: the treasury receives
/// `floor(total_fee × share / 10_000)` (all of it at a share of 10 000 bps or
/// more), the bounty pool the remainder; a non-positive fee splits into zeros.
pub fn split_protocol_fee(total_fee: i128, treasury_share_bps: u32) -> (split: FeeSplitAmounts)
    requires
        total_fee <= 0 || treasury_share_bps >= MAX_FEE_SHARE_BPS
            || total_fee * treasury_share_bps <= u128::MAX,
    ensures
        split.treasury_amount == treasury_portion(total_fee as int, treasury_share_bps as int),
        total_fee <= 0 ==> split.bounty_amount == 0,
        total_fee > 0 ==> split.bounty_amount == total_fee - split.treasury_amount,
{
    if total_fee <= 0 {
        return FeeSplitAmounts { treasury_amount: 0, bounty_amount: 0 };
    }
    if treasury_share_bps == 0 {
        proof {
            assert(total_fee * treasury_share_bps == 0);
        }
        return FeeSplitAmounts { treasury_amount: 0, bounty_amount: total_fee };
    }
    if treasury_share_bps >= MAX_FEE_SHARE_BPS {
        return FeeSplitAmounts { treasury_amount: total_fee, bounty_amount: 0 };
    }
    let fee_u: u128 = total_fee as u128;
    proof {
        law_apply_bps_bounds(fee_u, treasury_share_bps, Rounding::Floor);
    }
    let treasury_amount = apply_bps(fee_u, treasury_share_bps, Rounding::Floor) as i128;
    let bounty_amount = total_fee - treasury_amount;
    FeeSplitAmounts { treasury_amount, bounty_amount }
}

/// Splitting a fee conserves it: both portions are non-negative, neither
/// exceeds the fee, and together they add up to the fee when it is positive.
pub proof fn law_fee_split_conserves(total_fee: i128, treasury_share_bps: u32)
    ensures
        total_fee > 0 && (treasury_share_bps >= MAX_FEE_SHARE_BPS || total_fee * treasury_share_bps <= u128::MAX) ==> (
            0 <= treasury_portion(total_fee as int, treasury_share_bps as int) <= total_fee
        ),
        total_fee <= 0 ==> treasury_portion(total_fee as int, treasury_share_bps as int) == 0,
{
    if total_fee > 0 && treasury_share_bps < MAX_FEE_SHARE_BPS {
        let fee_u: u128 = total_fee as u128;
        law_apply_bps_bounds(fee_u, treasury_share_bps, Rounding::Floor);
        assert(total_fee * treasury_share_bps >= 0) by (nonlinear_arith)
            requires total_fee > 0, treasury_share_bps >= 0;
        assert(treasury_portion(total_fee as int, treasury_share_bps as int) >= 0) by {
            vstd::arithmetic::div_mod::lemma_div_pos_is_pos(total_fee * treasury_share_bps, 10_000);
        }
    }
}

} // verus!

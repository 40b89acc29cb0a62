//! Shared data types of the credit contract: errors, line status, the
//! per-borrower credit line record and the admin-configurable policies.

use vstd::prelude::*;

verus! {

/// Identifier of an account (borrower, admin, treasury, token or oracle).
pub type AccountId = u64;

/// Errors returned by the credit contract.
///
/// The first fourteen variants keep the order of the contract's ABI
/// (`Unauthorized` is the first error, `AlreadyInitialized` the fourteenth);
/// [`ContractError::code`] gives each error's number on the ABI where the
/// contract documents it.
#[derive(Clone, Copy, Debug, PartialEq, Eq, Structural)]
pub enum ContractError {
    Unauthorized,
    NotAdmin,
    CreditLineNotFound,
    CreditLineClosed,
    InvalidAmount,
    OverLimit,
    NegativeLimit,
    RateTooHigh,
    ScoreTooHigh,
    UtilizationNotZero,
    Reentrancy,
    Overflow,
    LimitDecreaseRequiresRepayment,
    AlreadyInitialized,
    DrawsFrozen,
    Paused,
    CreditLineSuspended,
    CreditLineDefaulted,
    MissingLiquidityToken,
    MissingLiquiditySource,
    InsufficientLiquidityReserve,
    TimestampRegression,
    CollateralRatioBelowMinimum,
    InsufficientCollateralBalance,
    DrawExceedsMaxAmount,
    RepayExceedsMaxAmount,
    DrawCooldownActive,
    AdminCooldownActive,
    AdminAcceptTooEarly,
    BorrowerFrozen,
    CreditLineFrozen,
    ExposureCapExceeded,
    BorrowerExposureCapExceeded,
    LimitOutOfBounds,
    TreasuryNotSet,
    TreasuryProposalExists,
    NoPendingTreasuryWithdrawal,
    TreasuryTimelockActive,
    BountyNotSet,
    InvalidRiskWeight,
    AdminCollateralCooldownActive,
    OraclePriceInvalid,
    OraclePriceStale,
    OraclePriceDeviation,
    DrawReversalWindowExpired,
    OriginalDrawNotFound,
    InvalidAttestation,
    FreezeCooldownActive,
    BorrowerBlocked,
}

/// The contract error number of `e` on the ABI, for the errors whose
/// number the contract documents; `None` for the others.
pub open spec fn error_code(e: ContractError) -> Option<u32> {
    match e {
        ContractError::Unauthorized => Some(1u32),
        ContractError::NotAdmin => Some(2u32),
        ContractError::CreditLineNotFound => Some(3u32),
        ContractError::CreditLineClosed => Some(4u32),
        ContractError::InvalidAmount => Some(5u32),
        ContractError::OverLimit => Some(6u32),
        ContractError::NegativeLimit => Some(7u32),
        ContractError::RateTooHigh => Some(8u32),
        ContractError::ScoreTooHigh => Some(9u32),
        ContractError::UtilizationNotZero => Some(10u32),
        ContractError::Reentrancy => Some(11u32),
        ContractError::Overflow => Some(12u32),
        ContractError::LimitDecreaseRequiresRepayment => Some(13u32),
        ContractError::AlreadyInitialized => Some(14u32),
        ContractError::Paused => Some(18u32),
        ContractError::DrawsFrozen => Some(19u32),
        ContractError::CreditLineSuspended => Some(20u32),
        ContractError::CreditLineDefaulted => Some(21u32),
        ContractError::MissingLiquidityToken => Some(22u32),
        ContractError::MissingLiquiditySource => Some(23u32),
        ContractError::InsufficientLiquidityReserve => Some(24u32),
        ContractError::RepayExceedsMaxAmount => Some(28u32),
        ContractError::TimestampRegression => Some(33u32),
        ContractError::CollateralRatioBelowMinimum => Some(35u32),
        ContractError::InsufficientCollateralBalance => Some(39u32),
        ContractError::BorrowerFrozen => Some(40u32),
        ContractError::InvalidAttestation => Some(53u32),
        ContractError::AdminCollateralCooldownActive => Some(54u32),
        _ => None,
    }
}

impl ContractError {
    /// This error's contract error number, as [`error_code`].
    pub fn code(&self) -> (c: Option<u32>)
        ensures
            c == error_code(*self),
    {
        match self {
            ContractError::Unauthorized => Some(1),
            ContractError::NotAdmin => Some(2),
            ContractError::CreditLineNotFound => Some(3),
            ContractError::CreditLineClosed => Some(4),
            ContractError::InvalidAmount => Some(5),
            ContractError::OverLimit => Some(6),
            ContractError::NegativeLimit => Some(7),
            ContractError::RateTooHigh => Some(8),
            ContractError::ScoreTooHigh => Some(9),
            ContractError::UtilizationNotZero => Some(10),
            ContractError::Reentrancy => Some(11),
            ContractError::Overflow => Some(12),
            ContractError::LimitDecreaseRequiresRepayment => Some(13),
            ContractError::AlreadyInitialized => Some(14),
            ContractError::Paused => Some(18),
            ContractError::DrawsFrozen => Some(19),
            ContractError::CreditLineSuspended => Some(20),
            ContractError::CreditLineDefaulted => Some(21),
            ContractError::MissingLiquidityToken => Some(22),
            ContractError::MissingLiquiditySource => Some(23),
            ContractError::InsufficientLiquidityReserve => Some(24),
            ContractError::RepayExceedsMaxAmount => Some(28),
            ContractError::TimestampRegression => Some(33),
            ContractError::CollateralRatioBelowMinimum => Some(35),
            ContractError::InsufficientCollateralBalance => Some(39),
            ContractError::BorrowerFrozen => Some(40),
            ContractError::InvalidAttestation => Some(53),
            ContractError::AdminCollateralCooldownActive => Some(54),
            _ => None,
        }
    }
}

/// Lifecycle status of a credit line.
#[derive(Clone, Copy, Debug, PartialEq, Eq, Structural)]
pub enum CreditStatus {
    Active,
    Suspended,
    Defaulted,
    Closed,
    Restricted,
}

/// Per-borrower credit line record.
#[derive(Clone, Copy, Debug, PartialEq, Eq, Structural)]
pub struct CreditLineData {
    pub borrower: AccountId,
    pub credit_limit: i128,
    pub utilized_amount: i128,
    pub interest_rate_bps: u32,
    pub risk_score: u32,
    pub status: CreditStatus,
    pub last_rate_update_ts: u64,
    pub accrued_interest: i128,
    pub last_accrual_ts: u64,
    pub suspension_ts: u64,
}

/// How interest is treated during the grace window of a suspended line.
#[derive(Clone, Copy, Debug, PartialEq, Eq, Structural)]
pub enum GraceWaiverMode {
    /// No interest accrues inside the grace window.
    FullWaiver,
    /// Interest accrues at `reduced_rate_bps` inside the grace window.
    ReducedRate,
}

/// Grace-period policy for suspended credit lines.
#[derive(Clone, Copy, Debug, PartialEq, Eq, Structural)]
pub struct GracePeriodConfig {
    pub grace_period_seconds: u64,
    pub waiver_mode: GraceWaiverMode,
    pub reduced_rate_bps: u32,
}

/// Magnitude and cadence caps on interest-rate changes.
#[derive(Clone, Copy, Debug, PartialEq, Eq, Structural)]
pub struct RateChangeConfig {
    pub max_rate_change_bps: u32,
    pub rate_change_min_interval: u64,
}

/// Piecewise-linear risk-score-to-rate formula.
#[derive(Clone, Copy, Debug, PartialEq, Eq, Structural)]
pub struct RateFormulaConfig {
    pub base_rate_bps: u32,
    pub slope_bps_per_score: u32,
    pub min_rate_bps: u32,
    pub max_rate_bps: u32,
}

/// Installment schedule used for delinquency tracking.
#[derive(Clone, Copy, Debug, PartialEq, Eq, Structural)]
pub struct RepaymentSchedule {
    pub amount_per_period: i128,
    pub period_seconds: u64,
    pub next_due_ts: u64,
}

/// Oracle circuit-breaker thresholds.
#[derive(Clone, Copy, Debug, PartialEq, Eq, Structural)]
pub struct OracleConfig {
    pub max_deviation_bps: u32,
    pub max_age_seconds: u64,
}

/// Multi-oracle quorum thresholds.
#[derive(Clone, Copy, Debug, PartialEq, Eq, Structural)]
pub struct OracleQuorumConfig {
    pub min_quorum_k: u32,
    pub max_deviation_bps: u32,
    pub max_age_seconds: u64,
}

/// A pending two-step treasury withdrawal.
#[derive(Clone, Copy, Debug, PartialEq, Eq, Structural)]
pub struct TreasuryWithdrawalProposal {
    pub recipient: AccountId,
    pub amount: i128,
    pub proposer: AccountId,
    pub proposed_at: u64,
    pub execute_after: u64,
}

/// Protocol-level aggregates for dashboards.
#[derive(Clone, Copy, Debug, PartialEq, Eq, Structural)]
pub struct ProtocolSummary {
    pub count: u32,
    pub total_utilized: i128,
    pub total_collateral: i128,
    pub treasury_balance: i128,
    pub bounty_balance: i128,
}

} // verus!

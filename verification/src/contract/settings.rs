//! Admin-configurable risk and borrowing policy: rate-change limits, rate
//! floors and ceilings, surcharges, caps, grace periods, late fees,
//! repayment schedules, transaction limits and protocol fees.

use vstd::prelude::*;
use super::{admin_error, Credit, CreditConfig, CreditView, MAX_PROTOCOL_FEE_BPS};
use super::collateral_admin::paused_admin_error;
use crate::penalties::{AprFeeConfig, FlatFeeConfig, LateFeeConfig};
use crate::risk::MAX_INTEREST_RATE_BPS;
use crate::types::{
    AccountId, ContractError, GracePeriodConfig, GraceWaiverMode, RateChangeConfig, RateFormulaConfig, RepaymentSchedule,
};

verus! {

/// `v` with only its configuration replaced.
pub open spec fn with_config(v: CreditView, c: CreditConfig) -> CreditView {
    CreditView { config: c, ..v }
}

/// The validation error of a rate floor for `b`, if any.
pub open spec fn floor_error(v: CreditView, b: AccountId, floor: Option<u32>) -> Option<ContractError> {
    match floor {
        Some(f) if v.rate_ceiling.contains_key(b) && f > v.rate_ceiling[b] => Some(ContractError::RateTooHigh),
        _ => None,
    }
}

/// The validation error of a rate ceiling for `b`, if any.
pub open spec fn ceiling_error(v: CreditView, b: AccountId, ceiling: Option<u32>) -> Option<ContractError> {
    match ceiling {
        Some(c) if v.rate_floor.contains_key(b) && c < v.rate_floor[b] => Some(ContractError::RateTooHigh),
        _ => None,
    }
}

/// The validation error of a late-fee policy, if any.
pub open spec fn late_fee_error(config: Option<LateFeeConfig>) -> Option<ContractError> {
    match config {
        Some(LateFeeConfig::Flat(f)) if f.amount < 0 => Some(ContractError::InvalidAmount),
        Some(LateFeeConfig::AprBased(a)) if a.surcharge_bps > MAX_INTEREST_RATE_BPS => Some(ContractError::RateTooHigh),
        _ => None,
    }
}

/// `m` with `k` mapped to `x`, or with `k` removed for `None`.
pub open spec fn set_or_remove<V>(m: Map<AccountId, V>, k: AccountId, x: Option<V>) -> Map<AccountId, V> {
    match x {
        Some(val) => m.insert(k, val),
        None => m.remove(k),
    }
}

impl Credit {
    /// Cap the magnitude of each rate change and the interval between
    /// changes (admin only, refused while paused).
    pub fn set_rate_change_limits(&mut self, caller: AccountId, max_rate_change_bps: u32, rate_change_min_interval: u64)
        -> (r: Result<(), ContractError>)
        requires
            old(self).wf(),
        ensures
            final(self).wf(),
            match paused_admin_error(old(self)@, caller) {
                Some(e) => r == Err::<(), ContractError>(e) && final(self)@ == old(self)@,
                None => r is Ok && final(self)@ == with_config(old(self)@, CreditConfig {
                    rate_change: Some(RateChangeConfig { max_rate_change_bps, rate_change_min_interval }),
                    ..old(self)@.config
                }),
            },
    {
        if self.config.paused {
            return Err(ContractError::Paused);
        }
        self.check_admin(caller)?;
        self.config.rate_change = Some(RateChangeConfig { max_rate_change_bps, rate_change_min_interval });
        Ok(())
    }

    /// The configured rate-change limits.
    pub fn get_rate_change_limits(&self) -> (r: Option<RateChangeConfig>)
        ensures
            r == self@.config.rate_change,
    {
        self.config.rate_change
    }

    /// Set or clear `borrower`'s rate floor (admin only). A floor above the
    /// borrower's ceiling is refused with `RateTooHigh`.
    pub fn set_borrower_rate_floor(&mut self, caller: AccountId, borrower: AccountId, floor_bps: Option<u32>)
        -> (r: Result<(), ContractError>)
        requires
            old(self).wf(),
            admin_error(old(self)@, caller) is None && floor_bps is Some ==> floor_bps->0 <= MAX_INTEREST_RATE_BPS,
        ensures
            final(self).wf(),
            admin_error(old(self)@, caller) matches Some(e) ==> r == Err::<(), ContractError>(e) && final(self)@ == old(self)@,
            admin_error(old(self)@, caller) is None && floor_error(old(self)@, borrower, floor_bps) is Some
                ==> r == Err::<(), ContractError>(ContractError::RateTooHigh) && final(self)@ == old(self)@,
            admin_error(old(self)@, caller) is None && floor_error(old(self)@, borrower, floor_bps) is None ==> r is Ok
                && final(self)@ == (CreditView {
                    rate_floor: set_or_remove(old(self)@.rate_floor, borrower, floor_bps),
                    ..old(self)@
                }),
    {
        self.check_admin(caller)?;
        match floor_bps {
            Some(f) => {
                if let Some(c) = self.rate_ceiling.get(&borrower) {
                    if f > *c {
                        return Err(ContractError::RateTooHigh);
                    }
                }
                self.rate_floor.insert(borrower, f);
            },
            None => {
                self.rate_floor.remove(&borrower);
            },
        }
        Ok(())
    }

    /// `borrower`'s rate floor.
    pub fn get_borrower_rate_floor(&self, borrower: AccountId) -> (r: Option<u32>)
        ensures
            r == (if self@.rate_floor.contains_key(borrower) { Some(self@.rate_floor[borrower]) } else { None::<u32> }),
    {
        match self.rate_floor.get(&borrower) {
            Some(f) => Some(*f),
            None => None,
        }
    }

    /// Set or clear `borrower`'s rate ceiling (admin only). A ceiling below
    /// the borrower's floor is refused with `RateTooHigh`.
    pub fn set_borrower_rate_ceiling(&mut self, caller: AccountId, borrower: AccountId, ceiling_bps: Option<u32>)
        -> (r: Result<(), ContractError>)
        requires
            old(self).wf(),
            admin_error(old(self)@, caller) is None && ceiling_bps is Some ==> ceiling_bps->0 <= MAX_INTEREST_RATE_BPS,
        ensures
            final(self).wf(),
            admin_error(old(self)@, caller) matches Some(e) ==> r == Err::<(), ContractError>(e) && final(self)@ == old(self)@,
            admin_error(old(self)@, caller) is None && ceiling_error(old(self)@, borrower, ceiling_bps) is Some
                ==> r == Err::<(), ContractError>(ContractError::RateTooHigh) && final(self)@ == old(self)@,
            admin_error(old(self)@, caller) is None && ceiling_error(old(self)@, borrower, ceiling_bps) is None ==> r is Ok
                && final(self)@ == (CreditView {
                    rate_ceiling: set_or_remove(old(self)@.rate_ceiling, borrower, ceiling_bps),
                    ..old(self)@
                }),
    {
        self.check_admin(caller)?;
        match ceiling_bps {
            Some(c) => {
                if let Some(f) = self.rate_floor.get(&borrower) {
                    if c < *f {
                        return Err(ContractError::RateTooHigh);
                    }
                }
                self.rate_ceiling.insert(borrower, c);
            },
            None => {
                self.rate_ceiling.remove(&borrower);
            },
        }
        Ok(())
    }

    /// `borrower`'s rate ceiling.
    pub fn get_borrower_rate_ceiling(&self, borrower: AccountId) -> (r: Option<u32>)
        ensures
            r == (if self@.rate_ceiling.contains_key(borrower) { Some(self@.rate_ceiling[borrower]) } else { None::<u32> }),
    {
        match self.rate_ceiling.get(&borrower) {
            Some(c) => Some(*c),
            None => None,
        }
    }

    /// Set the penalty surcharge added to the rate of delinquent lines
    /// (admin only, refused while paused).
    pub fn set_penalty_surcharge_bps(&mut self, caller: AccountId, bps: u32) -> (r: Result<(), ContractError>)
        requires
            old(self).wf(),
            paused_admin_error(old(self)@, caller) is None ==> bps <= MAX_INTEREST_RATE_BPS,
        ensures
            final(self).wf(),
            match paused_admin_error(old(self)@, caller) {
                Some(e) => r == Err::<(), ContractError>(e) && final(self)@ == old(self)@,
                None => r is Ok && final(self)@ == with_config(old(self)@, CreditConfig {
                    penalty_surcharge_bps: bps,
                    ..old(self)@.config
                }),
            },
    {
        if self.config.paused {
            return Err(ContractError::Paused);
        }
        self.check_admin(caller)?;
        self.config.penalty_surcharge_bps = bps;
        Ok(())
    }

    /// The penalty surcharge in bps (0 when unset).
    pub fn get_penalty_surcharge_bps(&self) -> (r: u32)
        ensures
            r == self@.config.penalty_surcharge_bps,
    {
        self.config.penalty_surcharge_bps
    }

    /// Cap `borrower`'s utilization at `cap_bps` of the credit limit (admin
    /// only); 0 removes the cap.
    pub fn set_utilization_cap(&mut self, caller: AccountId, borrower: AccountId, cap_bps: u32) -> (r: Result<(), ContractError>)
        requires
            old(self).wf(),
            admin_error(old(self)@, caller) is None ==> cap_bps <= 10_000,
        ensures
            final(self).wf(),
            match admin_error(old(self)@, caller) {
                Some(e) => r == Err::<(), ContractError>(e) && final(self)@ == old(self)@,
                None => r is Ok && final(self)@ == (CreditView {
                    utilization_cap_bps: if cap_bps == 0 { old(self)@.utilization_cap_bps.remove(borrower) }
                        else { old(self)@.utilization_cap_bps.insert(borrower, cap_bps) },
                    ..old(self)@
                }),
            },
    {
        self.check_admin(caller)?;
        if cap_bps == 0 {
            self.utilization_cap_bps.remove(&borrower);
        } else {
            self.utilization_cap_bps.insert(borrower, cap_bps);
        }
        Ok(())
    }

    /// `borrower`'s utilization cap.
    pub fn get_utilization_cap(&self, borrower: AccountId) -> (r: Option<u32>)
        ensures
            r == (if self@.utilization_cap_bps.contains_key(borrower) { Some(self@.utilization_cap_bps[borrower]) }
                else { None::<u32> }),
    {
        match self.utilization_cap_bps.get(&borrower) {
            Some(c) => Some(*c),
            None => None,
        }
    }

    /// Cap `borrower`'s total utilization (admin only); 0 removes the cap,
    /// a negative cap is refused with `InvalidAmount`.
    pub fn set_borrower_exposure_cap(&mut self, caller: AccountId, borrower: AccountId, cap: i128) -> (r: Result<(), ContractError>)
        requires
            old(self).wf(),
        ensures
            final(self).wf(),
            admin_error(old(self)@, caller) matches Some(e) ==> r == Err::<(), ContractError>(e) && final(self)@ == old(self)@,
            admin_error(old(self)@, caller) is None && cap < 0
                ==> r == Err::<(), ContractError>(ContractError::InvalidAmount) && final(self)@ == old(self)@,
            admin_error(old(self)@, caller) is None && cap >= 0 ==> r is Ok && final(self)@ == (CreditView {
                exposure_cap: if cap == 0 { old(self)@.exposure_cap.remove(borrower) }
                    else { old(self)@.exposure_cap.insert(borrower, cap) },
                ..old(self)@
            }),
    {
        self.check_admin(caller)?;
        if cap < 0 {
            return Err(ContractError::InvalidAmount);
        }
        if cap == 0 {
            self.exposure_cap.remove(&borrower);
        } else {
            self.exposure_cap.insert(borrower, cap);
        }
        Ok(())
    }

    /// `borrower`'s exposure cap.
    pub fn get_borrower_exposure_cap(&self, borrower: AccountId) -> (r: Option<i128>)
        ensures
            r == (if self@.exposure_cap.contains_key(borrower) { Some(self@.exposure_cap[borrower]) } else { None::<i128> }),
    {
        match self.exposure_cap.get(&borrower) {
            Some(c) => Some(*c),
            None => None,
        }
    }

    /// Cap the protocol's total utilization (admin only); 0 removes the cap,
    /// a negative cap is refused with `InvalidAmount`.
    pub fn set_max_total_exposure(&mut self, caller: AccountId, amount: i128) -> (r: Result<(), ContractError>)
        requires
            old(self).wf(),
        ensures
            final(self).wf(),
            admin_error(old(self)@, caller) matches Some(e) ==> r == Err::<(), ContractError>(e) && final(self)@ == old(self)@,
            admin_error(old(self)@, caller) is None && amount < 0
                ==> r == Err::<(), ContractError>(ContractError::InvalidAmount) && final(self)@ == old(self)@,
            admin_error(old(self)@, caller) is None && amount >= 0 ==> r is Ok && final(self)@ == with_config(old(self)@,
                CreditConfig { max_total_exposure: if amount == 0 { None } else { Some(amount) }, ..old(self)@.config }),
    {
        self.check_admin(caller)?;
        if amount < 0 {
            return Err(ContractError::InvalidAmount);
        }
        self.config.max_total_exposure = if amount == 0 { None } else { Some(amount) };
        Ok(())
    }

    /// The protocol-wide exposure cap.
    pub fn get_max_total_exposure(&self) -> (r: Option<i128>)
        ensures
            r == self@.config.max_total_exposure,
    {
        self.config.max_total_exposure
    }

    /// Bound the credit limits of new and raised lines (admin only, refused
    /// while paused): `min` must be non-negative (`InvalidAmount`) and `max`
    /// at least `min` (`LimitOutOfBounds`).
    pub fn set_credit_limit_bounds(&mut self, caller: AccountId, min: i128, max: i128) -> (r: Result<(), ContractError>)
        requires
            old(self).wf(),
        ensures
            final(self).wf(),
            paused_admin_error(old(self)@, caller) matches Some(e) ==> r == Err::<(), ContractError>(e) && final(self)@ == old(self)@,
            paused_admin_error(old(self)@, caller) is None && min < 0
                ==> r == Err::<(), ContractError>(ContractError::InvalidAmount) && final(self)@ == old(self)@,
            paused_admin_error(old(self)@, caller) is None && min >= 0 && max < min
                ==> r == Err::<(), ContractError>(ContractError::LimitOutOfBounds) && final(self)@ == old(self)@,
            paused_admin_error(old(self)@, caller) is None && 0 <= min <= max ==> r is Ok && final(self)@ == with_config(old(self)@,
                CreditConfig { min_credit_limit: Some(min), max_credit_limit: Some(max), ..old(self)@.config }),
    {
        if self.config.paused {
            return Err(ContractError::Paused);
        }
        self.check_admin(caller)?;
        if min < 0 {
            return Err(ContractError::InvalidAmount);
        }
        if max < min {
            return Err(ContractError::LimitOutOfBounds);
        }
        self.config.min_credit_limit = Some(min);
        self.config.max_credit_limit = Some(max);
        Ok(())
    }

    /// The configured credit limit bounds.
    pub fn get_credit_limit_bounds(&self) -> (r: (Option<i128>, Option<i128>))
        ensures
            r == (self@.config.min_credit_limit, self@.config.max_credit_limit),
    {
        (self.config.min_credit_limit, self.config.max_credit_limit)
    }

    /// Configure the grace period of suspended lines (admin only); a
    /// reduced rate above 10 000 bps is refused with `RateTooHigh`.
    pub fn set_grace_period_config(&mut self, caller: AccountId, grace_period_seconds: u64, waiver_mode: GraceWaiverMode,
        reduced_rate_bps: u32) -> (r: Result<(), ContractError>)
        requires
            old(self).wf(),
        ensures
            final(self).wf(),
            admin_error(old(self)@, caller) matches Some(e) ==> r == Err::<(), ContractError>(e) && final(self)@ == old(self)@,
            admin_error(old(self)@, caller) is None && reduced_rate_bps > MAX_INTEREST_RATE_BPS
                ==> r == Err::<(), ContractError>(ContractError::RateTooHigh) && final(self)@ == old(self)@,
            admin_error(old(self)@, caller) is None && reduced_rate_bps <= MAX_INTEREST_RATE_BPS ==> r is Ok
                && final(self)@ == with_config(old(self)@, CreditConfig {
                    grace: Some(GracePeriodConfig { grace_period_seconds, waiver_mode, reduced_rate_bps }),
                    ..old(self)@.config
                }),
    {
        self.check_admin(caller)?;
        if reduced_rate_bps > MAX_INTEREST_RATE_BPS {
            return Err(ContractError::RateTooHigh);
        }
        self.config.grace = Some(GracePeriodConfig { grace_period_seconds, waiver_mode, reduced_rate_bps });
        Ok(())
    }

    /// The grace-period policy.
    pub fn get_grace_period_config(&self) -> (r: Option<GracePeriodConfig>)
        ensures
            r == self@.config.grace,
    {
        self.config.grace
    }

    /// Set `borrower`'s own liquidation grace period (admin only); 0
    /// removes it.
    pub fn set_per_borrower_liquidation_grace(&mut self, caller: AccountId, borrower: AccountId, grace_period_seconds: u64)
        -> (r: Result<(), ContractError>)
        requires
            old(self).wf(),
        ensures
            final(self).wf(),
            match admin_error(old(self)@, caller) {
                Some(e) => r == Err::<(), ContractError>(e) && final(self)@ == old(self)@,
                None => r is Ok && final(self)@ == (CreditView {
                    liquidation_grace: if grace_period_seconds == 0 { old(self)@.liquidation_grace.remove(borrower) }
                        else { old(self)@.liquidation_grace.insert(borrower, grace_period_seconds) },
                    ..old(self)@
                }),
            },
    {
        self.check_admin(caller)?;
        if grace_period_seconds == 0 {
            self.liquidation_grace.remove(&borrower);
        } else {
            self.liquidation_grace.insert(borrower, grace_period_seconds);
        }
        Ok(())
    }

    /// `borrower`'s liquidation grace period (0 when unset).
    pub fn get_per_borrower_liquidation_grace(&self, borrower: AccountId) -> (r: u64)
        ensures
            r == (if self@.liquidation_grace.contains_key(borrower) { self@.liquidation_grace[borrower] } else { 0 }),
    {
        match self.liquidation_grace.get(&borrower) {
            Some(g) => *g,
            None => 0,
        }
    }

    /// Set or clear the structured late-fee policy (admin only): a negative
    /// flat amount is refused with `InvalidAmount`, an APR surcharge above
    /// 10 000 bps with `RateTooHigh`.
    pub fn set_late_fee_config(&mut self, caller: AccountId, config: Option<LateFeeConfig>) -> (r: Result<(), ContractError>)
        requires
            old(self).wf(),
        ensures
            final(self).wf(),
            admin_error(old(self)@, caller) matches Some(e) ==> r == Err::<(), ContractError>(e) && final(self)@ == old(self)@,
            admin_error(old(self)@, caller) is None && late_fee_error(config) is Some
                ==> r == Err::<(), ContractError>(late_fee_error(config)->0) && final(self)@ == old(self)@,
            admin_error(old(self)@, caller) is None && late_fee_error(config) is None ==> r is Ok
                && final(self)@ == with_config(old(self)@, CreditConfig { late_fee_config: config, ..old(self)@.config }),
    {
        self.check_admin(caller)?;
        match config {
            Some(LateFeeConfig::Flat(FlatFeeConfig { amount })) => {
                if amount < 0 {
                    return Err(ContractError::InvalidAmount);
                }
            },
            Some(LateFeeConfig::AprBased(AprFeeConfig { surcharge_bps })) => {
                if surcharge_bps > MAX_INTEREST_RATE_BPS {
                    return Err(ContractError::RateTooHigh);
                }
            },
            None => {},
        }
        self.config.late_fee_config = config;
        Ok(())
    }

    /// The structured late-fee policy.
    pub fn get_late_fee_config(&self) -> (r: Option<LateFeeConfig>)
        ensures
            r == self@.config.late_fee_config,
    {
        self.config.late_fee_config
    }

    /// Set the flat late fee per missed installment (admin only).
    pub fn set_late_fee_flat(&mut self, caller: AccountId, fee: i128) -> (r: Result<(), ContractError>)
        requires
            old(self).wf(),
        ensures
            final(self).wf(),
            match admin_error(old(self)@, caller) {
                Some(e) => r == Err::<(), ContractError>(e) && final(self)@ == old(self)@,
                None => r is Ok && final(self)@ == with_config(old(self)@, CreditConfig { late_fee_flat: fee, ..old(self)@.config }),
            },
    {
        self.check_admin(caller)?;
        self.config.late_fee_flat = fee;
        Ok(())
    }

    /// The flat late fee (0 when unset).
    pub fn get_late_fee_flat(&self) -> (r: i128)
        ensures
            r == self@.config.late_fee_flat,
    {
        self.config.late_fee_flat
    }

    /// Set `borrower`'s installment schedule (admin only).
    pub fn set_repayment_schedule(&mut self, caller: AccountId, borrower: AccountId, amount_per_period: i128,
        period_seconds: u64, first_due_ts: u64) -> (r: Result<(), ContractError>)
        requires
            old(self).wf(),
        ensures
            final(self).wf(),
            match admin_error(old(self)@, caller) {
                Some(e) => r == Err::<(), ContractError>(e) && final(self)@ == old(self)@,
                None => r is Ok && final(self)@ == (CreditView {
                    schedules: old(self)@.schedules.insert(borrower, RepaymentSchedule {
                        amount_per_period,
                        period_seconds,
                        next_due_ts: first_due_ts,
                    }),
                    ..old(self)@
                }),
            },
    {
        self.check_admin(caller)?;
        self.schedules.insert(borrower, RepaymentSchedule { amount_per_period, period_seconds, next_due_ts: first_due_ts });
        Ok(())
    }

    /// `borrower`'s installment schedule.
    pub fn get_repayment_schedule(&self, borrower: AccountId) -> (r: Option<RepaymentSchedule>)
        ensures
            r == (if self@.schedules.contains_key(borrower) { Some(self@.schedules[borrower]) } else { None::<RepaymentSchedule> }),
    {
        match self.schedules.get(&borrower) {
            Some(s) => Some(*s),
            None => None,
        }
    }

    /// Cap a single draw (admin only, refused while paused); the cap must
    /// be positive (`InvalidAmount`).
    pub fn set_max_draw_amount(&mut self, caller: AccountId, amount: i128) -> (r: Result<(), ContractError>)
        requires
            old(self).wf(),
        ensures
            final(self).wf(),
            paused_admin_error(old(self)@, caller) matches Some(e) ==> r == Err::<(), ContractError>(e) && final(self)@ == old(self)@,
            paused_admin_error(old(self)@, caller) is None && amount <= 0
                ==> r == Err::<(), ContractError>(ContractError::InvalidAmount) && final(self)@ == old(self)@,
            paused_admin_error(old(self)@, caller) is None && amount > 0 ==> r is Ok && final(self)@ == with_config(old(self)@,
                CreditConfig { max_draw_amount: Some(amount), ..old(self)@.config }),
    {
        if self.config.paused {
            return Err(ContractError::Paused);
        }
        self.check_admin(caller)?;
        if amount <= 0 {
            return Err(ContractError::InvalidAmount);
        }
        self.config.max_draw_amount = Some(amount);
        Ok(())
    }

    /// The per-draw cap.
    pub fn get_max_draw_amount(&self) -> (r: Option<i128>)
        ensures
            r == self@.config.max_draw_amount,
    {
        self.config.max_draw_amount
    }

    /// Cap a single repayment (admin only, refused while paused); the cap
    /// must be positive (`InvalidAmount`).
    pub fn set_max_repay_amount(&mut self, caller: AccountId, amount: i128) -> (r: Result<(), ContractError>)
        requires
            old(self).wf(),
        ensures
            final(self).wf(),
            paused_admin_error(old(self)@, caller) matches Some(e) ==> r == Err::<(), ContractError>(e) && final(self)@ == old(self)@,
            paused_admin_error(old(self)@, caller) is None && amount <= 0
                ==> r == Err::<(), ContractError>(ContractError::InvalidAmount) && final(self)@ == old(self)@,
            paused_admin_error(old(self)@, caller) is None && amount > 0 ==> r is Ok && final(self)@ == with_config(old(self)@,
                CreditConfig { max_repay_amount: Some(amount), ..old(self)@.config }),
    {
        if self.config.paused {
            return Err(ContractError::Paused);
        }
        self.check_admin(caller)?;
        if amount <= 0 {
            return Err(ContractError::InvalidAmount);
        }
        self.config.max_repay_amount = Some(amount);
        Ok(())
    }

    /// The per-repayment cap.
    pub fn get_max_repay_amount(&self) -> (r: Option<i128>)
        ensures
            r == self@.config.max_repay_amount,
    {
        self.config.max_repay_amount
    }

    /// Set the minimum interval between a borrower's draws (admin only,
    /// refused while paused).
    pub fn set_draw_min_interval(&mut self, caller: AccountId, seconds: u64) -> (r: Result<(), ContractError>)
        requires
            old(self).wf(),
        ensures
            final(self).wf(),
            match paused_admin_error(old(self)@, caller) {
                Some(e) => r == Err::<(), ContractError>(e) && final(self)@ == old(self)@,
                None => r is Ok && final(self)@ == with_config(old(self)@,
                    CreditConfig { draw_min_interval: Some(seconds), ..old(self)@.config }),
            },
    {
        if self.config.paused {
            return Err(ContractError::Paused);
        }
        self.check_admin(caller)?;
        self.config.draw_min_interval = Some(seconds);
        Ok(())
    }

    /// The minimum interval between draws.
    pub fn get_draw_min_interval(&self) -> (r: Option<u64>)
        ensures
            r == self@.config.draw_min_interval,
    {
        self.config.draw_min_interval
    }

    /// Set the per-borrower cooldown between critical admin actions (admin
    /// only, refused while paused); 0 disables it.
    pub fn set_borrow_admin_cooldown(&mut self, caller: AccountId, seconds: u64) -> (r: Result<(), ContractError>)
        requires
            old(self).wf(),
        ensures
            final(self).wf(),
            match paused_admin_error(old(self)@, caller) {
                Some(e) => r == Err::<(), ContractError>(e) && final(self)@ == old(self)@,
                None => r is Ok && final(self)@ == with_config(old(self)@,
                    CreditConfig { borrow_admin_cooldown: Some(seconds), ..old(self)@.config }),
            },
    {
        if self.config.paused {
            return Err(ContractError::Paused);
        }
        self.check_admin(caller)?;
        self.config.borrow_admin_cooldown = Some(seconds);
        Ok(())
    }

    /// The per-borrower admin cooldown.
    pub fn get_borrow_admin_cooldown(&self) -> (r: Option<u64>)
        ensures
            r == self@.config.borrow_admin_cooldown,
    {
        self.config.borrow_admin_cooldown
    }

    /// Set the protocol fee skimmed from repayments (admin only); it must
    /// lie within the configured fee bounds (`InvalidAmount`).
    pub fn set_protocol_fee_bps(&mut self, caller: AccountId, bps: u32) -> (r: Result<(), ContractError>)
        requires
            old(self).wf(),
        ensures
            final(self).wf(),
            admin_error(old(self)@, caller) matches Some(e) ==> r == Err::<(), ContractError>(e) && final(self)@ == old(self)@,
            admin_error(old(self)@, caller) is None
                && (bps < old(self)@.config.min_protocol_fee_bps || bps > old(self)@.config.max_protocol_fee_bps)
                ==> r == Err::<(), ContractError>(ContractError::InvalidAmount) && final(self)@ == old(self)@,
            admin_error(old(self)@, caller) is None
                && old(self)@.config.min_protocol_fee_bps <= bps <= old(self)@.config.max_protocol_fee_bps
                ==> r is Ok && final(self)@ == with_config(old(self)@,
                    CreditConfig { protocol_fee_bps: Some(bps), ..old(self)@.config }),
    {
        self.check_admin(caller)?;
        if bps < self.config.min_protocol_fee_bps || bps > self.config.max_protocol_fee_bps {
            return Err(ContractError::InvalidAmount);
        }
        self.config.protocol_fee_bps = Some(bps);
        Ok(())
    }

    /// The protocol fee.
    pub fn get_protocol_fee_bps(&self) -> (r: Option<u32>)
        ensures
            r == self@.config.protocol_fee_bps,
    {
        self.config.protocol_fee_bps
    }

    /// Set the bounds the protocol fee must respect (admin only):
    /// `min <= max <= 1000` or `InvalidAmount`.
    pub fn set_protocol_fee_bounds(&mut self, caller: AccountId, min_bps: u32, max_bps: u32) -> (r: Result<(), ContractError>)
        requires
            old(self).wf(),
        ensures
            final(self).wf(),
            admin_error(old(self)@, caller) matches Some(e) ==> r == Err::<(), ContractError>(e) && final(self)@ == old(self)@,
            admin_error(old(self)@, caller) is None && (min_bps > max_bps || max_bps > MAX_PROTOCOL_FEE_BPS)
                ==> r == Err::<(), ContractError>(ContractError::InvalidAmount) && final(self)@ == old(self)@,
            admin_error(old(self)@, caller) is None && min_bps <= max_bps <= MAX_PROTOCOL_FEE_BPS ==> r is Ok
                && final(self)@ == with_config(old(self)@,
                    CreditConfig { min_protocol_fee_bps: min_bps, max_protocol_fee_bps: max_bps, ..old(self)@.config }),
    {
        self.check_admin(caller)?;
        if min_bps > max_bps || max_bps > MAX_PROTOCOL_FEE_BPS {
            return Err(ContractError::InvalidAmount);
        }
        self.config.min_protocol_fee_bps = min_bps;
        self.config.max_protocol_fee_bps = max_bps;
        Ok(())
    }

    /// The protocol fee bounds `(min, max)`.
    pub fn get_protocol_fee_bounds(&self) -> (r: (u32, u32))
        ensures
            r == (self@.config.min_protocol_fee_bps, self@.config.max_protocol_fee_bps),
    {
        (self.config.min_protocol_fee_bps, self.config.max_protocol_fee_bps)
    }
}


/// The validation error of a rate formula, if any.
pub open spec fn rate_formula_error(base: u32, min: u32, max: u32) -> Option<ContractError> {
    if min > max {
        Some(ContractError::InvalidAmount)
    } else if max > MAX_INTEREST_RATE_BPS || base > MAX_INTEREST_RATE_BPS {
        Some(ContractError::RateTooHigh)
    } else {
        None
    }
}

impl Credit {
    /// Price lines from their risk score (admin only, refused while
    /// paused): `min <= max` (`InvalidAmount`), and neither `max` nor the
    /// base rate above 10 000 bps (`RateTooHigh`).
    pub fn set_rate_formula_config(&mut self, caller: AccountId, base_rate_bps: u32, slope_bps_per_score: u32,
        min_rate_bps: u32, max_rate_bps: u32) -> (r: Result<(), ContractError>)
        requires
            old(self).wf(),
        ensures
            final(self).wf(),
            paused_admin_error(old(self)@, caller) matches Some(e) ==> r == Err::<(), ContractError>(e) && final(self)@ == old(self)@,
            paused_admin_error(old(self)@, caller) is None && rate_formula_error(base_rate_bps, min_rate_bps, max_rate_bps) is Some
                ==> r == Err::<(), ContractError>(rate_formula_error(base_rate_bps, min_rate_bps, max_rate_bps)->0)
                    && final(self)@ == old(self)@,
            paused_admin_error(old(self)@, caller) is None && rate_formula_error(base_rate_bps, min_rate_bps, max_rate_bps) is None
                ==> r is Ok && final(self)@ == with_config(old(self)@, CreditConfig {
                    rate_formula: Some(RateFormulaConfig { base_rate_bps, slope_bps_per_score, min_rate_bps, max_rate_bps }),
                    ..old(self)@.config
                }),
    {
        if self.config.paused {
            return Err(ContractError::Paused);
        }
        self.check_admin(caller)?;
        if min_rate_bps > max_rate_bps {
            return Err(ContractError::InvalidAmount);
        }
        if max_rate_bps > MAX_INTEREST_RATE_BPS || base_rate_bps > MAX_INTEREST_RATE_BPS {
            return Err(ContractError::RateTooHigh);
        }
        self.config.rate_formula = Some(RateFormulaConfig { base_rate_bps, slope_bps_per_score, min_rate_bps, max_rate_bps });
        Ok(())
    }

    /// Remove the rate formula (admin only); rates are then set directly.
    pub fn clear_rate_formula_config(&mut self, caller: AccountId) -> (r: Result<(), ContractError>)
        requires
            old(self).wf(),
        ensures
            final(self).wf(),
            match admin_error(old(self)@, caller) {
                Some(e) => r == Err::<(), ContractError>(e) && final(self)@ == old(self)@,
                None => r is Ok && final(self)@ == with_config(old(self)@, CreditConfig { rate_formula: None, ..old(self)@.config }),
            },
    {
        self.check_admin(caller)?;
        self.config.rate_formula = None;
        Ok(())
    }

    /// The rate formula, if configured.
    pub fn get_rate_formula_config(&self) -> (r: Option<RateFormulaConfig>)
        ensures
            r == self@.config.rate_formula,
    {
        self.config.rate_formula
    }
}

} // verus!

//! Collateral policy (minimum ratio, per-asset risk weights, the token
//! allowlist) behind a shared admin cool-off, and per-token collateral
//! balances.

use vstd::prelude::*;
use super::{admin_error, sat_add, Credit, CreditConfig, CreditView, TokenTransfer};
use crate::types::{AccountId, ContractError};

verus! {

/// Full value weight of a collateral asset (100 %).
pub const MAX_RISK_WEIGHT_BPS: u32 = 10_000;

/// `Paused` while the circuit breaker is engaged, then the admin check.
pub open spec fn paused_admin_error(v: CreditView, caller: AccountId) -> Option<ContractError> {
    if v.config.paused { Some(ContractError::Paused) } else { admin_error(v, caller) }
}

/// The shared cool-off between critical collateral admin actions.
pub open spec fn collateral_cooldown_error(v: CreditView, now: u64) -> Option<ContractError> {
    match (v.config.admin_collateral_cooldown, v.config.last_admin_collateral_action_ts) {
        (Some(c), Some(last)) if c > 0 && (now as int) < sat_add(last, c) => Some(ContractError::AdminCollateralCooldownActive),
        _ => None,
    }
}

/// The checks of a critical collateral admin action.
pub open spec fn critical_action_error(v: CreditView, caller: AccountId, now: u64) -> Option<ContractError> {
    if paused_admin_error(v, caller) is Some {
        paused_admin_error(v, caller)
    } else {
        collateral_cooldown_error(v, now)
    }
}

/// `v` with the critical-action clock set to `now`.
pub open spec fn touched(v: CreditView, now: u64) -> CreditView {
    CreditView { config: CreditConfig { last_admin_collateral_action_ts: Some(now), ..v.config }, ..v }
}

/// The storage key of a pair of 64-bit identifiers (a borrower and a
/// token, or a borrower and a timestamp): the first in the high half, the
/// second in the low half.
pub open spec fn pair_key(hi: u64, lo: u64) -> u128 {
    (hi * 0x1_0000_0000_0000_0000 + lo) as u128
}

/// `borrower`'s balance in `token` (0 when nothing was deposited).
pub open spec fn token_balance(v: CreditView, borrower: AccountId, token: AccountId) -> i128 {
    if v.token_collateral.contains_key(pair_key(borrower, token)) { v.token_collateral[pair_key(borrower, token)] } else { 0 }
}

/// `v` with `borrower`'s balance in `token` set to `new_balance` and the
/// global collateral accumulator adjusted, or `Overflow`.
pub open spec fn with_token_balance(v: CreditView, borrower: AccountId, token: AccountId, new_balance: i128)
    -> Result<CreditView, ContractError>
{
    let delta = new_balance - token_balance(v, borrower, token);
    let total = v.config.total_collateral + delta;
    if delta < i128::MIN || delta > i128::MAX || total < i128::MIN || total > i128::MAX {
        Err(ContractError::Overflow)
    } else {
        Ok(CreditView {
            token_collateral: v.token_collateral.insert(pair_key(borrower, token), new_balance),
            config: CreditConfig { total_collateral: total as i128, ..v.config },
            ..v
        })
    }
}

/// Outcome of `deposit_collateral_token`.
pub open spec fn deposit_token_spec(v: CreditView, borrower: AccountId, token: AccountId, amount: i128)
    -> Result<(CreditView, TokenTransfer), ContractError>
{
    let cur = token_balance(v, borrower, token);
    if amount <= 0 {
        Err(ContractError::InvalidAmount)
    } else if !v.collateral_tokens.contains(token) {
        Err(ContractError::MissingLiquidityToken)
    } else if cur + amount > i128::MAX {
        Err(ContractError::Overflow)
    } else {
        match with_token_balance(v, borrower, token, (cur + amount) as i128) {
            Err(e) => Err(e),
            Ok(v2) => Ok((v2, TokenTransfer { token, from: borrower, to: v.contract_address, amount })),
        }
    }
}

/// Outcome of `withdraw_collateral_token`.
pub open spec fn withdraw_token_spec(v: CreditView, borrower: AccountId, token: AccountId, amount: i128)
    -> Result<(CreditView, TokenTransfer), ContractError>
{
    let cur = token_balance(v, borrower, token);
    if amount <= 0 {
        Err(ContractError::InvalidAmount)
    } else if !v.collateral_tokens.contains(token) {
        Err(ContractError::MissingLiquidityToken)
    } else if amount > cur {
        Err(ContractError::InsufficientCollateralBalance)
    } else {
        match with_token_balance(v, borrower, token, (cur - amount) as i128) {
            Err(e) => Err(e),
            Ok(v2) => Ok((v2, TokenTransfer { token, from: v.contract_address, to: borrower, amount })),
        }
    }
}

proof fn lemma_pair_key_fits(borrower: AccountId, token: AccountId)
    ensures
        0 <= borrower * 0x1_0000_0000_0000_0000 + token <= u128::MAX,
{
    assert(borrower * 0x1_0000_0000_0000_0000 <= 0xffff_ffff_ffff_ffff * 0x1_0000_0000_0000_0000) by (nonlinear_arith)
        requires
            borrower <= 0xffff_ffff_ffff_ffff,
    ;
}

/// Different pairs (of a borrower and a token, or of a borrower and a
/// timestamp) are stored under different keys.
pub proof fn law_pair_keys_distinct(b1: AccountId, t1: AccountId, b2: AccountId, t2: AccountId)
    requires
        b1 != b2 || t1 != t2,
    ensures
        pair_key(b1, t1) != pair_key(b2, t2),
{
    lemma_pair_key_fits(b1, t1);
    lemma_pair_key_fits(b2, t2);
    let k1 = b1 * 0x1_0000_0000_0000_0000 + t1;
    let k2 = b2 * 0x1_0000_0000_0000_0000 + t2;
    if k1 == k2 {
        assert(b1 == b2 && t1 == t2) by (nonlinear_arith)
            requires
                k1 == b1 * 0x1_0000_0000_0000_0000 + t1,
                k2 == b2 * 0x1_0000_0000_0000_0000 + t2,
                k1 == k2,
                0 <= t1 < 0x1_0000_0000_0000_0000,
                0 <= t2 < 0x1_0000_0000_0000_0000,
                0 <= b1,
                0 <= b2,
        ;
    }
}

impl Credit {
    fn check_critical_action(&self, caller: AccountId, now: u64) -> (r: Result<(), ContractError>)
        ensures
            r is Ok <==> critical_action_error(self@, caller, now) is None,
            r matches Err(e) ==> critical_action_error(self@, caller, now) == Some(e),
    {
        if self.config.paused {
            return Err(ContractError::Paused);
        }
        self.check_admin(caller)?;
        if let (Some(c), Some(last)) = (self.config.admin_collateral_cooldown, self.config.last_admin_collateral_action_ts) {
            if c > 0 {
                let until = if last > u64::MAX - c { u64::MAX } else { last + c };
                if now < until {
                    return Err(ContractError::AdminCollateralCooldownActive);
                }
            }
        }
        Ok(())
    }

    /// Set the cool-off between critical collateral admin actions (admin
    /// only, refused while paused).
    pub fn set_admin_collateral_cooldown_seconds(&mut self, caller: AccountId, seconds: u64) -> (r: Result<(), ContractError>)
        requires
            old(self).wf(),
        ensures
            final(self).wf(),
            match paused_admin_error(old(self)@, caller) {
                Some(e) => r == Err::<(), ContractError>(e) && final(self)@ == old(self)@,
                None => r is Ok && final(self)@ == (CreditView {
                    config: CreditConfig { admin_collateral_cooldown: Some(seconds), ..old(self)@.config },
                    ..old(self)@
                }),
            },
    {
        if self.config.paused {
            return Err(ContractError::Paused);
        }
        self.check_admin(caller)?;
        self.config.admin_collateral_cooldown = Some(seconds);
        Ok(())
    }

    /// The configured collateral admin cool-off.
    pub fn get_admin_collateral_cooldown_seconds(&self) -> (r: Option<u64>)
        ensures
            r == self@.config.admin_collateral_cooldown,
    {
        self.config.admin_collateral_cooldown
    }

    /// When the last critical collateral admin action happened.
    pub fn get_last_admin_collateral_critical_action_ts(&self) -> (r: Option<u64>)
        ensures
            r == self@.config.last_admin_collateral_action_ts,
    {
        self.config.last_admin_collateral_action_ts
    }

    /// Set the minimum collateral ratio (a critical action).
    pub fn set_min_collateral_ratio_bps(&mut self, caller: AccountId, ratio_bps: u32, now: u64) -> (r: Result<(), ContractError>)
        requires
            old(self).wf(),
        ensures
            final(self).wf(),
            match critical_action_error(old(self)@, caller, now) {
                Some(e) => r == Err::<(), ContractError>(e) && final(self)@ == old(self)@,
                None => r is Ok && final(self)@ == touched(CreditView {
                    config: CreditConfig { min_collateral_ratio_bps: Some(ratio_bps), ..old(self)@.config },
                    ..old(self)@
                }, now),
            },
    {
        self.check_critical_action(caller, now)?;
        self.config.min_collateral_ratio_bps = Some(ratio_bps);
        self.config.last_admin_collateral_action_ts = Some(now);
        Ok(())
    }

    /// The configured minimum collateral ratio.
    pub fn get_min_collateral_ratio_bps(&self) -> (r: Option<u32>)
        ensures
            r == self@.config.min_collateral_ratio_bps,
    {
        self.config.min_collateral_ratio_bps
    }

    /// Set an asset's risk weight (a critical action); more than 10 000 bps
    /// is refused with `InvalidRiskWeight`.
    pub fn set_collateral_risk_weight(&mut self, caller: AccountId, asset: AccountId, weight_bps: u32, now: u64)
        -> (r: Result<(), ContractError>)
        requires
            old(self).wf(),
        ensures
            final(self).wf(),
            paused_admin_error(old(self)@, caller) matches Some(e) ==> r == Err::<(), ContractError>(e) && final(self)@ == old(self)@,
            paused_admin_error(old(self)@, caller) is None && weight_bps > MAX_RISK_WEIGHT_BPS
                ==> r == Err::<(), ContractError>(ContractError::InvalidRiskWeight) && final(self)@ == old(self)@,
            paused_admin_error(old(self)@, caller) is None && weight_bps <= MAX_RISK_WEIGHT_BPS
                && collateral_cooldown_error(old(self)@, now) is Some
                ==> r == Err::<(), ContractError>(collateral_cooldown_error(old(self)@, now)->0) && final(self)@ == old(self)@,
            paused_admin_error(old(self)@, caller) is None && weight_bps <= MAX_RISK_WEIGHT_BPS
                && collateral_cooldown_error(old(self)@, now) is None ==> r is Ok
                && final(self)@ == touched(CreditView {
                    risk_weights: old(self)@.risk_weights.insert(asset, weight_bps),
                    ..old(self)@
                }, now),
    {
        if self.config.paused {
            return Err(ContractError::Paused);
        }
        self.check_admin(caller)?;
        if weight_bps > MAX_RISK_WEIGHT_BPS {
            return Err(ContractError::InvalidRiskWeight);
        }
        self.check_critical_action(caller, now)?;
        self.risk_weights.insert(asset, weight_bps);
        self.config.last_admin_collateral_action_ts = Some(now);
        Ok(())
    }

    /// An asset's risk weight; `None` means full value.
    pub fn get_collateral_risk_weight(&self, asset: AccountId) -> (r: Option<u32>)
        ensures
            r == (if self@.risk_weights.contains_key(asset) { Some(self@.risk_weights[asset]) } else { None::<u32> }),
    {
        match self.risk_weights.get(&asset) {
            Some(w) => Some(*w),
            None => None,
        }
    }

    /// Replace the collateral token allowlist (a critical action).
    pub fn set_collateral_token_allowlist(&mut self, caller: AccountId, tokens: Vec<AccountId>, now: u64)
        -> (r: Result<(), ContractError>)
        requires
            old(self).wf(),
        ensures
            final(self).wf(),
            match critical_action_error(old(self)@, caller, now) {
                Some(e) => r == Err::<(), ContractError>(e) && final(self)@ == old(self)@,
                None => r is Ok && final(self)@ == touched(CreditView { collateral_tokens: tokens@, ..old(self)@ }, now),
            },
    {
        self.check_critical_action(caller, now)?;
        self.collateral_tokens = tokens;
        self.config.last_admin_collateral_action_ts = Some(now);
        Ok(())
    }

    /// The collateral token allowlist.
    pub fn get_collateral_tokens(&self) -> (r: Vec<AccountId>)
        ensures
            r@ == self@.collateral_tokens,
    {
        self.collateral_tokens.clone()
    }

    fn is_collateral_token_allowed(&self, token: AccountId) -> (r: bool)
        ensures
            r == self@.collateral_tokens.contains(token),
    {
        let mut i: usize = 0;
        while i < self.collateral_tokens.len()
            invariant
                0 <= i <= self@.collateral_tokens.len(),
                forall|j: int| 0 <= j < i ==> self@.collateral_tokens[j] != token,
            decreases self@.collateral_tokens.len() - i,
        {
            if self.collateral_tokens[i] == token {
                return true;
            }
            i = i + 1;
        }
        false
    }

    pub(crate) fn pair_key_exec(borrower: AccountId, token: AccountId) -> (k: u128)
        ensures
            k == pair_key(borrower, token),
    {
        proof {
            lemma_pair_key_fits(borrower, token);
        }
        let hi: u128 = borrower as u128;
        assert(hi * 0x1_0000_0000_0000_0000u128 <= 0xffff_ffff_ffff_ffff_0000_0000_0000_0000u128) by (nonlinear_arith)
            requires
                hi <= 0xffff_ffff_ffff_ffff,
        ;
        hi * 0x1_0000_0000_0000_0000u128 + token as u128
    }

    /// `borrower`'s collateral balance in `token`.
    pub fn get_collateral_for_token(&self, borrower: AccountId, token: AccountId) -> (r: i128)
        ensures
            r == token_balance(self@, borrower, token),
    {
        let k = Self::pair_key_exec(borrower, token);
        match self.token_collateral.get(&k) {
            Some(b) => *b,
            None => 0,
        }
    }

    fn set_token_balance(&mut self, borrower: AccountId, token: AccountId, new_balance: i128) -> (r: Result<(), ContractError>)
        requires
            old(self).wf(),
            new_balance >= 0,
        ensures
            final(self).wf(),
            match with_token_balance(old(self)@, borrower, token, new_balance) {
                Ok(v) => r is Ok && final(self)@ == v,
                Err(e) => r == Err::<(), ContractError>(e) && final(self)@ == old(self)@,
            },
    {
        let prev = self.get_collateral_for_token(borrower, token);
        let delta = match new_balance.checked_sub(prev) {
            Some(d) => d,
            None => return Err(ContractError::Overflow),
        };
        let total = match self.config.total_collateral.checked_add(delta) {
            Some(t) => t,
            None => return Err(ContractError::Overflow),
        };
        let k = Self::pair_key_exec(borrower, token);
        self.token_collateral.insert(k, new_balance);
        self.config.total_collateral = total;
        Ok(())
    }

    /// Deposit `amount` of an allowlisted `token` as collateral.
    pub fn deposit_collateral_token(&mut self, borrower: AccountId, token: AccountId, amount: i128)
        -> (r: Result<TokenTransfer, ContractError>)
        requires
            old(self).wf(),
        ensures
            final(self).wf(),
            match deposit_token_spec(old(self)@, borrower, token, amount) {
                Ok((v, t)) => r == Ok::<TokenTransfer, ContractError>(t) && final(self)@ == v,
                Err(e) => r == Err::<TokenTransfer, ContractError>(e) && final(self)@ == old(self)@,
            },
    {
        if amount <= 0 {
            return Err(ContractError::InvalidAmount);
        }
        if !self.is_collateral_token_allowed(token) {
            return Err(ContractError::MissingLiquidityToken);
        }
        let cur = self.get_collateral_for_token(borrower, token);
        let new_balance = match cur.checked_add(amount) {
            Some(n) => n,
            None => return Err(ContractError::Overflow),
        };
        self.set_token_balance(borrower, token, new_balance)?;
        Ok(TokenTransfer { token, from: borrower, to: self.contract_address, amount })
    }

    /// Withdraw `amount` of an allowlisted `token` from the borrower's
    /// collateral.
    pub fn withdraw_collateral_token(&mut self, borrower: AccountId, token: AccountId, amount: i128)
        -> (r: Result<TokenTransfer, ContractError>)
        requires
            old(self).wf(),
        ensures
            final(self).wf(),
            match withdraw_token_spec(old(self)@, borrower, token, amount) {
                Ok((v, t)) => r == Ok::<TokenTransfer, ContractError>(t) && final(self)@ == v,
                Err(e) => r == Err::<TokenTransfer, ContractError>(e) && final(self)@ == old(self)@,
            },
    {
        if amount <= 0 {
            return Err(ContractError::InvalidAmount);
        }
        if !self.is_collateral_token_allowed(token) {
            return Err(ContractError::MissingLiquidityToken);
        }
        let cur = self.get_collateral_for_token(borrower, token);
        if amount > cur {
            return Err(ContractError::InsufficientCollateralBalance);
        }
        self.set_token_balance(borrower, token, cur - amount)?;
        Ok(TokenTransfer { token, from: self.contract_address, to: borrower, amount })
    }
}

/// The critical collateral actions share one cool-off clock: each of them
/// leaves a state `touched(.., now)`, and from such a state every critical
/// action is refused until the cool-off has elapsed.
pub proof fn law_collateral_cooldown_shared_clock(w: CreditView, caller: AccountId, now: u64, later: u64)
    requires
        paused_admin_error(w, caller) is None,
        w.config.admin_collateral_cooldown matches Some(c) && c > 0,
        (later as int) < sat_add(now, w.config.admin_collateral_cooldown->0),
    ensures
        critical_action_error(touched(w, now), caller, later) == Some(ContractError::AdminCollateralCooldownActive),
{
}

/// Depositing a token and withdrawing the same amount restores the
/// borrower's balance in that token and the global collateral total.
pub proof fn law_token_deposit_withdraw_roundtrip(v: CreditView, borrower: AccountId, token: AccountId, amount: i128)
    requires
        v.wf(),
        deposit_token_spec(v, borrower, token, amount) is Ok,
    ensures
        ({
            let v1 = deposit_token_spec(v, borrower, token, amount)->Ok_0.0;
            &&& withdraw_token_spec(v1, borrower, token, amount) is Ok
            &&& token_balance(withdraw_token_spec(v1, borrower, token, amount)->Ok_0.0, borrower, token)
                == token_balance(v, borrower, token)
            &&& withdraw_token_spec(v1, borrower, token, amount)->Ok_0.0.config.total_collateral
                == v.config.total_collateral
        }),
{
}

} // verus!

//! Default settlement: the auction contract, the close factor, and the
//! oracle circuit breaker (single oracle or quorum) guarding settlements.

use vstd::prelude::*;
use super::{accrual_ctx, admin_error, has_line, line_index, Credit, CreditConfig, CreditView};
use super::collateral_admin::{pair_key, paused_admin_error};
use crate::accrual::accrual_spec;
use crate::types::{CreditLineData, CreditStatus};
use super::settings::with_config;
use crate::math_utils::{compute_deviation_bps, deviation_spec};
use crate::quorum::{quorum_spec, resolve_quorum_price, MAX_ORACLE_FEEDS};
use crate::types::{AccountId, ContractError, OracleConfig, OracleQuorumConfig};

verus! {

/// Close factor in force when none is configured: full liquidation.
pub const DEFAULT_CLOSE_FACTOR_BPS: u32 = 10_000;

/// `a - b` saturating at 0.
pub open spec fn sat_sub(a: u64, b: u64) -> int {
    if a >= b { a - b } else { 0 }
}

/// The oracle checks of a settlement at `now` with the caller-supplied
/// `oracle_price`: the state after accepting a price, or the error.
///
/// With a quorum configuration the stored quorum price must exist and be
/// fresh. Otherwise, with a single-oracle configuration, the supplied price
/// must be positive, the last accepted price fresh, and the move from it
/// within the deviation bound; the supplied price is then recorded.
pub open spec fn oracle_gate_spec(v: CreditView, oracle_price: Option<i128>, now: u64) -> Result<CreditView, ContractError> {
    match v.config.oracle_quorum {
        Some(q) => match v.config.oracle_last_price_ts {
            None => Err(ContractError::OraclePriceInvalid),
            Some(t) => if sat_sub(now, t) > q.max_age_seconds {
                Err(ContractError::OraclePriceStale)
            } else if v.config.oracle_last_price is None {
                Err(ContractError::OraclePriceInvalid)
            } else {
                Ok(v)
            },
        },
        None => match v.config.oracle_config {
            None => Ok(v),
            Some(cfg) => match oracle_price {
                None => Err(ContractError::OraclePriceInvalid),
                Some(price) => {
                    let accepted = with_config(v, CreditConfig {
                        oracle_last_price: Some(price),
                        oracle_last_price_ts: Some(now),
                        ..v.config
                    });
                    if price <= 0 {
                        Err(ContractError::OraclePriceInvalid)
                    } else {
                        match v.config.oracle_last_price_ts {
                            None => Ok(accepted),
                            Some(t) => if sat_sub(now, t) > cfg.max_age_seconds {
                                Err(ContractError::OraclePriceStale)
                            } else {
                                match v.config.oracle_last_price {
                                    None => Ok(accepted),
                                    Some(last) => if last <= 0 {
                                        Err(ContractError::OraclePriceInvalid)
                                    } else if deviation_spec(price as int, last as int) > cfg.max_deviation_bps {
                                        Err(ContractError::OraclePriceDeviation)
                                    } else {
                                        Ok(accepted)
                                    },
                                }
                            },
                        }
                    }
                },
            },
        },
    }
}

/// The close factor a settlement applies: the requested one, capped by the
/// protocol's (10 000 bps when unset).
pub open spec fn effective_close_factor(v: CreditView, close_factor_bps: u32) -> int {
    let protocol = match v.config.close_factor_bps { Some(c) => c, None => DEFAULT_CLOSE_FACTOR_BPS };
    if close_factor_bps < protocol { close_factor_bps as int } else { protocol as int }
}

/// The most one settlement may recover from a debt of `utilized` under
/// `close_factor` bps, rounded down.
pub open spec fn settlement_cap(utilized: int, close_factor: int) -> int {
    utilized * close_factor / 10_000
}

/// The accounting of a settlement of `recovered_amount` under
/// `settlement_id` on `borrower`'s line.
///
/// A (borrower, settlement id) pair settles once: a repeat is refused with
/// `AlreadyInitialized`. The recovery must be positive and the close factor
/// in `1..=10_000` (`InvalidAmount`); the line must exist and be Defaulted
/// (`CreditLineDefaulted` otherwise). The line is accrued, and the amount
/// applied, the recovery capped at the close-factor share of the debt,
/// settles accrued interest first and reduces the utilization; the pair is
/// then recorded.
pub open spec fn settlement_spec(v: CreditView, borrower: AccountId, recovered_amount: i128, settlement_id: u64,
    close_factor_bps: u32, now: u64) -> Result<CreditView, ContractError>
{
    if v.settlements.contains(pair_key(borrower, settlement_id)) {
        Err(ContractError::AlreadyInitialized)
    } else if recovered_amount <= 0 || close_factor_bps == 0 || close_factor_bps > 10_000 {
        Err(ContractError::InvalidAmount)
    } else if !has_line(v.lines, borrower) {
        Err(ContractError::CreditLineNotFound)
    } else {
        let i = line_index(v.lines, borrower);
        let stored = v.lines[i];
        if stored.status != CreditStatus::Defaulted {
            Err(ContractError::CreditLineDefaulted)
        } else {
            match accrual_spec(stored, accrual_ctx(v, borrower, stored, now)) {
                Err(e) => Err(e),
                Ok((line, _, _)) => {
                    let debt = if line.utilized_amount > 0 { line.utilized_amount as int } else { 0 };
                    let cap = settlement_cap(debt, effective_close_factor(v, close_factor_bps));
                    let applied = if recovered_amount < cap { recovered_amount as int } else { cap };
                    let interest = if applied < line.accrued_interest { applied } else { line.accrued_interest as int };
                    let new_line = CreditLineData {
                        utilized_amount: (line.utilized_amount - applied) as i128,
                        accrued_interest: (line.accrued_interest - interest) as i128,
                        ..line
                    };
                    if !v.total_fits_with(i, new_line) {
                        Err(ContractError::Overflow)
                    } else {
                        Ok(CreditView {
                            settlements: v.settlements.insert(pair_key(borrower, settlement_id)),
                            ..v.with_line(i, new_line)
                        })
                    }
                },
            }
        }
    }
}

/// Outcome of `settle_default_liquidation`: the oracle gate, then the
/// match between the auction's reported recovery and `recovered_amount`
/// (when an auction contract is configured), then the admin check, then
/// the accounting of [`settlement_spec`].
pub open spec fn settle_spec(v: CreditView, caller: AccountId, borrower: AccountId, recovered_amount: i128,
    settlement_id: u64, close_factor_bps: u32, oracle_price: Option<i128>, auction_recovered: Option<i128>, now: u64)
    -> Result<CreditView, ContractError>
{
    match oracle_gate_spec(v, oracle_price, now) {
        Err(e) => Err(e),
        Ok(v1) => if v.config.auction_contract is Some && auction_recovered != Some(recovered_amount) {
            Err(ContractError::InvalidAmount)
        } else if admin_error(v, caller) is Some {
            Err(admin_error(v, caller)->0)
        } else {
            settlement_spec(v1, borrower, recovered_amount, settlement_id, close_factor_bps, now)
        },
    }
}

proof fn lemma_bps_share_split(u: int, c: int)
    requires
        u >= 0,
        0 <= c <= 10_000,
    ensures
        u * c / 10_000 == (u / 10_000) * c + (u % 10_000) * c / 10_000,
        u * c / 10_000 <= u,
{
    let q = u / 10_000;
    let r = u % 10_000;
    assert(u == 10_000 * q + r);
    assert(u * c == r * c + (q * c) * 10_000) by (nonlinear_arith)
        requires u == 10_000 * q + r;
    vstd::arithmetic::div_mod::lemma_hoist_over_denominator(r * c, q * c, 10_000);
    assert(u * c <= 10_000 * u) by (nonlinear_arith)
        requires u >= 0, c <= 10_000;
    vstd::arithmetic::div_mod::lemma_div_is_ordered(u * c, 10_000 * u, 10_000);
    vstd::arithmetic::div_mod::lemma_div_multiples_vanish(u, 10_000);
}

/// `floor(u × c / 10 000)` for `c <= 10 000`, computed without overflow.
fn bps_share_floor(u: u128, c: u32) -> (r: u128)
    requires
        c <= 10_000,
    ensures
        r == settlement_cap(u as int, c as int),
        r <= u,
{
    proof {
        lemma_bps_share_split(u as int, c as int);
    }
    let q = u / 10_000;
    let rem = u % 10_000;
    assert(q * c <= u) by (nonlinear_arith)
        requires q == u / 10_000, c <= 10_000, u >= 0;
    assert(rem * c <= 10_000 * 10_000) by (nonlinear_arith)
        requires rem < 10_000, c <= 10_000;
    q * (c as u128) + rem * (c as u128) / 10_000
}

/// Outcome of `submit_oracle_prices`: the resolved quorum price is
/// recorded with `now`.
pub open spec fn submit_prices_spec(v: CreditView, caller: AccountId, prices: Seq<i128>, now: u64)
    -> Result<CreditView, ContractError>
{
    if paused_admin_error(v, caller) is Some {
        Err(paused_admin_error(v, caller)->0)
    } else {
        match v.config.oracle_quorum {
            None => Err(ContractError::OraclePriceInvalid),
            Some(q) => if prices.len() > MAX_ORACLE_FEEDS {
                Err(ContractError::OraclePriceInvalid)
            } else {
                match quorum_spec(prices, q) {
                    Err(e) => Err(e),
                    Ok(p) => Ok(with_config(v, CreditConfig {
                        oracle_last_price: Some(p),
                        oracle_last_price_ts: Some(now),
                        ..v.config
                    })),
                }
            },
        }
    }
}

impl Credit {
    /// Submit feed prices and record their quorum price (admin only,
    /// refused while paused); requires a quorum configuration
    /// (`OraclePriceInvalid`).
    pub fn submit_oracle_prices(&mut self, caller: AccountId, prices: &Vec<i128>, now: u64) -> (r: Result<(), ContractError>)
        requires
            old(self).wf(),
        ensures
            final(self).wf(),
            match submit_prices_spec(old(self)@, caller, prices@, now) {
                Ok(v) => r is Ok && final(self)@ == v,
                Err(e) => r == Err::<(), ContractError>(e) && final(self)@ == old(self)@,
            },
    {
        if self.config.paused {
            return Err(ContractError::Paused);
        }
        self.check_admin(caller)?;
        let q = match self.config.oracle_quorum {
            Some(q) => q,
            None => return Err(ContractError::OraclePriceInvalid),
        };
        if prices.len() > MAX_ORACLE_FEEDS {
            return Err(ContractError::OraclePriceInvalid);
        }
        let price = resolve_quorum_price(prices, &q)?;
        self.config.oracle_last_price = Some(price);
        self.config.oracle_last_price_ts = Some(now);
        Ok(())
    }

    /// Whether the oracle circuit breaker accepts a settlement at `now` with
    /// `oracle_price`, without recording anything: the error of
    /// [`oracle_gate_spec`], if any. A host consults it before asking the
    /// auction contract for its recovery.
    pub fn check_oracle_gate(&self, oracle_price: Option<i128>, now: u64) -> (r: Result<(), ContractError>)
        requires
            self.wf(),
        ensures
            match oracle_gate_spec(self@, oracle_price, now) {
                Ok(_) => r is Ok,
                Err(e) => r == Err::<(), ContractError>(e),
            },
    {
        if let Some(q) = self.config.oracle_quorum {
            let t = match self.config.oracle_last_price_ts {
                Some(t) => t,
                None => return Err(ContractError::OraclePriceInvalid),
            };
            let age = if now >= t { now - t } else { 0 };
            if age > q.max_age_seconds {
                return Err(ContractError::OraclePriceStale);
            }
            if self.config.oracle_last_price.is_none() {
                return Err(ContractError::OraclePriceInvalid);
            }
            return Ok(());
        }
        let cfg = match self.config.oracle_config {
            Some(c) => c,
            None => return Ok(()),
        };
        let price = match oracle_price {
            Some(p) => p,
            None => return Err(ContractError::OraclePriceInvalid),
        };
        if price <= 0 {
            return Err(ContractError::OraclePriceInvalid);
        }
        if let Some(t) = self.config.oracle_last_price_ts {
            let age = if now >= t { now - t } else { 0 };
            if age > cfg.max_age_seconds {
                return Err(ContractError::OraclePriceStale);
            }
            if let Some(last) = self.config.oracle_last_price {
                let dev = match compute_deviation_bps(price, last) {
                    Some(d) => d,
                    None => return Err(ContractError::OraclePriceInvalid),
                };
                if dev > cfg.max_deviation_bps {
                    return Err(ContractError::OraclePriceDeviation);
                }
            }
        }
        Ok(())
    }

    fn oracle_gate(&mut self, oracle_price: Option<i128>, now: u64) -> (r: Result<(), ContractError>)
        requires
            old(self).wf(),
        ensures
            final(self).wf(),
            match oracle_gate_spec(old(self)@, oracle_price, now) {
                Ok(v) => r is Ok && final(self)@ == v,
                Err(e) => r == Err::<(), ContractError>(e) && final(self)@ == old(self)@,
            },
    {
        self.check_oracle_gate(oracle_price, now)?;
        if self.config.oracle_quorum.is_none() {
            if self.config.oracle_config.is_some() {
                if let Some(price) = oracle_price {
                    self.config.oracle_last_price = Some(price);
                    self.config.oracle_last_price_ts = Some(now);
                }
            }
        }
        Ok(())
    }

    fn apply_settlement(&mut self, borrower: AccountId, recovered_amount: i128, settlement_id: u64,
        close_factor_bps: u32, now: u64) -> (r: Result<(), ContractError>)
        requires
            old(self).wf(),
        ensures
            final(self).wf(),
            match settlement_spec(old(self)@, borrower, recovered_amount, settlement_id, close_factor_bps, now) {
                Ok(v) => r is Ok && final(self)@ == v,
                Err(e) => r == Err::<(), ContractError>(e) && final(self)@ == old(self)@,
            },
    {
        let key = Self::pair_key_exec(borrower, settlement_id);
        if self.settlements.contains(&key) {
            return Err(ContractError::AlreadyInitialized);
        }
        if recovered_amount <= 0 || close_factor_bps == 0 || close_factor_bps > 10_000 {
            return Err(ContractError::InvalidAmount);
        }
        let idx = match self.find_line(borrower) {
            Some(i) => i,
            None => return Err(ContractError::CreditLineNotFound),
        };
        if self.lines[idx].status != CreditStatus::Defaulted {
            return Err(ContractError::CreditLineDefaulted);
        }
        let (line, _outcome) = self.accrue_line(idx, now)?;
        let protocol = match self.config.close_factor_bps {
            Some(c) => c,
            None => DEFAULT_CLOSE_FACTOR_BPS,
        };
        let factor = if close_factor_bps < protocol { close_factor_bps } else { protocol };
        let cap: u128 = if line.utilized_amount > 0 { bps_share_floor(line.utilized_amount as u128, factor) } else { 0 };
        let applied: i128 = if (recovered_amount as u128) < cap { recovered_amount } else { cap as i128 };
        let interest: i128 = if applied < line.accrued_interest { applied } else { line.accrued_interest };
        let new_line = CreditLineData {
            utilized_amount: line.utilized_amount - applied,
            accrued_interest: line.accrued_interest - interest,
            ..line
        };
        self.persist_line(idx, new_line)?;
        self.settlements.insert(key);
        Ok(())
    }

    /// Apply the proceeds of a default liquidation to `borrower`'s
    /// Defaulted line under `settlement_id` (admin only; accounting only, no
    /// transfer). The oracle circuit breaker must accept a price (recording
    /// a single-oracle price), and the configured auction contract's
    /// reported recovery (`auction_recovered`, fetched by the host) must
    /// equal `recovered_amount`; the accounting is that of
    /// [`settlement_spec`].
    pub fn settle_default_liquidation(&mut self, caller: AccountId, borrower: AccountId, recovered_amount: i128,
        settlement_id: u64, close_factor_bps: u32, oracle_price: Option<i128>, auction_recovered: Option<i128>, now: u64)
        -> (r: Result<(), ContractError>)
        requires
            old(self).wf(),
        ensures
            final(self).wf(),
            match settle_spec(old(self)@, caller, borrower, recovered_amount, settlement_id, close_factor_bps,
                oracle_price, auction_recovered, now) {
                Ok(v) => r is Ok && final(self)@ == v,
                Err(e) => r == Err::<(), ContractError>(e) && final(self)@ == old(self)@,
            },
    {
        let saved = self.config;
        self.oracle_gate(oracle_price, now)?;
        let auction_ok = match self.config.auction_contract {
            Some(_) => match auction_recovered {
                Some(a) => a == recovered_amount,
                None => false,
            },
            None => true,
        };
        if !auction_ok {
            self.config = saved;
            return Err(ContractError::InvalidAmount);
        }
        if let Err(e) = self.check_admin(caller) {
            self.config = saved;
            return Err(e);
        }
        if let Err(e) = self.apply_settlement(borrower, recovered_amount, settlement_id, close_factor_bps, now) {
            self.config = saved;
            return Err(e);
        }
        Ok(())
    }

    /// Set the auction contract consulted by settlements (admin only,
    /// refused while paused).
    pub fn set_auction_contract(&mut self, caller: AccountId, auction: AccountId) -> (r: Result<(), ContractError>)
        requires
            old(self).wf(),
        ensures
            final(self).wf(),
            match paused_admin_error(old(self)@, caller) {
                Some(e) => r == Err::<(), ContractError>(e) && final(self)@ == old(self)@,
                None => r is Ok && final(self)@ == with_config(old(self)@,
                    CreditConfig { auction_contract: Some(auction), ..old(self)@.config }),
            },
    {
        if self.config.paused {
            return Err(ContractError::Paused);
        }
        self.check_admin(caller)?;
        self.config.auction_contract = Some(auction);
        Ok(())
    }

    /// The auction contract, if configured.
    pub fn get_auction_contract(&self) -> (r: Option<AccountId>)
        ensures
            r == self@.config.auction_contract,
    {
        self.config.auction_contract
    }

    /// Cap the share of debt one settlement may recover (admin only); the
    /// factor must lie in `1..=10_000` (`InvalidAmount`).
    pub fn set_close_factor_bps(&mut self, caller: AccountId, close_factor_bps: u32) -> (r: Result<(), ContractError>)
        requires
            old(self).wf(),
        ensures
            final(self).wf(),
            admin_error(old(self)@, caller) matches Some(e) ==> r == Err::<(), ContractError>(e) && final(self)@ == old(self)@,
            admin_error(old(self)@, caller) is None && (close_factor_bps == 0 || close_factor_bps > 10_000)
                ==> r == Err::<(), ContractError>(ContractError::InvalidAmount) && final(self)@ == old(self)@,
            admin_error(old(self)@, caller) is None && 1 <= close_factor_bps <= 10_000 ==> r is Ok
                && final(self)@ == with_config(old(self)@, CreditConfig { close_factor_bps: Some(close_factor_bps), ..old(self)@.config }),
    {
        self.check_admin(caller)?;
        if close_factor_bps == 0 || close_factor_bps > 10_000 {
            return Err(ContractError::InvalidAmount);
        }
        self.config.close_factor_bps = Some(close_factor_bps);
        Ok(())
    }

    /// The close factor (10 000 bps when unset).
    pub fn get_close_factor_bps(&self) -> (r: u32)
        ensures
            r == (match self@.config.close_factor_bps { Some(c) => c, None => DEFAULT_CLOSE_FACTOR_BPS }),
    {
        match self.config.close_factor_bps {
            Some(c) => c,
            None => DEFAULT_CLOSE_FACTOR_BPS,
        }
    }

    /// Configure the single-oracle circuit breaker (admin only, refused
    /// while paused): deviation in `1..=10_000` bps and a positive maximum
    /// age, else `InvalidAmount`.
    pub fn set_oracle_config(&mut self, caller: AccountId, max_deviation_bps: u32, max_age_seconds: u64)
        -> (r: Result<(), ContractError>)
        requires
            old(self).wf(),
        ensures
            final(self).wf(),
            paused_admin_error(old(self)@, caller) matches Some(e) ==> r == Err::<(), ContractError>(e) && final(self)@ == old(self)@,
            paused_admin_error(old(self)@, caller) is None
                && (max_deviation_bps == 0 || max_deviation_bps > 10_000 || max_age_seconds == 0)
                ==> r == Err::<(), ContractError>(ContractError::InvalidAmount) && final(self)@ == old(self)@,
            paused_admin_error(old(self)@, caller) is None && 1 <= max_deviation_bps <= 10_000 && max_age_seconds > 0
                ==> r is Ok && final(self)@ == with_config(old(self)@, CreditConfig {
                    oracle_config: Some(OracleConfig { max_deviation_bps, max_age_seconds }),
                    ..old(self)@.config
                }),
    {
        if self.config.paused {
            return Err(ContractError::Paused);
        }
        self.check_admin(caller)?;
        if max_deviation_bps == 0 || max_deviation_bps > 10_000 || max_age_seconds == 0 {
            return Err(ContractError::InvalidAmount);
        }
        self.config.oracle_config = Some(OracleConfig { max_deviation_bps, max_age_seconds });
        Ok(())
    }

    /// The single-oracle circuit breaker configuration.
    pub fn get_oracle_config(&self) -> (r: Option<OracleConfig>)
        ensures
            r == self@.config.oracle_config,
    {
        self.config.oracle_config
    }

    /// Configure the oracle quorum (admin only, refused while paused): at
    /// least two agreeing feeds, deviation at most 10 000 bps and a positive
    /// maximum age, else `InvalidAmount`.
    pub fn set_oracle_quorum_config(&mut self, caller: AccountId, min_quorum_k: u32, max_deviation_bps: u32,
        max_age_seconds: u64) -> (r: Result<(), ContractError>)
        requires
            old(self).wf(),
        ensures
            final(self).wf(),
            paused_admin_error(old(self)@, caller) matches Some(e) ==> r == Err::<(), ContractError>(e) && final(self)@ == old(self)@,
            paused_admin_error(old(self)@, caller) is None
                && (min_quorum_k < 2 || max_deviation_bps > 10_000 || max_age_seconds == 0)
                ==> r == Err::<(), ContractError>(ContractError::InvalidAmount) && final(self)@ == old(self)@,
            paused_admin_error(old(self)@, caller) is None && min_quorum_k >= 2 && max_deviation_bps <= 10_000
                && max_age_seconds > 0 ==> r is Ok && final(self)@ == with_config(old(self)@, CreditConfig {
                    oracle_quorum: Some(OracleQuorumConfig { min_quorum_k, max_deviation_bps, max_age_seconds }),
                    ..old(self)@.config
                }),
    {
        if self.config.paused {
            return Err(ContractError::Paused);
        }
        self.check_admin(caller)?;
        if min_quorum_k < 2 || max_deviation_bps > 10_000 || max_age_seconds == 0 {
            return Err(ContractError::InvalidAmount);
        }
        self.config.oracle_quorum = Some(OracleQuorumConfig { min_quorum_k, max_deviation_bps, max_age_seconds });
        Ok(())
    }

    /// The oracle quorum configuration.
    pub fn get_oracle_quorum_config(&self) -> (r: Option<OracleQuorumConfig>)
        ensures
            r == self@.config.oracle_quorum,
    {
        self.config.oracle_quorum
    }

    /// The last accepted oracle price and when it was accepted.
    pub fn get_oracle_last_price(&self) -> (r: (Option<i128>, Option<u64>))
        ensures
            r == (self@.config.oracle_last_price, self@.config.oracle_last_price_ts),
    {
        (self.config.oracle_last_price, self.config.oracle_last_price_ts)
    }
}

/// With a single-oracle breaker configured (and no quorum), a settlement
/// whose price moves further than the allowed deviation from a fresh last
/// price is refused, and the stored price is left as it was.
pub proof fn law_oracle_deviation_refused(v: CreditView, caller: AccountId, borrower: AccountId, recovered: i128,
    settlement_id: u64, close_factor_bps: u32, price: i128, auction: Option<i128>, now: u64)
    requires
        v.config.oracle_quorum is None,
        v.config.oracle_config is Some,
        price > 0,
        v.config.oracle_last_price matches Some(last) && last > 0,
        v.config.oracle_last_price_ts matches Some(t) && sat_sub(now, t) <= v.config.oracle_config->0.max_age_seconds,
        deviation_spec(price as int, v.config.oracle_last_price->0 as int) > v.config.oracle_config->0.max_deviation_bps,
    ensures
        settle_spec(v, caller, borrower, recovered, settlement_id, close_factor_bps, Some(price), auction, now) is Err,
{
}

/// A settlement cannot be replayed: once a settlement under
/// `settlement_id` has been applied to `borrower`'s line, every later
/// settlement of that borrower under the same id is refused, whatever its
/// other arguments, and its accounting step answers `AlreadyInitialized`.
pub proof fn law_settlement_not_replayable(v: CreditView, caller: AccountId, borrower: AccountId, recovered: i128,
    settlement_id: u64, close_factor_bps: u32, price: Option<i128>, auction: Option<i128>, now: u64,
    caller2: AccountId, recovered2: i128, close_factor_bps2: u32, price2: Option<i128>, auction2: Option<i128>, now2: u64)
    requires
        settle_spec(v, caller, borrower, recovered, settlement_id, close_factor_bps, price, auction, now) is Ok,
    ensures
        ({
            let v1 = settle_spec(v, caller, borrower, recovered, settlement_id, close_factor_bps, price, auction, now)->Ok_0;
            &&& settle_spec(v1, caller2, borrower, recovered2, settlement_id, close_factor_bps2, price2, auction2, now2) is Err
            &&& settlement_spec(v1, borrower, recovered2, settlement_id, close_factor_bps2, now2)
                == Err::<CreditView, ContractError>(ContractError::AlreadyInitialized)
        }),
{
    let v1 = settle_spec(v, caller, borrower, recovered, settlement_id, close_factor_bps, price, auction, now)->Ok_0;
    assert(v1.settlements.contains(pair_key(borrower, settlement_id)));
    match oracle_gate_spec(v1, price2, now2) {
        Ok(w) => assert(w.settlements == v1.settlements),
        Err(_) => {},
    }
}

} // verus!

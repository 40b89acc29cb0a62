//! Protocol fee destinations: the treasury and bounty addresses, the
//! treasury's share of each fee, and the two-step, time-locked treasury
//! withdrawal.

use vstd::prelude::*;
use super::{admin_error, sat_add, Credit, CreditConfig, CreditView, TokenTransfer};
use crate::fees::MAX_FEE_SHARE_BPS;
use crate::types::{AccountId, ContractError, TreasuryWithdrawalProposal};

verus! {

/// Delay between proposing and executing a treasury withdrawal (24 h).
pub const TREASURY_TIMELOCK_SECONDS: u64 = 86_400;

/// Outcome of `propose_treasury_withdrawal`.
pub open spec fn propose_withdrawal_spec(v: CreditView, caller: AccountId, now: u64) -> Result<CreditView, ContractError> {
    if admin_error(v, caller) is Some {
        Err(admin_error(v, caller)->0)
    } else if v.config.pending_withdrawal is Some {
        Err(ContractError::TreasuryProposalExists)
    } else {
        match v.config.treasury_address {
            None => Err(ContractError::TreasuryNotSet),
            Some(recipient) => Ok(CreditView {
                config: CreditConfig {
                    pending_withdrawal: Some(TreasuryWithdrawalProposal {
                        recipient,
                        amount: v.config.treasury_balance,
                        proposer: caller,
                        proposed_at: now,
                        execute_after: sat_add(now, TREASURY_TIMELOCK_SECONDS) as u64,
                    }),
                    ..v.config
                },
                ..v
            }),
        }
    }
}

/// Outcome of `execute_treasury_withdrawal`: the new state and the
/// transfer to perform (none for an empty proposal).
pub open spec fn execute_withdrawal_spec(v: CreditView, caller: AccountId, now: u64)
    -> Result<(CreditView, Option<TokenTransfer>), ContractError>
{
    if admin_error(v, caller) is Some {
        Err(admin_error(v, caller)->0)
    } else {
        match v.config.pending_withdrawal {
            None => Err(ContractError::NoPendingTreasuryWithdrawal),
            Some(p) => {
                if now < p.execute_after {
                    Err(ContractError::TreasuryTimelockActive)
                } else if p.amount <= 0 {
                    Ok((CreditView { config: CreditConfig { pending_withdrawal: None, ..v.config }, ..v }, None))
                } else {
                    match v.config.liquidity_token {
                        None => Err(ContractError::MissingLiquidityToken),
                        Some(token) => Ok((
                            CreditView {
                                config: CreditConfig { pending_withdrawal: None, treasury_balance: 0, ..v.config },
                                ..v
                            },
                            Some(TokenTransfer { token, from: v.contract_address, to: p.recipient, amount: p.amount }),
                        )),
                    }
                }
            },
        }
    }
}

/// Outcome of `withdraw_bounty`.
pub open spec fn withdraw_bounty_spec(v: CreditView, caller: AccountId)
    -> Result<(CreditView, Option<TokenTransfer>), ContractError>
{
    if admin_error(v, caller) is Some {
        Err(admin_error(v, caller)->0)
    } else {
        match v.config.bounty_address {
            None => Err(ContractError::BountyNotSet),
            Some(to) => {
                if v.config.bounty_balance == 0 {
                    Ok((v, None))
                } else {
                    match v.config.liquidity_token {
                        None => Err(ContractError::MissingLiquidityToken),
                        Some(token) => Ok((
                            CreditView { config: CreditConfig { bounty_balance: 0, ..v.config }, ..v },
                            Some(TokenTransfer { token, from: v.contract_address, to, amount: v.config.bounty_balance }),
                        )),
                    }
                }
            },
        }
    }
}

impl Credit {
    /// Set the treasury address that receives withdrawn fees (admin only).
    pub fn set_treasury(&mut self, caller: AccountId, treasury: AccountId) -> (r: Result<(), ContractError>)
        requires
            old(self).wf(),
        ensures
            final(self).wf(),
            match admin_error(old(self)@, caller) {
                Some(e) => r == Err::<(), ContractError>(e) && final(self)@ == old(self)@,
                None => r is Ok && final(self)@ == (CreditView {
                    config: CreditConfig { treasury_address: Some(treasury), ..old(self)@.config },
                    ..old(self)@
                }),
            },
    {
        self.check_admin(caller)?;
        self.config.treasury_address = Some(treasury);
        Ok(())
    }

    /// The configured treasury address.
    pub fn get_treasury(&self) -> (r: Option<AccountId>)
        ensures
            r == self@.config.treasury_address,
    {
        self.config.treasury_address
    }

    /// Set the bounty pool address that receives withdrawn bounty fees
    /// (admin only).
    pub fn set_bounty(&mut self, caller: AccountId, bounty: AccountId) -> (r: Result<(), ContractError>)
        requires
            old(self).wf(),
        ensures
            final(self).wf(),
            match admin_error(old(self)@, caller) {
                Some(e) => r == Err::<(), ContractError>(e) && final(self)@ == old(self)@,
                None => r is Ok && final(self)@ == (CreditView {
                    config: CreditConfig { bounty_address: Some(bounty), ..old(self)@.config },
                    ..old(self)@
                }),
            },
    {
        self.check_admin(caller)?;
        self.config.bounty_address = Some(bounty);
        Ok(())
    }

    /// The configured bounty pool address.
    pub fn get_bounty(&self) -> (r: Option<AccountId>)
        ensures
            r == self@.config.bounty_address,
    {
        self.config.bounty_address
    }

    /// Set the treasury's share of each protocol fee (admin only); more
    /// than 10 000 bps is refused with `Overflow`.
    pub fn set_treasury_fee_share_bps(&mut self, caller: AccountId, treasury_share_bps: u32) -> (r: Result<(), ContractError>)
        requires
            old(self).wf(),
        ensures
            final(self).wf(),
            admin_error(old(self)@, caller) matches Some(e) ==> r == Err::<(), ContractError>(e) && final(self)@ == old(self)@,
            admin_error(old(self)@, caller) is None && treasury_share_bps > MAX_FEE_SHARE_BPS
                ==> r == Err::<(), ContractError>(ContractError::Overflow) && final(self)@ == old(self)@,
            admin_error(old(self)@, caller) is None && treasury_share_bps <= MAX_FEE_SHARE_BPS ==> r is Ok
                && final(self)@ == (CreditView {
                    config: CreditConfig { treasury_fee_share_bps: Some(treasury_share_bps), ..old(self)@.config },
                    ..old(self)@
                }),
    {
        self.check_admin(caller)?;
        if treasury_share_bps > MAX_FEE_SHARE_BPS {
            return Err(ContractError::Overflow);
        }
        self.config.treasury_fee_share_bps = Some(treasury_share_bps);
        Ok(())
    }

    /// The configured treasury fee share (`None` means 100 % treasury).
    pub fn get_treasury_fee_share_bps(&self) -> (r: Option<u32>)
        ensures
            r == self@.config.treasury_fee_share_bps,
    {
        self.config.treasury_fee_share_bps
    }

    /// Fees accumulated for the treasury.
    pub fn get_treasury_balance(&self) -> (r: i128)
        ensures
            r == self@.config.treasury_balance,
    {
        self.config.treasury_balance
    }

    /// Fees accumulated for the bounty pool.
    pub fn get_bounty_balance(&self) -> (r: i128)
        ensures
            r == self@.config.bounty_balance,
    {
        self.config.bounty_balance
    }

    /// Pay the accumulated bounty balance out to the bounty address (admin
    /// only). Nothing moves when the balance is zero.
    pub fn withdraw_bounty(&mut self, caller: AccountId) -> (r: Result<Option<TokenTransfer>, ContractError>)
        requires
            old(self).wf(),
        ensures
            final(self).wf(),
            match withdraw_bounty_spec(old(self)@, caller) {
                Ok((v, t)) => r == Ok::<Option<TokenTransfer>, ContractError>(t) && final(self)@ == v,
                Err(e) => r == Err::<Option<TokenTransfer>, ContractError>(e) && final(self)@ == old(self)@,
            },
    {
        self.check_admin(caller)?;
        let to = match self.config.bounty_address {
            Some(a) => a,
            None => return Err(ContractError::BountyNotSet),
        };
        let amount = self.config.bounty_balance;
        if amount == 0 {
            return Ok(None);
        }
        let token = match self.config.liquidity_token {
            Some(t) => t,
            None => return Err(ContractError::MissingLiquidityToken),
        };
        self.config.bounty_balance = 0;
        Ok(Some(TokenTransfer { token, from: self.contract_address, to, amount }))
    }

    /// Step one of a treasury withdrawal (admin only): capture the current
    /// treasury balance in a proposal executable 24 hours from `now`.
    pub fn propose_treasury_withdrawal(&mut self, caller: AccountId, now: u64) -> (r: Result<(), ContractError>)
        requires
            old(self).wf(),
        ensures
            final(self).wf(),
            match propose_withdrawal_spec(old(self)@, caller, now) {
                Ok(v) => r is Ok && final(self)@ == v,
                Err(e) => r == Err::<(), ContractError>(e) && final(self)@ == old(self)@,
            },
    {
        self.check_admin(caller)?;
        if self.config.pending_withdrawal.is_some() {
            return Err(ContractError::TreasuryProposalExists);
        }
        let recipient = match self.config.treasury_address {
            Some(a) => a,
            None => return Err(ContractError::TreasuryNotSet),
        };
        let execute_after = if now > u64::MAX - TREASURY_TIMELOCK_SECONDS {
            u64::MAX
        } else {
            now + TREASURY_TIMELOCK_SECONDS
        };
        self.config.pending_withdrawal = Some(TreasuryWithdrawalProposal {
            recipient,
            amount: self.config.treasury_balance,
            proposer: caller,
            proposed_at: now,
            execute_after,
        });
        Ok(())
    }

    /// Step two of a treasury withdrawal (admin only): once the timelock
    /// has elapsed, clear the proposal and pay its amount to the recipient,
    /// zeroing the treasury balance.
    pub fn execute_treasury_withdrawal(&mut self, caller: AccountId, now: u64) -> (r: Result<Option<TokenTransfer>, ContractError>)
        requires
            old(self).wf(),
        ensures
            final(self).wf(),
            match execute_withdrawal_spec(old(self)@, caller, now) {
                Ok((v, t)) => r == Ok::<Option<TokenTransfer>, ContractError>(t) && final(self)@ == v,
                Err(e) => r == Err::<Option<TokenTransfer>, ContractError>(e) && final(self)@ == old(self)@,
            },
    {
        self.check_admin(caller)?;
        let p = match self.config.pending_withdrawal {
            Some(p) => p,
            None => return Err(ContractError::NoPendingTreasuryWithdrawal),
        };
        if now < p.execute_after {
            return Err(ContractError::TreasuryTimelockActive);
        }
        if p.amount <= 0 {
            self.config.pending_withdrawal = None;
            return Ok(None);
        }
        let token = match self.config.liquidity_token {
            Some(t) => t,
            None => return Err(ContractError::MissingLiquidityToken),
        };
        self.config.pending_withdrawal = None;
        self.config.treasury_balance = 0;
        Ok(Some(TokenTransfer { token, from: self.contract_address, to: p.recipient, amount: p.amount }))
    }

    /// The pending treasury withdrawal, if any.
    pub fn get_pending_treasury_withdrawal(&self) -> (r: Option<TreasuryWithdrawalProposal>)
        ensures
            r == self@.config.pending_withdrawal,
    {
        self.config.pending_withdrawal
    }
}

/// A treasury withdrawal cannot be executed before 24 hours have passed
/// since it was proposed (the deadline saturates at the end of time).
pub proof fn law_treasury_timelock(v: CreditView, caller: AccountId, proposed_at: u64, now: u64)
    requires
        propose_withdrawal_spec(v, caller, proposed_at) is Ok,
        now < sat_add(proposed_at, TREASURY_TIMELOCK_SECONDS),
    ensures
        execute_withdrawal_spec(propose_withdrawal_spec(v, caller, proposed_at)->Ok_0, caller, now)
            == Err::<(CreditView, Option<TokenTransfer>), ContractError>(ContractError::TreasuryTimelockActive),
{
}

/// Only one treasury withdrawal may be pending: a second proposal is
/// refused until the first is executed.
pub proof fn law_single_pending_withdrawal(v: CreditView, caller: AccountId, t1: u64, t2: u64)
    requires
        propose_withdrawal_spec(v, caller, t1) is Ok,
    ensures
        propose_withdrawal_spec(propose_withdrawal_spec(v, caller, t1)->Ok_0, caller, t2)
            == Err::<CreditView, ContractError>(ContractError::TreasuryProposalExists),
{
}

} // verus!

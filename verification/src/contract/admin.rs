//! Administration: two-step admin rotation, liquidity wiring, the protocol
//! circuit breaker, draw freezes, the borrower blocklist and upgrades.

use vstd::prelude::*;
use super::collateral_admin::paused_admin_error;
use super::{admin_action_recorded, admin_cooldown_error, admin_error, sat_add, Credit, CreditConfig, CreditView, SCHEMA_VERSION};
use crate::types::{AccountId, ContractError};
use soroban_sdk::Symbol;

verus! {

/// A short on-chain symbol naming the reason of a pause.
#[verifier::external_type_specification]
#[verifier::external_body]
pub struct ExSymbol(soroban_sdk::Symbol);

/// Why and when the protocol was paused, and by whom.
#[derive(Debug)]
pub struct PauseReason {
    /// Short reason code.
    pub reason: Symbol,
    /// Ledger timestamp of the pause.
    pub timestamp: u64,
    /// Admin who paused.
    pub actor: AccountId,
}

/// Maximum number of borrowers blocked by one `bulk_block_borrowers` call.
pub const BULK_BLOCK_MAX: usize = 50;

/// The liquidity wiring of the contract.
#[derive(Clone, Copy, Debug, PartialEq, Eq, Structural)]
pub struct ProtocolConfig {
    /// Token contract used for draws, repayments and fee payouts.
    pub liquidity_token: Option<AccountId>,
    /// Reserve account that funds draws.
    pub liquidity_source: Option<AccountId>,
}

/// The admin check followed by the per-borrower admin cooldown.
pub open spec fn borrower_admin_error(v: CreditView, caller: AccountId, b: AccountId, now: u64) -> Option<ContractError> {
    if admin_error(v, caller) is Some {
        admin_error(v, caller)
    } else {
        admin_cooldown_error(v, b, now)
    }
}

/// Outcome of `accept_admin` by `caller` at `now`.
pub open spec fn accept_admin_spec(v: CreditView, caller: AccountId, now: u64) -> Result<CreditView, ContractError> {
    match v.config.proposed_admin {
        None => Err(ContractError::Unauthorized),
        Some(p) => {
            let after = match v.config.proposed_accept_after { Some(t) => t, None => 0 };
            if caller != p {
                Err(ContractError::Unauthorized)
            } else if now < after {
                Err(ContractError::AdminAcceptTooEarly)
            } else {
                Ok(CreditView {
                    config: CreditConfig { admin: Some(p), proposed_admin: None, proposed_accept_after: None, ..v.config },
                    ..v
                })
            }
        },
    }
}

/// Outcome of `propose_admin` by `caller` at `now`.
pub open spec fn propose_admin_spec(v: CreditView, caller: AccountId, new_admin: AccountId, delay: u64, now: u64)
    -> Result<CreditView, ContractError>
{
    if admin_error(v, caller) is Some {
        Err(admin_error(v, caller)->0)
    } else {
        Ok(CreditView {
            config: CreditConfig {
                proposed_admin: Some(new_admin),
                proposed_accept_after: Some(sat_add(now, delay) as u64),
                ..v.config
            },
            ..v
        })
    }
}

impl Credit {
    /// Propose `new_admin` as the next admin (admin only); it may accept
    /// once `delay_seconds` have passed (saturating).
    pub fn propose_admin(&mut self, caller: AccountId, new_admin: AccountId, delay_seconds: u64, now: u64)
        -> (r: Result<(), ContractError>)
        requires
            old(self).wf(),
        ensures
            final(self).wf(),
            match propose_admin_spec(old(self)@, caller, new_admin, delay_seconds, now) {
                Ok(v) => r is Ok && final(self)@ == v,
                Err(e) => r == Err::<(), ContractError>(e) && final(self)@ == old(self)@,
            },
    {
        self.check_admin(caller)?;
        let accept_after = if now > u64::MAX - delay_seconds { u64::MAX } else { now + delay_seconds };
        self.config.proposed_admin = Some(new_admin);
        self.config.proposed_accept_after = Some(accept_after);
        Ok(())
    }

    /// The proposed admin accepts the rotation once its delay has passed;
    /// the proposal is then cleared.
    pub fn accept_admin(&mut self, caller: AccountId, now: u64) -> (r: Result<(), ContractError>)
        requires
            old(self).wf(),
        ensures
            final(self).wf(),
            match accept_admin_spec(old(self)@, caller, now) {
                Ok(v) => r is Ok && final(self)@ == v,
                Err(e) => r == Err::<(), ContractError>(e) && final(self)@ == old(self)@,
            },
    {
        let p = match self.config.proposed_admin {
            Some(p) => p,
            None => return Err(ContractError::Unauthorized),
        };
        let after = match self.config.proposed_accept_after {
            Some(t) => t,
            None => 0,
        };
        if caller != p {
            return Err(ContractError::Unauthorized);
        }
        if now < after {
            return Err(ContractError::AdminAcceptTooEarly);
        }
        self.config.admin = Some(p);
        self.config.proposed_admin = None;
        self.config.proposed_accept_after = None;
        Ok(())
    }

    /// The current admin, if initialized.
    pub fn get_admin(&self) -> (r: Option<AccountId>)
        ensures
            r == self@.config.admin,
    {
        self.config.admin
    }

    /// The liquidity token, if configured.
    pub fn get_liquidity_token(&self) -> (r: Option<AccountId>)
        ensures
            r == self@.config.liquidity_token,
    {
        self.config.liquidity_token
    }

    /// The reserve account that funds draws, if configured.
    pub fn get_liquidity_source(&self) -> (r: Option<AccountId>)
        ensures
            r == self@.config.liquidity_source,
    {
        self.config.liquidity_source
    }

    /// Set the liquidity token (admin only, refused while paused).
    pub fn set_liquidity_token(&mut self, caller: AccountId, token: AccountId) -> (r: Result<(), ContractError>)
        requires
            old(self).wf(),
        ensures
            final(self).wf(),
            match paused_admin_error(old(self)@, caller) {
                Some(e) => r == Err::<(), ContractError>(e) && final(self)@ == old(self)@,
                None => r is Ok && final(self)@ == (CreditView {
                    config: CreditConfig { liquidity_token: Some(token), ..old(self)@.config },
                    ..old(self)@
                }),
            },
    {
        if self.config.paused {
            return Err(ContractError::Paused);
        }
        self.check_admin(caller)?;
        self.config.liquidity_token = Some(token);
        Ok(())
    }

    /// Set the reserve account that funds draws (admin only, refused while paused).
    pub fn set_liquidity_source(&mut self, caller: AccountId, reserve: AccountId) -> (r: Result<(), ContractError>)
        requires
            old(self).wf(),
        ensures
            final(self).wf(),
            match paused_admin_error(old(self)@, caller) {
                Some(e) => r == Err::<(), ContractError>(e) && final(self)@ == old(self)@,
                None => r is Ok && final(self)@ == (CreditView {
                    config: CreditConfig { liquidity_source: Some(reserve), ..old(self)@.config },
                    ..old(self)@
                }),
            },
    {
        if self.config.paused {
            return Err(ContractError::Paused);
        }
        self.check_admin(caller)?;
        self.config.liquidity_source = Some(reserve);
        Ok(())
    }

    /// The liquidity token and source.
    pub fn get_protocol_config(&self) -> (r: ProtocolConfig)
        ensures
            r == (ProtocolConfig {
                liquidity_token: self@.config.liquidity_token,
                liquidity_source: self@.config.liquidity_source,
            }),
    {
        ProtocolConfig { liquidity_token: self.config.liquidity_token, liquidity_source: self.config.liquidity_source }
    }

    /// Engage or release the protocol circuit breaker (admin only).
    pub fn set_protocol_paused(&mut self, caller: AccountId, paused: bool) -> (r: Result<(), ContractError>)
        requires
            old(self).wf(),
        ensures
            final(self).wf(),
            match admin_error(old(self)@, caller) {
                Some(e) => r == Err::<(), ContractError>(e) && final(self)@ == old(self)@,
                None => r is Ok && final(self)@ == (CreditView {
                    config: CreditConfig { paused, ..old(self)@.config },
                    ..old(self)@
                }),
            },
    {
        self.check_admin(caller)?;
        self.config.paused = paused;
        Ok(())
    }

    /// Engage or release the circuit breaker (admin only), recording why
    /// and by whom when engaging; a release keeps the last reason.
    pub fn set_protocol_paused_with_reason(&mut self, caller: AccountId, paused: bool, reason: Symbol, now: u64)
        -> (r: Result<(), ContractError>)
        requires
            old(self).wf(),
        ensures
            final(self).wf(),
            match admin_error(old(self)@, caller) {
                Some(e) => r == Err::<(), ContractError>(e) && final(self)@ == old(self)@,
                None => r is Ok && final(self)@ == (CreditView {
                    config: CreditConfig { paused, ..old(self)@.config },
                    pause_reason: if paused {
                        Some(PauseReason { reason, timestamp: now, actor: caller })
                    } else {
                        old(self)@.pause_reason
                    },
                    ..old(self)@
                }),
            },
    {
        self.check_admin(caller)?;
        if paused {
            self.pause_reason = Some(PauseReason { reason, timestamp: now, actor: caller });
        }
        self.config.paused = paused;
        Ok(())
    }

    /// The reason recorded by the last pause, if any.
    pub fn get_protocol_pause_reason(&self) -> (r: &Option<PauseReason>)
        ensures
            *r == self@.pause_reason,
    {
        &self.pause_reason
    }

    /// Whether the circuit breaker is engaged.
    pub fn is_protocol_paused(&self) -> (r: bool)
        ensures
            r == self@.config.paused,
    {
        self.config.paused
    }

    /// Freeze (`true`) or unfreeze (`false`) all draws (admin only).
    pub fn set_draws_frozen(&mut self, caller: AccountId, frozen: bool) -> (r: Result<(), ContractError>)
        requires
            old(self).wf(),
        ensures
            final(self).wf(),
            match admin_error(old(self)@, caller) {
                Some(e) => r == Err::<(), ContractError>(e) && final(self)@ == old(self)@,
                None => r is Ok && final(self)@ == (CreditView {
                    config: CreditConfig { draws_frozen: frozen, ..old(self)@.config },
                    ..old(self)@
                }),
            },
    {
        self.check_admin(caller)?;
        self.config.draws_frozen = frozen;
        Ok(())
    }

    /// Freeze all draws (admin only).
    pub fn freeze_draws(&mut self, caller: AccountId) -> (r: Result<(), ContractError>)
        requires
            old(self).wf(),
        ensures
            final(self).wf(),
            match admin_error(old(self)@, caller) {
                Some(e) => r == Err::<(), ContractError>(e) && final(self)@ == old(self)@,
                None => r is Ok && final(self)@ == (CreditView {
                    config: CreditConfig { draws_frozen: true, ..old(self)@.config },
                    ..old(self)@
                }),
            },
    {
        self.set_draws_frozen(caller, true)
    }

    /// Lift the global draw freeze (admin only).
    pub fn unfreeze_draws(&mut self, caller: AccountId) -> (r: Result<(), ContractError>)
        requires
            old(self).wf(),
        ensures
            final(self).wf(),
            match admin_error(old(self)@, caller) {
                Some(e) => r == Err::<(), ContractError>(e) && final(self)@ == old(self)@,
                None => r is Ok && final(self)@ == (CreditView {
                    config: CreditConfig { draws_frozen: false, ..old(self)@.config },
                    ..old(self)@
                }),
            },
    {
        self.set_draws_frozen(caller, false)
    }

    /// Whether all draws are frozen.
    pub fn is_draws_frozen(&self) -> (r: bool)
        ensures
            r == self@.config.draws_frozen,
    {
        self.config.draws_frozen
    }

    /// Freeze or unfreeze one borrower's credit line (admin only, subject to
    /// the per-borrower admin cooldown).
    pub fn set_credit_line_frozen(&mut self, caller: AccountId, borrower: AccountId, frozen: bool, now: u64)
        -> (r: Result<(), ContractError>)
        requires
            old(self).wf(),
        ensures
            final(self).wf(),
            match borrower_admin_error(old(self)@, caller, borrower, now) {
                Some(e) => r == Err::<(), ContractError>(e) && final(self)@ == old(self)@,
                None => r is Ok && final(self)@ == (CreditView {
                    frozen_lines: if frozen { old(self)@.frozen_lines.insert(borrower) }
                        else { old(self)@.frozen_lines.remove(borrower) },
                    last_admin_action_ts: admin_action_recorded(old(self)@, borrower, now),
                    ..old(self)@
                }),
            },
    {
        self.check_admin(caller)?;
        self.check_admin_cooldown(borrower, now)?;
        if frozen {
            self.frozen_lines.insert(borrower);
        } else {
            self.frozen_lines.remove(&borrower);
        }
        self.record_admin_action(borrower, now);
        Ok(())
    }

    /// Freeze one borrower's credit line (admin only).
    pub fn freeze_credit_line(&mut self, caller: AccountId, borrower: AccountId, now: u64) -> (r: Result<(), ContractError>)
        requires
            old(self).wf(),
        ensures
            final(self).wf(),
            match borrower_admin_error(old(self)@, caller, borrower, now) {
                Some(e) => r == Err::<(), ContractError>(e) && final(self)@ == old(self)@,
                None => r is Ok && final(self)@ == (CreditView {
                    frozen_lines: old(self)@.frozen_lines.insert(borrower),
                    last_admin_action_ts: admin_action_recorded(old(self)@, borrower, now),
                    ..old(self)@
                }),
            },
    {
        self.set_credit_line_frozen(caller, borrower, true, now)
    }

    /// Unfreeze one borrower's credit line (admin only).
    pub fn unfreeze_credit_line(&mut self, caller: AccountId, borrower: AccountId, now: u64) -> (r: Result<(), ContractError>)
        requires
            old(self).wf(),
        ensures
            final(self).wf(),
            match borrower_admin_error(old(self)@, caller, borrower, now) {
                Some(e) => r == Err::<(), ContractError>(e) && final(self)@ == old(self)@,
                None => r is Ok && final(self)@ == (CreditView {
                    frozen_lines: old(self)@.frozen_lines.remove(borrower),
                    last_admin_action_ts: admin_action_recorded(old(self)@, borrower, now),
                    ..old(self)@
                }),
            },
    {
        self.set_credit_line_frozen(caller, borrower, false, now)
    }

    /// Whether `borrower`'s credit line is frozen.
    pub fn is_credit_line_frozen(&self, borrower: AccountId) -> (r: bool)
        ensures
            r == self@.frozen_lines.contains(borrower),
    {
        self.frozen_lines.contains(&borrower)
    }

    /// Freeze `borrower`'s draws until `expiry_ts` (admin only, subject to
    /// the admin cooldown); the expiry must lie after `now`.
    pub fn freeze_borrower_until(&mut self, caller: AccountId, borrower: AccountId, expiry_ts: u64, now: u64)
        -> (r: Result<(), ContractError>)
        requires
            old(self).wf(),
        ensures
            final(self).wf(),
            borrower_admin_error(old(self)@, caller, borrower, now) matches Some(e)
                ==> r == Err::<(), ContractError>(e) && final(self)@ == old(self)@,
            borrower_admin_error(old(self)@, caller, borrower, now) is None && expiry_ts <= now
                ==> r == Err::<(), ContractError>(ContractError::InvalidAmount) && final(self)@ == old(self)@,
            borrower_admin_error(old(self)@, caller, borrower, now) is None && expiry_ts > now ==> r is Ok
                && final(self)@ == (CreditView {
                    frozen_until: old(self)@.frozen_until.insert(borrower, expiry_ts),
                    last_admin_action_ts: admin_action_recorded(old(self)@, borrower, now),
                    ..old(self)@
                }),
    {
        self.check_admin(caller)?;
        self.check_admin_cooldown(borrower, now)?;
        if expiry_ts <= now {
            return Err(ContractError::InvalidAmount);
        }
        self.frozen_until.insert(borrower, expiry_ts);
        self.record_admin_action(borrower, now);
        Ok(())
    }

    /// Lift `borrower`'s timed freeze (admin only, subject to the cooldown).
    pub fn unfreeze_borrower(&mut self, caller: AccountId, borrower: AccountId, now: u64) -> (r: Result<(), ContractError>)
        requires
            old(self).wf(),
        ensures
            final(self).wf(),
            match borrower_admin_error(old(self)@, caller, borrower, now) {
                Some(e) => r == Err::<(), ContractError>(e) && final(self)@ == old(self)@,
                None => r is Ok && final(self)@ == (CreditView {
                    frozen_until: old(self)@.frozen_until.remove(borrower),
                    last_admin_action_ts: admin_action_recorded(old(self)@, borrower, now),
                    ..old(self)@
                }),
            },
    {
        self.check_admin(caller)?;
        self.check_admin_cooldown(borrower, now)?;
        self.frozen_until.remove(&borrower);
        self.record_admin_action(borrower, now);
        Ok(())
    }

    /// Whether `borrower` is frozen at `now` (a freeze expires by itself).
    pub fn is_borrower_frozen(&self, borrower: AccountId, now: u64) -> (r: bool)
        ensures
            r == (self@.frozen_until.contains_key(borrower) && now < self@.frozen_until[borrower]),
    {
        match self.frozen_until.get(&borrower) {
            Some(e) => now < *e,
            None => false,
        }
    }

    /// The expiry of `borrower`'s freeze, if one is recorded.
    pub fn get_borrower_frozen_until(&self, borrower: AccountId) -> (r: Option<u64>)
        ensures
            r == (if self@.frozen_until.contains_key(borrower) { Some(self@.frozen_until[borrower]) } else { None::<u64> }),
    {
        match self.frozen_until.get(&borrower) {
            Some(e) => Some(*e),
            None => None,
        }
    }

    /// Put `borrower` on the blocklist (admin only; idempotent).
    pub fn block_borrower(&mut self, caller: AccountId, borrower: AccountId) -> (r: Result<(), ContractError>)
        requires
            old(self).wf(),
        ensures
            final(self).wf(),
            match admin_error(old(self)@, caller) {
                Some(e) => r == Err::<(), ContractError>(e) && final(self)@ == old(self)@,
                None => r is Ok && final(self)@ == (CreditView { blocked: old(self)@.blocked.insert(borrower), ..old(self)@ }),
            },
    {
        self.check_admin(caller)?;
        self.blocked.insert(borrower);
        Ok(())
    }

    /// Take `borrower` off the blocklist (admin only; idempotent).
    pub fn unblock_borrower(&mut self, caller: AccountId, borrower: AccountId) -> (r: Result<(), ContractError>)
        requires
            old(self).wf(),
        ensures
            final(self).wf(),
            match admin_error(old(self)@, caller) {
                Some(e) => r == Err::<(), ContractError>(e) && final(self)@ == old(self)@,
                None => r is Ok && final(self)@ == (CreditView { blocked: old(self)@.blocked.remove(borrower), ..old(self)@ }),
            },
    {
        self.check_admin(caller)?;
        self.blocked.remove(&borrower);
        Ok(())
    }

    /// Whether `borrower` is on the blocklist.
    pub fn is_borrower_blocked(&self, borrower: AccountId) -> (r: bool)
        ensures
            r == self@.blocked.contains(borrower),
    {
        self.blocked.contains(&borrower)
    }

    /// Block up to 50 borrowers at once (admin only); a longer list is
    /// refused with `InvalidAmount`.
    pub fn bulk_block_borrowers(&mut self, caller: AccountId, borrowers: &Vec<AccountId>) -> (r: Result<(), ContractError>)
        requires
            old(self).wf(),
        ensures
            final(self).wf(),
            admin_error(old(self)@, caller) matches Some(e) ==> r == Err::<(), ContractError>(e) && final(self)@ == old(self)@,
            admin_error(old(self)@, caller) is None && borrowers.len() > BULK_BLOCK_MAX
                ==> r == Err::<(), ContractError>(ContractError::InvalidAmount) && final(self)@ == old(self)@,
            admin_error(old(self)@, caller) is None && borrowers.len() <= BULK_BLOCK_MAX ==> r is Ok
                && final(self)@ == (CreditView { blocked: old(self)@.blocked.union(borrowers@.to_set()), ..old(self)@ }),
    {
        self.check_admin(caller)?;
        if borrowers.len() > BULK_BLOCK_MAX {
            return Err(ContractError::InvalidAmount);
        }
        let ghost start = self@;
        proof {
            assert(borrowers@.take(0) =~= Seq::<AccountId>::empty());
            assert(start.blocked.union(borrowers@.take(0).to_set()) =~= start.blocked);
        }
        let mut i: usize = 0;
        while i < borrowers.len()
            invariant
                0 <= i <= borrowers.len(),
                self@ == (CreditView { blocked: start.blocked.union(borrowers@.take(i as int).to_set()), ..start }),
                start.wf(),
            decreases borrowers.len() - i,
        {
            let b = borrowers[i];
            self.blocked.insert(b);
            proof {
                assert(borrowers@.take(i as int + 1) =~= borrowers@.take(i as int).push(b));
                borrowers@.take(i as int).lemma_push_to_set_commute(b);
                assert(start.blocked.union(borrowers@.take(i as int + 1).to_set())
                    =~= start.blocked.union(borrowers@.take(i as int).to_set()).insert(b));
            }
            i = i + 1;
        }
        proof {
            assert(borrowers@.take(borrowers@.len() as int) =~= borrowers@);
        }
        Ok(())
    }

    /// Upgrade bookkeeping (admin only, refused while paused): bump the
    /// schema version, saturating. The host then swaps in the new code.
    pub fn upgrade(&mut self, caller: AccountId) -> (r: Result<(), ContractError>)
        requires
            old(self).wf(),
        ensures
            final(self).wf(),
            old(self)@.config.paused ==> r == Err::<(), ContractError>(ContractError::Paused) && final(self)@ == old(self)@,
            !old(self)@.config.paused && admin_error(old(self)@, caller) is Some
                ==> r == Err::<(), ContractError>(admin_error(old(self)@, caller)->0) && final(self)@ == old(self)@,
            !old(self)@.config.paused && admin_error(old(self)@, caller) is None ==> r is Ok && final(self)@ == (CreditView {
                config: CreditConfig {
                    schema_version: Some({
                        let cur = match old(self)@.config.schema_version { Some(s) => s, None => SCHEMA_VERSION };
                        if cur == u32::MAX { cur } else { (cur + 1) as u32 }
                    }),
                    ..old(self)@.config
                },
                ..old(self)@
            }),
    {
        if self.config.paused {
            return Err(ContractError::Paused);
        }
        self.check_admin(caller)?;
        let cur = match self.config.schema_version {
            Some(s) => s,
            None => SCHEMA_VERSION,
        };
        self.config.schema_version = Some(if cur == u32::MAX { cur } else { cur + 1 });
        Ok(())
    }

    /// The stored schema version.
    pub fn get_schema_version(&self) -> (r: Option<u32>)
        ensures
            r == self@.config.schema_version,
    {
        self.config.schema_version
    }
}

/// Admin rotation is two-step: after a proposal with delay `d` at time
/// `t`, the proposed admin cannot take over before `t + d` (saturating), and
/// nobody else can take over at all.
pub proof fn law_admin_rotation_delay(v: CreditView, caller: AccountId, new_admin: AccountId, d: u64, t: u64,
    acceptor: AccountId, now: u64)
    requires
        propose_admin_spec(v, caller, new_admin, d, t) is Ok,
    ensures
        now < sat_add(t, d) ==> accept_admin_spec(propose_admin_spec(v, caller, new_admin, d, t)->Ok_0, acceptor, now) is Err,
        acceptor != new_admin ==> accept_admin_spec(propose_admin_spec(v, caller, new_admin, d, t)->Ok_0, acceptor, now)
            == Err::<CreditView, ContractError>(ContractError::Unauthorized),
        acceptor == new_admin && now >= sat_add(t, d)
            ==> accept_admin_spec(propose_admin_spec(v, caller, new_admin, d, t)->Ok_0, acceptor, now)->Ok_0.config.admin
                == Some(new_admin),
{
}

} // verus!

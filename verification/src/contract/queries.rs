//! Read-only views of the contract, VRF commitments and attestation
//! batches.

use vstd::prelude::*;
use soroban_sdk::Env;
use super::{draw_spec, get_or, lifecycle_spec, line_index, line_of, lemma_line_index, opt_get, repay_spec, Credit,
    CreditView, LifecycleAction};
use crate::borrow::{draw_status_error, draw_status_error_spec};
use super::collateral_admin::paused_admin_error;
use crate::attestation::{compute_root, root_spec, AttestationBatch};
use crate::query::{health_factor, health_factor_spec, is_delinquent, is_delinquent_spec, ratio_or_default};
use crate::scoring::{derive_score_from_hash, score_of_hash, VrfCommitment};
use crate::types::{AccountId, ContractError, CreditLineData, CreditStatus, ProtocolSummary, RepaymentSchedule};

verus! {

/// Most lines one `enumerate_credit_lines` call returns.
pub const MAX_ENUMERATION_LIMIT: u32 = 100;

/// The lines with ids in `[start, lines.len())`, at most `n` of them,
/// each paired with its id.
pub open spec fn enumeration(lines: Seq<CreditLineData>, start: int, n: int) -> Seq<(u32, CreditLineData)>
    decreases lines.len() - start,
{
    if start < 0 || start >= lines.len() || n <= 0 {
        Seq::empty()
    } else {
        seq![(start as u32, lines[start])] + enumeration(lines, start + 1, n - 1)
    }
}

/// The first id `enumerate_credit_lines` considers.
pub open spec fn enumeration_start(start_after: Option<u32>) -> int {
    match start_after {
        None => 0,
        Some(id) => if id == u32::MAX { u32::MAX as int } else { id + 1 },
    }
}

/// The health factor of `b` (`u32::MAX` without a line or debt).
pub open spec fn credit_health(v: CreditView, b: AccountId) -> int {
    match line_of(v, b) {
        None => u32::MAX as int,
        Some(line) => health_factor_spec(
            line.utilized_amount as int,
            get_or(v.collateral, b, 0i128) as int,
            ratio_or_default(v.config.min_collateral_ratio_bps),
        ),
    }
}

/// Outcome of `commit_vrf_output`: a borrower holds at most one commitment.
pub open spec fn commit_vrf_spec(v: CreditView, caller: AccountId, b: AccountId, hash: [u8; 32], now: u64)
    -> Result<CreditView, ContractError>
{
    if paused_admin_error(v, caller) is Some {
        Err(paused_admin_error(v, caller)->0)
    } else if v.vrf.contains_key(b) {
        Err(ContractError::InvalidAmount)
    } else {
        Ok(CreditView { vrf: v.vrf.insert(b, VrfCommitment { commitment_hash: hash, committed_at: now }), ..v })
    }
}

/// A borrower's credit line with the state that surrounds it.
#[derive(Clone, Copy, Debug, PartialEq, Eq, Structural)]
pub struct CreditLineSnapshot {
    /// The stored line (as of its last accrual checkpoint).
    pub line: CreditLineData,
    /// The borrower's collateral balance.
    pub collateral: i128,
    /// The health factor in bps, as `get_health_factor` reports it.
    pub health_factor_bps: u32,
    /// The installment schedule, if any.
    pub schedule: Option<RepaymentSchedule>,
    /// Whether the borrower is delinquent at the time asked.
    pub is_delinquent: bool,
}

/// The snapshot of `b`'s line at `now`, or `None` without a line.
pub open spec fn snapshot_spec(v: CreditView, b: AccountId, now: u64) -> Option<CreditLineSnapshot> {
    match line_of(v, b) {
        None => None,
        Some(l) => Some(CreditLineSnapshot {
            line: l,
            collateral: get_or(v.collateral, b, 0i128),
            health_factor_bps: credit_health(v, b) as u32,
            schedule: opt_get(v.schedules, b),
            is_delinquent: is_delinquent_spec(Some(l), opt_get(v.schedules, b),
                get_or(v.liquidation_grace, b, 0u64), v.config.grace, now),
        }),
    }
}

/// What a borrower may currently attempt, before any amount is known.
#[derive(Clone, Copy, Debug, PartialEq, Eq, Structural)]
pub struct BorrowCapabilities {
    /// The amount-independent draw checks pass.
    pub can_draw: bool,
    /// The amount-independent repayment checks pass.
    pub can_repay: bool,
    /// A self-suspension would be accepted.
    pub can_self_suspend: bool,
}

/// The capabilities of `b` at `now`: drawing needs the protocol unpaused,
/// draws unfrozen, the borrower neither frozen nor blocked, the line not
/// frozen and in a drawable status; repaying needs an open line;
/// self-suspending an Active one. Without a line nothing is possible.
pub open spec fn capabilities_spec(v: CreditView, b: AccountId, now: u64) -> BorrowCapabilities {
    match line_of(v, b) {
        None => BorrowCapabilities { can_draw: false, can_repay: false, can_self_suspend: false },
        Some(l) => BorrowCapabilities {
            can_draw: !v.config.paused && !v.config.draws_frozen
                && !(v.frozen_until.contains_key(b) && now < v.frozen_until[b])
                && !v.frozen_lines.contains(b) && !v.blocked.contains(b)
                && draw_status_error_spec(l.status) is None,
            can_repay: l.status != CreditStatus::Closed,
            can_self_suspend: l.status == CreditStatus::Active,
        },
    }
}

/// A capability reported missing is truly missing: every attempt of it
/// fails, whatever the amount.
pub proof fn law_capabilities_refuse(v: CreditView, b: AccountId, amount: i128, now: u64, reserve: i128)
    requires
        v.wf(),
    ensures
        !capabilities_spec(v, b, now).can_draw ==> draw_spec(v, b, amount, now, reserve) is Err,
        !capabilities_spec(v, b, now).can_repay ==> repay_spec(v, b, amount, now) is Err,
        !capabilities_spec(v, b, now).can_self_suspend ==> lifecycle_spec(v, b, b, LifecycleAction::SelfSuspend, now) is Err,
{
    if line_of(v, b) is Some {
        let i = line_index(v.lines, b);
        lemma_line_index(v.lines, b, i);
        crate::accrual::law_accrual_capitalizes(v.lines[i], super::accrual_ctx(v, b, v.lines[i], now));
    }
}

impl Credit {
    /// What `borrower` may currently attempt, as [`capabilities_spec`].
    pub fn borrow_capabilities(&self, borrower: AccountId, now: u64) -> (r: BorrowCapabilities)
        requires
            self.wf(),
        ensures
            r == capabilities_spec(self@, borrower, now),
    {
        let line = match self.get_credit_line(borrower) {
            Some(l) => l,
            None => return BorrowCapabilities { can_draw: false, can_repay: false, can_self_suspend: false },
        };
        let frozen = match super::map_get(&self.frozen_until, borrower) {
            Some(expiry) => now < expiry,
            None => false,
        };
        let can_draw = !self.config.paused && !self.config.draws_frozen && !frozen
            && !self.frozen_lines.contains(&borrower) && !self.blocked.contains(&borrower)
            && draw_status_error(line.status).is_none();
        BorrowCapabilities {
            can_draw,
            can_repay: line.status != CreditStatus::Closed,
            can_self_suspend: line.status == CreditStatus::Active,
        }
    }

    /// `borrower`'s credit line.
    pub fn get_credit_line(&self, borrower: AccountId) -> (r: Option<CreditLineData>)
        requires
            self.wf(),
        ensures
            r == line_of(self@, borrower),
    {
        match self.find_line(borrower) {
            Some(i) => Some(self.lines[i]),
            None => None,
        }
    }

    /// Same as [`Credit::get_credit_line`].
    pub fn get_credit_line_summary(&self, borrower: AccountId) -> (r: Option<CreditLineData>)
        requires
            self.wf(),
        ensures
            r == line_of(self@, borrower),
    {
        self.get_credit_line(borrower)
    }

    /// Number of credit lines ever opened (ids are `0..count`).
    pub fn get_credit_line_count(&self) -> (r: u32)
        requires
            self.wf(),
        ensures
            r == self@.lines.len(),
    {
        self.lines.len() as u32
    }

    /// Sum of utilized amounts over all lines.
    pub fn get_total_utilized(&self) -> (r: i128)
        ensures
            r == self@.config.total_utilized,
    {
        self.config.total_utilized
    }

    /// Sum of all collateral balances.
    pub fn get_total_collateral(&self) -> (r: i128)
        ensures
            r == self@.config.total_collateral,
    {
        self.config.total_collateral
    }

    /// Number of lines currently `Active`.
    pub fn get_active_line_count(&self) -> (r: u32)
        ensures
            r == self@.config.active_line_count,
    {
        self.config.active_line_count
    }

    /// Protocol-level aggregates.
    pub fn get_protocol_summary(&self) -> (r: ProtocolSummary)
        requires
            self.wf(),
        ensures
            r == (ProtocolSummary {
                count: self@.lines.len() as u32,
                total_utilized: self@.config.total_utilized,
                total_collateral: self@.config.total_collateral,
                treasury_balance: self@.config.treasury_balance,
                bounty_balance: self@.config.bounty_balance,
            }),
    {
        ProtocolSummary {
            count: self.lines.len() as u32,
            total_utilized: self.config.total_utilized,
            total_collateral: self.config.total_collateral,
            treasury_balance: self.config.treasury_balance,
            bounty_balance: self.config.bounty_balance,
        }
    }

    /// `borrower`'s health factor in bps: collateral against the debt
    /// required by the minimum ratio (`u32::MAX` without debt or when the
    /// minimum ratio is zero).
    pub fn get_health_factor(&self, borrower: AccountId) -> (r: u32)
        requires
            self.wf(),
        ensures
            r == credit_health(self@, borrower),
    {
        let line = self.get_credit_line(borrower);
        let utilized = match line {
            Some(l) => Some(l.utilized_amount),
            None => None,
        };
        health_factor(utilized, self.get_collateral(borrower), self.config.min_collateral_ratio_bps)
    }

    /// `borrower`'s line, collateral, health factor, schedule and
    /// delinquency at `now` in one read, or `None` without a line.
    pub fn get_credit_line_snapshot(&self, borrower: AccountId, now: u64) -> (r: Option<CreditLineSnapshot>)
        requires
            self.wf(),
        ensures
            r == snapshot_spec(self@, borrower, now),
    {
        let line = match self.get_credit_line(borrower) {
            Some(l) => l,
            None => return None,
        };
        let schedule = match self.schedules.get(&borrower) {
            Some(s) => Some(*s),
            None => None,
        };
        Some(CreditLineSnapshot {
            line,
            collateral: self.get_collateral(borrower),
            health_factor_bps: self.get_health_factor(borrower),
            schedule,
            is_delinquent: self.is_delinquent(borrower, now),
        })
    }

    /// Whether `borrower` has missed an installment past the grace window
    /// at `now`.
    pub fn is_delinquent(&self, borrower: AccountId, now: u64) -> (r: bool)
        requires
            self.wf(),
        ensures
            r == is_delinquent_spec(
                line_of(self@, borrower),
                opt_get(self@.schedules, borrower),
                get_or(self@.liquidation_grace, borrower, 0u64),
                self@.config.grace,
                now,
            ),
    {
        let line = self.get_credit_line(borrower);
        let schedule = match self.schedules.get(&borrower) {
            Some(s) => Some(*s),
            None => None,
        };
        let grace = match self.liquidation_grace.get(&borrower) {
            Some(g) => *g,
            None => 0,
        };
        is_delinquent(line, schedule, grace, self.config.grace, now)
    }

    /// Page through credit lines by id: up to `min(limit, 100)` lines with
    /// ids after `start_after` (from id 0 without it), in id order.
    pub fn enumerate_credit_lines(&self, start_after: Option<u32>, limit: u32) -> (r: Vec<(u32, CreditLineData)>)
        requires
            self.wf(),
        ensures
            r@ == enumeration(self@.lines, enumeration_start(start_after),
                if limit <= MAX_ENUMERATION_LIMIT { limit as int } else { MAX_ENUMERATION_LIMIT as int }),
    {
        let capped = if limit <= MAX_ENUMERATION_LIMIT { limit } else { MAX_ENUMERATION_LIMIT };
        let count = self.lines.len();
        let mut out: Vec<(u32, CreditLineData)> = Vec::new();
        let start: usize = match start_after {
            None => 0,
            Some(id) => if id == u32::MAX { id as usize } else { (id + 1) as usize },
        };
        let ghost total = enumeration(self@.lines, start as int, capped as int);
        let mut next: usize = start;
        let mut returned: u32 = 0;
        while next < count && returned < capped
            invariant
                self.wf(),
                count == self@.lines.len(),
                start <= next,
                returned <= capped,
                returned == next - start,
                total == enumeration(self@.lines, start as int, capped as int),
                out@ + enumeration(self@.lines, next as int, capped - returned) == total,
            decreases count - next,
        {
            let line = self.lines[next];
            proof {
                assert(enumeration(self@.lines, next as int, capped - returned)
                    == seq![(next as u32, line)] + enumeration(self@.lines, next + 1, capped - returned - 1));
            }
            out.push((next as u32, line));
            proof {
                assert(out@ + enumeration(self@.lines, next + 1, capped - returned - 1) =~= total);
            }
            returned = returned + 1;
            next = next + 1;
        }
        proof {
            assert(enumeration(self@.lines, next as int, capped - returned) =~= Seq::<(u32, CreditLineData)>::empty());
            assert(out@ =~= total);
        }
        out
    }

    /// Commit `borrower`'s VRF output hash (admin only, refused while
    /// paused); a second commitment is refused with `InvalidAmount`.
    pub fn commit_vrf_output(&mut self, caller: AccountId, borrower: AccountId, commitment_hash: [u8; 32], now: u64)
        -> (r: Result<(), ContractError>)
        requires
            old(self).wf(),
        ensures
            final(self).wf(),
            match commit_vrf_spec(old(self)@, caller, borrower, commitment_hash, now) {
                Ok(v) => r is Ok && final(self)@ == v,
                Err(e) => r == Err::<(), ContractError>(e) && final(self)@ == old(self)@,
            },
    {
        if self.config.paused {
            return Err(ContractError::Paused);
        }
        self.check_admin(caller)?;
        if self.vrf.contains_key(&borrower) {
            return Err(ContractError::InvalidAmount);
        }
        self.vrf.insert(borrower, VrfCommitment { commitment_hash, committed_at: now });
        Ok(())
    }

    /// Whether `risk_score` is the score bound to `borrower`'s commitment;
    /// `CreditLineNotFound` without a commitment.
    pub fn verify_vrf_commitment(&self, borrower: AccountId, risk_score: u32) -> (r: Result<bool, ContractError>)
        ensures
            !self@.vrf.contains_key(borrower) ==> r == Err::<bool, ContractError>(ContractError::CreditLineNotFound),
            self@.vrf.contains_key(borrower) ==> r == Ok::<bool, ContractError>(
                score_of_hash(self@.vrf[borrower].commitment_hash@) == risk_score),
    {
        match self.vrf.get(&borrower) {
            Some(c) => Ok(derive_score_from_hash(&c.commitment_hash) == risk_score),
            None => Err(ContractError::CreditLineNotFound),
        }
    }

    /// Remove `borrower`'s VRF commitment (admin only, refused while paused).
    pub fn clear_vrf_commitment(&mut self, caller: AccountId, borrower: AccountId) -> (r: Result<(), ContractError>)
        requires
            old(self).wf(),
        ensures
            final(self).wf(),
            match paused_admin_error(old(self)@, caller) {
                Some(e) => r == Err::<(), ContractError>(e) && final(self)@ == old(self)@,
                None => r is Ok && final(self)@ == (CreditView { vrf: old(self)@.vrf.remove(borrower), ..old(self)@ }),
            },
    {
        if self.config.paused {
            return Err(ContractError::Paused);
        }
        self.check_admin(caller)?;
        self.vrf.remove(&borrower);
        Ok(())
    }

    /// `borrower`'s VRF commitment.
    pub fn get_vrf_commitment(&self, borrower: AccountId) -> (r: Option<VrfCommitment>)
        ensures
            r == opt_get(self@.vrf, borrower),
    {
        match self.vrf.get(&borrower) {
            Some(c) => Some(*c),
            None => None,
        }
    }

    /// Commit an attestation batch for `borrower` (admin only, refused
    /// while paused), replacing any earlier batch.
    pub fn commit_attestation_batch(&mut self, caller: AccountId, borrower: AccountId, merkle_root: [u8; 32], count: u32,
        now: u64) -> (r: Result<(), ContractError>)
        requires
            old(self).wf(),
        ensures
            final(self).wf(),
            match paused_admin_error(old(self)@, caller) {
                Some(e) => r == Err::<(), ContractError>(e) && final(self)@ == old(self)@,
                None => r is Ok && final(self)@ == (CreditView {
                    attestations: old(self)@.attestations.insert(borrower,
                        AttestationBatch { merkle_root, count, committed_at: now }),
                    ..old(self)@
                }),
            },
    {
        if self.config.paused {
            return Err(ContractError::Paused);
        }
        self.check_admin(caller)?;
        self.attestations.insert(borrower, AttestationBatch { merkle_root, count, committed_at: now });
        Ok(())
    }

    /// Whether `proof` links `leaf` to `borrower`'s committed root;
    /// `InvalidAttestation` without a batch.
    pub fn verify_attestation_proof(&self, env: &Env, borrower: AccountId, leaf: [u8; 32], proof: &Vec<[u8; 32]>)
        -> (r: Result<bool, ContractError>)
        ensures
            !self@.attestations.contains_key(borrower) ==> r == Err::<bool, ContractError>(ContractError::InvalidAttestation),
            self@.attestations.contains_key(borrower) ==> r == Ok::<bool, ContractError>(
                root_spec(leaf@, proof@) == self@.attestations[borrower].merkle_root@),
    {
        let batch = match self.attestations.get(&borrower) {
            Some(b) => *b,
            None => return Err(ContractError::InvalidAttestation),
        };
        let root = compute_root(env, leaf, proof);
        let mut i: usize = 0;
        while i < 32
            invariant
                0 <= i <= 32,
                root@.len() == 32,
                batch.merkle_root@.len() == 32,
                self@.attestations.contains_key(borrower),
                batch == self@.attestations[borrower],
                root@ == root_spec(leaf@, proof@),
                forall|j: int| 0 <= j < i ==> root@[j] == batch.merkle_root@[j],
            decreases 32 - i,
        {
            if root[i] != batch.merkle_root[i] {
                return Ok(false);
            }
            i = i + 1;
        }
        proof {
            assert(root@ =~= batch.merkle_root@);
        }
        Ok(true)
    }

    /// `borrower`'s attestation batch.
    pub fn get_attestation_batch(&self, borrower: AccountId) -> (r: Option<AttestationBatch>)
        ensures
            r == opt_get(self@.attestations, borrower),
    {
        match self.attestations.get(&borrower) {
            Some(b) => Some(*b),
            None => None,
        }
    }

    /// Remove `borrower`'s attestation batch (admin only, refused while
    /// paused).
    pub fn clear_attestation_batch(&mut self, caller: AccountId, borrower: AccountId) -> (r: Result<(), ContractError>)
        requires
            old(self).wf(),
        ensures
            final(self).wf(),
            match paused_admin_error(old(self)@, caller) {
                Some(e) => r == Err::<(), ContractError>(e) && final(self)@ == old(self)@,
                None => r is Ok && final(self)@ == (CreditView {
                    attestations: old(self)@.attestations.remove(borrower),
                    ..old(self)@
                }),
            },
    {
        if self.config.paused {
            return Err(ContractError::Paused);
        }
        self.check_admin(caller)?;
        self.attestations.remove(&borrower);
        Ok(())
    }
}

/// Paging is lossless: the page after `k` lines of a full listing starts
/// where the previous one ended, so consecutive pages concatenate to the
/// listing.
pub proof fn law_enumeration_pages_concatenate(lines: Seq<CreditLineData>, start: int, k: int, n: int)
    requires
        0 <= start,
        0 <= k,
        0 <= n,
    ensures
        enumeration(lines, start, k) + enumeration(lines, start + k, n) == enumeration(lines, start, k + n),
    decreases k,
{
    if k == 0 {
        assert(enumeration(lines, start, 0) =~= Seq::<(u32, CreditLineData)>::empty());
        assert(enumeration(lines, start, k) + enumeration(lines, start + k, n) =~= enumeration(lines, start + k, n));
    } else if start >= lines.len() {
        assert(enumeration(lines, start + k, n) =~= Seq::<(u32, CreditLineData)>::empty());
        assert(enumeration(lines, start, k) + enumeration(lines, start + k, n) =~= enumeration(lines, start, k));
    } else {
        law_enumeration_pages_concatenate(lines, start + 1, k - 1, n);
        assert(enumeration(lines, start, k) + enumeration(lines, start + k, n)
            =~= seq![(start as u32, lines[start])] + (enumeration(lines, start + 1, k - 1) + enumeration(lines, start + 1 + (k - 1), n)));
    }
}

} // verus!

//! The credit contract's state and entrypoints.
//!
//! [`Credit`] holds, as plain values, everything the contract keeps in
//! ledger storage: the credit lines (indexed by their stable enumeration
//! id), per-borrower collateral and controls, and the protocol
//! configuration. Each entrypoint is a verified state transition that either
//! fails with a [`ContractError`] and leaves the state untouched (the ledger
//! transaction reverts) or applies its effect and returns a receipt
//! describing the token movements the host must perform.
//!
//! Invariant kept by every entrypoint: the global `total_utilized`
//! accumulator equals the sum of `utilized_amount` over all credit lines,
//! accrued interest and collateral balances are non-negative, and every
//! line's rate stays within 10 000 bps. A line's utilization itself may
//! drop below zero: reversing a draw that was partly repaid subtracts the
//! whole reversed amount.

use vstd::prelude::*;
use std::collections::HashMap;
use std::collections::HashSet;
use crate::accrual::{apply_accrual, accrual_spec, AccrualContext, AccrualOutcome};
use crate::borrow::{
    collateral_release_amount, collateral_release_spec, draw_status_error, draw_status_error_spec, effective_repay_spec,
    interest_repaid_spec,
};
use crate::math_utils::{rounded_div, Rounding, apply_bps};
use crate::query::{is_delinquent, is_delinquent_spec, DEFAULT_MIN_COLLATERAL_RATIO_BPS};
use crate::risk::{compute_rate_from_score, rate_from_score_spec, MAX_INTEREST_RATE_BPS, MAX_RISK_SCORE};
use crate::scoring::{derive_score_from_hash, score_of_hash, VrfCommitment};
use crate::types::{
    AccountId, ContractError, CreditLineData, CreditStatus, GracePeriodConfig, OracleConfig, OracleQuorumConfig,
    RateChangeConfig, RateFormulaConfig, RepaymentSchedule, TreasuryWithdrawalProposal,
};
use crate::penalties::LateFeeConfig;
use crate::attestation::AttestationBatch;
use admin::PauseReason;
use collateral_admin::pair_key;
use crate::limits::check_borrower_exposure_cap;

pub mod admin;
pub mod collateral_admin;
pub mod laws;
pub mod oracle;
pub mod queries;
pub mod settings;
pub mod treasury;

verus! {

broadcast use vstd::std_specs::hash::group_hash_axioms;

/// Version of the contract's public API.
pub const CONTRACT_API_VERSION_MAJOR: u32 = 1;

/// Storage schema version written by `init`.
pub const SCHEMA_VERSION: u32 = 1;

/// Maximum protocol fee in basis points (10 %).
pub const MAX_PROTOCOL_FEE_BPS: u32 = 1_000;

/// Scalar configuration and accumulators of the contract.
#[derive(Clone, Copy, Debug)]
pub struct CreditConfig {
    pub admin: Option<AccountId>,
    pub proposed_admin: Option<AccountId>,
    pub proposed_accept_after: Option<u64>,
    pub liquidity_token: Option<AccountId>,
    pub liquidity_source: Option<AccountId>,
    pub schema_version: Option<u32>,
    pub paused: bool,
    pub draws_frozen: bool,
    pub total_utilized: i128,
    pub total_collateral: i128,
    pub active_line_count: u32,
    pub min_collateral_ratio_bps: Option<u32>,
    pub max_draw_amount: Option<i128>,
    pub max_repay_amount: Option<i128>,
    pub draw_min_interval: Option<u64>,
    pub borrow_admin_cooldown: Option<u64>,
    pub max_total_exposure: Option<i128>,
    pub min_credit_limit: Option<i128>,
    pub max_credit_limit: Option<i128>,
    pub rate_change: Option<RateChangeConfig>,
    pub rate_formula: Option<RateFormulaConfig>,
    pub penalty_surcharge_bps: u32,
    pub grace: Option<GracePeriodConfig>,
    pub protocol_fee_bps: Option<u32>,
    pub min_protocol_fee_bps: u32,
    pub max_protocol_fee_bps: u32,
    pub treasury_fee_share_bps: Option<u32>,
    pub treasury_address: Option<AccountId>,
    pub bounty_address: Option<AccountId>,
    pub treasury_balance: i128,
    pub bounty_balance: i128,
    pub pending_withdrawal: Option<TreasuryWithdrawalProposal>,
    pub close_factor_bps: Option<u32>,
    pub auction_contract: Option<AccountId>,
    pub oracle_config: Option<OracleConfig>,
    pub oracle_quorum: Option<OracleQuorumConfig>,
    pub oracle_last_price: Option<i128>,
    pub oracle_last_price_ts: Option<u64>,
    pub admin_collateral_cooldown: Option<u64>,
    pub last_admin_collateral_action_ts: Option<u64>,
    pub late_fee_config: Option<LateFeeConfig>,
    pub late_fee_flat: i128,
}

/// The contract's state.
pub struct Credit {
    contract_address: AccountId,
    config: CreditConfig,
    lines: Vec<CreditLineData>,
    collateral: HashMap<AccountId, i128>,
    last_draw_ts: HashMap<AccountId, u64>,
    last_admin_action_ts: HashMap<AccountId, u64>,
    frozen_until: HashMap<AccountId, u64>,
    utilization_cap_bps: HashMap<AccountId, u32>,
    exposure_cap: HashMap<AccountId, i128>,
    rate_floor: HashMap<AccountId, u32>,
    rate_ceiling: HashMap<AccountId, u32>,
    schedules: HashMap<AccountId, RepaymentSchedule>,
    liquidation_grace: HashMap<AccountId, u64>,
    frozen_lines: HashSet<AccountId>,
    blocked: HashSet<AccountId>,
    vrf: HashMap<AccountId, VrfCommitment>,
    risk_weights: HashMap<AccountId, u32>,
    collateral_tokens: Vec<AccountId>,
    token_collateral: HashMap<u128, i128>,
    attestations: HashMap<AccountId, AttestationBatch>,
    pause_reason: Option<PauseReason>,
    draw_audit: HashMap<u128, i128>,
    draw_reversed: HashMap<u128, i128>,
    settlements: HashSet<u128>,
}

/// Abstract view of the contract's state.
pub struct CreditView {
    pub contract_address: AccountId,
    pub config: CreditConfig,
    pub lines: Seq<CreditLineData>,
    pub collateral: Map<AccountId, i128>,
    pub last_draw_ts: Map<AccountId, u64>,
    pub last_admin_action_ts: Map<AccountId, u64>,
    pub frozen_until: Map<AccountId, u64>,
    pub utilization_cap_bps: Map<AccountId, u32>,
    pub exposure_cap: Map<AccountId, i128>,
    pub rate_floor: Map<AccountId, u32>,
    pub rate_ceiling: Map<AccountId, u32>,
    pub schedules: Map<AccountId, RepaymentSchedule>,
    pub liquidation_grace: Map<AccountId, u64>,
    pub frozen_lines: Set<AccountId>,
    pub blocked: Set<AccountId>,
    pub vrf: Map<AccountId, VrfCommitment>,
    pub risk_weights: Map<AccountId, u32>,
    pub collateral_tokens: Seq<AccountId>,
    pub token_collateral: Map<u128, i128>,
    pub attestations: Map<AccountId, AttestationBatch>,
    pub pause_reason: Option<PauseReason>,
    /// Amount drawn per (borrower, draw timestamp), keyed by [`pair_key`].
    pub draw_audit: Map<u128, i128>,
    /// Amount already reversed per (borrower, draw timestamp).
    pub draw_reversed: Map<u128, i128>,
    /// Applied default settlements, keyed by (borrower, settlement id).
    pub settlements: Set<u128>,
}

impl View for Credit {
    type V = CreditView;

    closed spec fn view(&self) -> CreditView {
        CreditView {
            contract_address: self.contract_address,
            config: self.config,
            lines: self.lines@,
            collateral: self.collateral@,
            last_draw_ts: self.last_draw_ts@,
            last_admin_action_ts: self.last_admin_action_ts@,
            frozen_until: self.frozen_until@,
            utilization_cap_bps: self.utilization_cap_bps@,
            exposure_cap: self.exposure_cap@,
            rate_floor: self.rate_floor@,
            rate_ceiling: self.rate_ceiling@,
            schedules: self.schedules@,
            liquidation_grace: self.liquidation_grace@,
            frozen_lines: self.frozen_lines@,
            blocked: self.blocked@,
            vrf: self.vrf@,
            risk_weights: self.risk_weights@,
            collateral_tokens: self.collateral_tokens@,
            token_collateral: self.token_collateral@,
            attestations: self.attestations@,
            pause_reason: self.pause_reason,
            draw_audit: self.draw_audit@,
            draw_reversed: self.draw_reversed@,
            settlements: self.settlements@,
        }
    }
}

// ── Spec helpers ─────────────────────────────────────────────────────────────

/// The value stored under `k`, if any.
pub open spec fn opt_get<V>(m: Map<AccountId, V>, k: AccountId) -> Option<V> {
    if m.contains_key(k) { Some(m[k]) } else { None }
}

/// The value stored under `k`, or `d`.
pub open spec fn get_or<V>(m: Map<AccountId, V>, k: AccountId, d: V) -> V {
    if m.contains_key(k) { m[k] } else { d }
}

/// Sum of `utilized_amount` over a sequence of lines.
pub open spec fn sum_utilized(s: Seq<CreditLineData>) -> int
    decreases s.len(),
{
    if s.len() == 0 {
        0
    } else {
        sum_utilized(s.drop_last()) + s.last().utilized_amount
    }
}

/// Whether some line in `s` belongs to `b`.
pub open spec fn has_line(s: Seq<CreditLineData>, b: AccountId) -> bool {
    exists|i: int| 0 <= i < s.len() && #[trigger] s[i].borrower == b
}

/// The index of `b`'s line in `s` (meaningful when [`has_line`] holds).
pub open spec fn line_index(s: Seq<CreditLineData>, b: AccountId) -> int {
    choose|i: int| 0 <= i < s.len() && #[trigger] s[i].borrower == b
}

/// `b`'s credit line, if any.
pub open spec fn line_of(v: CreditView, b: AccountId) -> Option<CreditLineData> {
    if has_line(v.lines, b) { Some(v.lines[line_index(v.lines, b)]) } else { None }
}

/// `a + b` saturating at `u64::MAX`.
pub open spec fn sat_add(a: u64, b: u64) -> int {
    if a + b > u64::MAX { u64::MAX as int } else { a + b }
}

/// The accrual inputs for `line` of `b` at `now`.
pub open spec fn accrual_ctx(v: CreditView, b: AccountId, line: CreditLineData, now: u64) -> AccrualContext {
    AccrualContext {
        now,
        is_delinquent: is_delinquent_spec(
            Some(line),
            opt_get(v.schedules, b),
            get_or(v.liquidation_grace, b, 0u64),
            v.config.grace,
            now,
        ),
        penalty_surcharge_bps: v.config.penalty_surcharge_bps,
        grace: v.config.grace,
    }
}

/// The admin check: `NotAdmin` before initialization, `Unauthorized` for
/// any caller other than the admin.
pub open spec fn admin_error(v: CreditView, caller: AccountId) -> Option<ContractError> {
    match v.config.admin {
        None => Some(ContractError::NotAdmin),
        Some(a) => if a == caller { None } else { Some(ContractError::Unauthorized) },
    }
}

/// The per-borrower admin cooldown check.
pub open spec fn admin_cooldown_error(v: CreditView, b: AccountId, now: u64) -> Option<ContractError> {
    match v.config.borrow_admin_cooldown {
        Some(c) if c > 0 && v.last_admin_action_ts.contains_key(b)
            && (now as int) < sat_add(v.last_admin_action_ts[b], c) => Some(ContractError::AdminCooldownActive),
        _ => None,
    }
}

/// The last-admin-action map after a successful cooldown-gated admin action.
pub open spec fn admin_action_recorded(v: CreditView, b: AccountId, now: u64) -> Map<AccountId, u64> {
    match v.config.borrow_admin_cooldown {
        Some(c) if c > 0 => v.last_admin_action_ts.insert(b, now),
        _ => v.last_admin_action_ts,
    }
}

/// Active-line counter after a line moves from `old_status` to `new_status`.
pub open spec fn active_count_after(count: u32, was_active: bool, is_active: bool) -> u32 {
    if is_active && !was_active {
        if count == u32::MAX { count } else { (count + 1) as u32 }
    } else if !is_active && was_active {
        if count == 0 { 0 } else { (count - 1) as u32 }
    } else {
        count
    }
}

/// The state of a freshly deployed contract at `contract_address`: no
/// admin, every optional setting unset, every counter, balance and flag at
/// zero or `false`, the protocol fee ceiling at its 1000 bps default, and no
/// lines, balances, records or markers.
pub open spec fn fresh_view(contract_address: AccountId) -> CreditView {
    CreditView {
        contract_address,
        config: CreditConfig {
            admin: None,
            proposed_admin: None,
            proposed_accept_after: None,
            liquidity_token: None,
            liquidity_source: None,
            schema_version: None,
            paused: false,
            draws_frozen: false,
            total_utilized: 0,
            total_collateral: 0,
            active_line_count: 0,
            min_collateral_ratio_bps: None,
            max_draw_amount: None,
            max_repay_amount: None,
            draw_min_interval: None,
            borrow_admin_cooldown: None,
            max_total_exposure: None,
            min_credit_limit: None,
            max_credit_limit: None,
            rate_change: None,
            rate_formula: None,
            penalty_surcharge_bps: 0,
            grace: None,
            protocol_fee_bps: None,
            min_protocol_fee_bps: 0,
            max_protocol_fee_bps: MAX_PROTOCOL_FEE_BPS,
            treasury_fee_share_bps: None,
            treasury_address: None,
            bounty_address: None,
            treasury_balance: 0,
            bounty_balance: 0,
            pending_withdrawal: None,
            close_factor_bps: None,
            auction_contract: None,
            oracle_config: None,
            oracle_quorum: None,
            oracle_last_price: None,
            oracle_last_price_ts: None,
            admin_collateral_cooldown: None,
            last_admin_collateral_action_ts: None,
            late_fee_config: None,
            late_fee_flat: 0,
        },
        lines: Seq::empty(),
        collateral: Map::empty(),
        last_draw_ts: Map::empty(),
        last_admin_action_ts: Map::empty(),
        frozen_until: Map::empty(),
        utilization_cap_bps: Map::empty(),
        exposure_cap: Map::empty(),
        rate_floor: Map::empty(),
        rate_ceiling: Map::empty(),
        schedules: Map::empty(),
        liquidation_grace: Map::empty(),
        frozen_lines: Set::empty(),
        blocked: Set::empty(),
        vrf: Map::empty(),
        risk_weights: Map::empty(),
        collateral_tokens: Seq::empty(),
        token_collateral: Map::empty(),
        attestations: Map::empty(),
        pause_reason: None,
        draw_audit: Map::empty(),
        draw_reversed: Map::empty(),
        settlements: Set::empty(),
    }
}

impl CreditView {
    /// Well-formedness: distinct borrowers; lines with non-negative accrued
    /// interest and limits and rates within 10 000 bps; the utilized
    /// accumulator equal to the sum over lines; non-negative balances.
    pub open spec fn wf(self) -> bool {
        &&& self.lines.len() <= u32::MAX
        &&& forall|i: int, j: int| 0 <= i < j < self.lines.len() ==> self.lines[i].borrower != self.lines[j].borrower
        &&& forall|i: int| 0 <= i < self.lines.len() ==> {
            &&& #[trigger] self.lines[i].accrued_interest >= 0
            &&& self.lines[i].interest_rate_bps <= MAX_INTEREST_RATE_BPS
            &&& self.lines[i].credit_limit >= 0
        }
        &&& self.config.total_utilized == sum_utilized(self.lines)
        &&& forall|k: AccountId| #[trigger] self.collateral.contains_key(k) ==> self.collateral[k] >= 0
        &&& forall|k: u128| #[trigger] self.token_collateral.contains_key(k) ==> self.token_collateral[k] >= 0
        &&& forall|k: u128| #[trigger] self.draw_audit.contains_key(k) ==> self.draw_audit[k] >= 0
        &&& forall|k: u128| #[trigger] self.draw_reversed.contains_key(k) ==> self.draw_reversed[k] >= 0
        &&& self.config.treasury_balance >= 0
        &&& self.config.bounty_balance >= 0
        &&& self.config.max_protocol_fee_bps <= MAX_PROTOCOL_FEE_BPS
        &&& (self.config.protocol_fee_bps matches Some(b) ==> b <= MAX_PROTOCOL_FEE_BPS)
        &&& (self.config.rate_formula matches Some(f) ==> f.min_rate_bps <= f.max_rate_bps <= MAX_INTEREST_RATE_BPS)
    }

    /// `self` with line `i` replaced by `line` and the accumulators adjusted.
    pub open spec fn with_line(self, i: int, line: CreditLineData) -> CreditView {
        let old_line = self.lines[i];
        CreditView {
            lines: self.lines.update(i, line),
            config: CreditConfig {
                total_utilized: (self.config.total_utilized + line.utilized_amount - old_line.utilized_amount) as i128,
                active_line_count: active_count_after(
                    self.config.active_line_count,
                    old_line.status == CreditStatus::Active,
                    line.status == CreditStatus::Active,
                ),
                ..self.config
            },
            ..self
        }
    }

    /// Whether replacing line `i` by `line` keeps the accumulator in `i128`.
    pub open spec fn total_fits_with(self, i: int, line: CreditLineData) -> bool {
        i128::MIN <= self.config.total_utilized + line.utilized_amount - self.lines[i].utilized_amount <= i128::MAX
    }
}

// ── Proof helpers ────────────────────────────────────────────────────────────

proof fn lemma_sum_update(s: Seq<CreditLineData>, i: int, x: CreditLineData)
    requires
        0 <= i < s.len(),
    ensures
        sum_utilized(s.update(i, x)) == sum_utilized(s) - s[i].utilized_amount + x.utilized_amount,
    decreases s.len(),
{
    let t = s.update(i, x);
    if i == s.len() - 1 {
        assert(t.drop_last() =~= s.drop_last());
    } else {
        lemma_sum_update(s.drop_last(), i, x);
        assert(t.drop_last() =~= s.drop_last().update(i, x));
    }
}

proof fn lemma_sum_push(s: Seq<CreditLineData>, x: CreditLineData)
    ensures
        sum_utilized(s.push(x)) == sum_utilized(s) + x.utilized_amount,
{
    assert(s.push(x).drop_last() =~= s);
}

/// In lines with distinct borrowers, the line at `i` is the one
/// [`line_index`] finds for its borrower.
pub proof fn lemma_line_index(s: Seq<CreditLineData>, b: AccountId, i: int)
    requires
        0 <= i < s.len(),
        s[i].borrower == b,
        forall|p: int, q: int| 0 <= p < q < s.len() ==> s[p].borrower != s[q].borrower,
    ensures
        has_line(s, b),
        line_index(s, b) == i,
{
    assert(has_line(s, b));
    let j = line_index(s, b);
    if j != i {
        if j < i {
            assert(s[j].borrower != s[i].borrower);
        } else {
            assert(s[i].borrower != s[j].borrower);
        }
    }
}

// ── Executable helpers ───────────────────────────────────────────────────────

fn map_get<V: Copy>(m: &HashMap<AccountId, V>, k: AccountId) -> (r: Option<V>)
    ensures
        r == opt_get(m@, k),
{
    match m.get(&k) {
        Some(v) => Some(*v),
        None => None,
    }
}

fn sat_add_u64(a: u64, b: u64) -> (r: u64)
    ensures
        r == sat_add(a, b),
{
    if a > u64::MAX - b { u64::MAX } else { a + b }
}

/// A token transfer the host must perform after a successful call.
#[derive(Clone, Copy, Debug, PartialEq, Eq, Structural)]
pub struct TokenTransfer {
    /// Token contract to transfer with.
    pub token: AccountId,
    /// Sender of the tokens.
    pub from: AccountId,
    /// Receiver of the tokens.
    pub to: AccountId,
    /// Amount moved.
    pub amount: i128,
}

/// What a successful draw asks the host to transfer.
#[derive(Clone, Copy, Debug, PartialEq, Eq, Structural)]
pub struct DrawReceipt {
    /// Token contract to transfer with.
    pub token: AccountId,
    /// Reserve account the tokens leave.
    pub from: AccountId,
    /// Borrower receiving the tokens.
    pub to: AccountId,
    /// Amount drawn.
    pub amount: i128,
    /// Utilized amount after the draw.
    pub new_utilized_amount: i128,
}

/// What a successful repayment asks the host to transfer.
#[derive(Clone, Copy, Debug, PartialEq, Eq, Structural)]
pub struct RepayReceipt {
    /// Repayment actually applied (capped at the outstanding debt).
    pub effective_repay: i128,
    /// Part of the repayment that settled interest.
    pub interest_repaid: i128,
    /// Protocol fee skimmed into the contract (0 without a token).
    pub fee: i128,
    /// Part transferred to the reserve (0 without a token).
    pub reserve_amount: i128,
    /// Token to pull the repayment with; `None` when no token is configured.
    pub token: Option<AccountId>,
    /// Reserve account receiving `reserve_amount`.
    pub reserve: AccountId,
    /// Utilized amount after the repayment.
    pub new_utilized_amount: i128,
}

impl Credit {
    /// Well-formedness of the state.
    pub open spec fn wf(&self) -> bool {
        self@.wf()
    }

    /// A freshly deployed, uninitialized contract at `contract_address`.
    pub fn new(contract_address: AccountId) -> (c: Credit)
        ensures
            c.wf(),
            c@ == fresh_view(contract_address),
    {
        Credit {
            contract_address,
            config: CreditConfig {
                admin: None,
                proposed_admin: None,
                proposed_accept_after: None,
                liquidity_token: None,
                liquidity_source: None,
                schema_version: None,
                paused: false,
                draws_frozen: false,
                total_utilized: 0,
                total_collateral: 0,
                active_line_count: 0,
                min_collateral_ratio_bps: None,
                max_draw_amount: None,
                max_repay_amount: None,
                draw_min_interval: None,
                borrow_admin_cooldown: None,
                max_total_exposure: None,
                min_credit_limit: None,
                max_credit_limit: None,
                rate_change: None,
                rate_formula: None,
                penalty_surcharge_bps: 0,
                grace: None,
                protocol_fee_bps: None,
                min_protocol_fee_bps: 0,
                max_protocol_fee_bps: MAX_PROTOCOL_FEE_BPS,
                treasury_fee_share_bps: None,
                treasury_address: None,
                bounty_address: None,
                treasury_balance: 0,
                bounty_balance: 0,
                pending_withdrawal: None,
                close_factor_bps: None,
                auction_contract: None,
                oracle_config: None,
                oracle_quorum: None,
                oracle_last_price: None,
                oracle_last_price_ts: None,
                admin_collateral_cooldown: None,
                last_admin_collateral_action_ts: None,
                late_fee_config: None,
                late_fee_flat: 0,
            },
            lines: Vec::new(),
            collateral: HashMap::new(),
            last_draw_ts: HashMap::new(),
            last_admin_action_ts: HashMap::new(),
            frozen_until: HashMap::new(),
            utilization_cap_bps: HashMap::new(),
            exposure_cap: HashMap::new(),
            rate_floor: HashMap::new(),
            rate_ceiling: HashMap::new(),
            schedules: HashMap::new(),
            liquidation_grace: HashMap::new(),
            frozen_lines: HashSet::new(),
            blocked: HashSet::new(),
            vrf: HashMap::new(),
            risk_weights: HashMap::new(),
            collateral_tokens: Vec::new(),
            token_collateral: HashMap::new(),
            attestations: HashMap::new(),
            pause_reason: None,
            draw_audit: HashMap::new(),
            draw_reversed: HashMap::new(),
            settlements: HashSet::new(),
        }
    }

    /// Initialize the contract exactly once: set the admin, make the contract
    /// itself the liquidity source, write the schema version, a 150 %
    /// minimum collateral ratio and protocol fee bounds of 0–1000 bps.
    pub fn init(&mut self, admin: AccountId) -> (r: Result<(), ContractError>)
        requires
            old(self).wf(),
        ensures
            final(self).wf(),
            old(self)@.config.admin is Some ==> r == Err::<(), ContractError>(ContractError::AlreadyInitialized)
                && final(self)@ == old(self)@,
            old(self)@.config.admin is None ==> r is Ok && final(self)@ == (CreditView {
                config: CreditConfig {
                    admin: Some(admin),
                    liquidity_source: Some(old(self)@.contract_address),
                    schema_version: Some(SCHEMA_VERSION),
                    min_collateral_ratio_bps: Some(DEFAULT_MIN_COLLATERAL_RATIO_BPS),
                    min_protocol_fee_bps: 0,
                    max_protocol_fee_bps: MAX_PROTOCOL_FEE_BPS,
                    ..old(self)@.config
                },
                ..old(self)@
            }),
    {
        if self.config.admin.is_some() {
            return Err(ContractError::AlreadyInitialized);
        }
        self.config.admin = Some(admin);
        self.config.liquidity_source = Some(self.contract_address);
        self.config.schema_version = Some(SCHEMA_VERSION);
        self.config.min_collateral_ratio_bps = Some(DEFAULT_MIN_COLLATERAL_RATIO_BPS);
        self.config.min_protocol_fee_bps = 0;
        self.config.max_protocol_fee_bps = MAX_PROTOCOL_FEE_BPS;
        Ok(())
    }

    /// The contract's API version (1.0.0).
    pub fn get_contract_version() -> (v: (u32, u32, u32))
        ensures
            v == (1u32, 0u32, 0u32),
    {
        (CONTRACT_API_VERSION_MAJOR, 0, 0)
    }

    fn check_admin(&self, caller: AccountId) -> (r: Result<(), ContractError>)
        ensures
            r is Ok <==> admin_error(self@, caller) is None,
            r matches Err(e) ==> admin_error(self@, caller) == Some(e),
    {
        match self.config.admin {
            None => Err(ContractError::NotAdmin),
            Some(a) => if a == caller { Ok(()) } else { Err(ContractError::Unauthorized) },
        }
    }

    fn check_admin_cooldown(&self, borrower: AccountId, now: u64) -> (r: Result<(), ContractError>)
        ensures
            r is Ok <==> admin_cooldown_error(self@, borrower, now) is None,
            r matches Err(e) ==> admin_cooldown_error(self@, borrower, now) == Some(e),
    {
        match self.config.borrow_admin_cooldown {
            Some(c) => {
                if c == 0 {
                    return Ok(());
                }
                match map_get(&self.last_admin_action_ts, borrower) {
                    Some(last) => {
                        if now < sat_add_u64(last, c) {
                            Err(ContractError::AdminCooldownActive)
                        } else {
                            Ok(())
                        }
                    },
                    None => Ok(()),
                }
            },
            None => Ok(()),
        }
    }

    fn record_admin_action(&mut self, borrower: AccountId, now: u64)
        ensures
            final(self)@ == (CreditView { last_admin_action_ts: admin_action_recorded(old(self)@, borrower, now), ..old(self)@ }),
    {
        match self.config.borrow_admin_cooldown {
            Some(c) => {
                if c > 0 {
                    self.last_admin_action_ts.insert(borrower, now);
                }
            },
            None => {},
        }
    }

    /// Find the index of `borrower`'s line.
    fn find_line(&self, borrower: AccountId) -> (r: Option<usize>)
        requires
            self.wf(),
        ensures
            r is Some <==> has_line(self@.lines, borrower),
            r matches Some(i) ==> i == line_index(self@.lines, borrower) && i < self@.lines.len(),
    {
        let n = self.lines.len();
        let mut i: usize = 0;
        while i < n
            invariant
                self.wf(),
                n == self@.lines.len(),
                0 <= i <= n,
                forall|j: int| 0 <= j < i ==> self@.lines[j].borrower != borrower,
            decreases n - i,
        {
            if self.lines[i].borrower == borrower {
                proof {
                    lemma_line_index(self@.lines, borrower, i as int);
                }
                return Some(i);
            }
            i = i + 1;
        }
        None
    }

    /// Replace line `idx` and adjust the accumulators; `Overflow` when the
    /// utilized accumulator would leave `i128`.
    fn persist_line(&mut self, idx: usize, line: CreditLineData) -> (r: Result<(), ContractError>)
        requires
            old(self).wf(),
            idx < old(self)@.lines.len(),
            line.borrower == old(self)@.lines[idx as int].borrower,
            line.accrued_interest >= 0,
            line.interest_rate_bps <= MAX_INTEREST_RATE_BPS,
            line.credit_limit >= 0,
        ensures
            r is Ok <==> old(self)@.total_fits_with(idx as int, line),
            r is Ok ==> final(self)@ == old(self)@.with_line(idx as int, line),
            r is Err ==> r == Err::<(), ContractError>(ContractError::Overflow) && final(self)@ == old(self)@,
            final(self).wf(),
    {
        let old_line = self.lines[idx];
        let total = self.config.total_utilized;
        let new_u = line.utilized_amount;
        let old_u = old_line.utilized_amount;
        let new_total: i128 = if new_u >= old_u {
            if old_u >= 0 || new_u < 0 {
                let d = new_u - old_u;
                if total > i128::MAX - d {
                    return Err(ContractError::Overflow);
                }
                total + d
            } else {
                if total > i128::MAX - new_u {
                    return Err(ContractError::Overflow);
                }
                let s1 = total + new_u;
                if s1 > i128::MAX + old_u {
                    return Err(ContractError::Overflow);
                }
                s1 - old_u
            }
        } else {
            if old_u < 0 || new_u >= 0 {
                let d = old_u - new_u;
                if total < i128::MIN + d {
                    return Err(ContractError::Overflow);
                }
                total - d
            } else {
                if total < i128::MIN - new_u {
                    return Err(ContractError::Overflow);
                }
                let s1 = total + new_u;
                if s1 < i128::MIN + old_u {
                    return Err(ContractError::Overflow);
                }
                s1 - old_u
            }
        };
        let was_active = old_line.status == CreditStatus::Active;
        let is_active = line.status == CreditStatus::Active;
        let count = self.config.active_line_count;
        let new_count = if is_active && !was_active {
            if count == u32::MAX { count } else { count + 1 }
        } else if !is_active && was_active {
            if count == 0 { 0 } else { count - 1 }
        } else {
            count
        };
        proof {
            lemma_sum_update(self@.lines, idx as int, line);
        }
        self.lines.set(idx, line);
        self.config.total_utilized = new_total;
        self.config.active_line_count = new_count;
        proof {
            assert(self@.lines =~= old(self)@.lines.update(idx as int, line));
            assert forall|i: int, j: int| 0 <= i < j < self@.lines.len() implies self@.lines[i].borrower != self@.lines[j].borrower by {
                assert(old(self)@.lines[i].borrower != old(self)@.lines[j].borrower);
            }
        }
        Ok(())
    }

    /// The accrual inputs for `line` of `borrower` at `now`.
    fn accrual_context(&self, borrower: AccountId, line: CreditLineData, now: u64) -> (ctx: AccrualContext)
        ensures
            ctx == accrual_ctx(self@, borrower, line, now),
    {
        let schedule = map_get(&self.schedules, borrower);
        let grace = match map_get(&self.liquidation_grace, borrower) {
            Some(g) => g,
            None => 0,
        };
        AccrualContext {
            now,
            is_delinquent: is_delinquent(Some(line), schedule, grace, self.config.grace, now),
            penalty_surcharge_bps: self.config.penalty_surcharge_bps,
            grace: self.config.grace,
        }
    }

    /// The stored line of `borrower` and the result of accruing it to `now`.
    fn accrue_line(&self, idx: usize, now: u64) -> (r: Result<(CreditLineData, AccrualOutcome), ContractError>)
        requires
            self.wf(),
            idx < self@.lines.len(),
        ensures
            ({
                let line = self@.lines[idx as int];
                let spec = accrual_spec(line, accrual_ctx(self@, line.borrower, line, now));
                &&& (r is Ok <==> spec is Ok)
                &&& (r matches Ok((l, o)) ==> spec matches Ok((sl, a, w)) && l == sl && o.accrued == a && o.waived == w)
                &&& (r matches Err(e) ==> spec == Err::<(CreditLineData, int, int), ContractError>(e))
            }),
            r matches Ok((l, _)) ==> l.accrued_interest >= 0
                && l.borrower == self@.lines[idx as int].borrower
                && l.interest_rate_bps == self@.lines[idx as int].interest_rate_bps
                && l.status == self@.lines[idx as int].status
                && l.credit_limit == self@.lines[idx as int].credit_limit,
    {
        let line = self.lines[idx];
        let ctx = self.accrual_context(line.borrower, line, now);
        proof {
            crate::accrual::law_accrual_capitalizes(line, ctx);
        }
        apply_accrual(line, &ctx)
    }
}


// ── Origination, draw and repay ──────────────────────────────────────────────

/// The validation error of opening a line with these terms, if any.
pub open spec fn open_terms_error(v: CreditView, limit: i128, rate: u32, score: u32) -> Option<ContractError> {
    if limit <= 0 {
        Some(ContractError::InvalidAmount)
    } else if rate > MAX_INTEREST_RATE_BPS {
        Some(ContractError::RateTooHigh)
    } else if score > MAX_RISK_SCORE {
        Some(ContractError::ScoreTooHigh)
    } else {
        limit_bounds_error(v, limit)
    }
}

/// `LimitOutOfBounds` when `limit` lies outside the configured bounds.
pub open spec fn limit_bounds_error(v: CreditView, limit: i128) -> Option<ContractError> {
    if (v.config.min_credit_limit matches Some(m) && limit < m)
        || (v.config.max_credit_limit matches Some(m) && limit > m) {
        Some(ContractError::LimitOutOfBounds)
    } else {
        None
    }
}

/// A new active line for `b`.
pub open spec fn fresh_line(b: AccountId, limit: i128, rate: u32, score: u32, now: u64) -> CreditLineData {
    CreditLineData {
        borrower: b,
        credit_limit: limit,
        utilized_amount: 0,
        interest_rate_bps: rate,
        risk_score: score,
        status: CreditStatus::Active,
        last_rate_update_ts: 0,
        accrued_interest: 0,
        last_accrual_ts: now,
        suspension_ts: 0,
    }
}

/// The outcome of `open_credit_line`.
pub open spec fn open_spec(v: CreditView, caller: AccountId, b: AccountId, limit: i128, rate: u32, score: u32, now: u64)
    -> Result<CreditView, ContractError>
{
    if admin_error(v, caller) is Some {
        Err(admin_error(v, caller)->0)
    } else if admin_cooldown_error(v, b, now) is Some {
        Err(admin_cooldown_error(v, b, now)->0)
    } else if open_terms_error(v, limit, rate, score) is Some {
        Err(open_terms_error(v, limit, rate, score)->0)
    } else if has_line(v.lines, b) && v.lines[line_index(v.lines, b)].status == CreditStatus::Active {
        Err(ContractError::AlreadyInitialized)
    } else {
        let line = fresh_line(b, limit, rate, score, now);
        let v2 = CreditView { last_admin_action_ts: admin_action_recorded(v, b, now), ..v };
        if has_line(v.lines, b) {
            let i = line_index(v.lines, b);
            if v2.total_fits_with(i, line) { Ok(v2.with_line(i, line)) } else { Err(ContractError::Overflow) }
        } else if v.lines.len() >= u32::MAX {
            Err(ContractError::Overflow)
        } else {
            Ok(CreditView {
                lines: v.lines.push(line),
                config: CreditConfig {
                    active_line_count: active_count_after(v.config.active_line_count, false, true),
                    ..v.config
                },
                ..v2
            })
        }
    }
}

/// The minimum collateral ratio applied to draws and withdrawals.
pub open spec fn min_ratio(v: CreditView) -> int {
    match v.config.min_collateral_ratio_bps {
        Some(r) => r as int,
        None => DEFAULT_MIN_COLLATERAL_RATIO_BPS as int,
    }
}

/// The checks of `draw_credit` that follow accrual, given the accrued line.
pub open spec fn draw_post_error(v: CreditView, b: AccountId, line: CreditLineData, amount: i128, now: u64, reserve_balance: i128)
    -> Option<ContractError>
{
    let updated = line.utilized_amount + amount;
    if draw_status_error_spec(line.status) is Some {
        draw_status_error_spec(line.status)
    } else if v.config.draw_min_interval is Some && v.last_draw_ts.contains_key(b)
        && (now as int) < sat_add(v.last_draw_ts[b], v.config.draw_min_interval->0) {
        Some(ContractError::DrawCooldownActive)
    } else if updated > i128::MAX {
        Some(ContractError::Overflow)
    } else if updated > line.credit_limit {
        Some(ContractError::OverLimit)
    } else if updated * min_ratio(v) > i128::MAX || updated * min_ratio(v) < i128::MIN {
        Some(ContractError::Overflow)
    } else if updated > 0 && get_or(v.collateral, b, 0i128) < updated * min_ratio(v) / 10_000 {
        Some(ContractError::CollateralRatioBelowMinimum)
    } else if v.utilization_cap_bps.contains_key(b)
        && (line.credit_limit * v.utilization_cap_bps[b] > u128::MAX
            || line.credit_limit * v.utilization_cap_bps[b] / 10_000 > i128::MAX) {
        Some(ContractError::Overflow)
    } else if v.utilization_cap_bps.contains_key(b) && updated > line.credit_limit * v.utilization_cap_bps[b] / 10_000 {
        Some(ContractError::OverLimit)
    } else if v.exposure_cap.contains_key(b) && updated > v.exposure_cap[b] {
        Some(ContractError::BorrowerExposureCapExceeded)
    } else if v.config.max_total_exposure is Some && v.config.total_utilized + amount > i128::MAX {
        Some(ContractError::Overflow)
    } else if v.config.max_total_exposure is Some && v.config.total_utilized + amount > v.config.max_total_exposure->0 {
        Some(ContractError::ExposureCapExceeded)
    } else if v.config.liquidity_token is None {
        Some(ContractError::MissingLiquidityToken)
    } else if v.config.liquidity_source is None {
        Some(ContractError::MissingLiquiditySource)
    } else if reserve_balance < amount {
        Some(ContractError::InsufficientLiquidityReserve)
    } else {
        None
    }
}

/// The checks of `draw_credit` that precede the line lookup.
pub open spec fn draw_pre_error(v: CreditView, b: AccountId, amount: i128, now: u64) -> Option<ContractError> {
    if v.config.paused {
        Some(ContractError::Paused)
    } else if amount <= 0 {
        Some(ContractError::InvalidAmount)
    } else if v.config.draws_frozen {
        Some(ContractError::DrawsFrozen)
    } else if v.frozen_until.contains_key(b) && now < v.frozen_until[b] {
        Some(ContractError::BorrowerFrozen)
    } else if v.frozen_lines.contains(b) {
        Some(ContractError::CreditLineFrozen)
    } else if v.blocked.contains(b) {
        Some(ContractError::BorrowerBlocked)
    } else if v.config.max_draw_amount matches Some(m) && amount > m {
        Some(ContractError::DrawExceedsMaxAmount)
    } else if !has_line(v.lines, b) {
        Some(ContractError::CreditLineNotFound)
    } else {
        None
    }
}

/// The amount recorded as drawn by `b` at `ts` (0 when nothing was).
pub open spec fn audit_amount(v: CreditView, b: AccountId, ts: u64) -> int {
    if v.draw_audit.contains_key(pair_key(b, ts)) { v.draw_audit[pair_key(b, ts)] as int } else { 0 }
}

/// The amount already reversed of what `b` drew at `ts` (0 when nothing was).
pub open spec fn reversed_amount(v: CreditView, b: AccountId, ts: u64) -> int {
    if v.draw_reversed.contains_key(pair_key(b, ts)) { v.draw_reversed[pair_key(b, ts)] as int } else { 0 }
}

/// The audit record of `b`'s draws at `now` after a further draw of
/// `amount`: the sum, saturating at `i128::MAX`.
pub open spec fn audit_after_draw(v: CreditView, b: AccountId, now: u64, amount: i128) -> i128 {
    if audit_amount(v, b, now) + amount > i128::MAX { i128::MAX } else { (audit_amount(v, b, now) + amount) as i128 }
}

/// The outcome of `draw_credit`.
pub open spec fn draw_spec(v: CreditView, b: AccountId, amount: i128, now: u64, reserve_balance: i128)
    -> Result<(CreditView, DrawReceipt), ContractError>
{
    if draw_pre_error(v, b, amount, now) is Some {
        Err(draw_pre_error(v, b, amount, now)->0)
    } else {
        let i = line_index(v.lines, b);
        let stored = v.lines[i];
        match accrual_spec(stored, accrual_ctx(v, b, stored, now)) {
            Err(e) => Err(e),
            Ok((line, _, _)) =>
                if draw_post_error(v, b, line, amount, now, reserve_balance) is Some {
                    Err(draw_post_error(v, b, line, amount, now, reserve_balance)->0)
                } else {
                    let new_line = CreditLineData { utilized_amount: (line.utilized_amount + amount) as i128, ..line };
                    if !v.total_fits_with(i, new_line) {
                        Err(ContractError::Overflow)
                    } else {
                        let v2 = v.with_line(i, new_line);
                        Ok((CreditView {
                                last_draw_ts: v.last_draw_ts.insert(b, now),
                                draw_audit: v.draw_audit.insert(pair_key(b, now), audit_after_draw(v, b, now, amount)),
                                ..v2
                            },
                            DrawReceipt {
                                token: v.config.liquidity_token->0,
                                from: v.config.liquidity_source->0,
                                to: b,
                                amount,
                                new_utilized_amount: new_line.utilized_amount,
                            }))
                    }
                },
        }
    }
}

/// The protocol fee on the interest part of a repayment, rounded down.
pub open spec fn repay_fee(v: CreditView, interest: int) -> int {
    match v.config.protocol_fee_bps {
        Some(bps) if bps > 0 && interest > 0 => rounded_div(interest * bps, 10_000, Rounding::Floor),
        _ => 0,
    }
}

/// Accrued interest after `paid` of it is settled; 0 when the difference
/// leaves `i128` (a negative payment against a negative utilization left by
/// a draw reversal can push it up).
pub open spec fn interest_after(accrued: i128, paid: int) -> i128 {
    if accrued - paid > i128::MAX { 0 } else { (accrued - paid) as i128 }
}

/// The treasury share configured for fee splits.
pub open spec fn fee_share(v: CreditView) -> u32 {
    match v.config.treasury_fee_share_bps {
        Some(s) => s,
        None => crate::fees::DEFAULT_TREASURY_FEE_SHARE_BPS,
    }
}

/// The outcome of `repay_credit`.
pub open spec fn repay_spec(v: CreditView, b: AccountId, amount: i128, now: u64)
    -> Result<(CreditView, RepayReceipt), ContractError>
{
    if amount <= 0 {
        Err(ContractError::InvalidAmount)
    } else if v.config.max_repay_amount matches Some(m) && amount > m {
        Err(ContractError::RepayExceedsMaxAmount)
    } else if !has_line(v.lines, b) {
        Err(ContractError::CreditLineNotFound)
    } else {
        let i = line_index(v.lines, b);
        let stored = v.lines[i];
        match accrual_spec(stored, accrual_ctx(v, b, stored, now)) {
            Err(e) => Err(e),
            Ok((line, _, _)) => {
                let eff = effective_repay_spec(amount as int, line.utilized_amount as int);
                let ir = interest_repaid_spec(eff, line.accrued_interest as int);
                let with_token = eff > 0 && v.config.liquidity_token is Some;
                let fee = if with_token { repay_fee(v, ir) } else { 0 };
                let share = fee_share(v);
                let treasury = crate::fees::treasury_portion(fee, share as int);
                let bounty = if fee > 0 { fee - treasury } else { 0 };
                if line.status == CreditStatus::Closed {
                    Err(ContractError::CreditLineClosed)
                } else if with_token && ir > 0 && (v.config.protocol_fee_bps matches Some(bps) && bps > 0 && ir * bps > u128::MAX) {
                    Err(ContractError::Overflow)
                } else if fee > 0 && share < 10_000 && fee * share > u128::MAX {
                    Err(ContractError::Overflow)
                } else if v.config.treasury_balance + treasury > i128::MAX || v.config.bounty_balance + bounty > i128::MAX {
                    Err(ContractError::Overflow)
                } else {
                    let new_line = CreditLineData {
                        utilized_amount: (line.utilized_amount - eff) as i128,
                        accrued_interest: interest_after(line.accrued_interest, ir),
                        ..line
                    };
                    if !v.total_fits_with(i, new_line) {
                        Err(ContractError::Overflow)
                    } else {
                        let v2 = v.with_line(i, new_line);
                        Ok((CreditView {
                                config: CreditConfig {
                                    treasury_balance: (v.config.treasury_balance + treasury) as i128,
                                    bounty_balance: (v.config.bounty_balance + bounty) as i128,
                                    ..v2.config
                                },
                                ..v2
                            },
                            RepayReceipt {
                                effective_repay: eff as i128,
                                interest_repaid: ir as i128,
                                fee: fee as i128,
                                reserve_amount: if with_token { (eff - fee) as i128 } else { 0 },
                                token: if with_token { v.config.liquidity_token } else { None },
                                reserve: match v.config.liquidity_source { Some(s) => s, None => v.contract_address },
                                new_utilized_amount: new_line.utilized_amount,
                            }))
                    }
                }
            },
        }
    }
}

impl Credit {
    /// Open (or re-open) a credit line for `borrower` (admin only).
    ///
    /// Rejects a non-positive limit (`InvalidAmount`), a rate above
    /// 10 000 bps (`RateTooHigh`), a score above 100 (`ScoreTooHigh`), a
    /// limit outside the configured bounds (`LimitOutOfBounds`) and a
    /// borrower whose line is Active (`AlreadyInitialized`). A Suspended,
    /// Defaulted or Closed line is replaced by a fresh Active line.
    pub fn open_credit_line(&mut self, caller: AccountId, borrower: AccountId, credit_limit: i128,
        interest_rate_bps: u32, risk_score: u32, now: u64) -> (r: Result<(), ContractError>)
        requires
            old(self).wf(),
        ensures
            final(self).wf(),
            match open_spec(old(self)@, caller, borrower, credit_limit, interest_rate_bps, risk_score, now) {
                Ok(v) => r is Ok && final(self)@ == v,
                Err(e) => r == Err::<(), ContractError>(e) && final(self)@ == old(self)@,
            },
    {
        self.check_admin(caller)?;
        self.check_admin_cooldown(borrower, now)?;
        if credit_limit <= 0 {
            return Err(ContractError::InvalidAmount);
        }
        if interest_rate_bps > MAX_INTEREST_RATE_BPS {
            return Err(ContractError::RateTooHigh);
        }
        if risk_score > MAX_RISK_SCORE {
            return Err(ContractError::ScoreTooHigh);
        }
        self.check_limit_bounds(credit_limit)?;
        let line = CreditLineData {
            borrower,
            credit_limit,
            utilized_amount: 0,
            interest_rate_bps,
            risk_score,
            status: CreditStatus::Active,
            last_rate_update_ts: 0,
            accrued_interest: 0,
            last_accrual_ts: now,
            suspension_ts: 0,
        };
        match self.find_line(borrower) {
            Some(i) => {
                if self.lines[i].status == CreditStatus::Active {
                    return Err(ContractError::AlreadyInitialized);
                }
                self.persist_line(i, line)?;
                self.record_admin_action(borrower, now);
                Ok(())
            },
            None => {
                if self.lines.len() >= 4294967295 {
                    return Err(ContractError::Overflow);
                }
                self.record_admin_action(borrower, now);
                proof {
                    lemma_sum_push(self@.lines, line);
                }
                self.lines.push(line);
                let count = self.config.active_line_count;
                self.config.active_line_count = if count == u32::MAX { count } else { count + 1 };
                proof {
                    assert forall|i: int, j: int| 0 <= i < j < self@.lines.len() implies self@.lines[i].borrower != self@.lines[j].borrower by {
                        if j == self@.lines.len() - 1 {
                            assert(old(self)@.lines[i].borrower != borrower);
                        }
                    }
                }
                Ok(())
            },
        }
    }

    fn check_limit_bounds(&self, limit: i128) -> (r: Result<(), ContractError>)
        ensures
            r is Ok <==> limit_bounds_error(self@, limit) is None,
            r matches Err(e) ==> limit_bounds_error(self@, limit) == Some(e),
    {
        if let Some(m) = self.config.min_credit_limit {
            if limit < m {
                return Err(ContractError::LimitOutOfBounds);
            }
        }
        if let Some(m) = self.config.max_credit_limit {
            if limit > m {
                return Err(ContractError::LimitOutOfBounds);
            }
        }
        Ok(())
    }

    fn draw_post_checks(&self, borrower: AccountId, line: CreditLineData, amount: i128, now: u64, reserve_balance: i128)
        -> (r: Result<(), ContractError>)
        requires
            self.wf(),
            amount > 0,
            line.credit_limit >= 0,
        ensures
            r is Ok <==> draw_post_error(self@, borrower, line, amount, now, reserve_balance) is None,
            r matches Err(e) ==> draw_post_error(self@, borrower, line, amount, now, reserve_balance) == Some(e),
    {
        if let Some(e) = draw_status_error(line.status) {
            return Err(e);
        }
        if let Some(min_interval) = self.config.draw_min_interval {
            if let Some(last) = map_get(&self.last_draw_ts, borrower) {
                if now < sat_add_u64(last, min_interval) {
                    return Err(ContractError::DrawCooldownActive);
                }
            }
        }
        let updated = match line.utilized_amount.checked_add(amount) {
            Some(u) => u,
            None => return Err(ContractError::Overflow),
        };
        if updated > line.credit_limit {
            return Err(ContractError::OverLimit);
        }
        let ratio: u32 = match self.config.min_collateral_ratio_bps {
            Some(r) => r,
            None => DEFAULT_MIN_COLLATERAL_RATIO_BPS,
        };
        let product = match updated.checked_mul(ratio as i128) {
            Some(p) => p,
            None => return Err(ContractError::Overflow),
        };
        let current_collateral = match map_get(&self.collateral, borrower) {
            Some(c) => c,
            None => 0,
        };
        // A non-positive requirement is met by any (non-negative) balance.
        if updated > 0 && current_collateral < product / 10_000 {
            return Err(ContractError::CollateralRatioBelowMinimum);
        }
        if let Some(cap_bps) = map_get(&self.utilization_cap_bps, borrower) {
            let limit_u = line.credit_limit as u128;
            let cap_product = match limit_u.checked_mul(cap_bps as u128) {
                Some(p) => p,
                None => return Err(ContractError::Overflow),
            };
            let cap_amount = cap_product / 10_000;
            if cap_amount > i128::MAX as u128 {
                return Err(ContractError::Overflow);
            }
            if updated > cap_amount as i128 {
                return Err(ContractError::OverLimit);
            }
        }
        check_borrower_exposure_cap(map_get(&self.exposure_cap, borrower), updated)?;
        if let Some(max_exposure) = self.config.max_total_exposure {
            let projected = match self.config.total_utilized.checked_add(amount) {
                Some(p) => p,
                None => return Err(ContractError::Overflow),
            };
            if projected > max_exposure {
                return Err(ContractError::ExposureCapExceeded);
            }
        }
        if self.config.liquidity_token.is_none() {
            return Err(ContractError::MissingLiquidityToken);
        }
        if self.config.liquidity_source.is_none() {
            return Err(ContractError::MissingLiquiditySource);
        }
        if reserve_balance < amount {
            return Err(ContractError::InsufficientLiquidityReserve);
        }
        Ok(())
    }

    /// Draw `amount` from the borrower's credit line.
    ///
    /// `reserve_balance` is the liquidity source's current token balance.
    /// The pause, the global and per-borrower freezes, the line freeze and
    /// the blocklist (`BorrowerBlocked`) are checked first, then the maximum
    /// draw. Interest is accrued; the draw is then checked against the line's
    /// status, the draw cooldown, the credit limit, the minimum collateral
    /// ratio, the borrower's utilization and exposure caps, the protocol
    /// exposure cap and the reserve. On success the receipt names the
    /// transfer from the liquidity source to the borrower, and the amount is
    /// added to the audit record of the borrower's draws at `now` that
    /// `reverse_draw` matches against.
    pub fn draw_credit(&mut self, borrower: AccountId, amount: i128, now: u64, reserve_balance: i128)
        -> (r: Result<DrawReceipt, ContractError>)
        requires
            old(self).wf(),
        ensures
            final(self).wf(),
            match draw_spec(old(self)@, borrower, amount, now, reserve_balance) {
                Ok((v, receipt)) => r == Ok::<DrawReceipt, ContractError>(receipt) && final(self)@ == v,
                Err(e) => r == Err::<DrawReceipt, ContractError>(e) && final(self)@ == old(self)@,
            },
    {
        if self.config.paused {
            return Err(ContractError::Paused);
        }
        if amount <= 0 {
            return Err(ContractError::InvalidAmount);
        }
        if self.config.draws_frozen {
            return Err(ContractError::DrawsFrozen);
        }
        if let Some(expiry) = map_get(&self.frozen_until, borrower) {
            if now < expiry {
                return Err(ContractError::BorrowerFrozen);
            }
        }
        if self.frozen_lines.contains(&borrower) {
            return Err(ContractError::CreditLineFrozen);
        }
        if self.blocked.contains(&borrower) {
            return Err(ContractError::BorrowerBlocked);
        }
        if let Some(max_draw) = self.config.max_draw_amount {
            if amount > max_draw {
                return Err(ContractError::DrawExceedsMaxAmount);
            }
        }
        let idx = match self.find_line(borrower) {
            Some(i) => i,
            None => return Err(ContractError::CreditLineNotFound),
        };
        let (line, _outcome) = self.accrue_line(idx, now)?;
        self.draw_post_checks(borrower, line, amount, now, reserve_balance)?;
        let updated = line.utilized_amount + amount;
        let new_line = CreditLineData { utilized_amount: updated, ..line };
        self.persist_line(idx, new_line)?;
        self.last_draw_ts.insert(borrower, now);
        self.record_draw(borrower, now, amount);
        let token = match self.config.liquidity_token {
            Some(t) => t,
            None => { proof { assert(false); } return Err(ContractError::MissingLiquidityToken) },
        };
        let from = match self.config.liquidity_source {
            Some(s) => s,
            None => { proof { assert(false); } return Err(ContractError::MissingLiquiditySource) },
        };
        Ok(DrawReceipt { token, from, to: borrower, amount, new_utilized_amount: updated })
    }
}


impl Credit {
    /// Repay up to `amount` of the borrower's debt (principal plus accrued
    /// interest). Not blocked by pause or freezes, so borrowers can always
    /// deleverage.
    ///
    /// Interest is accrued first; the repayment is capped at the utilized
    /// amount and settles interest before principal. With a liquidity token
    /// configured, the protocol fee (`protocol_fee_bps` of the interest
    /// part of the repayment, rounded down) is skimmed into the contract and split between the
    /// treasury and bounty balances; the rest goes to the reserve.
    pub fn repay_credit(&mut self, borrower: AccountId, amount: i128, now: u64) -> (r: Result<RepayReceipt, ContractError>)
        requires
            old(self).wf(),
        ensures
            final(self).wf(),
            match repay_spec(old(self)@, borrower, amount, now) {
                Ok((v, receipt)) => r == Ok::<RepayReceipt, ContractError>(receipt) && final(self)@ == v,
                Err(e) => r == Err::<RepayReceipt, ContractError>(e) && final(self)@ == old(self)@,
            },
    {
        if amount <= 0 {
            return Err(ContractError::InvalidAmount);
        }
        if let Some(max_repay) = self.config.max_repay_amount {
            if amount > max_repay {
                return Err(ContractError::RepayExceedsMaxAmount);
            }
        }
        let idx = match self.find_line(borrower) {
            Some(i) => i,
            None => return Err(ContractError::CreditLineNotFound),
        };
        let (line, _outcome) = self.accrue_line(idx, now)?;
        if line.status == CreditStatus::Closed {
            return Err(ContractError::CreditLineClosed);
        }
        let eff = crate::borrow::effective_repay(amount, line.utilized_amount);
        let ir = crate::borrow::interest_repaid(eff, line.accrued_interest);
        let with_token = eff > 0 && self.config.liquidity_token.is_some();
        let mut fee: i128 = 0;
        if with_token {
            if let Some(bps) = self.config.protocol_fee_bps {
                if bps > 0 && ir > 0 {
                    let ir_u = ir as u128;
                    match ir_u.checked_mul(bps as u128) {
                        Some(_) => {},
                        None => return Err(ContractError::Overflow),
                    }
                    proof {
                        crate::math_utils::law_apply_bps_bounds(ir_u, bps, Rounding::Floor);
                    }
                    let f = apply_bps(ir_u, bps, Rounding::Floor);
                    if f > i128::MAX as u128 {
                        return Err(ContractError::Overflow);
                    }
                    fee = f as i128;
                }
            }
        }
        let share: u32 = match self.config.treasury_fee_share_bps {
            Some(s) => s,
            None => crate::fees::DEFAULT_TREASURY_FEE_SHARE_BPS,
        };
        let mut treasury: i128 = 0;
        let mut bounty: i128 = 0;
        if fee > 0 {
            if share < 10_000 {
                match (fee as u128).checked_mul(share as u128) {
                    Some(_) => {},
                    None => return Err(ContractError::Overflow),
                }
            }
            let split = crate::fees::split_protocol_fee(fee, share);
            proof {
                crate::fees::law_fee_split_conserves(fee, share);
            }
            treasury = split.treasury_amount;
            bounty = split.bounty_amount;
        }
        let new_treasury = match self.config.treasury_balance.checked_add(treasury) {
            Some(t) => t,
            None => return Err(ContractError::Overflow),
        };
        let new_bounty = match self.config.bounty_balance.checked_add(bounty) {
            Some(b) => b,
            None => return Err(ContractError::Overflow),
        };
        let new_line = CreditLineData {
            utilized_amount: line.utilized_amount - eff,
            accrued_interest: match line.accrued_interest.checked_sub(ir) {
                Some(x) => x,
                None => 0,
            },
            ..line
        };
        self.persist_line(idx, new_line)?;
        self.config.treasury_balance = new_treasury;
        self.config.bounty_balance = new_bounty;
        let reserve = match self.config.liquidity_source {
            Some(s) => s,
            None => self.contract_address,
        };
        Ok(RepayReceipt {
            effective_repay: eff,
            interest_repaid: ir,
            fee,
            reserve_amount: if with_token { eff - fee } else { 0 },
            token: if with_token { self.config.liquidity_token } else { None },
            reserve,
            new_utilized_amount: new_line.utilized_amount,
        })
    }
}


// ── Draw reversal ────────────────────────────────────────────────────────────

/// Window after a draw within which the admin may reverse it (1 hour).
pub const DRAW_REVERSAL_WINDOW_SECS: u64 = 3_600;

/// The outcome of `reverse_draw`. After the preliminary checks the line is
/// accrued; the reversal is then matched against the audit record of the
/// draw made at `original_ts` (`OriginalDrawNotFound` without one) and may
/// not exceed what is left of that draw after earlier reversals
/// (`OverLimit`). On success the line's utilization drops by `amount`, to
/// below zero when part of the draw was already repaid (`OverLimit` only
/// when the difference leaves `i128`), and the reversed total of that draw
/// grows by `amount`.
pub open spec fn reverse_draw_spec(v: CreditView, caller: AccountId, b: AccountId, amount: i128, original_ts: u64, now: u64)
    -> Result<CreditView, ContractError>
{
    if v.config.paused {
        Err(ContractError::Paused)
    } else if admin_error(v, caller) is Some {
        Err(admin_error(v, caller)->0)
    } else if amount <= 0 {
        Err(ContractError::InvalidAmount)
    } else if (if now >= original_ts { now - original_ts } else { 0 }) > DRAW_REVERSAL_WINDOW_SECS {
        Err(ContractError::DrawReversalWindowExpired)
    } else if !has_line(v.lines, b) {
        Err(ContractError::CreditLineNotFound)
    } else {
        let i = line_index(v.lines, b);
        let stored = v.lines[i];
        match accrual_spec(stored, accrual_ctx(v, b, stored, now)) {
            Err(e) => Err(e),
            Ok((line, _, _)) => {
                let reversed = reversed_amount(v, b, original_ts);
                let new_line = CreditLineData { utilized_amount: (line.utilized_amount - amount) as i128, ..line };
                if !v.draw_audit.contains_key(pair_key(b, original_ts)) {
                    Err(ContractError::OriginalDrawNotFound)
                } else if amount > audit_amount(v, b, original_ts) - reversed {
                    Err(ContractError::OverLimit)
                } else if line.utilized_amount - amount < i128::MIN {
                    Err(ContractError::OverLimit)
                } else if !v.total_fits_with(i, new_line) {
                    Err(ContractError::Overflow)
                } else {
                    Ok(CreditView {
                        draw_reversed: v.draw_reversed.insert(pair_key(b, original_ts), (reversed + amount) as i128),
                        ..v.with_line(i, new_line)
                    })
                }
            },
        }
    }
}

impl Credit {
    fn record_draw(&mut self, borrower: AccountId, now: u64, amount: i128)
        requires
            old(self).wf(),
            amount > 0,
        ensures
            final(self).wf(),
            final(self)@ == (CreditView {
                draw_audit: old(self)@.draw_audit.insert(pair_key(borrower, now), audit_after_draw(old(self)@, borrower, now, amount)),
                ..old(self)@
            }),
    {
        let key = Self::pair_key_exec(borrower, now);
        let cur: i128 = match self.draw_audit.get(&key) {
            Some(d) => *d,
            None => 0,
        };
        let next: i128 = if cur > i128::MAX - amount { i128::MAX } else { cur + amount };
        self.draw_audit.insert(key, next);
    }

    /// Reverse part of an erroneous draw made at `original_ts` (admin only,
    /// within one hour of the draw, refused while paused), as described
    /// by [`reverse_draw_spec`].
    pub fn reverse_draw(&mut self, caller: AccountId, borrower: AccountId, amount: i128, original_ts: u64, now: u64)
        -> (r: Result<(), ContractError>)
        requires
            old(self).wf(),
        ensures
            final(self).wf(),
            match reverse_draw_spec(old(self)@, caller, borrower, amount, original_ts, now) {
                Ok(v) => r is Ok && final(self)@ == v,
                Err(e) => r == Err::<(), ContractError>(e) && final(self)@ == old(self)@,
            },
    {
        if self.config.paused {
            return Err(ContractError::Paused);
        }
        self.check_admin(caller)?;
        if amount <= 0 {
            return Err(ContractError::InvalidAmount);
        }
        let elapsed = if now >= original_ts { now - original_ts } else { 0 };
        if elapsed > DRAW_REVERSAL_WINDOW_SECS {
            return Err(ContractError::DrawReversalWindowExpired);
        }
        let idx = match self.find_line(borrower) {
            Some(i) => i,
            None => return Err(ContractError::CreditLineNotFound),
        };
        let (line, _outcome) = self.accrue_line(idx, now)?;
        let key = Self::pair_key_exec(borrower, original_ts);
        let drawn: i128 = match self.draw_audit.get(&key) {
            Some(d) => *d,
            None => return Err(ContractError::OriginalDrawNotFound),
        };
        let reversed: i128 = match self.draw_reversed.get(&key) {
            Some(x) => *x,
            None => 0,
        };
        if amount > drawn - reversed {
            return Err(ContractError::OverLimit);
        }
        let new_utilized = match line.utilized_amount.checked_sub(amount) {
            Some(u) => u,
            None => return Err(ContractError::OverLimit),
        };
        let new_line = CreditLineData { utilized_amount: new_utilized, ..line };
        self.persist_line(idx, new_line)?;
        self.draw_reversed.insert(key, reversed + amount);
        Ok(())
    }
}

// ── Risk updates and lifecycle ───────────────────────────────────────────────

/// The rate an update settles on before the rate-change guardrails: the
/// formula rate (when a formula is configured) or the requested rate, raised
/// to the borrower's floor and lowered to the borrower's ceiling.
pub open spec fn target_rate(v: CreditView, b: AccountId, rate: u32, score: u32) -> int {
    let eff = match v.config.rate_formula {
        Some(f) => rate_from_score_spec(f, score as int),
        None => rate as int,
    };
    let floored = match opt_get(v.rate_floor, b) {
        Some(fl) => if eff >= fl { eff } else { fl as int },
        None => eff,
    };
    match opt_get(v.rate_ceiling, b) {
        Some(c) => if floored <= c { floored } else { c as int },
        None => floored,
    }
}

/// The guardrail error of moving `line` to `new_rate` at `now`, if any.
pub open spec fn rate_change_error(v: CreditView, line: CreditLineData, new_rate: int, now: u64) -> Option<ContractError> {
    match v.config.rate_change {
        Some(cfg) if new_rate != line.interest_rate_bps => {
            let delta = if new_rate >= line.interest_rate_bps { new_rate - line.interest_rate_bps } else { line.interest_rate_bps - new_rate };
            let elapsed = if now >= line.last_rate_update_ts { now - line.last_rate_update_ts } else { 0 };
            if delta > cfg.max_rate_change_bps {
                Some(ContractError::RateTooHigh)
            } else if cfg.rate_change_min_interval > 0 && line.last_rate_update_ts > 0
                && elapsed < cfg.rate_change_min_interval {
                Some(ContractError::RateTooHigh)
            } else if (now as int) < line.last_rate_update_ts {
                Some(ContractError::TimestampRegression)
            } else {
                None
            }
        },
        _ => None,
    }
}

/// The outcome of `update_risk_parameters`.
pub open spec fn update_risk_spec(v: CreditView, caller: AccountId, b: AccountId, limit: i128, rate: u32, score: u32, now: u64)
    -> Result<CreditView, ContractError>
{
    if admin_error(v, caller) is Some {
        Err(admin_error(v, caller)->0)
    } else if admin_cooldown_error(v, b, now) is Some {
        Err(admin_cooldown_error(v, b, now)->0)
    } else if v.config.paused {
        Err(ContractError::Paused)
    } else if !has_line(v.lines, b) {
        Err(ContractError::CreditLineNotFound)
    } else {
        let i = line_index(v.lines, b);
        let stored = v.lines[i];
        match accrual_spec(stored, accrual_ctx(v, b, stored, now)) {
            Err(e) => Err(e),
            Ok((line, _, _)) => {
                let new_rate = target_rate(v, b, rate, score);
                if limit < 0 {
                    Err(ContractError::NegativeLimit)
                } else if score > MAX_RISK_SCORE {
                    Err(ContractError::ScoreTooHigh)
                } else if score != line.risk_score && v.vrf.contains_key(b)
                    && score_of_hash(v.vrf[b].commitment_hash@) != score {
                    Err(ContractError::Unauthorized)
                } else if limit_bounds_error(v, limit) is Some {
                    Err(limit_bounds_error(v, limit)->0)
                } else if rate_change_error(v, line, new_rate, now) is Some {
                    Err(rate_change_error(v, line, new_rate, now)->0)
                } else if new_rate > MAX_INTEREST_RATE_BPS {
                    Err(ContractError::RateTooHigh)
                } else {
                    let new_line = CreditLineData {
                        interest_rate_bps: new_rate as u32,
                        risk_score: score,
                        credit_limit: limit,
                        status: if line.utilized_amount > limit { CreditStatus::Restricted } else { line.status },
                        last_rate_update_ts: if v.config.rate_change is Some && new_rate != line.interest_rate_bps {
                            now
                        } else {
                            line.last_rate_update_ts
                        },
                        ..line
                    };
                    if !v.total_fits_with(i, new_line) {
                        Err(ContractError::Overflow)
                    } else {
                        Ok(CreditView { last_admin_action_ts: admin_action_recorded(v, b, now), ..v.with_line(i, new_line) })
                    }
                }
            },
        }
    }
}

/// Which lifecycle transition is requested.
#[derive(Clone, Copy, Debug, PartialEq, Eq, Structural)]
pub enum LifecycleAction {
    /// Admin suspends an Active line.
    Suspend,
    /// The borrower suspends their own Active line.
    SelfSuspend,
    /// Admin marks a line Defaulted.
    Default,
    /// Admin reinstates a Defaulted line to Active.
    ReinstateActive,
    /// Admin reinstates a Defaulted line to Suspended.
    ReinstateSuspended,
}

/// The status error of applying `action` to a line in `status`, if any.
pub open spec fn lifecycle_status_error(action: LifecycleAction, status: CreditStatus) -> Option<ContractError> {
    match action {
        LifecycleAction::Suspend | LifecycleAction::SelfSuspend =>
            if status == CreditStatus::Active { None } else { Some(ContractError::CreditLineSuspended) },
        LifecycleAction::Default =>
            if status == CreditStatus::Closed {
                Some(ContractError::CreditLineClosed)
            } else if status == CreditStatus::Defaulted {
                Some(ContractError::CreditLineDefaulted)
            } else {
                None
            },
        LifecycleAction::ReinstateActive | LifecycleAction::ReinstateSuspended =>
            if status == CreditStatus::Defaulted { None } else { Some(ContractError::CreditLineDefaulted) },
    }
}

/// The line after a successful lifecycle `action` at `now`.
pub open spec fn lifecycle_line(action: LifecycleAction, line: CreditLineData, now: u64) -> CreditLineData {
    match action {
        LifecycleAction::Suspend | LifecycleAction::SelfSuspend | LifecycleAction::ReinstateSuspended =>
            CreditLineData { status: CreditStatus::Suspended, suspension_ts: now, ..line },
        LifecycleAction::Default => CreditLineData { status: CreditStatus::Defaulted, ..line },
        LifecycleAction::ReinstateActive => CreditLineData { status: CreditStatus::Active, ..line },
    }
}

/// The outcome of a lifecycle transition requested by `caller`.
pub open spec fn lifecycle_spec(v: CreditView, caller: AccountId, b: AccountId, action: LifecycleAction, now: u64)
    -> Result<CreditView, ContractError>
{
    let admin_path = action != LifecycleAction::SelfSuspend;
    if admin_path && admin_error(v, caller) is Some {
        Err(admin_error(v, caller)->0)
    } else if !admin_path && caller != b {
        Err(ContractError::Unauthorized)
    } else if admin_path && admin_cooldown_error(v, b, now) is Some {
        Err(admin_cooldown_error(v, b, now)->0)
    } else if !has_line(v.lines, b) {
        Err(ContractError::CreditLineNotFound)
    } else {
        let i = line_index(v.lines, b);
        let stored = v.lines[i];
        match accrual_spec(stored, accrual_ctx(v, b, stored, now)) {
            Err(e) => Err(e),
            Ok((line, _, _)) =>
                if lifecycle_status_error(action, line.status) is Some {
                    Err(lifecycle_status_error(action, line.status)->0)
                } else {
                    let new_line = lifecycle_line(action, line, now);
                    if !v.total_fits_with(i, new_line) {
                        Err(ContractError::Overflow)
                    } else {
                        let v2 = v.with_line(i, new_line);
                        if admin_path {
                            Ok(CreditView { last_admin_action_ts: admin_action_recorded(v, b, now), ..v2 })
                        } else {
                            Ok(v2)
                        }
                    }
                },
        }
    }
}

/// The outcome of `close_credit_line` requested by `closer`.
pub open spec fn close_spec(v: CreditView, closer: AccountId, b: AccountId, now: u64) -> Result<CreditView, ContractError> {
    let is_admin = v.config.admin == Some(closer);
    if !is_admin && closer != b {
        Err(ContractError::Unauthorized)
    } else if is_admin && admin_cooldown_error(v, b, now) is Some {
        Err(admin_cooldown_error(v, b, now)->0)
    } else if !has_line(v.lines, b) {
        Err(ContractError::CreditLineNotFound)
    } else {
        let i = line_index(v.lines, b);
        let stored = v.lines[i];
        let v1 = if is_admin { CreditView { last_admin_action_ts: admin_action_recorded(v, b, now), ..v } } else { v };
        if stored.status == CreditStatus::Closed {
            Ok(v1)
        } else {
            match accrual_spec(stored, accrual_ctx(v, b, stored, now)) {
                Err(e) => Err(e),
                Ok((line, _, _)) =>
                    if !is_admin && line.utilized_amount != 0 {
                        Err(ContractError::UtilizationNotZero)
                    } else {
                        let new_line = CreditLineData { status: CreditStatus::Closed, ..line };
                        if !v.total_fits_with(i, new_line) {
                            Err(ContractError::Overflow)
                        } else {
                            Ok(CreditView { last_admin_action_ts: v1.last_admin_action_ts, ..v.with_line(i, new_line) })
                        }
                    },
            }
        }
    }
}

impl Credit {
    fn rate_for_update(&self, borrower: AccountId, rate: u32, score: u32) -> (r: u32)
        requires
            self.wf(),
        ensures
            r == target_rate(self@, borrower, rate, score),
    {
        let eff = match self.config.rate_formula {
            Some(f) => compute_rate_from_score(&f, score),
            None => rate,
        };
        let floored = match map_get(&self.rate_floor, borrower) {
            Some(fl) => if eff >= fl { eff } else { fl },
            None => eff,
        };
        match map_get(&self.rate_ceiling, borrower) {
            Some(c) => if floored <= c { floored } else { c },
            None => floored,
        }
    }

    fn check_rate_change(&self, line: CreditLineData, new_rate: u32, now: u64) -> (r: Result<(), ContractError>)
        ensures
            r is Ok <==> rate_change_error(self@, line, new_rate as int, now) is None,
            r matches Err(e) ==> rate_change_error(self@, line, new_rate as int, now) == Some(e),
    {
        if let Some(cfg) = self.config.rate_change {
            if new_rate != line.interest_rate_bps {
                let delta = if new_rate >= line.interest_rate_bps {
                    new_rate - line.interest_rate_bps
                } else {
                    line.interest_rate_bps - new_rate
                };
                if delta > cfg.max_rate_change_bps {
                    return Err(ContractError::RateTooHigh);
                }
                let elapsed = if now >= line.last_rate_update_ts { now - line.last_rate_update_ts } else { 0 };
                if cfg.rate_change_min_interval > 0 && line.last_rate_update_ts > 0
                    && elapsed < cfg.rate_change_min_interval {
                    return Err(ContractError::RateTooHigh);
                }
                if now < line.last_rate_update_ts {
                    return Err(ContractError::TimestampRegression);
                }
            }
        }
        Ok(())
    }

    /// Update a line's credit limit, interest rate and risk score (admin only).
    ///
    /// Interest is accrued first. The rate is the formula rate when a rate
    /// formula is configured (the requested rate otherwise), bounded by the
    /// borrower's floor and ceiling; a change must respect the configured
    /// per-change delta and minimum interval, may not record a change time
    /// earlier than the last one (`TimestampRegression`), and the result may not exceed
    /// 10 000 bps. A changed score must match a committed VRF output. A limit
    /// below the utilized amount moves the line to `Restricted`.
    pub fn update_risk_parameters(&mut self, caller: AccountId, borrower: AccountId, credit_limit: i128,
        interest_rate_bps: u32, risk_score: u32, now: u64) -> (r: Result<(), ContractError>)
        requires
            old(self).wf(),
        ensures
            final(self).wf(),
            match update_risk_spec(old(self)@, caller, borrower, credit_limit, interest_rate_bps, risk_score, now) {
                Ok(v) => r is Ok && final(self)@ == v,
                Err(e) => r == Err::<(), ContractError>(e) && final(self)@ == old(self)@,
            },
    {
        self.check_admin(caller)?;
        self.check_admin_cooldown(borrower, now)?;
        if self.config.paused {
            return Err(ContractError::Paused);
        }
        let idx = match self.find_line(borrower) {
            Some(i) => i,
            None => return Err(ContractError::CreditLineNotFound),
        };
        let (line, _outcome) = self.accrue_line(idx, now)?;
        if credit_limit < 0 {
            return Err(ContractError::NegativeLimit);
        }
        if risk_score > MAX_RISK_SCORE {
            return Err(ContractError::ScoreTooHigh);
        }
        if risk_score != line.risk_score {
            if let Some(c) = map_get(&self.vrf, borrower) {
                if derive_score_from_hash(&c.commitment_hash) != risk_score {
                    return Err(ContractError::Unauthorized);
                }
            }
        }
        self.check_limit_bounds(credit_limit)?;
        let new_rate = self.rate_for_update(borrower, interest_rate_bps, risk_score);
        self.check_rate_change(line, new_rate, now)?;
        if new_rate > MAX_INTEREST_RATE_BPS {
            return Err(ContractError::RateTooHigh);
        }
        let last_rate_update_ts = if self.config.rate_change.is_some() && new_rate != line.interest_rate_bps {
            now
        } else {
            line.last_rate_update_ts
        };
        let new_line = CreditLineData {
            interest_rate_bps: new_rate,
            risk_score,
            credit_limit,
            status: if line.utilized_amount > credit_limit { CreditStatus::Restricted } else { line.status },
            last_rate_update_ts,
            ..line
        };
        self.persist_line(idx, new_line)?;
        let ghost persisted = self@;
        self.record_admin_action(borrower, now);
        proof {
            assert(persisted.wf());
            assert(self@.lines == persisted.lines && self@.config == persisted.config
                && self@.collateral == persisted.collateral);
        }
        Ok(())
    }

    fn lifecycle(&mut self, caller: AccountId, borrower: AccountId, action: LifecycleAction, now: u64)
        -> (r: Result<(), ContractError>)
        requires
            old(self).wf(),
        ensures
            final(self).wf(),
            match lifecycle_spec(old(self)@, caller, borrower, action, now) {
                Ok(v) => r is Ok && final(self)@ == v,
                Err(e) => r == Err::<(), ContractError>(e) && final(self)@ == old(self)@,
            },
    {
        let admin_path = action != LifecycleAction::SelfSuspend;
        if admin_path {
            self.check_admin(caller)?;
        } else if caller != borrower {
            return Err(ContractError::Unauthorized);
        }
        if admin_path {
            self.check_admin_cooldown(borrower, now)?;
        }
        let idx = match self.find_line(borrower) {
            Some(i) => i,
            None => return Err(ContractError::CreditLineNotFound),
        };
        let (line, _outcome) = self.accrue_line(idx, now)?;
        let status_ok = match action {
            LifecycleAction::Suspend | LifecycleAction::SelfSuspend => {
                if line.status != CreditStatus::Active {
                    return Err(ContractError::CreditLineSuspended);
                }
                true
            },
            LifecycleAction::Default => {
                if line.status == CreditStatus::Closed {
                    return Err(ContractError::CreditLineClosed);
                }
                if line.status == CreditStatus::Defaulted {
                    return Err(ContractError::CreditLineDefaulted);
                }
                true
            },
            LifecycleAction::ReinstateActive | LifecycleAction::ReinstateSuspended => {
                if line.status != CreditStatus::Defaulted {
                    return Err(ContractError::CreditLineDefaulted);
                }
                true
            },
        };
        let new_line = match action {
            LifecycleAction::Suspend | LifecycleAction::SelfSuspend | LifecycleAction::ReinstateSuspended =>
                CreditLineData { status: CreditStatus::Suspended, suspension_ts: now, ..line },
            LifecycleAction::Default => CreditLineData { status: CreditStatus::Defaulted, ..line },
            LifecycleAction::ReinstateActive => CreditLineData { status: CreditStatus::Active, ..line },
        };
        self.persist_line(idx, new_line)?;
        if admin_path {
            self.record_admin_action(borrower, now);
        }
        Ok(())
    }

    /// Suspend an Active credit line (admin only); interest is accrued first
    /// and the suspension time is recorded for the grace policy.
    pub fn suspend_credit_line(&mut self, caller: AccountId, borrower: AccountId, now: u64) -> (r: Result<(), ContractError>)
        requires
            old(self).wf(),
        ensures
            final(self).wf(),
            match lifecycle_spec(old(self)@, caller, borrower, LifecycleAction::Suspend, now) {
                Ok(v) => r is Ok && final(self)@ == v,
                Err(e) => r == Err::<(), ContractError>(e) && final(self)@ == old(self)@,
            },
    {
        self.lifecycle(caller, borrower, LifecycleAction::Suspend, now)
    }

    /// The borrower suspends their own Active credit line.
    pub fn self_suspend_credit_line(&mut self, borrower: AccountId, now: u64) -> (r: Result<(), ContractError>)
        requires
            old(self).wf(),
        ensures
            final(self).wf(),
            match lifecycle_spec(old(self)@, borrower, borrower, LifecycleAction::SelfSuspend, now) {
                Ok(v) => r is Ok && final(self)@ == v,
                Err(e) => r == Err::<(), ContractError>(e) && final(self)@ == old(self)@,
            },
    {
        self.lifecycle(borrower, borrower, LifecycleAction::SelfSuspend, now)
    }

    /// Mark a credit line Defaulted (admin only).
    pub fn default_credit_line(&mut self, caller: AccountId, borrower: AccountId, now: u64) -> (r: Result<(), ContractError>)
        requires
            old(self).wf(),
        ensures
            final(self).wf(),
            match lifecycle_spec(old(self)@, caller, borrower, LifecycleAction::Default, now) {
                Ok(v) => r is Ok && final(self)@ == v,
                Err(e) => r == Err::<(), ContractError>(e) && final(self)@ == old(self)@,
            },
    {
        self.lifecycle(caller, borrower, LifecycleAction::Default, now)
    }

    /// Reinstate a Defaulted credit line to `target_status`, which must be
    /// Active or Suspended (admin only).
    pub fn reinstate_credit_line(&mut self, caller: AccountId, borrower: AccountId, target_status: CreditStatus, now: u64)
        -> (r: Result<(), ContractError>)
        requires
            old(self).wf(),
        ensures
            final(self).wf(),
            target_status != CreditStatus::Active && target_status != CreditStatus::Suspended
                ==> r == Err::<(), ContractError>(ContractError::InvalidAmount) && final(self)@ == old(self)@,
            target_status == CreditStatus::Active ==> match lifecycle_spec(old(self)@, caller, borrower, LifecycleAction::ReinstateActive, now) {
                Ok(v) => r is Ok && final(self)@ == v,
                Err(e) => r == Err::<(), ContractError>(e) && final(self)@ == old(self)@,
            },
            target_status == CreditStatus::Suspended ==> match lifecycle_spec(old(self)@, caller, borrower, LifecycleAction::ReinstateSuspended, now) {
                Ok(v) => r is Ok && final(self)@ == v,
                Err(e) => r == Err::<(), ContractError>(e) && final(self)@ == old(self)@,
            },
    {
        match target_status {
            CreditStatus::Active => self.lifecycle(caller, borrower, LifecycleAction::ReinstateActive, now),
            CreditStatus::Suspended => self.lifecycle(caller, borrower, LifecycleAction::ReinstateSuspended, now),
            _ => Err(ContractError::InvalidAmount),
        }
    }

    /// Close a credit line. The admin may close any line; the borrower may
    /// close their own line once nothing is owed. Closing a Closed line is a
    /// no-op.
    pub fn close_credit_line(&mut self, borrower: AccountId, closer: AccountId, now: u64) -> (r: Result<(), ContractError>)
        requires
            old(self).wf(),
        ensures
            final(self).wf(),
            match close_spec(old(self)@, closer, borrower, now) {
                Ok(v) => r is Ok && final(self)@ == v,
                Err(e) => r == Err::<(), ContractError>(e) && final(self)@ == old(self)@,
            },
    {
        let is_admin = self.config.admin == Some(closer);
        if !is_admin && closer != borrower {
            return Err(ContractError::Unauthorized);
        }
        if is_admin {
            self.check_admin_cooldown(borrower, now)?;
        }
        let idx = match self.find_line(borrower) {
            Some(i) => i,
            None => return Err(ContractError::CreditLineNotFound),
        };
        if self.lines[idx].status == CreditStatus::Closed {
            if is_admin {
                self.record_admin_action(borrower, now);
            }
            return Ok(());
        }
        let (line, _outcome) = self.accrue_line(idx, now)?;
        if !is_admin && line.utilized_amount != 0 {
            return Err(ContractError::UtilizationNotZero);
        }
        let new_line = CreditLineData { status: CreditStatus::Closed, ..line };
        self.persist_line(idx, new_line)?;
        if is_admin {
            self.record_admin_action(borrower, now);
        }
        Ok(())
    }
}


/// The outcome of `forgive_debt`: after the admin and cooldown checks, a
/// positive amount (`InvalidAmount` otherwise) is forgiven on the accrued
/// line, capped at the debt and settling accrued interest first, as a
/// repayment would, but with no transfer.
pub open spec fn forgive_spec(v: CreditView, caller: AccountId, b: AccountId, amount: i128, now: u64)
    -> Result<CreditView, ContractError>
{
    if admin_error(v, caller) is Some {
        Err(admin_error(v, caller)->0)
    } else if admin_cooldown_error(v, b, now) is Some {
        Err(admin_cooldown_error(v, b, now)->0)
    } else if amount <= 0 {
        Err(ContractError::InvalidAmount)
    } else if !has_line(v.lines, b) {
        Err(ContractError::CreditLineNotFound)
    } else {
        let i = line_index(v.lines, b);
        let stored = v.lines[i];
        match accrual_spec(stored, accrual_ctx(v, b, stored, now)) {
            Err(e) => Err(e),
            Ok((line, _, _)) => {
                let forgiven = effective_repay_spec(amount as int, line.utilized_amount as int);
                let interest = interest_repaid_spec(forgiven, line.accrued_interest as int);
                let new_line = CreditLineData {
                    utilized_amount: (line.utilized_amount - forgiven) as i128,
                    accrued_interest: interest_after(line.accrued_interest, interest),
                    ..line
                };
                if !v.total_fits_with(i, new_line) {
                    Err(ContractError::Overflow)
                } else {
                    Ok(CreditView { last_admin_action_ts: admin_action_recorded(v, b, now), ..v.with_line(i, new_line) })
                }
            },
        }
    }
}

impl Credit {
    /// Forgive up to `amount` of `borrower`'s debt without any transfer
    /// (admin only), as described by [`forgive_spec`].
    pub fn forgive_debt(&mut self, caller: AccountId, borrower: AccountId, amount: i128, now: u64)
        -> (r: Result<(), ContractError>)
        requires
            old(self).wf(),
        ensures
            final(self).wf(),
            match forgive_spec(old(self)@, caller, borrower, amount, now) {
                Ok(v) => r is Ok && final(self)@ == v,
                Err(e) => r == Err::<(), ContractError>(e) && final(self)@ == old(self)@,
            },
    {
        self.check_admin(caller)?;
        self.check_admin_cooldown(borrower, now)?;
        if amount <= 0 {
            return Err(ContractError::InvalidAmount);
        }
        let idx = match self.find_line(borrower) {
            Some(i) => i,
            None => return Err(ContractError::CreditLineNotFound),
        };
        let (line, _outcome) = self.accrue_line(idx, now)?;
        let forgiven = crate::borrow::effective_repay(amount, line.utilized_amount);
        let interest = crate::borrow::interest_repaid(forgiven, line.accrued_interest);
        let new_line = CreditLineData {
            utilized_amount: line.utilized_amount - forgiven,
            accrued_interest: match line.accrued_interest.checked_sub(interest) {
                Some(x) => x,
                None => 0,
            },
            ..line
        };
        self.persist_line(idx, new_line)?;
        self.record_admin_action(borrower, now);
        Ok(())
    }
}

/// Most borrowers one batch close may name.
pub const BATCH_CLOSE_MAX: usize = 50;

/// Admin closes of `bs`, in order, each as by `close_credit_line` with
/// `closer` as the closer; the first failure is the outcome.
pub open spec fn close_batch_fold(v: CreditView, closer: AccountId, bs: Seq<AccountId>, now: u64) -> Result<CreditView, ContractError>
    decreases bs.len(),
{
    if bs.len() == 0 {
        Ok(v)
    } else {
        match close_batch_fold(v, closer, bs.drop_last(), now) {
            Err(e) => Err(e),
            Ok(v1) => close_spec(v1, closer, bs.last(), now),
        }
    }
}

/// The outcome of `close_credit_lines_batch`: more than
/// [`BATCH_CLOSE_MAX`] borrowers is `InvalidAmount`, then the admin check,
/// then the closes of [`close_batch_fold`].
pub open spec fn close_batch_spec(v: CreditView, caller: AccountId, bs: Seq<AccountId>, now: u64) -> Result<CreditView, ContractError> {
    if bs.len() > BATCH_CLOSE_MAX {
        Err(ContractError::InvalidAmount)
    } else if admin_error(v, caller) is Some {
        Err(admin_error(v, caller)->0)
    } else {
        close_batch_fold(v, caller, bs, now)
    }
}

/// Closing changes only the lines, the accumulators and the admin-action
/// clock.
pub open spec fn same_but_lines(v: CreditView, w: CreditView) -> bool {
    w == CreditView { config: w.config, lines: w.lines, last_admin_action_ts: w.last_admin_action_ts, ..v }
}

proof fn lemma_close_batch_err_extends(v: CreditView, closer: AccountId, bs: Seq<AccountId>, k: int, now: u64)
    requires
        0 <= k <= bs.len(),
        close_batch_fold(v, closer, bs.take(k), now) is Err,
    ensures
        close_batch_fold(v, closer, bs, now) == close_batch_fold(v, closer, bs.take(k), now),
    decreases bs.len(),
{
    if k == bs.len() {
        assert(bs.take(k) =~= bs);
    } else {
        assert(bs.drop_last().take(k) =~= bs.take(k));
        lemma_close_batch_err_extends(v, closer, bs.drop_last(), k, now);
    }
}

impl Credit {
    /// Close the lines of `borrowers` (admin only, at most
    /// [`BATCH_CLOSE_MAX`] of them), each as an admin close; the batch is
    /// atomic: on the first failure nothing is closed and that error is
    /// returned.
    pub fn close_credit_lines_batch(&mut self, caller: AccountId, borrowers: &Vec<AccountId>, now: u64)
        -> (r: Result<(), ContractError>)
        requires
            old(self).wf(),
        ensures
            final(self).wf(),
            match close_batch_spec(old(self)@, caller, borrowers@, now) {
                Ok(v) => r is Ok && final(self)@ == v,
                Err(e) => r == Err::<(), ContractError>(e) && final(self)@ == old(self)@,
            },
    {
        if borrowers.len() > BATCH_CLOSE_MAX {
            return Err(ContractError::InvalidAmount);
        }
        self.check_admin(caller)?;
        let saved_config = self.config;
        let saved_lines = self.copy_lines();
        let saved_admin_ts = self.last_admin_action_ts.clone();
        let ghost v0 = self@;
        let n = borrowers.len();
        let mut i: usize = 0;
        while i < n
            invariant
                n == borrowers@.len(),
                n <= BATCH_CLOSE_MAX,
                0 <= i <= n,
                self.wf(),
                v0.wf(),
                v0 == old(self)@,
                admin_error(v0, caller) is None,
                saved_config == v0.config,
                saved_lines@ == v0.lines,
                saved_admin_ts@ == v0.last_admin_action_ts,
                close_batch_fold(v0, caller, borrowers@.take(i as int), now) == Ok::<CreditView, ContractError>(self@),
                same_but_lines(v0, self@),
            decreases n - i,
        {
            let b = borrowers[i];
            let ghost before = self@;
            proof {
                assert(borrowers@.take(i as int + 1).drop_last() =~= borrowers@.take(i as int));
                assert(borrowers@.take(i as int + 1).last() == b);
            }
            match self.close_credit_line(b, caller, now) {
                Ok(()) => {},
                Err(e) => {
                    proof {
                        lemma_close_batch_err_extends(v0, caller, borrowers@, i as int + 1, now);
                    }
                    self.config = saved_config;
                    self.lines = saved_lines;
                    self.last_admin_action_ts = saved_admin_ts;
                    proof {
                        assert(self@ =~= v0);
                    }
                    return Err(e);
                },
            }
            i = i + 1;
        }
        proof {
            assert(borrowers@.take(n as int) =~= borrowers@);
        }
        Ok(())
    }
}

// ── Keeper accrual batch ─────────────────────────────────────────────────────

/// One borrower of an accrual batch: Active lines with debt are accrued and
/// persisted when interest accrued; other borrowers are skipped.
pub open spec fn batch_step(v: CreditView, b: AccountId, now: u64) -> Result<(CreditView, int), ContractError> {
    if has_line(v.lines, b) && v.lines[line_index(v.lines, b)].status == CreditStatus::Active
        && v.lines[line_index(v.lines, b)].utilized_amount > 0 {
        let i = line_index(v.lines, b);
        let stored = v.lines[i];
        match accrual_spec(stored, accrual_ctx(v, b, stored, now)) {
            Err(e) => Err(e),
            Ok((l, a, _)) =>
                if a > 0 {
                    if v.total_fits_with(i, l) { Ok((v.with_line(i, l), a)) } else { Err(ContractError::Overflow) }
                } else {
                    Ok((v, 0))
                },
        }
    } else {
        Ok((v, 0))
    }
}

/// An accrual batch over `bs`, in order: the final state, the number of
/// lines that accrued interest and the total interest accrued.
pub open spec fn batch_fold(v: CreditView, bs: Seq<AccountId>, now: u64) -> Result<(CreditView, int, int), ContractError>
    decreases bs.len(),
{
    if bs.len() == 0 {
        Ok((v, 0, 0))
    } else {
        match batch_fold(v, bs.drop_last(), now) {
            Err(e) => Err(e),
            Ok((v1, n, t)) => match batch_step(v1, bs.last(), now) {
                Err(e) => Err(e),
                Ok((v2, a)) => Ok((v2, n + if a > 0 { 1int } else { 0int }, t + a)),
            },
        }
    }
}

impl Credit {
    fn copy_lines(&self) -> (out: Vec<CreditLineData>)
        ensures
            out@ == self@.lines,
    {
        let mut out: Vec<CreditLineData> = Vec::new();
        let n = self.lines.len();
        let mut i: usize = 0;
        while i < n
            invariant
                n == self@.lines.len(),
                0 <= i <= n,
                out@ == self@.lines.take(i as int),
            decreases n - i,
        {
            out.push(self.lines[i]);
            i = i + 1;
            proof {
                assert(out@ =~= self@.lines.take(i as int));
            }
        }
        proof {
            assert(self@.lines.take(n as int) =~= self@.lines);
        }
        out
    }

    fn batch_step_exec(&mut self, b: AccountId, now: u64) -> (r: Result<i128, ContractError>)
        requires
            old(self).wf(),
        ensures
            final(self).wf(),
            match batch_step(old(self)@, b, now) {
                Ok((v, a)) => r == Ok::<i128, ContractError>(a as i128) && final(self)@ == v && 0 <= a
                    && old(self)@.config.total_utilized + a == v.config.total_utilized,
                Err(e) => r == Err::<i128, ContractError>(e) && final(self)@ == old(self)@,
            },
    {
        let idx = match self.find_line(b) {
            Some(i) => i,
            None => return Ok(0),
        };
        if self.lines[idx].status != CreditStatus::Active || self.lines[idx].utilized_amount <= 0 {
            return Ok(0);
        }
        let (line, outcome) = self.accrue_line(idx, now)?;
        proof {
            let stored = old(self)@.lines[idx as int];
            crate::accrual::law_accrual_capitalizes(stored, accrual_ctx(old(self)@, b, stored, now));
        }
        if outcome.accrued > 0 {
            self.persist_line(idx, line)?;
        }
        Ok(outcome.accrued)
    }

    /// Materialize interest for up to 50 borrowers (no auth; paused-gated).
    ///
    /// Missing lines, non-Active lines and lines without debt are skipped.
    /// Fails with `InvalidAmount` for more than 50 borrowers; any overflow
    /// reverts the whole batch. The reported total saturates at `i128::MAX`.
    pub fn accrue_batch(&mut self, borrowers: &Vec<AccountId>, now: u64) -> (r: Result<crate::accrual::AccrualBatchCompletedEvent, ContractError>)
        requires
            old(self).wf(),
        ensures
            final(self).wf(),
            old(self)@.config.paused ==> r == Err::<crate::accrual::AccrualBatchCompletedEvent, ContractError>(ContractError::Paused)
                && final(self)@ == old(self)@,
            !old(self)@.config.paused && borrowers@.len() > crate::accrual::ACCRUE_BATCH_MAX
                ==> r == Err::<crate::accrual::AccrualBatchCompletedEvent, ContractError>(ContractError::InvalidAmount)
                && final(self)@ == old(self)@,
            !old(self)@.config.paused && borrowers@.len() <= crate::accrual::ACCRUE_BATCH_MAX ==>
                match batch_fold(old(self)@, borrowers@, now) {
                    Ok((v, n, t)) => final(self)@ == v && r == Ok::<crate::accrual::AccrualBatchCompletedEvent, ContractError>(
                        crate::accrual::AccrualBatchCompletedEvent {
                            borrowers_processed: borrowers@.len() as u32,
                            lines_accrued: n as u32,
                            total_interest_accrued: (if t > i128::MAX { i128::MAX as int } else { t }) as i128,
                            timestamp: now,
                        }),
                    Err(e) => r == Err::<crate::accrual::AccrualBatchCompletedEvent, ContractError>(e) && final(self)@ == old(self)@,
                },
    {
        if self.config.paused {
            return Err(ContractError::Paused);
        }
        if borrowers.len() > 50 {
            return Err(ContractError::InvalidAmount);
        }
        let saved_lines = self.copy_lines();
        let saved_config = self.config;
        let n = borrowers.len();
        let mut i: usize = 0;
        let mut count: u32 = 0;
        let mut total: i128 = 0;
        let ghost v0 = self@;
        let ghost mut tg: int = 0;
        proof {
            assert(borrowers@.take(0) =~= Seq::<AccountId>::empty());
        }
        while i < n
            invariant
                self.wf(),
                v0 == old(self)@,
                v0.wf(),
                !v0.config.paused,
                n == borrowers@.len(),
                n <= 50,
                0 <= i <= n,
                saved_lines@ == v0.lines,
                saved_config == v0.config,
                batch_fold(v0, borrowers@.take(i as int), now) == Ok::<(CreditView, int, int), ContractError>((self@, count as int, tg)),
                count <= i,
                0 <= tg,
                total as int == (if tg > i128::MAX { i128::MAX as int } else { tg }),
                self@ == (CreditView { lines: self@.lines, config: self@.config, ..v0 }),
            decreases n - i,
        {
            let b = borrowers[i];
            proof {
                assert(borrowers@.take(i as int + 1).drop_last() =~= borrowers@.take(i as int));
            }
            match self.batch_step_exec(b, now) {
                Ok(a) => {
                    if a > 0 {
                        count = count + 1;
                    }
                    proof {
                        tg = tg + a;
                    }
                    total = if total > i128::MAX - a { i128::MAX } else { total + a };
                },
                Err(e) => {
                    self.lines = saved_lines;
                    self.config = saved_config;
                    proof {
                        assert(self@ == v0);
                        assert(batch_fold(v0, borrowers@.take(i as int + 1), now) == Err::<(CreditView, int, int), ContractError>(e));
                        assert forall|m: int| i + 1 <= m <= n implies #[trigger] batch_fold(v0, borrowers@.take(m), now)
                            == Err::<(CreditView, int, int), ContractError>(e) by {
                            lemma_batch_fold_err_persists(v0, borrowers@, i as int + 1, m, now, e);
                        }
                        assert(borrowers@.take(n as int) =~= borrowers@);
                    }
                    return Err(e);
                },
            }
            i = i + 1;
        }
        proof {
            assert(borrowers@.take(n as int) =~= borrowers@);
        }
        Ok(crate::accrual::AccrualBatchCompletedEvent {
            borrowers_processed: n as u32,
            lines_accrued: count,
            total_interest_accrued: total,
            timestamp: now,
        })
    }
}

proof fn lemma_batch_fold_err_persists(v: CreditView, bs: Seq<AccountId>, k: int, m: int, now: u64, e: ContractError)
    requires
        0 <= k <= m <= bs.len(),
        batch_fold(v, bs.take(k), now) == Err::<(CreditView, int, int), ContractError>(e),
    ensures
        batch_fold(v, bs.take(m), now) == Err::<(CreditView, int, int), ContractError>(e),
    decreases m - k,
{
    if m > k {
        lemma_batch_fold_err_persists(v, bs, k, m - 1, now, e);
        assert(bs.take(m).drop_last() =~= bs.take(m - 1));
    }
}


// ── Collateral ───────────────────────────────────────────────────────────────

/// A collateral token movement the host must perform.
#[derive(Clone, Copy, Debug, PartialEq, Eq, Structural)]
pub struct CollateralTransfer {
    /// Token contract to transfer with.
    pub token: AccountId,
    /// Sender of the tokens.
    pub from: AccountId,
    /// Receiver of the tokens.
    pub to: AccountId,
    /// Amount moved.
    pub amount: i128,
    /// The borrower's collateral balance afterwards.
    pub new_balance: i128,
    /// Health factor after a partial release (`u32::MAX` without debt).
    pub health_factor_bps: u32,
}

/// `v` with `b`'s collateral set to `new_balance` and the global collateral
/// accumulator adjusted, or `Overflow` when the accumulator leaves `i128`.
pub open spec fn with_collateral(v: CreditView, b: AccountId, new_balance: i128) -> Result<CreditView, ContractError> {
    let prev = get_or(v.collateral, b, 0i128);
    let total = v.config.total_collateral + (new_balance - prev);
    if total < i128::MIN || total > i128::MAX {
        Err(ContractError::Overflow)
    } else {
        Ok(CreditView {
            collateral: v.collateral.insert(b, new_balance),
            config: CreditConfig { total_collateral: total as i128, ..v.config },
            ..v
        })
    }
}

/// The debt that constrains `b`'s collateral: the stored line's utilized
/// amount, or 0 without a line.
pub open spec fn stored_utilized(v: CreditView, b: AccountId) -> int {
    if has_line(v.lines, b) { v.lines[line_index(v.lines, b)].utilized_amount as int } else { 0 }
}

/// The error of withdrawing `amount` of `b`'s collateral, if any.
pub open spec fn withdraw_error(v: CreditView, b: AccountId, amount: i128) -> Option<ContractError> {
    let cur = get_or(v.collateral, b, 0i128);
    let u = stored_utilized(v, b);
    if amount <= 0 {
        Some(ContractError::InvalidAmount)
    } else if amount > cur {
        Some(ContractError::InsufficientCollateralBalance)
    } else if u > 0 && u * min_ratio(v) > i128::MAX {
        Some(ContractError::Overflow)
    } else if u > 0 && cur - amount < u * min_ratio(v) / 10_000 {
        Some(ContractError::CollateralRatioBelowMinimum)
    } else if v.config.liquidity_token is None {
        Some(ContractError::MissingLiquidityToken)
    } else {
        None
    }
}

/// Health factor reported after a partial release:
/// `post_balance × 10_000 / utilized` (saturating), `u32::MAX` without debt.
/// Against a negative utilization (left by a draw reversal) the quotient,
/// rounded toward zero, is 0 while the numerator is smaller than the
/// utilization's magnitude and negative otherwise, which does not fit a
/// `u32` and reads as `u32::MAX`.
pub open spec fn release_health(post_balance: int, utilized: int) -> int {
    let num = if post_balance * 10_000 > i128::MAX { i128::MAX as int } else { post_balance * 10_000 };
    if utilized == 0 {
        u32::MAX as int
    } else if utilized < 0 {
        if num + utilized < 0 { 0 } else { u32::MAX as int }
    } else {
        let h = num / utilized;
        if h > u32::MAX as int { u32::MAX as int } else { h }
    }
}

impl Credit {
    fn set_collateral(&mut self, b: AccountId, new_balance: i128) -> (r: Result<(), ContractError>)
        requires
            old(self).wf(),
            new_balance >= 0,
        ensures
            final(self).wf(),
            match with_collateral(old(self)@, b, new_balance) {
                Ok(v) => r is Ok && final(self)@ == v,
                Err(e) => r == Err::<(), ContractError>(e) && final(self)@ == old(self)@,
            },
    {
        let prev = match map_get(&self.collateral, b) {
            Some(p) => p,
            None => 0,
        };
        let delta = new_balance - prev;
        let total = match self.config.total_collateral.checked_add(delta) {
            Some(t) => t,
            None => return Err(ContractError::Overflow),
        };
        self.collateral.insert(b, new_balance);
        self.config.total_collateral = total;
        Ok(())
    }

    fn stored_utilized_exec(&self, b: AccountId) -> (u: i128)
        requires
            self.wf(),
        ensures
            u == stored_utilized(self@, b),
    {
        match self.find_line(b) {
            Some(i) => self.lines[i].utilized_amount,
            None => 0,
        }
    }

    /// A borrower's collateral balance (0 when nothing was deposited).
    pub fn get_collateral(&self, borrower: AccountId) -> (c: i128)
        ensures
            c == get_or(self@.collateral, borrower, 0i128),
    {
        match map_get(&self.collateral, borrower) {
            Some(c) => c,
            None => 0,
        }
    }

    /// Deposit `amount` of collateral from the borrower into the contract.
    /// Depositing has no ratio check: more collateral is always safe.
    pub fn deposit_collateral(&mut self, borrower: AccountId, amount: i128) -> (r: Result<CollateralTransfer, ContractError>)
        requires
            old(self).wf(),
        ensures
            final(self).wf(),
            amount <= 0 ==> r == Err::<CollateralTransfer, ContractError>(ContractError::InvalidAmount) && final(self)@ == old(self)@,
            amount > 0 && old(self)@.config.liquidity_token is None
                ==> r == Err::<CollateralTransfer, ContractError>(ContractError::MissingLiquidityToken) && final(self)@ == old(self)@,
            amount > 0 && old(self)@.config.liquidity_token is Some ==> ({
                let cur = get_or(old(self)@.collateral, borrower, 0i128);
                if cur + amount > i128::MAX {
                    r == Err::<CollateralTransfer, ContractError>(ContractError::Overflow) && final(self)@ == old(self)@
                } else {
                    match with_collateral(old(self)@, borrower, (cur + amount) as i128) {
                        Ok(v) => final(self)@ == v && r == Ok::<CollateralTransfer, ContractError>(CollateralTransfer {
                            token: old(self)@.config.liquidity_token->0,
                            from: borrower,
                            to: old(self)@.contract_address,
                            amount,
                            new_balance: (cur + amount) as i128,
                            health_factor_bps: u32::MAX,
                        }),
                        Err(e) => r == Err::<CollateralTransfer, ContractError>(e) && final(self)@ == old(self)@,
                    }
                }
            }),
    {
        if amount <= 0 {
            return Err(ContractError::InvalidAmount);
        }
        let token = match self.config.liquidity_token {
            Some(t) => t,
            None => return Err(ContractError::MissingLiquidityToken),
        };
        let cur = self.get_collateral(borrower);
        let new_balance = match cur.checked_add(amount) {
            Some(n) => n,
            None => return Err(ContractError::Overflow),
        };
        self.set_collateral(borrower, new_balance)?;
        Ok(CollateralTransfer {
            token,
            from: borrower,
            to: self.contract_address,
            amount,
            new_balance,
            health_factor_bps: u32::MAX,
        })
    }

    fn check_withdraw(&self, borrower: AccountId, amount: i128) -> (r: Result<(AccountId, i128, i128), ContractError>)
        requires
            self.wf(),
        ensures
            r is Ok <==> withdraw_error(self@, borrower, amount) is None,
            r matches Err(e) ==> withdraw_error(self@, borrower, amount) == Some(e),
            r matches Ok((t, post, u)) ==> t == self@.config.liquidity_token->0
                && post == get_or(self@.collateral, borrower, 0i128) - amount
                && post >= 0
                && u == stored_utilized(self@, borrower),
    {
        if amount <= 0 {
            return Err(ContractError::InvalidAmount);
        }
        let cur = self.get_collateral(borrower);
        if amount > cur {
            return Err(ContractError::InsufficientCollateralBalance);
        }
        let post = cur - amount;
        let u = self.stored_utilized_exec(borrower);
        if u > 0 {
            let ratio: u32 = match self.config.min_collateral_ratio_bps {
                Some(r) => r,
                None => DEFAULT_MIN_COLLATERAL_RATIO_BPS,
            };
            let product = match u.checked_mul(ratio as i128) {
                Some(p) => p,
                None => return Err(ContractError::Overflow),
            };
            if post < product / 10_000 {
                return Err(ContractError::CollateralRatioBelowMinimum);
            }
        }
        let token = match self.config.liquidity_token {
            Some(t) => t,
            None => return Err(ContractError::MissingLiquidityToken),
        };
        Ok((token, post, u))
    }

    /// Withdraw `amount` of collateral to the borrower, keeping the balance
    /// at or above `utilized × min_ratio / 10_000` while debt is outstanding.
    pub fn withdraw_collateral(&mut self, borrower: AccountId, amount: i128) -> (r: Result<CollateralTransfer, ContractError>)
        requires
            old(self).wf(),
        ensures
            final(self).wf(),
            withdraw_error(old(self)@, borrower, amount) matches Some(e)
                ==> r == Err::<CollateralTransfer, ContractError>(e) && final(self)@ == old(self)@,
            withdraw_error(old(self)@, borrower, amount) is None ==> ({
                let post = (get_or(old(self)@.collateral, borrower, 0i128) - amount) as i128;
                match with_collateral(old(self)@, borrower, post) {
                    Ok(v) => final(self)@ == v && r == Ok::<CollateralTransfer, ContractError>(CollateralTransfer {
                        token: old(self)@.config.liquidity_token->0,
                        from: old(self)@.contract_address,
                        to: borrower,
                        amount,
                        new_balance: post,
                        health_factor_bps: u32::MAX,
                    }),
                    Err(e) => r == Err::<CollateralTransfer, ContractError>(e) && final(self)@ == old(self)@,
                }
            }),
    {
        let (token, post, _u) = self.check_withdraw(borrower, amount)?;
        self.set_collateral(borrower, post)?;
        Ok(CollateralTransfer { token, from: self.contract_address, to: borrower, amount, new_balance: post, health_factor_bps: u32::MAX })
    }

    /// Release part of the borrower's collateral under the same health guard
    /// as a withdrawal, reporting the resulting health factor
    /// `post_balance × 10_000 / utilized`.
    pub fn partial_release_collateral(&mut self, borrower: AccountId, amount: i128) -> (r: Result<CollateralTransfer, ContractError>)
        requires
            old(self).wf(),
        ensures
            final(self).wf(),
            withdraw_error(old(self)@, borrower, amount) matches Some(e)
                ==> r == Err::<CollateralTransfer, ContractError>(e) && final(self)@ == old(self)@,
            withdraw_error(old(self)@, borrower, amount) is None ==> ({
                let post = (get_or(old(self)@.collateral, borrower, 0i128) - amount) as i128;
                match with_collateral(old(self)@, borrower, post) {
                    Ok(v) => final(self)@ == v && r == Ok::<CollateralTransfer, ContractError>(CollateralTransfer {
                        token: old(self)@.config.liquidity_token->0,
                        from: old(self)@.contract_address,
                        to: borrower,
                        amount,
                        new_balance: post,
                        health_factor_bps: release_health(post as int, stored_utilized(old(self)@, borrower)) as u32,
                    }),
                    Err(e) => r == Err::<CollateralTransfer, ContractError>(e) && final(self)@ == old(self)@,
                }
            }),
    {
        let (token, post, u) = self.check_withdraw(borrower, amount)?;
        let num = match post.checked_mul(10_000) {
            Some(n) => n,
            None => i128::MAX,
        };
        let health: u32 = if u == 0 {
            u32::MAX
        } else if u < 0 {
            if num + u < 0 { 0 } else { u32::MAX }
        } else {
            let h = num / u;
            if h > u32::MAX as i128 { u32::MAX } else { h as u32 }
        };
        self.set_collateral(borrower, post)?;
        Ok(CollateralTransfer { token, from: self.contract_address, to: borrower, amount, new_balance: post, health_factor_bps: health })
    }

    /// Release collateral to the borrower without a ratio check (used by
    /// atomic repay-and-release flows, which compute the released amount).
    /// Releasing zero is a no-op.
    pub fn release_collateral(&mut self, borrower: AccountId, amount: i128) -> (r: Result<Option<CollateralTransfer>, ContractError>)
        requires
            old(self).wf(),
        ensures
            final(self).wf(),
            amount < 0 ==> r == Err::<Option<CollateralTransfer>, ContractError>(ContractError::InvalidAmount) && final(self)@ == old(self)@,
            amount == 0 ==> r == Ok::<Option<CollateralTransfer>, ContractError>(None) && final(self)@ == old(self)@,
            amount > 0 && amount > get_or(old(self)@.collateral, borrower, 0i128)
                ==> r == Err::<Option<CollateralTransfer>, ContractError>(ContractError::InsufficientCollateralBalance) && final(self)@ == old(self)@,
            amount > 0 && amount <= get_or(old(self)@.collateral, borrower, 0i128) && old(self)@.config.liquidity_token is None
                ==> r == Err::<Option<CollateralTransfer>, ContractError>(ContractError::MissingLiquidityToken) && final(self)@ == old(self)@,
            amount > 0 && amount <= get_or(old(self)@.collateral, borrower, 0i128) && old(self)@.config.liquidity_token is Some ==> ({
                let post = (get_or(old(self)@.collateral, borrower, 0i128) - amount) as i128;
                match with_collateral(old(self)@, borrower, post) {
                    Ok(v) => final(self)@ == v && r == Ok::<Option<CollateralTransfer>, ContractError>(Some(CollateralTransfer {
                        token: old(self)@.config.liquidity_token->0,
                        from: old(self)@.contract_address,
                        to: borrower,
                        amount,
                        new_balance: post,
                        health_factor_bps: u32::MAX,
                    })),
                    Err(e) => r == Err::<Option<CollateralTransfer>, ContractError>(e) && final(self)@ == old(self)@,
                }
            }),
    {
        if amount < 0 {
            return Err(ContractError::InvalidAmount);
        }
        if amount == 0 {
            return Ok(None);
        }
        let cur = self.get_collateral(borrower);
        if amount > cur {
            return Err(ContractError::InsufficientCollateralBalance);
        }
        let post = cur - amount;
        let token = match self.config.liquidity_token {
            Some(t) => t,
            None => return Err(ContractError::MissingLiquidityToken),
        };
        self.set_collateral(borrower, post)?;
        Ok(Some(CollateralTransfer { token, from: self.contract_address, to: borrower, amount, new_balance: post, health_factor_bps: u32::MAX }))
    }
}

/// The outcome of `repay_and_release_collateral`: the repayment of
/// `repay_credit`, then the release of the collateral share
/// [`collateral_release_spec`] of what it repaid against the debt owed
/// just before it (nothing when no debt was owed). A positive release needs
/// the liquidity token (`MissingLiquidityToken`); a share that cannot be
/// computed in `u128` is `Overflow`.
pub open spec fn repay_release_spec(v: CreditView, b: AccountId, amount: i128, now: u64)
    -> Result<(CreditView, RepayReceipt, Option<CollateralTransfer>), ContractError>
{
    match repay_spec(v, b, amount, now) {
        Err(e) => Err(e),
        Ok((v1, rr)) => {
            let prev = rr.new_utilized_amount + rr.effective_repay;
            let eff = rr.effective_repay as int;
            let bal = get_or(v1.collateral, b, 0i128) as int;
            if prev > 0 && eff < prev && bal * eff > u128::MAX {
                Err(ContractError::Overflow)
            } else {
                let rel = if prev > 0 { collateral_release_spec(bal, eff, prev) } else { 0 };
                if rel == 0 {
                    Ok((v1, rr, None))
                } else if v1.config.liquidity_token is None {
                    Err(ContractError::MissingLiquidityToken)
                } else {
                    match with_collateral(v1, b, (bal - rel) as i128) {
                        Err(e) => Err(e),
                        Ok(v2) => Ok((v2, rr, Some(CollateralTransfer {
                            token: v1.config.liquidity_token->0,
                            from: v1.contract_address,
                            to: b,
                            amount: rel as i128,
                            new_balance: (bal - rel) as i128,
                            health_factor_bps: u32::MAX,
                        }))),
                    }
                }
            }
        },
    }
}

impl Credit {
    /// Repay as `repay_credit` does and, in the same step, release the
    /// proportional share of the borrower's collateral: all of it when the
    /// repayment clears the debt, otherwise `collateral × repaid / debt`
    /// rounded down. Atomic: when the release fails, the repayment is not
    /// applied either.
    pub fn repay_and_release_collateral(&mut self, borrower: AccountId, amount: i128, now: u64)
        -> (r: Result<(RepayReceipt, Option<CollateralTransfer>), ContractError>)
        requires
            old(self).wf(),
        ensures
            final(self).wf(),
            match repay_release_spec(old(self)@, borrower, amount, now) {
                Ok((v, rr, t)) => r == Ok::<(RepayReceipt, Option<CollateralTransfer>), ContractError>((rr, t))
                    && final(self)@ == v,
                Err(e) => r == Err::<(RepayReceipt, Option<CollateralTransfer>), ContractError>(e)
                    && final(self)@ == old(self)@,
            },
    {
        let saved_config = self.config;
        let saved_lines = self.copy_lines();
        let rr = self.repay_credit(borrower, amount, now)?;
        let eff = rr.effective_repay;
        let prev: i128 = rr.new_utilized_amount + eff;
        let bal = self.get_collateral(borrower);
        let mut rel: i128 = 0;
        if prev > 0 {
            if eff < prev {
                match (bal as u128).checked_mul(eff as u128) {
                    Some(_) => {},
                    None => {
                        self.config = saved_config;
                        self.lines = saved_lines;
                        proof {
                            assert(self@ =~= old(self)@);
                        }
                        return Err(ContractError::Overflow);
                    },
                }
            }
            rel = collateral_release_amount(bal, eff, prev);
        }
        match self.release_collateral(borrower, rel) {
            Ok(t) => Ok((rr, t)),
            Err(e) => {
                self.config = saved_config;
                self.lines = saved_lines;
                proof {
                    assert(self@ =~= old(self)@);
                }
                Err(e)
            },
        }
    }
}

} // verus!

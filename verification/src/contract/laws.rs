//! Properties that relate several entrypoints or hold of every state.

use vstd::prelude::*;
use super::{
    accrual_ctx, batch_fold, batch_step, close_spec, lemma_sum_update, draw_spec, has_line, lemma_line_index, line_index, line_of, repay_spec,
    get_or, reverse_draw_spec, update_risk_spec, withdraw_error, CreditConfig, CreditView,
};
use super::queries::credit_health;
use super::collateral_admin::pair_key;
use crate::accrual::{accrual_spec, law_accrual_capitalizes};
use crate::types::{AccountId, ContractError, CreditLineData, CreditStatus};

verus! {

/// `v` with the circuit breaker set to `paused`.
pub open spec fn with_paused(v: CreditView, paused: bool) -> CreditView {
    CreditView { config: CreditConfig { paused, ..v.config }, ..v }
}

/// Repayment is not pause-gated: with the circuit breaker engaged a
/// repayment fails or succeeds exactly as it would without it, with the
/// same receipt and the same effect on every line and balance.
pub proof fn law_repay_not_pause_gated(v: CreditView, b: AccountId, amount: i128, now: u64)
    ensures
        match (repay_spec(with_paused(v, true), b, amount, now), repay_spec(with_paused(v, false), b, amount, now)) {
            (Ok((v1, r1)), Ok((v2, r2))) => r1 == r2 && with_paused(v1, false) == v2,
            (Err(e1), Err(e2)) => e1 == e2,
            _ => false,
        },
{
    let vp = with_paused(v, true);
    let vu = with_paused(v, false);
    assert(vp.lines == vu.lines);
    match (repay_spec(vp, b, amount, now), repay_spec(vu, b, amount, now)) {
        (Ok((v1, r1)), Ok((v2, r2))) => {
            assert(with_paused(v1, false) =~= v2);
        },
        _ => {},
    }
}

/// While draws are frozen, every draw of a positive amount is refused with
/// `DrawsFrozen` (unless the circuit breaker refuses it first).
pub proof fn law_frozen_draws_refused(v: CreditView, b: AccountId, amount: i128, now: u64, reserve: i128)
    requires
        v.config.draws_frozen,
        !v.config.paused,
        amount > 0,
    ensures
        draw_spec(v, b, amount, now, reserve) == Err::<(CreditView, super::DrawReceipt), ContractError>(ContractError::DrawsFrozen),
{
}

/// A successful draw keeps the line within its credit limit.
pub proof fn law_draw_within_limit(v: CreditView, b: AccountId, amount: i128, now: u64, reserve: i128)
    requires
        v.wf(),
        draw_spec(v, b, amount, now, reserve) is Ok,
    ensures
        line_of(draw_spec(v, b, amount, now, reserve)->Ok_0.0, b) matches Some(l) && l.utilized_amount <= l.credit_limit,
{
    let v1 = draw_spec(v, b, amount, now, reserve)->Ok_0.0;
    let i = line_index(v.lines, b);
    lemma_line_index(v1.lines, b, i);
}

/// A borrower can close their own open line only once it owes nothing;
/// the line is then `Closed` with zero utilization. (Closing an already
/// closed line changes nothing, whatever it still owes after an admin
/// force-close.)
pub proof fn law_borrower_close_needs_zero_debt(v: CreditView, b: AccountId, now: u64)
    requires
        v.wf(),
        v.config.admin != Some(b),
        line_of(v, b) matches Some(l) && l.status != CreditStatus::Closed,
        close_spec(v, b, b, now) is Ok,
    ensures
        line_of(close_spec(v, b, b, now)->Ok_0, b) matches Some(l) && l.status == CreditStatus::Closed
            && l.utilized_amount == 0,
{
    let v1 = close_spec(v, b, b, now)->Ok_0;
    let i = line_index(v.lines, b);
    lemma_line_index(v1.lines, b, i);
}

/// Repaying what was just drawn, at the same time and with no interest
/// pending since the line's last checkpoint, returns the line's utilization
/// and the protocol's total utilization to what they were before the draw,
/// when that utilization was not negative (a repayment never leaves a
/// negative utilization behind).
/// Without a protocol fee or a repayment cap such a repayment succeeds.
pub proof fn law_repay_undoes_draw(v: CreditView, b: AccountId, amount: i128, now: u64, reserve: i128)
    requires
        v.wf(),
        draw_spec(v, b, amount, now, reserve) is Ok,
        now <= v.lines[line_index(v.lines, b)].last_accrual_ts,
        v.lines[line_index(v.lines, b)].utilized_amount >= 0,
    ensures
        ({
            let v1 = draw_spec(v, b, amount, now, reserve)->Ok_0.0;
            &&& (v.config.protocol_fee_bps is None && v.config.max_repay_amount is None)
                ==> repay_spec(v1, b, amount, now) is Ok
            &&& repay_spec(v1, b, amount, now) is Ok ==> {
                let v2 = repay_spec(v1, b, amount, now)->Ok_0.0;
                &&& line_of(v2, b) matches Some(l)
                    && l.utilized_amount == v.lines[line_index(v.lines, b)].utilized_amount
                &&& v2.config.total_utilized == v.config.total_utilized
            }
        }),
{
    let v1 = draw_spec(v, b, amount, now, reserve)->Ok_0.0;
    let i = line_index(v.lines, b);
    lemma_line_index(v1.lines, b, i);
    if repay_spec(v1, b, amount, now) is Ok {
        let v2 = repay_spec(v1, b, amount, now)->Ok_0.0;
        lemma_line_index(v2.lines, b, i);
    }
}

/// A risk update never moves a line's rate-change time backwards: a
/// successful update leaves it as it was or sets it to a time no earlier.
pub proof fn law_rate_update_time_monotone(v: CreditView, caller: AccountId, b: AccountId, limit: i128, rate: u32,
    score: u32, now: u64)
    requires
        v.wf(),
        update_risk_spec(v, caller, b, limit, rate, score, now) is Ok,
    ensures
        line_of(update_risk_spec(v, caller, b, limit, rate, score, now)->Ok_0, b) matches Some(l)
            && l.last_rate_update_ts >= v.lines[line_index(v.lines, b)].last_rate_update_ts,
{
    let v1 = update_risk_spec(v, caller, b, limit, rate, score, now)->Ok_0;
    let i = line_index(v.lines, b);
    lemma_line_index(v1.lines, b, i);
}

/// One borrower of an accrual batch is accrued exactly as a single
/// accrual of that line would be: a borrower without a line, with a line
/// that is not Active, or with no debt is skipped and the state left as
/// it was; otherwise the batch fails where accrual fails, and on success
/// the borrower's line becomes the accrued line and the protocol's total
/// utilization grows by the interest accrued (the only other failure being
/// an overflow of that total).
pub proof fn law_batch_step_is_accrual(v: CreditView, b: AccountId, now: u64)
    requires
        v.wf(),
    ensures
        !(has_line(v.lines, b) && v.lines[line_index(v.lines, b)].status == CreditStatus::Active
            && v.lines[line_index(v.lines, b)].utilized_amount > 0)
            ==> batch_step(v, b, now) == Ok::<(CreditView, int), ContractError>((v, 0int)),
        (has_line(v.lines, b) && v.lines[line_index(v.lines, b)].status == CreditStatus::Active
            && v.lines[line_index(v.lines, b)].utilized_amount > 0) ==> {
            let stored = v.lines[line_index(v.lines, b)];
            match accrual_spec(stored, accrual_ctx(v, b, stored, now)) {
                Err(e) => batch_step(v, b, now) == Err::<(CreditView, int), ContractError>(e),
                Ok((l, a, _)) => match batch_step(v, b, now) {
                    Ok((v1, a1)) => a1 == a && line_of(v1, b) == Some(l)
                        && v1.config.total_utilized == v.config.total_utilized + a,
                    Err(e) => e == ContractError::Overflow,
                },
            }
        },
{
    if has_line(v.lines, b) {
        let i = line_index(v.lines, b);
        let stored = v.lines[i];
        law_accrual_capitalizes(stored, accrual_ctx(v, b, stored, now));
        lemma_line_index(v.lines, b, i);
        if batch_step(v, b, now) is Ok {
            let v1 = batch_step(v, b, now)->Ok_0.0;
            lemma_line_index(v1.lines, b, i);
        }
    }
}

/// An accrual batch and a risk update that keeps the line's terms leave
/// the same debt: when both succeed on an Active line whose utilization is
/// not negative, the line's utilized amount and accrued interest are the
/// same after either. (A batch skips a negative utilization, which a risk
/// update still accrues.)
pub proof fn law_batch_agrees_with_risk_update(v: CreditView, caller: AccountId, b: AccountId, now: u64)
    requires
        v.wf(),
        line_of(v, b) matches Some(line) && line.status == CreditStatus::Active && line.utilized_amount >= 0,
        batch_step(v, b, now) is Ok,
        update_risk_spec(v, caller, b, line_of(v, b)->0.credit_limit, line_of(v, b)->0.interest_rate_bps,
            line_of(v, b)->0.risk_score, now) is Ok,
    ensures
        ({
            let line = line_of(v, b)->0;
            let v1 = batch_step(v, b, now)->Ok_0.0;
            let v2 = update_risk_spec(v, caller, b, line.credit_limit, line.interest_rate_bps, line.risk_score, now)->Ok_0;
            &&& line_of(v1, b) matches Some(l1)
            &&& line_of(v2, b) matches Some(l2)
            &&& l1.utilized_amount == l2.utilized_amount
            &&& l1.accrued_interest == l2.accrued_interest
        }),
{
    let i = line_index(v.lines, b);
    let stored = v.lines[i];
    law_accrual_capitalizes(stored, accrual_ctx(v, b, stored, now));
    let line = line_of(v, b)->0;
    let v1 = batch_step(v, b, now)->Ok_0.0;
    let v2 = update_risk_spec(v, caller, b, line.credit_limit, line.interest_rate_bps, line.risk_score, now)->Ok_0;
    lemma_line_index(v1.lines, b, i);
    lemma_line_index(v2.lines, b, i);
}

/// A draw can be reversed by the admin right away: after a successful
/// draw with no interest pending since the line's last checkpoint, and
/// with nothing yet reversed of that borrower's draws at that time,
/// reversing the whole amount succeeds and returns the line's utilization
/// and the protocol's total utilization to what they were before the draw.
pub proof fn law_reverse_undoes_draw(v: CreditView, admin: AccountId, b: AccountId, amount: i128, now: u64, reserve: i128)
    requires
        v.wf(),
        v.config.admin == Some(admin),
        draw_spec(v, b, amount, now, reserve) is Ok,
        now <= v.lines[line_index(v.lines, b)].last_accrual_ts,
        !v.draw_reversed.contains_key(pair_key(b, now)),
    ensures
        ({
            let v1 = draw_spec(v, b, amount, now, reserve)->Ok_0.0;
            &&& reverse_draw_spec(v1, admin, b, amount, now, now) is Ok
            &&& line_of(reverse_draw_spec(v1, admin, b, amount, now, now)->Ok_0, b) matches Some(l)
                && l.utilized_amount == v.lines[line_index(v.lines, b)].utilized_amount
            &&& reverse_draw_spec(v1, admin, b, amount, now, now)->Ok_0.config.total_utilized == v.config.total_utilized
        }),
{
    let v1 = draw_spec(v, b, amount, now, reserve)->Ok_0.0;
    let i = line_index(v.lines, b);
    lemma_line_index(v1.lines, b, i);
    assert(v1.draw_audit.contains_key(pair_key(b, now)));
    let v2 = reverse_draw_spec(v1, admin, b, amount, now, now)->Ok_0;
    if reverse_draw_spec(v1, admin, b, amount, now, now) is Ok {
        lemma_line_index(v2.lines, b, i);
    }
}

proof fn lemma_batch_step_keeps_wf(v: CreditView, b: AccountId, now: u64)
    requires
        v.wf(),
        batch_step(v, b, now) is Ok,
    ensures
        batch_step(v, b, now)->Ok_0.0.wf(),
        batch_step(v, b, now)->Ok_0.1 >= 0,
        batch_step(v, b, now)->Ok_0.0.config.total_utilized == v.config.total_utilized + batch_step(v, b, now)->Ok_0.1,
{
    if has_line(v.lines, b) {
        let i = line_index(v.lines, b);
        let stored = v.lines[i];
        law_accrual_capitalizes(stored, accrual_ctx(v, b, stored, now));
        if stored.status == CreditStatus::Active && stored.utilized_amount > 0 {
            if let Ok((l, a, _)) = accrual_spec(stored, accrual_ctx(v, b, stored, now)) {
                if a > 0 {
                    lemma_sum_update(v.lines, i, l);
                    let v1 = v.with_line(i, l);
                    assert(forall|p: int| 0 <= p < v1.lines.len() && p != i ==> v1.lines[p] == v.lines[p]);
                }
            }
        }
    }
}

/// An accrual batch keeps the state well-formed, and the protocol's total
/// utilization grows by exactly the interest the batch reports as accrued.
pub proof fn law_batch_total_grows_by_accrued(v: CreditView, bs: Seq<AccountId>, now: u64)
    requires
        v.wf(),
    ensures
        batch_fold(v, bs, now) matches Ok((v1, _, t)) ==> v1.wf() && t >= 0
            && v1.config.total_utilized == v.config.total_utilized + t,
    decreases bs.len(),
{
    if bs.len() > 0 {
        law_batch_total_grows_by_accrued(v, bs.drop_last(), now);
        if let Ok((v1, _, _)) = batch_fold(v, bs.drop_last(), now) {
            if batch_step(v1, bs.last(), now) is Ok {
                lemma_batch_step_keeps_wf(v1, bs.last(), now);
            }
        }
    }
}

/// What an accrual batch over `bs` leaves as `b`'s line: when `b` is named
/// and holds an Active line with debt, that line accrued once at `now`;
/// otherwise the line as it was (or none).
pub open spec fn batch_line_after(v: CreditView, bs: Seq<AccountId>, b: AccountId, now: u64) -> Option<CreditLineData> {
    if has_line(v.lines, b) && bs.contains(b) && v.lines[line_index(v.lines, b)].status == CreditStatus::Active
        && v.lines[line_index(v.lines, b)].utilized_amount > 0 {
        let stored = v.lines[line_index(v.lines, b)];
        match accrual_spec(stored, accrual_ctx(v, b, stored, now)) {
            Ok((l, _, _)) => Some(l),
            Err(_) => line_of(v, b),
        }
    } else {
        line_of(v, b)
    }
}

/// The parts of the state an accrual batch reads and never writes.
pub open spec fn batch_frame(v: CreditView, w: CreditView) -> bool {
    &&& w.wf()
    &&& w.lines.len() == v.lines.len()
    &&& forall|j: int| 0 <= j < v.lines.len() ==> #[trigger] w.lines[j].borrower == v.lines[j].borrower
    &&& w.schedules == v.schedules
    &&& w.liquidation_grace == v.liquidation_grace
    &&& w.config.grace == v.config.grace
    &&& w.config.penalty_surcharge_bps == v.config.penalty_surcharge_bps
}

proof fn lemma_batch_step_frame(w: CreditView, c: AccountId, now: u64)
    requires
        w.wf(),
        batch_step(w, c, now) is Ok,
    ensures
        batch_frame(w, batch_step(w, c, now)->Ok_0.0),
        forall|b: AccountId| b != c ==> #[trigger] line_of(batch_step(w, c, now)->Ok_0.0, b) == line_of(w, b),
{
    lemma_batch_step_keeps_wf(w, c, now);
    let w2 = batch_step(w, c, now)->Ok_0.0;
    if has_line(w.lines, c) {
        let i = line_index(w.lines, c);
        law_accrual_capitalizes(w.lines[i], accrual_ctx(w, c, w.lines[i], now));
    }
    assert forall|b: AccountId| b != c implies #[trigger] line_of(w2, b) == line_of(w, b) by {
        if has_line(w.lines, b) {
            let ib = line_index(w.lines, b);
            lemma_line_index(w.lines, b, ib);
            if has_line(w.lines, c) {
                lemma_line_index(w.lines, c, line_index(w.lines, c));
            }
            assert(w2.lines[ib] == w.lines[ib]);
            lemma_line_index(w2.lines, b, ib);
        } else if has_line(w2.lines, b) {
            let j = line_index(w2.lines, b);
            assert(w.lines[j].borrower == b);
        }
    }
}

proof fn lemma_batch_fold_frame(v: CreditView, bs: Seq<AccountId>, now: u64)
    requires
        v.wf(),
        batch_fold(v, bs, now) is Ok,
    ensures
        batch_frame(v, batch_fold(v, bs, now)->Ok_0.0),
    decreases bs.len(),
{
    if bs.len() > 0 {
        lemma_batch_fold_frame(v, bs.drop_last(), now);
        let w = batch_fold(v, bs.drop_last(), now)->Ok_0.0;
        lemma_batch_step_frame(w, bs.last(), now);
    }
}

/// An accrual batch accrues every line it names exactly as a single
/// accrual would, once, however often the borrower is named: after a
/// successful batch each borrower's line is [`batch_line_after`]. Borrowers
/// without a line, with a line that is not Active or with no debt, and
/// borrowers not named, keep their lines unchanged.
pub proof fn law_batch_accrues_each_line(v: CreditView, bs: Seq<AccountId>, b: AccountId, now: u64)
    requires
        v.wf(),
        batch_fold(v, bs, now) is Ok,
    ensures
        line_of(batch_fold(v, bs, now)->Ok_0.0, b) == batch_line_after(v, bs, b, now),
    decreases bs.len(),
{
    if bs.len() == 0 {
        return;
    }
    let p = bs.drop_last();
    let c = bs.last();
    assert(bs == p.push(c));
    assert(bs.contains(b) == (p.contains(b) || c == b)) by {
        if bs.contains(b) && c != b {
            let k = choose|k: int| 0 <= k < bs.len() && bs[k] == b;
            assert(p[k] == b);
        }
        if p.contains(b) {
            let k = choose|k: int| 0 <= k < p.len() && p[k] == b;
            assert(bs[k] == b);
        }
        if c == b {
            assert(bs[bs.len() - 1] == b);
        }
    }
    law_batch_accrues_each_line(v, p, b, now);
    lemma_batch_fold_frame(v, p, now);
    let w = batch_fold(v, p, now)->Ok_0.0;
    lemma_batch_step_frame(w, c, now);
    if c == b {
        if has_line(v.lines, b) {
            let i = line_index(v.lines, b);
            let stored = v.lines[i];
            lemma_line_index(v.lines, b, i);
            lemma_line_index(w.lines, b, i);
            assert(accrual_ctx(w, b, stored, now) == accrual_ctx(v, b, stored, now));
            law_accrual_capitalizes(stored, accrual_ctx(v, b, stored, now));
            law_batch_step_is_accrual(w, b, now);
            if let Ok((l, a, _)) = accrual_spec(stored, accrual_ctx(v, b, stored, now)) {
                assert(accrual_ctx(w, b, l, now) == accrual_ctx(v, b, l, now));
                law_accrual_capitalizes(l, accrual_ctx(v, b, l, now));
            }
        } else {
            if has_line(w.lines, b) {
                let j = line_index(w.lines, b);
                assert(v.lines[j].borrower == b);
            }
        }
    }
}

/// The minimum collateral ratio in force: the configured one, else 150 %.
pub open spec fn configured_min_ratio(v: CreditView) -> int {
    match v.config.min_collateral_ratio_bps {
        Some(r) => r as int,
        None => 15_000,
    }
}

/// A successful draw leaves the borrower's collateral covering the whole
/// debt after the draw (not only the amount drawn) at the minimum ratio in
/// force: `collateral >= utilized × ratio / 10 000`, the ratio being the
/// configured one and 150 % only when none is configured.
pub proof fn law_draw_keeps_min_collateral(v: CreditView, b: AccountId, amount: i128, now: u64, reserve: i128)
    requires
        v.wf(),
        draw_spec(v, b, amount, now, reserve) is Ok,
    ensures
        ({
            let v1 = draw_spec(v, b, amount, now, reserve)->Ok_0.0;
            &&& v1.config.min_collateral_ratio_bps == v.config.min_collateral_ratio_bps
            &&& line_of(v1, b) is Some
            &&& (line_of(v1, b)->0.utilized_amount > 0
                ==> get_or(v1.collateral, b, 0i128) >= line_of(v1, b)->0.utilized_amount * configured_min_ratio(v) / 10_000)
        }),
{
    let v1 = draw_spec(v, b, amount, now, reserve)->Ok_0.0;
    let i = line_index(v.lines, b);
    lemma_line_index(v1.lines, b, i);
}

/// A successful collateral withdrawal leaves a balance (`balance − amount`)
/// that covers the stored debt at the minimum ratio in force — the
/// configured one, 150 % only when none is configured — and a withdrawal
/// that would leave less is refused with `CollateralRatioBelowMinimum`
/// (or `Overflow` when the requirement leaves `i128`).
pub proof fn law_withdraw_keeps_min_collateral(v: CreditView, b: AccountId, amount: i128)
    requires
        v.wf(),
    ensures
        withdraw_error(v, b, amount) is None ==> {
            &&& 0 < amount <= get_or(v.collateral, b, 0i128)
            &&& (line_of(v, b) is Some && line_of(v, b)->0.utilized_amount > 0
                ==> get_or(v.collateral, b, 0i128) - amount >= line_of(v, b)->0.utilized_amount * configured_min_ratio(v) / 10_000)
        },
        (0 < amount <= get_or(v.collateral, b, 0i128) && line_of(v, b) is Some && line_of(v, b)->0.utilized_amount > 0
            && get_or(v.collateral, b, 0i128) - amount < line_of(v, b)->0.utilized_amount * configured_min_ratio(v) / 10_000)
            ==> withdraw_error(v, b, amount) == Some(ContractError::CollateralRatioBelowMinimum)
                || withdraw_error(v, b, amount) == Some(ContractError::Overflow),
{
}

/// The reported health factor of a borrower with debt is
/// `collateral × 10^8 / (utilized × ratio)` rounded down, saturating only at
/// `u32::MAX`, with the ratio in force (150 % only when none is configured);
/// it is `u32::MAX` without a line or without debt.
pub proof fn law_credit_health_formula(v: CreditView, b: AccountId)
    requires
        v.wf(),
    ensures
        line_of(v, b) is None ==> credit_health(v, b) == u32::MAX as int,
        line_of(v, b) is Some && line_of(v, b)->0.utilized_amount <= 0 ==> credit_health(v, b) == u32::MAX as int,
        line_of(v, b) is Some && line_of(v, b)->0.utilized_amount > 0 && configured_min_ratio(v) > 0
            && get_or(v.collateral, b, 0i128) * 100_000_000 <= u128::MAX
            && line_of(v, b)->0.utilized_amount * configured_min_ratio(v) <= u128::MAX
            ==> credit_health(v, b) == ({
                let q = get_or(v.collateral, b, 0i128) * 100_000_000
                    / (line_of(v, b)->0.utilized_amount * configured_min_ratio(v));
                if q > u32::MAX { u32::MAX as int } else { q }
            }),
{
    if line_of(v, b) is Some {
        let l = line_of(v, b)->0;
        let c = get_or(v.collateral, b, 0i128) as int;
        if v.collateral.contains_key(b) {
            assert(v.collateral[b] >= 0);
        }
        if l.utilized_amount > 0 && configured_min_ratio(v) > 0 && c * 100_000_000 <= u128::MAX
            && l.utilized_amount * configured_min_ratio(v) <= u128::MAX {
            crate::query::law_health_factor_formula(l.utilized_amount as int, c, c, configured_min_ratio(v));
        }
    }
}

/// Every check a successful draw passes, stated on the inputs and the
/// resulting state: the protocol is neither paused nor draw-frozen, the
/// borrower is neither frozen, blocked nor on a frozen line, the amount is
/// positive and within the per-draw maximum, the (accrued) line is Active
/// or Restricted, the draw cooldown has passed, and the utilization after
/// the draw — the accrued utilization plus the amount — stays within the
/// credit limit, the borrower's utilization cap and exposure cap; the
/// protocol's total after the draw stays within its exposure cap, a
/// liquidity token and source are configured and the reserve holds the
/// amount. The receipt moves exactly `amount` from the source to the
/// borrower, and the protocol total grows by what the line's utilization
/// grew.
pub proof fn law_draw_checks(v: CreditView, b: AccountId, amount: i128, now: u64, reserve: i128)
    requires
        v.wf(),
        draw_spec(v, b, amount, now, reserve) is Ok,
    ensures
        ({
            let (v1, receipt) = draw_spec(v, b, amount, now, reserve)->Ok_0;
            let stored = v.lines[line_index(v.lines, b)];
            let accrued = accrual_spec(stored, accrual_ctx(v, b, stored, now));
            let after = line_of(v1, b)->0;
            &&& !v.config.paused && !v.config.draws_frozen
            &&& amount > 0
            &&& !(v.frozen_until.contains_key(b) && now < v.frozen_until[b])
            &&& !v.frozen_lines.contains(b) && !v.blocked.contains(b)
            &&& (v.config.max_draw_amount is Some ==> amount <= v.config.max_draw_amount->0)
            &&& has_line(v.lines, b) && accrued is Ok && line_of(v1, b) is Some
            &&& after.utilized_amount == accrued->Ok_0.0.utilized_amount + amount
            &&& (after.status == CreditStatus::Active || after.status == CreditStatus::Restricted)
            &&& after.status == stored.status && after.credit_limit == stored.credit_limit
            &&& after.utilized_amount <= after.credit_limit
            &&& ((v.config.draw_min_interval is Some && v.last_draw_ts.contains_key(b))
                ==> now >= v.last_draw_ts[b] + v.config.draw_min_interval->0 || v.last_draw_ts[b] + v.config.draw_min_interval->0 > u64::MAX)
            &&& (v.utilization_cap_bps.contains_key(b)
                ==> after.utilized_amount <= after.credit_limit * v.utilization_cap_bps[b] / 10_000)
            &&& (v.exposure_cap.contains_key(b) ==> after.utilized_amount <= v.exposure_cap[b])
            &&& (v.config.max_total_exposure is Some ==> v.config.total_utilized + amount <= v.config.max_total_exposure->0)
            &&& v.config.liquidity_token is Some && v.config.liquidity_source is Some
            &&& reserve >= amount
            &&& receipt.amount == amount && receipt.to == b
            &&& receipt.from == v.config.liquidity_source->0 && receipt.token == v.config.liquidity_token->0
            &&& receipt.new_utilized_amount == after.utilized_amount
            &&& v1.config.total_utilized - v.config.total_utilized == after.utilized_amount - stored.utilized_amount
            &&& v1.last_draw_ts == v.last_draw_ts.insert(b, now)
        }),
{
    let v1 = draw_spec(v, b, amount, now, reserve)->Ok_0.0;
    let i = line_index(v.lines, b);
    let stored = v.lines[i];
    law_accrual_capitalizes(stored, accrual_ctx(v, b, stored, now));
    lemma_line_index(v1.lines, b, i);
}

/// A draw is refused for collateral only when the collateral really falls
/// short: `CollateralRatioBelowMinimum` means the borrower has a line, its
/// accrued utilization plus the amount is positive, and the collateral is
/// below that total times the ratio in force over 10 000.
pub proof fn law_draw_collateral_refusal(v: CreditView, b: AccountId, amount: i128, now: u64, reserve: i128)
    requires
        v.wf(),
        draw_spec(v, b, amount, now, reserve) == Err::<(CreditView, super::DrawReceipt), ContractError>(
            ContractError::CollateralRatioBelowMinimum),
    ensures
        ({
            let stored = v.lines[line_index(v.lines, b)];
            let accrued = accrual_spec(stored, accrual_ctx(v, b, stored, now));
            &&& has_line(v.lines, b) && accrued is Ok
            &&& accrued->Ok_0.0.utilized_amount + amount > 0
            &&& get_or(v.collateral, b, 0i128)
                < (accrued->Ok_0.0.utilized_amount + amount) * configured_min_ratio(v) / 10_000
        }),
{
}

/// A withdrawal is refused for collateral only when the balance left would
/// really fall short: `CollateralRatioBelowMinimum` means the borrower owes
/// a positive amount and `balance − amount` is below the debt times the
/// ratio in force over 10 000. Without a line or without debt, any amount
/// up to the balance may be withdrawn once a token is configured.
pub proof fn law_withdraw_collateral_refusal(v: CreditView, b: AccountId, amount: i128)
    requires
        v.wf(),
    ensures
        withdraw_error(v, b, amount) == Some(ContractError::CollateralRatioBelowMinimum) ==> {
            &&& line_of(v, b) is Some && line_of(v, b)->0.utilized_amount > 0
            &&& get_or(v.collateral, b, 0i128) - amount
                < line_of(v, b)->0.utilized_amount * configured_min_ratio(v) / 10_000
        },
        (line_of(v, b) is None || line_of(v, b)->0.utilized_amount <= 0)
            && 0 < amount <= get_or(v.collateral, b, 0i128) && v.config.liquidity_token is Some
            ==> withdraw_error(v, b, amount) is None,
{
}

/// What a successful repayment does, on the accrued line `L`: it applies
/// `min(amount, L.utilized)`, settling accrued interest first
/// (`min(applied, L.accrued)`), lowers the utilization by the applied
/// amount, and — with a liquidity token and a positive fee rate — skims a
/// fee of `floor(interest settled × rate / 10 000)` that the treasury and
/// bounty balances gain in total, the rest going to the reserve.
pub proof fn law_repay_outcome(v: CreditView, b: AccountId, amount: i128, now: u64)
    requires
        v.wf(),
        repay_spec(v, b, amount, now) is Ok,
    ensures
        ({
            let (v1, r) = repay_spec(v, b, amount, now)->Ok_0;
            let stored = v.lines[line_index(v.lines, b)];
            let l = accrual_spec(stored, accrual_ctx(v, b, stored, now))->Ok_0.0;
            let applied = if amount < l.utilized_amount { amount as int } else { l.utilized_amount as int };
            let interest = if applied < l.accrued_interest { applied } else { l.accrued_interest as int };
            let with_token = applied > 0 && v.config.liquidity_token is Some;
            let fee = if with_token && v.config.protocol_fee_bps is Some && v.config.protocol_fee_bps->0 > 0 && interest > 0 {
                interest * v.config.protocol_fee_bps->0 / 10_000
            } else {
                0
            };
            &&& amount > 0
            &&& r.effective_repay == applied && r.interest_repaid == interest
            &&& r.fee == fee
            &&& r.reserve_amount == (if with_token { applied - fee } else { 0 })
            &&& line_of(v1, b) is Some && line_of(v1, b)->0.utilized_amount == l.utilized_amount - applied
            &&& r.new_utilized_amount == l.utilized_amount - applied
            &&& v1.config.treasury_balance + v1.config.bounty_balance
                == v.config.treasury_balance + v.config.bounty_balance + fee
        }),
{
    let v1 = repay_spec(v, b, amount, now)->Ok_0.0;
    let i = line_index(v.lines, b);
    lemma_line_index(v1.lines, b, i);
}

} // verus!

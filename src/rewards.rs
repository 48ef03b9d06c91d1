use vstd::prelude::*;

use crate::error::ContractError;
use crate::history::{
    compacted, compacted_index, lemma_advance_bounds, lemma_cycles_agree,
    advance, lemma_advance_is, lemma_cycles_constant, lemma_cycles_split, lemma_staked_active,
    lemma_staked_before, lemma_staked_from_later, sorted_history, staked_at, staked_cycles,
};
use crate::state::{BondStatus, Claim, Config, NextClaim, Snapshot, TokenInfo};
use crate::time::{current_period_of, first_cycle, get_current_period, lemma_period_fits};

verus! {

/// The claim and advanced cursor that the calculator owes for up to
/// `periods` whole periods from cursor `k`, when period `end` is the first
/// one that may not be claimed yet.
pub open spec fn accrual(
    h: Seq<Snapshot>,
    k: NextClaim,
    periods: u64,
    end: int,
    period_length: int,
    rewards_per_cycle: Option<u128>,
) -> Result<(Claim, NextClaim), ContractError> {
    if periods == 0 || k.period == 0 {
        Ok((Claim { start_period: 0, periods: 0, amount: 0 }, k))
    } else if k.period >= end {
        Ok((Claim { start_period: k.period, periods: 0, amount: 0 }, k))
    } else if rewards_per_cycle is None {
        Err(ContractError::InvalidRewardsSchedule {})
    } else {
        let n = if periods < end - k.period {
            periods as int
        } else {
            end - k.period
        };
        let lo = first_cycle(k.period as int, period_length);
        let hi = first_cycle(k.period + n, period_length);
        let total = rewards_per_cycle->Some_0 * staked_cycles(
            h,
            k.staker_snapshot_index as int,
            lo,
            hi,
        );
        if total > u128::MAX {
            Err(ContractError::RewardsOverflow {})
        } else {
            Ok(
                (
                    Claim { start_period: k.period, periods: n as u64, amount: total as u128 },
                    NextClaim {
                        period: (k.period + n) as u64,
                        staker_snapshot_index: advance(h, k.staker_snapshot_index as int, hi) as u64,
                    },
                ),
            )
        }
    }
}

/// A cursor that the history can serve: it points into the history unless
/// it is the empty cursor.
pub open spec fn cursor_fits(h: Seq<Snapshot>, k: NextClaim) -> bool {
    k.period == 0 || k.staker_snapshot_index < h.len()
}

/// Accrual stops at the exit request of a token that is leaving.
pub open spec fn is_frozen(t: TokenInfo) -> bool {
    t.bond_status == BondStatus::Unbonding || t.bond_status == BondStatus::Unbonded
}

/// What `compute_rewards` owes for the given position and time.
pub open spec fn rewards_outcome(
    h: Seq<Snapshot>,
    k: NextClaim,
    t: TokenInfo,
    periods: u64,
    now: u64,
    start_timestamp: u64,
    config: Config,
    rewards_per_cycle: Option<u128>,
    max_compute_period: u64,
) -> Result<(Claim, NextClaim), ContractError> {
    if periods > max_compute_period {
        Err(ContractError::InvalidMaxPeriod { periods, max_compute_period })
    } else if periods == 0 || k.period == 0 {
        Ok((Claim { start_period: 0, periods: 0, amount: 0 }, k))
    } else if now < start_timestamp || (is_frozen(t) && t.req_unbond_time < start_timestamp) {
        Err(ContractError::TimestampPreceesContractStart {})
    } else {
        let end = if is_frozen(t) {
            current_period_of(t.req_unbond_time as int, start_timestamp as int, config)
        } else {
            current_period_of(now as int, start_timestamp as int, config)
        };
        accrual(h, k, periods, end, config.period_length_in_cycles as int, rewards_per_cycle)
    }
}

proof fn lemma_reward_monotonic(h: Seq<Snapshot>, i: int, lo: int, e: int, hi: int, rpc: int)
    requires
        lo <= e <= hi,
        rpc >= 0,
    ensures
        rpc * staked_cycles(h, i, lo, e) <= rpc * staked_cycles(h, i, lo, hi),
{
    lemma_cycles_split(h, i, lo, e, hi);
    vstd::arithmetic::mul::lemma_mul_inequality(
        staked_cycles(h, i, lo, e) as int,
        staked_cycles(h, i, lo, hi) as int,
        rpc,
    );
    vstd::arithmetic::mul::lemma_mul_is_commutative(rpc, staked_cycles(h, i, lo, e) as int);
    vstd::arithmetic::mul::lemma_mul_is_commutative(rpc, staked_cycles(h, i, lo, hi) as int);
}

/// Walks the history from cursor `next_claim` over up to `periods` whole
/// periods before `end_period`, cycle range by cycle range, and sums the
/// reward of the staked cycles.
pub fn accrue(
    history: &Vec<Snapshot>,
    next_claim: NextClaim,
    periods: u64,
    end_period: u64,
    period_length: u64,
    rewards_per_cycle: Option<u128>,
) -> (r: Result<(Claim, NextClaim), ContractError>)
    requires
        sorted_history(history@),
        cursor_fits(history@, next_claim),
        period_length >= 1,
    ensures
        r == accrual(
            history@,
            next_claim,
            periods,
            end_period as int,
            period_length as int,
            rewards_per_cycle,
        ),
{
    let p = next_claim.period;
    if periods == 0 || p == 0 {
        return Ok((Claim { start_period: 0, periods: 0, amount: 0 }, next_claim));
    }
    if p >= end_period {
        return Ok((Claim { start_period: p, periods: 0, amount: 0 }, next_claim));
    }
    let rpc = match rewards_per_cycle {
        None => {
            return Err(ContractError::InvalidRewardsSchedule {});
        },
        Some(v) => v,
    };
    let n: u64 = if periods < end_period - p {
        periods
    } else {
        end_period - p
    };
    let target: u64 = p + n;
    let ghost h = history@;
    let ghost idx = next_claim.staker_snapshot_index as int;
    let ghost lo = first_cycle(p as int, period_length as int);
    let ghost hi = first_cycle(target as int, period_length as int);
    let len = history.len();
    let pl = period_length as u128;
    proof {
        assert((p - 1) * pl + 1 <= u128::MAX) by (nonlinear_arith)
            requires
                1 <= p <= u64::MAX,
                pl <= u64::MAX,
        ;
    }
    let mut cur: u128 = (p as u128 - 1) * pl + 1;
    let mut j: usize = next_claim.staker_snapshot_index as usize;
    let mut amount: u128 = 0;
    let mut period: u64 = p;
    while period < target
        invariant
            h == history@,
            sorted_history(h),
            len == h.len(),
            0 <= idx <= j < len,
            rewards_per_cycle == Some(rpc),
            1 <= p <= period <= target,
            p == next_claim.period,
            idx == next_claim.staker_snapshot_index,
            periods > 0,
            n == (if periods < end_period - p {
                periods as int
            } else {
                end_period - p
            }),
            p < end_period,
            target == p + n,
            pl == period_length,
            pl >= 1,
            cur == first_cycle(period as int, pl as int),
            lo == first_cycle(p as int, pl as int),
            hi == first_cycle(target as int, pl as int),
            j == idx || h[j as int].start_cycle <= cur,
            period > p ==> (j + 1 == len || h[j + 1].start_cycle > cur),
            amount == rpc * staked_cycles(h, idx, lo, cur as int),
        decreases target - period,
    {
        proof {
            assert(period * pl + 1 <= u128::MAX) by (nonlinear_arith)
                requires
                    period <= u64::MAX,
                    pl <= u64::MAX,
            ;
            assert(cur <= period * pl + 1 <= hi) by (nonlinear_arith)
                requires
                    cur == (period - 1) * pl + 1,
                    hi == (target - 1) * pl + 1,
                    period < target,
                    pl >= 1,
            ;
            assert(lo <= cur) by (nonlinear_arith)
                requires
                    cur == (period - 1) * pl + 1,
                    lo == (p - 1) * pl + 1,
                    p <= period,
                    pl >= 1,
            ;
        }
        let pend: u128 = (period as u128) * pl + 1;
        while cur < pend || (j + 1 < len && history[j + 1].start_cycle as u128 <= cur)
            invariant
                h == history@,
                sorted_history(h),
                len == h.len(),
                0 <= idx <= j < len,
                rewards_per_cycle == Some(rpc),
                lo <= cur <= pend <= hi,
                1 <= p < end_period,
                p == next_claim.period,
                idx == next_claim.staker_snapshot_index,
                periods > 0,
                n == (if periods < end_period - p {
                    periods as int
                } else {
                    end_period - p
                }),
                target == p + n,
                lo == first_cycle(p as int, period_length as int),
                hi == first_cycle(target as int, period_length as int),
                j == idx || h[j as int].start_cycle <= cur,
                amount == rpc * staked_cycles(h, idx, lo, cur as int),
            decreases (pend - cur) + (len - j),
        {
            if j + 1 < len && history[j + 1].start_cycle as u128 <= cur {
                j = j + 1;
            } else {
                let s = history[j];
                if cur < s.start_cycle as u128 {
                    let e: u128 = if (s.start_cycle as u128) < pend {
                        s.start_cycle as u128
                    } else {
                        pend
                    };
                    proof {
                        assert forall|c: int| cur <= c < e implies #[trigger] staked_at(h, idx, c)
                            == false by {
                            lemma_staked_before(h, idx, c);
                        }
                        lemma_cycles_constant(h, idx, lo, cur as int, e as int, false);
                    }
                    cur = e;
                } else {
                    let e: u128 = if j + 1 < len && (history[j + 1].start_cycle as u128) < pend {
                        history[j + 1].start_cycle as u128
                    } else {
                        pend
                    };
                    proof {
                        assert forall|c: int| cur <= c < e implies #[trigger] staked_at(h, idx, c)
                            == s.is_staked by {
                            lemma_staked_from_later(h, idx, j as int, c);
                            lemma_staked_active(h, j as int, j as int, c);
                        }
                        lemma_cycles_constant(h, idx, lo, cur as int, e as int, s.is_staked);
                    }
                    if s.is_staked {
                        let d: u128 = e - cur;
                        let ghost before = staked_cycles(h, idx, lo, cur as int);
                        proof {
                            assert(rpc * (before + d) == rpc * before + d * rpc) by (nonlinear_arith);
                            assert(rpc * before >= 0) by (nonlinear_arith)
                                requires
                                    rpc >= 0,
                                    before >= 0,
                            ;
                            lemma_reward_monotonic(h, idx, lo, e as int, hi, rpc as int);
                        }
                        match d.checked_mul(rpc) {
                            None => {
                                proof {
                                    assert(d * rpc >= 0) by (nonlinear_arith)
                                        requires
                                            d >= 0,
                                            rpc >= 0,
                                    ;
                                    assert(rpc * staked_cycles(h, idx, lo, hi) > u128::MAX);
                                }
                                return Err(ContractError::RewardsOverflow {});
                            },
                            Some(t) => {
                                match amount.checked_add(t) {
                                    None => {
                                        proof {
                                            assert(rpc * staked_cycles(h, idx, lo, hi) > u128::MAX);
                                        }
                                        return Err(ContractError::RewardsOverflow {});
                                    },
                                    Some(a) => {
                                        amount = a;
                                    },
                                }
                            },
                        }
                    }
                    cur = e;
                }
            }
        }
        period = period + 1;
        proof {
            assert(cur == first_cycle(period as int, pl as int)) by (nonlinear_arith)
                requires
                    cur == (period - 1) * pl + 1,
            ;
        }
    }
    proof {
        lemma_advance_is(h, idx, j as int, hi);
    }
    Ok(
        (
            Claim { start_period: p, periods: n, amount },
            NextClaim { period: target, staker_snapshot_index: j as u64 },
        ),
    )
}

/// Computes the claim of a position over up to `periods` whole periods from
/// its cursor: refused above `max_compute_period`, empty for zero periods or
/// an empty cursor, and frozen at the exit request of a token that is leaving.
/// Nothing is stored: the caller persists the advanced cursor.
pub fn compute_rewards(
    history: &Vec<Snapshot>,
    next_claim: NextClaim,
    token_info: &TokenInfo,
    periods: u64,
    now: u64,
    start_timestamp: u64,
    config: &Config,
    rewards_per_cycle: Option<u128>,
    max_compute_period: u64,
) -> (r: Result<(Claim, NextClaim), ContractError>)
    requires
        sorted_history(history@),
        cursor_fits(history@, next_claim),
        config.wf(),
    ensures
        r == rewards_outcome(
            history@,
            next_claim,
            *token_info,
            periods,
            now,
            start_timestamp,
            *config,
            rewards_per_cycle,
            max_compute_period,
        ),
{
    if periods > max_compute_period {
        return Err(ContractError::InvalidMaxPeriod { periods, max_compute_period });
    }
    if periods == 0 || next_claim.period == 0 {
        return Ok((Claim::default(), next_claim));
    }
    let mut end_claim_period = match get_current_period(now, start_timestamp, config) {
        Ok(v) => v,
        Err(e) => {
            return Err(e);
        },
    };
    let frozen = match token_info.bond_status {
        BondStatus::Unbonding | BondStatus::Unbonded => true,
        _ => false,
    };
    if frozen {
        end_claim_period =
        match get_current_period(token_info.req_unbond_time, start_timestamp, config) {
            Ok(v) => v,
            Err(e) => {
                return Err(e);
            },
        };
    }
    accrue(
        history,
        next_claim,
        periods,
        end_claim_period,
        config.period_length_in_cycles,
        rewards_per_cycle,
    )
}

/// Reading the history from index `i` on is reading its suffix from `i`.
pub proof fn lemma_staked_suffix(h: Seq<Snapshot>, i: int, cycle: int)
    requires
        0 <= i <= h.len(),
    ensures
        staked_at(h, i, cycle) == staked_at(h.subrange(i, h.len() as int), 0, cycle),
    decreases h.len(),
{
    let s = h.subrange(i, h.len() as int);
    if i < h.len() {
        assert(s.last() == h.last());
        if h.last().start_cycle > cycle {
            assert(h.drop_last().subrange(i, h.len() - 1) =~= s.drop_last());
            lemma_staked_suffix(h.drop_last(), i, cycle);
        }
    } else {
        assert(s.len() == 0);
    }
}

/// Claiming `n1` periods, compacting the history, then claiming `n2` more
/// periods pays exactly what one claim of `n1 + n2` periods pays, when the
/// whole range has elapsed and its total fits.
pub proof fn lemma_claims_add_up(
    h: Seq<Snapshot>,
    k: NextClaim,
    n1: u64,
    n2: u64,
    end: u64,
    period_length: int,
    rewards_per_cycle: u128,
)
    requires
        sorted_history(h),
        1 <= k.period,
        k.staker_snapshot_index < h.len() <= u64::MAX,
        period_length >= 1,
        n1 >= 1,
        n2 >= 1,
        n1 + n2 <= u64::MAX,
        k.period + n1 + n2 <= end,
        accrual(h, k, (n1 + n2) as u64, end as int, period_length, Some(rewards_per_cycle)) is Ok,
    ensures
        ({
            let whole = accrual(h, k, (n1 + n2) as u64, end as int, period_length, Some(rewards_per_cycle))->Ok_0;
            let first = accrual(h, k, n1, end as int, period_length, Some(rewards_per_cycle));
            let k1 = first->Ok_0.1;
            let h2 = compacted(h, k.staker_snapshot_index as int, k1.staker_snapshot_index as int);
            let k2 = NextClaim {
                period: k1.period,
                staker_snapshot_index: compacted_index(
                    k.staker_snapshot_index as int,
                    k1.staker_snapshot_index as int,
                ) as u64,
            };
            let second = accrual(h2, k2, n2, end as int, period_length, Some(rewards_per_cycle));
            &&& first is Ok
            &&& second is Ok
            &&& first->Ok_0.0.amount + second->Ok_0.0.amount == whole.0.amount
            &&& first->Ok_0.0.periods + second->Ok_0.0.periods == whole.0.periods
            &&& second->Ok_0.1.period == whole.1.period
        }),
{
    let rpc = rewards_per_cycle as int;
    let idx = k.staker_snapshot_index as int;
    let p = k.period as int;
    let lo = first_cycle(p, period_length);
    let mid = first_cycle(p + n1, period_length);
    let hi = first_cycle(p + n1 + n2, period_length);
    assert(lo <= mid <= hi) by (nonlinear_arith)
        requires
            lo == (p - 1) * period_length + 1,
            mid == (p + n1 - 1) * period_length + 1,
            hi == (p + n1 + n2 - 1) * period_length + 1,
            n1 >= 1,
            n2 >= 1,
            period_length >= 1,
    ;
    let a1 = advance(h, idx, mid);
    lemma_advance_bounds(h, idx, mid);
    let h2 = compacted(h, idx, a1);
    let i2 = compacted_index(idx, a1);
    assert(h2.subrange(i2, h2.len() as int) =~= h.subrange(a1, h.len() as int));
    assert forall|c: int| mid <= c < hi implies #[trigger] staked_at(h2, i2, c) == staked_at(
        h,
        idx,
        c,
    ) by {
        lemma_staked_suffix(h2, i2, c);
        lemma_staked_suffix(h, a1, c);
        lemma_staked_from_later(h, idx, a1, c);
    }
    lemma_cycles_agree(h2, i2, h, idx, mid, hi);

    lemma_cycles_split(h, idx, lo, mid, hi);
    let x = staked_cycles(h, idx, lo, mid) as int;
    let y = staked_cycles(h, idx, mid, hi) as int;
    assert(rpc * (x + y) == rpc * x + rpc * y) by (nonlinear_arith);
    assert(rpc * x >= 0 && rpc * y >= 0) by (nonlinear_arith)
        requires
            rpc >= 0,
            x >= 0,
            y >= 0,
    ;
    let whole = accrual(h, k, (n1 + n2) as u64, end as int, period_length, Some(rewards_per_cycle));
    assert(whole->Ok_0.0.amount == rpc * (x + y));
    assert(rpc * x <= u128::MAX);
    let first = accrual(h, k, n1, end as int, period_length, Some(rewards_per_cycle));
    assert(first is Ok);
    assert(first->Ok_0.1.staker_snapshot_index == a1);
    assert(first->Ok_0.1.period == p + n1);
    let k2 = NextClaim { period: (p + n1) as u64, staker_snapshot_index: i2 as u64 };
    let second = accrual(h2, k2, n2, end as int, period_length, Some(rewards_per_cycle));
    assert(second is Ok);
    assert(second->Ok_0.0.amount == rpc * y);
}

/// A successful run of the calculator leaves a cursor that the history can
/// serve, never moves it back, and moves it forward whenever it pays.
pub proof fn lemma_outcome_cursor(
    h: Seq<Snapshot>,
    k: NextClaim,
    t: TokenInfo,
    periods: u64,
    now: u64,
    start_timestamp: u64,
    config: Config,
    rewards_per_cycle: Option<u128>,
    max_compute_period: u64,
)
    requires
        sorted_history(h),
        cursor_fits(h, k),
        h.len() <= u64::MAX,
        config.wf(),
        rewards_outcome(h, k, t, periods, now, start_timestamp, config, rewards_per_cycle, max_compute_period) is Ok,
    ensures
        ({
            let (c, k2) = rewards_outcome(
                h,
                k,
                t,
                periods,
                now,
                start_timestamp,
                config,
                rewards_per_cycle,
                max_compute_period,
            )->Ok_0;
            &&& cursor_fits(h, k2)
            &&& k.period <= k2.period
            &&& k.staker_snapshot_index <= k2.staker_snapshot_index
            &&& c.amount != 0 ==> k.period < k2.period
            &&& c.periods != 0 ==> k2.period == k.period + c.periods && c.start_period == k.period
        }),
{
    if k.period != 0 && periods != 0 && periods <= max_compute_period {
        let pl = config.period_length_in_cycles as int;
        let end = if is_frozen(t) {
            current_period_of(t.req_unbond_time as int, start_timestamp as int, config)
        } else {
            current_period_of(now as int, start_timestamp as int, config)
        };
        let n = if periods < end - k.period {
            periods as int
        } else {
            end - k.period
        };
        if is_frozen(t) {
            if start_timestamp <= t.req_unbond_time {
                lemma_period_fits(t.req_unbond_time as int, start_timestamp as int, config);
            }
        } else if start_timestamp <= now {
            lemma_period_fits(now as int, start_timestamp as int, config);
        }
        lemma_advance_bounds(h, k.staker_snapshot_index as int, first_cycle(k.period + n, pl));
    }
}

/// What the exit drain pays: the calculator runs again and again with the
/// largest allowed number of periods, summing what it pays, until a run pays
/// nothing.
pub open spec fn drain_outcome(
    h: Seq<Snapshot>,
    k: NextClaim,
    t: TokenInfo,
    now: u64,
    start_timestamp: u64,
    config: Config,
    rewards_per_cycle: Option<u128>,
    max_compute_period: u64,
    acc: u128,
) -> Result<u128, ContractError>
    decreases u64::MAX - k.period,
{
    match rewards_outcome(
        h,
        k,
        t,
        max_compute_period,
        now,
        start_timestamp,
        config,
        rewards_per_cycle,
        max_compute_period,
    ) {
        Err(e) => Err(e),
        Ok((c, k2)) => {
            // A run that pays always moves the cursor forward (`lemma_outcome_cursor`);
            // the second test only makes the recursion visibly finite.
            if c.amount == 0 || k2.period <= k.period {
                Ok(acc)
            } else if acc + c.amount > u128::MAX {
                Err(ContractError::RewardsOverflow {})
            } else {
                drain_outcome(
                    h,
                    k2,
                    t,
                    now,
                    start_timestamp,
                    config,
                    rewards_per_cycle,
                    max_compute_period,
                    (acc + c.amount) as u128,
                )
            }
        },
    }
}

/// Settles a position completely: runs the calculator with the largest
/// allowed number of periods until a run pays nothing, and returns the sum.
pub fn drain_rewards(
    history: &Vec<Snapshot>,
    next_claim: NextClaim,
    token_info: &TokenInfo,
    now: u64,
    start_timestamp: u64,
    config: &Config,
    rewards_per_cycle: Option<u128>,
    max_compute_period: u64,
) -> (r: Result<u128, ContractError>)
    requires
        sorted_history(history@),
        cursor_fits(history@, next_claim),
        config.wf(),
    ensures
        r == drain_outcome(
            history@,
            next_claim,
            *token_info,
            now,
            start_timestamp,
            *config,
            rewards_per_cycle,
            max_compute_period,
            0,
        ),
{
    let ghost h = history@;
    let ghost whole = drain_outcome(
        h,
        next_claim,
        *token_info,
        now,
        start_timestamp,
        *config,
        rewards_per_cycle,
        max_compute_period,
        0,
    );
    // Brings the length bound of a vector into the proof.
    let _ = history.len();
    let mut total: u128 = 0;
    let mut cursor = next_claim;
    let mut done = false;
    while !done
        invariant
            h == history@,
            h.len() <= u64::MAX,
            sorted_history(h),
            cursor_fits(h, cursor),
            config.wf(),
            whole == drain_outcome(
                h,
                next_claim,
                *token_info,
                now,
                start_timestamp,
                *config,
                rewards_per_cycle,
                max_compute_period,
                0,
            ),
            whole == (if done {
                Ok(total)
            } else {
                drain_outcome(
                    h,
                    cursor,
                    *token_info,
                    now,
                    start_timestamp,
                    *config,
                    rewards_per_cycle,
                    max_compute_period,
                    total,
                )
            }),
        decreases u64::MAX - cursor.period + if done {
            0int
        } else {
            1int
        },
    {
        match compute_rewards(
            history,
            cursor,
            token_info,
            max_compute_period,
            now,
            start_timestamp,
            config,
            rewards_per_cycle,
            max_compute_period,
        ) {
            Err(e) => {
                assert(whole == Err::<u128, ContractError>(e));
                return Err(e);
            },
            Ok((c, k2)) => {
                proof {
                    lemma_outcome_cursor(
                        h,
                        cursor,
                        *token_info,
                        max_compute_period,
                        now,
                        start_timestamp,
                        *config,
                        rewards_per_cycle,
                        max_compute_period,
                    );
                }
                if c.amount == 0 || k2.period <= cursor.period {
                    done = true;
                } else {
                    match total.checked_add(c.amount) {
                        None => {
                            return Err(ContractError::RewardsOverflow {});
                        },
                        Some(t) => {
                            total = t;
                            cursor = k2;
                        },
                    }
                }
            },
        }
    }
    Ok(total)
}

/// The exit drain pays the whole entitlement, however small the cap: when
/// the position was staked in every cycle from its cursor up to the period
/// of the exit request, the capped runs together pay the reward of all
/// those cycles, provided the sum fits.
pub proof fn lemma_drain_settles(
    h: Seq<Snapshot>,
    k: NextClaim,
    t: TokenInfo,
    now: u64,
    start_timestamp: u64,
    config: Config,
    rewards_per_cycle: u128,
    max_compute_period: u64,
    acc: u128,
)
    requires
        sorted_history(h),
        1 <= k.period,
        k.staker_snapshot_index < h.len() <= u64::MAX,
        config.wf(),
        max_compute_period >= 1,
        rewards_per_cycle >= 1,
        is_frozen(t),
        start_timestamp <= t.req_unbond_time,
        start_timestamp <= now,
        forall|c: int|
            first_cycle(k.period as int, config.period_length_in_cycles as int) <= c < first_cycle(
                current_period_of(t.req_unbond_time as int, start_timestamp as int, config),
                config.period_length_in_cycles as int,
            ) ==> #[trigger] staked_at(h, k.staker_snapshot_index as int, c),
        acc + rewards_per_cycle * (first_cycle(
            current_period_of(t.req_unbond_time as int, start_timestamp as int, config),
            config.period_length_in_cycles as int,
        ) - first_cycle(k.period as int, config.period_length_in_cycles as int)) <= u128::MAX,
    ensures
        drain_outcome(
            h,
            k,
            t,
            now,
            start_timestamp,
            config,
            Some(rewards_per_cycle),
            max_compute_period,
            acc,
        ) == Ok::<u128, ContractError>(
            if k.period < current_period_of(
                t.req_unbond_time as int,
                start_timestamp as int,
                config,
            ) {
                (acc + rewards_per_cycle * (first_cycle(
                    current_period_of(t.req_unbond_time as int, start_timestamp as int, config),
                    config.period_length_in_cycles as int,
                ) - first_cycle(k.period as int, config.period_length_in_cycles as int))) as u128
            } else {
                acc
            },
        ),
    decreases u64::MAX - k.period,
{
    let pl = config.period_length_in_cycles as int;
    let rpc = rewards_per_cycle as int;
    let end = current_period_of(t.req_unbond_time as int, start_timestamp as int, config);
    let p = k.period as int;
    let idx = k.staker_snapshot_index as int;
    lemma_period_fits(t.req_unbond_time as int, start_timestamp as int, config);
    if p < end {
        let n = if max_compute_period < end - p {
            max_compute_period as int
        } else {
            end - p
        };
        let lo = first_cycle(p, pl);
        let mid = first_cycle(p + n, pl);
        let hi = first_cycle(end, pl);
        assert(lo < mid <= hi && mid - lo >= 1) by (nonlinear_arith)
            requires
                lo == (p - 1) * pl + 1,
                mid == (p + n - 1) * pl + 1,
                hi == (end - 1) * pl + 1,
                1 <= n <= end - p,
                pl >= 2,
        ;
        lemma_cycles_constant(h, idx, lo, lo, mid, true);
        assert(staked_cycles(h, idx, lo, mid) == mid - lo);
        assert(rpc * (mid - lo) + rpc * (hi - mid) == rpc * (hi - lo)) by (nonlinear_arith);
        assert(rpc * (mid - lo) >= 1 && rpc * (hi - mid) >= 0) by (nonlinear_arith)
            requires
                rpc >= 1,
                mid - lo >= 1,
                hi - mid >= 0,
        ;
        let a2 = advance(h, idx, mid);
        lemma_advance_bounds(h, idx, mid);
        let k2 = NextClaim { period: (p + n) as u64, staker_snapshot_index: a2 as u64 };
        let paid = rpc * (mid - lo);
        assert forall|c: int| first_cycle(k2.period as int, pl) <= c < hi implies #[trigger] staked_at(
            h,
            k2.staker_snapshot_index as int,
            c,
        ) by {
            lemma_staked_from_later(h, idx, a2, c);
        }
        lemma_drain_settles(
            h,
            k2,
            t,
            now,
            start_timestamp,
            config,
            rewards_per_cycle,
            max_compute_period,
            (acc + paid) as u128,
        );
    }
}

} // verus!

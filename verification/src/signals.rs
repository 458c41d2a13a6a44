use vstd::prelude::*;
use vstd::arithmetic::div_mod::{lemma_div_by_multiple, lemma_div_is_ordered};
use vstd::arithmetic::mul::{lemma_mul_inequality, lemma_mul_is_commutative};

use crate::cluster::ClusterProfile;
use crate::state::{CreatorState, GlobalState, HolderState, LiquidityPoolState};
use crate::types::{LogEvent, TradeSide};
use crate::{
    sat_sub, BURST_FULL_COUNT, CREATOR_IDLE_MS, CREATOR_IDLE_SIGNAL_FP, CREATOR_RECENT_SIGNAL_FP,
    ESCALATION_BONUS_FP, ESCALATION_HOLDER_GATE_FP, ESCALATION_LIQUIDITY_GATE_FP,
    HOLDER_FULL_DROP_FP, LIQUIDITY_FULL_DROP_FP, NOISE_FLOOR_FP, SCALE, WEAK_CLUSTER_SIGNAL_FP,
    WEIGHT_BURST, WEIGHT_CREATOR, WEIGHT_DENOM, WEIGHT_HOLDER, WEIGHT_LIQUIDITY,
};

verus! {

/// Relative drop from `prev` to `cur` in fixed-point units: zero when there
/// was nothing before or the value did not fall, else (prev - cur) / prev.
pub open spec fn spec_drop_ratio_fp(prev: u64, cur: u64) -> int {
    if prev == 0 || cur >= prev {
        0
    } else {
        (prev - cur) * (SCALE as int) / (prev as int)
    }
}

/// Score shape shared by the holder and liquidity signals: 0 at or below
/// the noise floor, saturated at SCALE from `full` upwards, and linear
/// (ratio / full) in between.
pub open spec fn spec_drop_score_fp(ratio: int, full: int) -> int {
    if ratio <= NOISE_FLOOR_FP {
        0
    } else if ratio >= full {
        SCALE as int
    } else {
        ratio * (SCALE as int) / full
    }
}

/// Holder-drop score of one holder.
pub open spec fn spec_holder_score(h: HolderState) -> int {
    spec_drop_score_fp(
        spec_drop_ratio_fp(h.previous_balance, h.balance),
        HOLDER_FULL_DROP_FP as int,
    )
}

/// Liquidity-drop score of one pool.
pub open spec fn spec_pool_score(p: LiquidityPoolState) -> int {
    spec_drop_score_fp(
        spec_drop_ratio_fp(p.previous_liquidity, p.liquidity),
        LIQUIDITY_FULL_DROP_FP as int,
    )
}

/// Maximum holder-drop score over a holder set; 0 when the set is empty.
pub open spec fn spec_holders_signal(hs: Seq<HolderState>) -> int
    decreases hs.len(),
{
    if hs.len() == 0 {
        0
    } else {
        let rest = spec_holders_signal(hs.drop_last());
        let last = spec_holder_score(hs.last());
        if last > rest {
            last
        } else {
            rest
        }
    }
}

/// Maximum liquidity-drop score over a pool set; 0 when the set is empty.
pub open spec fn spec_pools_signal(ps: Seq<LiquidityPoolState>) -> int
    decreases ps.len(),
{
    if ps.len() == 0 {
        0
    } else {
        let rest = spec_pools_signal(ps.drop_last());
        let last = spec_pool_score(ps.last());
        if last > rest {
            last
        } else {
            rest
        }
    }
}

/// Whether a trade event is a sell.
pub open spec fn spec_is_sell(e: LogEvent) -> bool {
    e.side == TradeSide::Sell
}

/// Number of sell events in `logs` that carry the given slot.
pub open spec fn spec_sells_in_slot(logs: Seq<LogEvent>, slot: u64) -> int
    decreases logs.len(),
{
    if logs.len() == 0 {
        0
    } else {
        spec_sells_in_slot(logs.drop_last(), slot) + if spec_is_sell(logs.last())
            && logs.last().slot == slot {
            1int
        } else {
            0int
        }
    }
}

/// Largest same-slot sell count among the first `n` events (each sell event
/// contributes the count of its own slot over the whole log).
pub open spec fn spec_burst_prefix(logs: Seq<LogEvent>, n: int) -> int
    decreases n,
{
    if n <= 0 {
        0
    } else {
        let rest = spec_burst_prefix(logs, n - 1);
        let cur = if spec_is_sell(logs[n - 1]) {
            spec_sells_in_slot(logs, logs[n - 1].slot)
        } else {
            0
        };
        if cur > rest {
            cur
        } else {
            rest
        }
    }
}

/// Largest same-slot sell count in the log; 0 when there are no sells.
pub open spec fn spec_burst_count(logs: Seq<LogEvent>) -> int {
    spec_burst_prefix(logs, logs.len() as int)
}

/// Synchronous-sell signal: saturated at SCALE when at least
/// BURST_FULL_COUNT sells share one slot, else count / BURST_FULL_COUNT.
pub open spec fn spec_burst_signal(logs: Seq<LogEvent>) -> int {
    let c = spec_burst_count(logs);
    if c >= BURST_FULL_COUNT {
        SCALE as int
    } else {
        c * SCALE / (BURST_FULL_COUNT as int)
    }
}

/// Creator-reactivation signal: 0.6 for an active creator idle strictly
/// longer than CREATOR_IDLE_MS, 0.3 for an active recently seen creator,
/// 0 when absent or inactive.
pub open spec fn spec_creator_signal(creator: Option<CreatorState>, now: u64) -> int {
    match creator {
        Option::None => 0,
        Option::Some(c) => {
            if c.active && sat_sub(now, c.last_activity) > CREATOR_IDLE_MS {
                CREATOR_IDLE_SIGNAL_FP as int
            } else if c.active {
                CREATOR_RECENT_SIGNAL_FP as int
            } else {
                0
            }
        },
    }
}

/// Weak-cluster contribution: flat 0.15 when the profile reports at least
/// one suspicious wallet, else 0.
pub open spec fn spec_weak_signal(profile: Option<ClusterProfile>) -> int {
    match profile {
        Option::None => 0,
        Option::Some(p) => {
            if p.suspicious_wallets > 0 {
                WEAK_CLUSTER_SIGNAL_FP as int
            } else {
                0
            }
        },
    }
}

/// The combined collapse probability: the weighted sum of the four signals
/// plus the weak-cluster contribution, escalated by a flat bonus when the
/// holder signal exceeds 0.9 AND the liquidity signal exceeds 0.6 (both
/// strict), clamped to [0, SCALE].
pub open spec fn spec_combined_fp(h: int, l: int, b: int, c: int, weak: int) -> int {
    let weighted = ((WEIGHT_HOLDER as int) * h + (WEIGHT_LIQUIDITY as int) * l + (WEIGHT_BURST
        as int) * b + (WEIGHT_CREATOR as int) * c) / (WEIGHT_DENOM as int);
    let esc = if h > ESCALATION_HOLDER_GATE_FP && l > ESCALATION_LIQUIDITY_GATE_FP {
        ESCALATION_BONUS_FP as int
    } else {
        0
    };
    let total = weighted + weak + esc;
    if total > SCALE {
        SCALE as int
    } else {
        total
    }
}

/// The collapse probability of a whole snapshot at time `now`: a pure
/// function of the snapshot and the evaluation time alone.
pub open spec fn spec_risk_score(s: GlobalState, now: u64) -> int {
    spec_combined_fp(
        spec_holders_signal(s.holders_state@),
        spec_pools_signal(s.lp_state@),
        spec_burst_signal(s.logs_state@),
        spec_creator_signal(s.creator_state, now),
        spec_weak_signal(s.cluster_profile),
    )
}

/// The fixed-point drop ratio (prev - cur) / prev, 0 when prev is 0 or the
/// value did not fall.
fn drop_ratio_fp(prev: u64, cur: u64) -> (ratio: u64)
    ensures
        ratio == spec_drop_ratio_fp(prev, cur),
        ratio <= SCALE,
{
    if prev == 0 || cur >= prev {
        0
    } else {
        let diff: u64 = prev - cur;
        let num: u128 = (diff as u128) * (SCALE as u128);
        let r: u128 = num / (prev as u128);
        proof {
            lemma_mul_inequality(diff as int, prev as int, SCALE as int);
            lemma_div_is_ordered(
                (diff as int) * (SCALE as int),
                (prev as int) * (SCALE as int),
                prev as int,
            );
            lemma_mul_is_commutative(prev as int, SCALE as int);
            lemma_div_by_multiple(SCALE as int, prev as int);
        }
        r as u64
    }
}

/// The drop score for a ratio with the given saturation threshold.
fn drop_score_from_ratio(ratio: u64, full: u64) -> (score: u64)
    requires
        NOISE_FLOOR_FP < full <= SCALE,
        ratio <= SCALE,
    ensures
        score == spec_drop_score_fp(ratio as int, full as int),
        score <= SCALE,
{
    if ratio <= NOISE_FLOOR_FP {
        0
    } else if ratio >= full {
        SCALE
    } else {
        let score: u64 = ratio * SCALE / full;
        proof {
            lemma_mul_inequality(ratio as int, full as int, SCALE as int);
            lemma_div_is_ordered(
                (ratio as int) * (SCALE as int),
                (full as int) * (SCALE as int),
                full as int,
            );
            lemma_mul_is_commutative(full as int, SCALE as int);
            lemma_div_by_multiple(SCALE as int, full as int);
        }
        score
    }
}

/// Holder-drop score of one holder, in [0, SCALE].
pub fn holder_drop_score(holder: &HolderState) -> (score: u64)
    ensures
        score == spec_holder_score(*holder),
        score <= SCALE,
{
    let ratio = drop_ratio_fp(holder.previous_balance, holder.balance);
    drop_score_from_ratio(ratio, HOLDER_FULL_DROP_FP)
}

/// Liquidity-drop score of one pool, in [0, SCALE].
pub fn liquidity_drop_score(pool: &LiquidityPoolState) -> (score: u64)
    ensures
        score == spec_pool_score(*pool),
        score <= SCALE,
{
    let ratio = drop_ratio_fp(pool.previous_liquidity, pool.liquidity);
    drop_score_from_ratio(ratio, LIQUIDITY_FULL_DROP_FP)
}

/// Maximum holder-drop score over the holder set.
fn holders_signal(holders: &Vec<HolderState>) -> (signal: u64)
    ensures
        signal == spec_holders_signal(holders@),
        signal <= SCALE,
{
    let mut acc: u64 = 0;
    let n = holders.len();
    assert(holders@.take(0) =~= Seq::<HolderState>::empty());
    for i in 0..n
        invariant
            n == holders@.len(),
            acc == spec_holders_signal(holders@.take(i as int)),
            acc <= SCALE,
    {
        let score = holder_drop_score(&holders[i]);
        assert(holders@.take(i + 1).drop_last() =~= holders@.take(i as int));
        assert(holders@.take(i + 1).last() == holders@[i as int]);
        if score > acc {
            acc = score;
        }
    }
    assert(holders@.take(n as int) =~= holders@);
    acc
}

/// Maximum liquidity-drop score over the pool set.
fn pools_signal(pools: &Vec<LiquidityPoolState>) -> (signal: u64)
    ensures
        signal == spec_pools_signal(pools@),
        signal <= SCALE,
{
    let mut acc: u64 = 0;
    let n = pools.len();
    assert(pools@.take(0) =~= Seq::<LiquidityPoolState>::empty());
    for i in 0..n
        invariant
            n == pools@.len(),
            acc == spec_pools_signal(pools@.take(i as int)),
            acc <= SCALE,
    {
        let score = liquidity_drop_score(&pools[i]);
        assert(pools@.take(i + 1).drop_last() =~= pools@.take(i as int));
        assert(pools@.take(i + 1).last() == pools@[i as int]);
        if score > acc {
            acc = score;
        }
    }
    assert(pools@.take(n as int) =~= pools@);
    acc
}

/// Number of sell events carrying `slot` in the whole log.
fn sells_in_slot(logs: &std::collections::VecDeque<LogEvent>, slot: u64) -> (count: usize)
    ensures
        count == spec_sells_in_slot(logs@, slot),
        count <= logs@.len(),
{
    let mut count: usize = 0;
    let n = logs.len();
    assert(logs@.take(0) =~= Seq::<LogEvent>::empty());
    for j in 0..n
        invariant
            n == logs@.len(),
            count == spec_sells_in_slot(logs@.take(j as int), slot),
            count <= j,
    {
        let e = &logs[j];
        assert(logs@.take(j + 1).drop_last() =~= logs@.take(j as int));
        assert(logs@.take(j + 1).last() == logs@[j as int]);
        let is_sell = match e.side {
            TradeSide::Sell => true,
            TradeSide::Buy => false,
        };
        if is_sell && e.slot == slot {
            count = count + 1;
        }
    }
    assert(logs@.take(n as int) =~= logs@);
    count
}

/// Synchronous-sell signal over the trade log, in [0, SCALE]: groups sells
/// by slot, takes the largest per-slot count, saturates at
/// BURST_FULL_COUNT.
pub fn synchronous_sells(logs: &std::collections::VecDeque<LogEvent>) -> (signal: u64)
    ensures
        signal == spec_burst_signal(logs@),
        signal <= SCALE,
{
    let mut max_bundle: usize = 0;
    let n = logs.len();
    for i in 0..n
        invariant
            n == logs@.len(),
            max_bundle == spec_burst_prefix(logs@, i as int),
            max_bundle <= n,
    {
        let e = &logs[i];
        let is_sell = match e.side {
            TradeSide::Sell => true,
            TradeSide::Buy => false,
        };
        if is_sell {
            let count = sells_in_slot(logs, e.slot);
            if count > max_bundle {
                max_bundle = count;
            }
        }
    }
    if max_bundle as u64 >= BURST_FULL_COUNT {
        SCALE
    } else {
        (max_bundle as u64) * SCALE / BURST_FULL_COUNT
    }
}

/// Creator-reactivation signal at time `now`, in [0, SCALE].
pub fn creator_reactivation(state: &GlobalState, now: u64) -> (signal: u64)
    ensures
        signal == spec_creator_signal(state.creator_state, now),
        signal <= SCALE,
{
    match &state.creator_state {
        Option::None => 0,
        Option::Some(creator) => {
            let idle_ms: u64 = if now >= creator.last_activity {
                now - creator.last_activity
            } else {
                0
            };
            if creator.active && idle_ms > CREATOR_IDLE_MS {
                CREATOR_IDLE_SIGNAL_FP
            } else if creator.active {
                CREATOR_RECENT_SIGNAL_FP
            } else {
                0
            }
        },
    }
}

/// Recomputes the collapse probability of the snapshot at time `now`. The
/// result is a pure deterministic function of the snapshot and `now` alone,
/// always in [0, SCALE].
pub fn compute_risk_score(state: &GlobalState, now: u64) -> (score: u64)
    ensures
        score == spec_risk_score(*state, now),
        score <= SCALE,
{
    let holder_signal = holders_signal(&state.holders_state);
    let lp_signal = pools_signal(&state.lp_state);
    let synch_signal = synchronous_sells(&state.logs_state);
    let creator_signal = creator_reactivation(state, now);
    let weak_signal: u64 = match &state.cluster_profile {
        Option::Some(profile) => {
            if profile.suspicious_wallets > 0 {
                WEAK_CLUSTER_SIGNAL_FP
            } else {
                0
            }
        },
        Option::None => 0,
    };
    let weighted: u64 = (WEIGHT_HOLDER * holder_signal + WEIGHT_LIQUIDITY * lp_signal
        + WEIGHT_BURST * synch_signal + WEIGHT_CREATOR * creator_signal) / WEIGHT_DENOM;
    let esc: u64 = if holder_signal > ESCALATION_HOLDER_GATE_FP && lp_signal
        > ESCALATION_LIQUIDITY_GATE_FP {
        ESCALATION_BONUS_FP
    } else {
        0
    };
    let total: u64 = weighted + weak_signal + esc;
    if total > SCALE {
        SCALE
    } else {
        total
    }
}

/// Drop-score law: a ratio at or below the noise floor (0.05) scores 0, a
/// ratio at or above the saturation threshold scores SCALE (1.0), and in
/// between the score is linear in the ratio: ratio * SCALE / full.
pub proof fn lemma_drop_score_shape(ratio: int, full: int)
    requires
        NOISE_FLOOR_FP < full,
    ensures
        ratio <= NOISE_FLOOR_FP ==> spec_drop_score_fp(ratio, full) == 0,
        ratio >= full ==> spec_drop_score_fp(ratio, full) == SCALE,
        NOISE_FLOOR_FP < ratio < full ==> spec_drop_score_fp(ratio, full) == ratio * (SCALE as int)
            / full,
{
}

/// Drop-score law: for the two saturation thresholds in use, the score
/// never falls when the ratio grows.
pub proof fn lemma_drop_score_monotonic(r1: int, r2: int, full: int)
    requires
        0 <= r1 <= r2,
        full == HOLDER_FULL_DROP_FP || full == LIQUIDITY_FULL_DROP_FP,
    ensures
        spec_drop_score_fp(r1, full) <= spec_drop_score_fp(r2, full),
{
    if NOISE_FLOOR_FP < r1 && r2 < full {
        lemma_mul_inequality(r1, r2, SCALE as int);
        lemma_div_is_ordered(r1 * (SCALE as int), r2 * (SCALE as int), full);
    }
    if NOISE_FLOOR_FP < r1 && r1 < full && r2 >= full {
        lemma_mul_inequality(r1, full, SCALE as int);
        lemma_div_is_ordered(r1 * (SCALE as int), full * (SCALE as int), full);
        lemma_mul_is_commutative(full, SCALE as int);
        lemma_div_by_multiple(SCALE as int, full);
    }
}

/// Synchronous-sell law: a log without a single sell event has burst
/// signal 0.
pub proof fn lemma_burst_no_sells(logs: Seq<LogEvent>)
    requires
        forall|i: int| 0 <= i < logs.len() ==> !spec_is_sell(logs[i]),
    ensures
        spec_burst_signal(logs) == 0,
{
    lemma_burst_prefix_no_sells(logs, logs.len() as int);
}

proof fn lemma_burst_prefix_no_sells(logs: Seq<LogEvent>, n: int)
    requires
        n <= logs.len(),
        forall|i: int| 0 <= i < logs.len() ==> !spec_is_sell(logs[i]),
    ensures
        spec_burst_prefix(logs, n) == 0,
    decreases n,
{
    if n > 0 {
        lemma_burst_prefix_no_sells(logs, n - 1);
    }
}

/// Synchronous-sell law: the burst count dominates the per-slot sell count
/// of every sell event in the log.
pub proof fn lemma_burst_count_is_max(logs: Seq<LogEvent>)
    ensures
        forall|i: int|
            0 <= i < logs.len() && spec_is_sell(logs[i]) ==> spec_sells_in_slot(
                logs,
                logs[i].slot,
            ) <= spec_burst_count(logs),
{
    lemma_burst_prefix_is_max(logs, logs.len() as int);
}

proof fn lemma_burst_prefix_is_max(logs: Seq<LogEvent>, n: int)
    requires
        0 <= n <= logs.len(),
    ensures
        forall|i: int|
            0 <= i < n && spec_is_sell(logs[i]) ==> spec_sells_in_slot(logs, logs[i].slot)
                <= spec_burst_prefix(logs, n),
    decreases n,
{
    if n > 0 {
        lemma_burst_prefix_is_max(logs, n - 1);
        assert forall|i: int|
            0 <= i < n && spec_is_sell(logs[i]) implies spec_sells_in_slot(logs, logs[i].slot)
            <= spec_burst_prefix(logs, n) by {
            if i < n - 1 {
                assert(spec_sells_in_slot(logs, logs[i].slot) <= spec_burst_prefix(logs, n - 1));
            }
        }
    }
}

/// Escalation law: the flat bonus is added exactly when the holder signal
/// is strictly above 0.9 AND the liquidity signal strictly above 0.6; at
/// the boundary values themselves no bonus applies.
pub proof fn lemma_escalation_gates(h: int, l: int, b: int, c: int, weak: int)
    ensures
        !(h > ESCALATION_HOLDER_GATE_FP && l > ESCALATION_LIQUIDITY_GATE_FP) ==> spec_combined_fp(
            h,
            l,
            b,
            c,
            weak,
        ) == {
            let weighted = ((WEIGHT_HOLDER as int) * h + (WEIGHT_LIQUIDITY as int) * l
                + (WEIGHT_BURST as int) * b + (WEIGHT_CREATOR as int) * c) / (WEIGHT_DENOM as int);
            if weighted + weak > SCALE {
                SCALE as int
            } else {
                weighted + weak
            }
        },
        h > ESCALATION_HOLDER_GATE_FP && l > ESCALATION_LIQUIDITY_GATE_FP ==> spec_combined_fp(
            h,
            l,
            b,
            c,
            weak,
        ) == {
            let weighted = ((WEIGHT_HOLDER as int) * h + (WEIGHT_LIQUIDITY as int) * l
                + (WEIGHT_BURST as int) * b + (WEIGHT_CREATOR as int) * c) / (WEIGHT_DENOM as int);
            if weighted + weak + ESCALATION_BONUS_FP > SCALE {
                SCALE as int
            } else {
                weighted + weak + ESCALATION_BONUS_FP
            }
        },
        h == ESCALATION_HOLDER_GATE_FP || l == ESCALATION_LIQUIDITY_GATE_FP ==> spec_combined_fp(
            h,
            l,
            b,
            c,
            weak,
        ) <= {
            let weighted = ((WEIGHT_HOLDER as int) * h + (WEIGHT_LIQUIDITY as int) * l
                + (WEIGHT_BURST as int) * b + (WEIGHT_CREATOR as int) * c) / (WEIGHT_DENOM as int);
            weighted + weak
        },
{
}

} // verus!

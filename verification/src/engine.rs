use vstd::prelude::*;

use crate::ledger::{pnl_percent_fp, spec_pnl_percent_fp};
use crate::signals::{compute_risk_score, spec_risk_score};
use crate::state::{latest_price, spec_latest_price, GlobalState, SimulationPosition};
use crate::types::MonitoringContext;
use crate::{sat_sub, ALERT_COOLDOWN_MS};

verus! {

/// Hypothetical outcome of one simulated position if the collapse happened
/// now: entry and exit price, profit percentage and position age.
#[derive(Debug, Clone, Copy, PartialEq, Eq, Structural)]
pub struct SimulationOutcome {
    pub entry_price: u64,
    pub exit_price: u64,
    pub pnl_percent_fp: i128,
    pub elapsed_ms: u64,
}

/// Everything one alert dispatch needs, copied out of the snapshot so the
/// lock can be released before any delivery I/O.
#[derive(Debug, Clone)]
pub struct AlertBundle {
    pub chat: i64,
    pub probability: u64,
    pub latest_price: u64,
    pub outcomes: Vec<SimulationOutcome>,
}

/// What one evaluation tick decided.
#[derive(Debug, Clone)]
pub enum TickOutcome {
    /// No delivery target is configured: evaluation was skipped.
    Skipped,
    /// The probability was recomputed; no alert is due.
    NoAlert,
    /// An alert is due: deliver the bundle.
    Alert(AlertBundle),
}

/// The periodic evaluator: recomputes the collapse probability and decides
/// when to alert. The caller runs the fixed-period loop and performs the
/// delivery.
pub struct DetectionEngine {
    pub risk_threshold: u64,
}

/// Last alert time, or 0 when no alert was sent yet.
pub open spec fn spec_last_alert(s: GlobalState) -> u64 {
    match s.risk_state.last_alert_ms {
        Option::Some(t) => t,
        Option::None => 0,
    }
}

/// Whether a tick at `now` fires an alert: the freshly computed probability
/// clears the threshold and the cooldown window since the last alert has
/// strictly elapsed.
pub open spec fn spec_alert_due(s: GlobalState, threshold: u64, now: u64) -> bool {
    &&& spec_risk_score(s, now) >= threshold
    &&& sat_sub(now, spec_last_alert(s)) > ALERT_COOLDOWN_MS
}

impl DetectionEngine {
    /// An engine alerting from the given fixed-point probability threshold
    /// upward.
    pub fn new(risk_threshold: u64, _log_depth: usize) -> (engine: Self)
        ensures
            engine.risk_threshold == risk_threshold,
    {
        Self { risk_threshold }
    }

    /// One evaluation tick at time `now`. With no delivery target the
    /// snapshot is left untouched. Otherwise the collapse probability is
    /// recomputed and written back; when it clears the threshold and the
    /// cooldown has elapsed, the last-alert time is set to `now` and an
    /// alert bundle is returned, holding the probability, the latest price
    /// and one outcome report per simulated position. Nothing else in the
    /// snapshot changes, so producers never see a torn update.
    pub fn evaluate_tick(
        &self,
        state: &mut GlobalState,
        ctx: &MonitoringContext,
        now: u64,
    ) -> (outcome: TickOutcome)
        ensures
            ctx.active_chat is None ==> outcome == TickOutcome::Skipped && *final(state) == *old(
                state,
            ),
            ctx.active_chat is Some ==> {
                let fired = spec_alert_due(*old(state), self.risk_threshold, now);
                &&& final(state).risk_state.p_rug == spec_risk_score(*old(state), now)
                &&& final(state).holders_state == old(state).holders_state
                &&& final(state).lp_state == old(state).lp_state
                &&& final(state).logs_state == old(state).logs_state
                &&& final(state).creator_state == old(state).creator_state
                &&& final(state).simulations == old(state).simulations
                &&& final(state).cluster_profile == old(state).cluster_profile
                &&& !fired ==> final(state).risk_state.last_alert_ms == old(
                    state,
                ).risk_state.last_alert_ms && outcome == TickOutcome::NoAlert
                &&& fired ==> {
                    &&& final(state).risk_state.last_alert_ms == Some(now)
                    &&& outcome matches TickOutcome::Alert(bundle)
                    &&& bundle.chat == ctx.active_chat->0
                    &&& bundle.probability == spec_risk_score(*old(state), now)
                    &&& bundle.latest_price == spec_latest_price(*old(state))
                    &&& bundle.outcomes@.len() == old(state).simulations@.len()
                    &&& forall|j: int|
                        0 <= j < old(state).simulations@.len() ==> {
                            let pos = old(state).simulations@[j];
                            &&& (#[trigger] bundle.outcomes@[j]).entry_price == pos.buy_price
                            &&& bundle.outcomes@[j].exit_price == spec_latest_price(*old(state))
                            &&& bundle.outcomes@[j].pnl_percent_fp == spec_pnl_percent_fp(
                                spec_latest_price(*old(state)) as int,
                                pos.buy_price as int,
                            )
                            &&& bundle.outcomes@[j].elapsed_ms == sat_sub(now, pos.timestamp)
                        }
                }
            },
    {
        let chat: i64 = match ctx.active_chat {
            Option::None => {
                return TickOutcome::Skipped;
            },
            Option::Some(c) => c,
        };
        let new_score = compute_risk_score(&*state, now);
        state.risk_state.p_rug = new_score;
        if new_score >= self.risk_threshold {
            let last_alert: u64 = match state.risk_state.last_alert_ms {
                Option::Some(t) => t,
                Option::None => 0,
            };
            let since: u64 = if now >= last_alert {
                now - last_alert
            } else {
                0
            };
            if since > ALERT_COOLDOWN_MS {
                state.risk_state.last_alert_ms = Some(now);
                let price = latest_price(&*state);
                let outcomes = simulation_outcomes(&state.simulations, price, now);
                return TickOutcome::Alert(AlertBundle {
                    chat,
                    probability: new_score,
                    latest_price: price,
                    outcomes,
                });
            }
        }
        TickOutcome::NoAlert
    }
}

/// One outcome report per simulated position: hypothetical profit at
/// `price` against the position's entry price, and the position's age.
fn simulation_outcomes(positions: &Vec<SimulationPosition>, price: u64, now: u64) -> (outcomes:
    Vec<SimulationOutcome>)
    ensures
        outcomes@.len() == positions@.len(),
        forall|j: int|
            0 <= j < positions@.len() ==> {
                let pos = positions@[j];
                &&& (#[trigger] outcomes@[j]).entry_price == pos.buy_price
                &&& outcomes@[j].exit_price == price
                &&& outcomes@[j].pnl_percent_fp == spec_pnl_percent_fp(
                    price as int,
                    pos.buy_price as int,
                )
                &&& outcomes@[j].elapsed_ms == sat_sub(now, pos.timestamp)
            },
{
    let mut outcomes: Vec<SimulationOutcome> = Vec::new();
    let n = positions.len();
    for i in 0..n
        invariant
            n == positions@.len(),
            outcomes@.len() == i,
            forall|j: int|
                0 <= j < i ==> {
                    let pos = positions@[j];
                    &&& (#[trigger] outcomes@[j]).entry_price == pos.buy_price
                    &&& outcomes@[j].exit_price == price
                    &&& outcomes@[j].pnl_percent_fp == spec_pnl_percent_fp(
                        price as int,
                        pos.buy_price as int,
                    )
                    &&& outcomes@[j].elapsed_ms == sat_sub(now, pos.timestamp)
                },
    {
        let pos = &positions[i];
        let pnl = pnl_percent_fp(price, pos.buy_price);
        let elapsed: u64 = if now >= pos.timestamp {
            now - pos.timestamp
        } else {
            0
        };
        outcomes.push(SimulationOutcome {
            entry_price: pos.buy_price,
            exit_price: price,
            pnl_percent_fp: pnl,
            elapsed_ms: elapsed,
        });
    }
    outcomes
}

/// Cooldown law: once an alert fired at time `t1`, any snapshot still
/// carrying that alert time cannot fire again at a time `t2` within the
/// cooldown window, whatever the probability — so two qualifying ticks
/// within the window produce exactly one alert.
pub proof fn lemma_cooldown_suppresses_second_alert(
    s: GlobalState,
    threshold: u64,
    t1: u64,
    t2: u64,
)
    requires
        s.risk_state.last_alert_ms == Some(t1),
        t2 - t1 <= ALERT_COOLDOWN_MS,
    ensures
        !spec_alert_due(s, threshold, t2),
{
}

} // verus!

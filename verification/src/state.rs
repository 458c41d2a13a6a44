use vstd::prelude::*;
use std::collections::VecDeque;

use crate::cluster::ClusterProfile;
use crate::types::LogEvent;

verus! {

/// One tracked holder. `previous_balance` holds the balance immediately
/// before the last mutation; producers keep both non-negative by
/// construction (unsigned fixed-point units).
#[derive(Debug, Clone)]
pub struct HolderState {
    pub owner: String,
    pub balance: u64,
    pub previous_balance: u64,
    pub last_update: u64,
    pub is_suspicious: bool,
}

/// One tracked liquidity pool, with the liquidity immediately before the
/// last change.
#[derive(Debug, Clone)]
pub struct LiquidityPoolState {
    pub pool: String,
    pub liquidity: u64,
    pub previous_liquidity: u64,
    pub last_change: u64,
}

/// Activity record of the token creator, present only during an active
/// session.
#[derive(Debug, Clone)]
pub struct CreatorState {
    pub address: String,
    pub last_activity: u64,
    pub active: bool,
}

/// One virtual (paper) position: invested amount, entry price and remaining
/// quantity in fixed-point units. Sells mutate the latest position in place.
#[derive(Debug, Clone)]
pub struct SimulationPosition {
    pub timestamp: u64,
    pub amount_sol: u64,
    pub buy_price: u64,
    pub token_qty: u64,
    pub realized_profit_sol: u64,
}

/// Current collapse probability and the time of the last alert, if any.
/// Enforces at-most-one-alert-per-cooldown.
#[derive(Debug, Clone)]
pub struct RiskState {
    pub p_rug: u64,
    pub last_alert_ms: Option<u64>,
}

/// The single authoritative market snapshot. Callers serialize access to it
/// behind one exclusive lock, so batch updates appear atomic to readers.
#[derive(Debug, Clone)]
pub struct GlobalState {
    pub holders_state: Vec<HolderState>,
    pub lp_state: Vec<LiquidityPoolState>,
    pub logs_state: VecDeque<LogEvent>,
    pub creator_state: Option<CreatorState>,
    pub simulations: Vec<SimulationPosition>,
    pub risk_state: RiskState,
    pub cluster_profile: Option<ClusterProfile>,
}

impl GlobalState {
    /// An empty snapshot: no records, probability zero, no alert yet.
    pub fn new(log_depth: usize) -> (s: Self)
        ensures
            s.holders_state@ =~= Seq::<HolderState>::empty(),
            s.lp_state@ =~= Seq::<LiquidityPoolState>::empty(),
            s.logs_state@ =~= Seq::<LogEvent>::empty(),
            s.creator_state is None,
            s.simulations@ =~= Seq::<SimulationPosition>::empty(),
            s.risk_state.p_rug == 0,
            s.risk_state.last_alert_ms is None,
            s.cluster_profile is None,
    {
        Self {
            holders_state: Vec::new(),
            lp_state: Vec::new(),
            logs_state: VecDeque::with_capacity(log_depth),
            creator_state: None,
            simulations: Vec::new(),
            risk_state: RiskState { p_rug: 0, last_alert_ms: None },
            cluster_profile: None,
        }
    }

    /// Appends a trade event to the log ring buffer: when the buffer already
    /// holds `depth` events the oldest one is evicted first, so the buffer
    /// keeps the `depth` most recent events in FIFO order.
    pub fn push_log(&mut self, event: LogEvent, depth: usize)
        ensures
            final(self).logs_state@ == spec_push_log(old(self).logs_state@, event, depth as int),
            final(self).holders_state == old(self).holders_state,
            final(self).lp_state == old(self).lp_state,
            final(self).creator_state == old(self).creator_state,
            final(self).simulations == old(self).simulations,
            final(self).risk_state == old(self).risk_state,
            final(self).cluster_profile == old(self).cluster_profile,
    {
        if self.logs_state.len() == depth {
            self.logs_state.pop_front();
        }
        self.logs_state.push_back(event);
    }

    /// Replaces the whole holder set in one step, as a producer's bulk
    /// refresh does.
    pub fn replace_holder_set(&mut self, records: Vec<HolderState>)
        ensures
            final(self).holders_state == records,
            final(self).lp_state == old(self).lp_state,
            final(self).logs_state == old(self).logs_state,
            final(self).creator_state == old(self).creator_state,
            final(self).simulations == old(self).simulations,
            final(self).risk_state == old(self).risk_state,
            final(self).cluster_profile == old(self).cluster_profile,
    {
        self.holders_state = records;
    }

    /// Replaces the whole pool set in one step.
    pub fn replace_pool_set(&mut self, records: Vec<LiquidityPoolState>)
        ensures
            final(self).lp_state == records,
            final(self).holders_state == old(self).holders_state,
            final(self).logs_state == old(self).logs_state,
            final(self).creator_state == old(self).creator_state,
            final(self).simulations == old(self).simulations,
            final(self).risk_state == old(self).risk_state,
            final(self).cluster_profile == old(self).cluster_profile,
    {
        self.lp_state = records;
    }

    /// Sets or clears the creator-activity record.
    pub fn set_creator_activity(&mut self, creator: Option<CreatorState>)
        ensures
            final(self).creator_state == creator,
            final(self).holders_state == old(self).holders_state,
            final(self).lp_state == old(self).lp_state,
            final(self).logs_state == old(self).logs_state,
            final(self).simulations == old(self).simulations,
            final(self).risk_state == old(self).risk_state,
            final(self).cluster_profile == old(self).cluster_profile,
    {
        self.creator_state = creator;
    }

    /// Sets or clears the derived cluster profile.
    pub fn set_cluster_profile(&mut self, profile: Option<ClusterProfile>)
        ensures
            final(self).cluster_profile == profile,
            final(self).holders_state == old(self).holders_state,
            final(self).lp_state == old(self).lp_state,
            final(self).logs_state == old(self).logs_state,
            final(self).creator_state == old(self).creator_state,
            final(self).simulations == old(self).simulations,
            final(self).risk_state == old(self).risk_state,
    {
        self.cluster_profile = profile;
    }

    /// Starts a monitoring session: clears the holder, pool, log and creator
    /// state, resets the risk state, and seeds a fresh (inactive) creator
    /// record for `creator_address`. Simulated positions are retained.
    pub fn start_session(&mut self, creator_address: String, now: u64)
        ensures
            final(self).holders_state@ =~= Seq::<HolderState>::empty(),
            final(self).lp_state@ =~= Seq::<LiquidityPoolState>::empty(),
            final(self).logs_state@ =~= Seq::<LogEvent>::empty(),
            final(self).creator_state == Some(CreatorState {
                address: creator_address,
                last_activity: now,
                active: false,
            }),
            final(self).risk_state.p_rug == 0,
            final(self).risk_state.last_alert_ms is None,
            final(self).simulations == old(self).simulations,
            final(self).cluster_profile == old(self).cluster_profile,
    {
        self.holders_state = Vec::new();
        self.lp_state = Vec::new();
        self.logs_state.clear();
        self.creator_state = Some(CreatorState {
            address: creator_address,
            last_activity: now,
            active: false,
        });
        self.risk_state = RiskState { p_rug: 0, last_alert_ms: None };
    }
}

/// The log contents after one append with capacity `depth`: the oldest
/// event is evicted first when the log is full.
pub open spec fn spec_push_log(logs: Seq<LogEvent>, event: LogEvent, depth: int) -> Seq<LogEvent> {
    if logs.len() == depth && depth > 0 {
        logs.subrange(1, logs.len() as int).push(event)
    } else {
        logs.push(event)
    }
}

/// The log contents after appending every event of `events` in order.
pub open spec fn spec_push_all(logs: Seq<LogEvent>, events: Seq<LogEvent>, depth: int) -> Seq<
    LogEvent,
>
    decreases events.len(),
{
    if events.len() == 0 {
        logs
    } else {
        spec_push_all(spec_push_log(logs, events.first(), depth), events.drop_first(), depth)
    }
}

/// Ring-buffer law: starting from a log holding at most `depth` events,
/// appending any sequence of events retains exactly the
/// min(depth, initial + appended) most recent events, in FIFO order.
pub proof fn lemma_push_log_fifo(logs: Seq<LogEvent>, events: Seq<LogEvent>, depth: int)
    requires
        depth > 0,
        logs.len() <= depth,
    ensures
        spec_push_all(logs, events, depth) =~= (logs + events).skip(
            if logs.len() + events.len() <= depth {
                0
            } else {
                logs.len() + events.len() - depth
            },
        ),
    decreases events.len(),
{
    if events.len() == 0 {
        assert(logs + events =~= logs);
    } else {
        let e0 = events.first();
        let rest = events.drop_first();
        let stepped = spec_push_log(logs, e0, depth);
        lemma_push_log_fifo(stepped, rest, depth);
        if logs.len() < depth {
            assert(stepped + rest =~= logs + events);
        } else {
            assert(stepped + rest =~= (logs + events).skip(1));
            assert((logs + events).skip(1).skip(
                if stepped.len() + rest.len() <= depth {
                    0
                } else {
                    stepped.len() + rest.len() - depth
                },
            ) =~= (logs + events).skip(logs.len() + events.len() - depth));
        }
    }
}

/// Price of the most recent trade event, or 0 when no event was seen yet.
pub open spec fn spec_latest_price(s: GlobalState) -> u64 {
    if s.logs_state@.len() == 0 {
        0
    } else {
        s.logs_state@.last().price
    }
}

/// Slot of the most recent trade event, or 0 when no event was seen yet.
pub open spec fn spec_latest_slot(s: GlobalState) -> u64 {
    if s.logs_state@.len() == 0 {
        0
    } else {
        s.logs_state@.last().slot
    }
}

/// Price of the most recent trade event, or 0 with an empty log.
pub fn latest_price(state: &GlobalState) -> (price: u64)
    ensures
        price == spec_latest_price(*state),
{
    let n = state.logs_state.len();
    if n == 0 {
        0
    } else {
        state.logs_state[n - 1].price
    }
}

/// Slot of the most recent trade event, or 0 with an empty log.
pub fn latest_slot(state: &GlobalState) -> (slot: u64)
    ensures
        slot == spec_latest_slot(*state),
{
    let n = state.logs_state.len();
    if n == 0 {
        0
    } else {
        state.logs_state[n - 1].slot
    }
}

/// The probability and latest price of the current snapshot, read together.
pub fn read_risk_summary(state: &GlobalState) -> (summary: (u64, u64))
    ensures
        summary.0 == state.risk_state.p_rug,
        summary.1 == spec_latest_price(*state),
{
    (state.risk_state.p_rug, latest_price(state))
}

} // verus!

use rug_surfer_bot::state::{
    latest_price, latest_slot, read_risk_summary, CreatorState, GlobalState, HolderState,
    LiquidityPoolState,
};
use rug_surfer_bot::types::{LogEvent, TradeSide};
use rug_surfer_bot::SCALE;

fn event(slot: u64, price: u64) -> LogEvent {
    LogEvent { slot, price, side: TradeSide::Buy, amount: SCALE }
}

#[test]
fn new_state_is_empty() {
    let state = GlobalState::new(8);
    assert!(state.holders_state.is_empty());
    assert!(state.lp_state.is_empty());
    assert!(state.logs_state.is_empty());
    assert!(state.creator_state.is_none());
    assert!(state.simulations.is_empty());
    assert!(state.cluster_profile.is_none());
    assert_eq!(state.risk_state.p_rug, 0);
    assert_eq!(state.risk_state.last_alert_ms, None);
}

#[test]
fn ring_buffer_keeps_the_most_recent_events_in_fifo_order() {
    // depth 3, insert 3 + 2 events: slots 3, 4, 5 remain, oldest first.
    let depth = 3;
    let mut state = GlobalState::new(depth);
    for slot in 1..=5 {
        state.push_log(event(slot, slot * 10), depth);
    }
    assert_eq!(state.logs_state.len(), depth);
    let slots: Vec<u64> = state.logs_state.iter().map(|e| e.slot).collect();
    assert_eq!(slots, vec![3, 4, 5]);
}

#[test]
fn ring_buffer_below_capacity_just_appends() {
    let depth = 8;
    let mut state = GlobalState::new(depth);
    state.push_log(event(1, 10), depth);
    state.push_log(event(2, 20), depth);
    assert_eq!(state.logs_state.len(), 2);
    let slots: Vec<u64> = state.logs_state.iter().map(|e| e.slot).collect();
    assert_eq!(slots, vec![1, 2]);
}

#[test]
fn latest_price_and_slot_track_the_newest_event() {
    let mut state = GlobalState::new(4);
    assert_eq!(latest_price(&state), 0);
    assert_eq!(latest_slot(&state), 0);
    state.push_log(event(5, 2_500), 4);
    state.push_log(event(6, 2_600), 4);
    assert_eq!(latest_price(&state), 2_600);
    assert_eq!(latest_slot(&state), 6);
}

#[test]
fn read_risk_summary_reports_probability_and_price() {
    let mut state = GlobalState::new(4);
    state.push_log(event(5, 2_500), 4);
    state.risk_state.p_rug = 420_000;
    assert_eq!(read_risk_summary(&state), (420_000, 2_500));
}

#[test]
fn replace_sets_swap_contents_wholesale() {
    let mut state = GlobalState::new(4);
    state.replace_holder_set(vec![HolderState {
        owner: String::from("HOLDER_01"),
        balance: 100,
        previous_balance: 100,
        last_update: 0,
        is_suspicious: false,
    }]);
    state.replace_pool_set(vec![LiquidityPoolState {
        pool: String::from("LP_POOL_01"),
        liquidity: 500,
        previous_liquidity: 500,
        last_change: 0,
    }]);
    assert_eq!(state.holders_state.len(), 1);
    assert_eq!(state.lp_state.len(), 1);
    state.replace_holder_set(Vec::new());
    assert!(state.holders_state.is_empty());
}

#[test]
fn start_session_clears_market_state_and_seeds_the_creator() {
    let depth = 4;
    let mut state = GlobalState::new(depth);
    state.replace_holder_set(vec![HolderState {
        owner: String::from("HOLDER_01"),
        balance: 100,
        previous_balance: 100,
        last_update: 0,
        is_suspicious: false,
    }]);
    state.push_log(event(1, 10), depth);
    state.risk_state.p_rug = 900_000;
    state.risk_state.last_alert_ms = Some(5_000);
    state.record_buy(10 * SCALE, SCALE, 100);

    state.start_session(String::from("CREATOR_MINT"), 7_000);

    assert!(state.holders_state.is_empty());
    assert!(state.lp_state.is_empty());
    assert!(state.logs_state.is_empty());
    assert_eq!(state.risk_state.p_rug, 0);
    assert_eq!(state.risk_state.last_alert_ms, None);
    let creator = state.creator_state.clone().expect("creator must be seeded");
    assert_eq!(creator.address, "CREATOR_MINT");
    assert_eq!(creator.last_activity, 7_000);
    assert!(!creator.active);
    // simulated positions are retained for the session
    assert_eq!(state.simulations.len(), 1);
}

#[test]
fn set_creator_activity_replaces_and_clears() {
    let mut state = GlobalState::new(4);
    state.set_creator_activity(Some(CreatorState {
        address: String::from("CREATOR_X"),
        last_activity: 1,
        active: true,
    }));
    assert!(state.creator_state.is_some());
    state.set_creator_activity(None);
    assert!(state.creator_state.is_none());
}

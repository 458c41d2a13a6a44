use rug_surfer_bot::cluster::analyze_addresses;
use rug_surfer_bot::engine::{DetectionEngine, TickOutcome};
use rug_surfer_bot::state::GlobalState;
use rug_surfer_bot::types::{LogEvent, MonitoringContext, TradeSide};
use rug_surfer_bot::SCALE;

/// A snapshot whose risk score is 0.15 (one suspicious wallet) at any time.
fn risky_state() -> GlobalState {
    let mut state = GlobalState::new(16);
    let profile = analyze_addresses(&[String::from("WALLET_0")]);
    state.set_cluster_profile(Some(profile));
    state
}

fn watched_context() -> MonitoringContext {
    let mut ctx = MonitoringContext::new();
    ctx.set_target(77, String::from("MINT_AAAA"));
    ctx
}

#[test]
fn tick_without_target_skips_and_leaves_state_alone() {
    let engine = DetectionEngine::new(100_000, 16);
    let mut state = risky_state();
    let ctx = MonitoringContext::new();
    let outcome = engine.evaluate_tick(&mut state, &ctx, 10_000);
    assert!(matches!(outcome, TickOutcome::Skipped));
    assert_eq!(state.risk_state.p_rug, 0);
    assert_eq!(state.risk_state.last_alert_ms, None);
}

#[test]
fn tick_below_threshold_updates_probability_without_alert() {
    let engine = DetectionEngine::new(500_000, 16);
    let mut state = risky_state();
    let ctx = watched_context();
    let outcome = engine.evaluate_tick(&mut state, &ctx, 10_000);
    assert!(matches!(outcome, TickOutcome::NoAlert));
    assert_eq!(state.risk_state.p_rug, 150_000);
    assert_eq!(state.risk_state.last_alert_ms, None);
}

#[test]
fn two_qualifying_ticks_within_the_cooldown_produce_one_alert() {
    let engine = DetectionEngine::new(100_000, 16);
    let mut state = risky_state();
    let ctx = watched_context();

    let first = engine.evaluate_tick(&mut state, &ctx, 10_000);
    assert!(matches!(first, TickOutcome::Alert(_)));
    assert_eq!(state.risk_state.last_alert_ms, Some(10_000));

    // 1000 ms later: still qualifying, but inside the 1500 ms window.
    let second = engine.evaluate_tick(&mut state, &ctx, 11_000);
    assert!(matches!(second, TickOutcome::NoAlert));
    assert_eq!(state.risk_state.last_alert_ms, Some(10_000));

    // exactly at the window edge: strictly-greater is required.
    let third = engine.evaluate_tick(&mut state, &ctx, 11_500);
    assert!(matches!(third, TickOutcome::NoAlert));

    // once the window has strictly elapsed the next qualifying tick fires.
    let fourth = engine.evaluate_tick(&mut state, &ctx, 11_501);
    assert!(matches!(fourth, TickOutcome::Alert(_)));
    assert_eq!(state.risk_state.last_alert_ms, Some(11_501));
}

#[test]
fn alert_bundle_reports_probability_price_and_outcomes() {
    let engine = DetectionEngine::new(100_000, 16);
    let mut state = risky_state();
    let ctx = watched_context();

    // one simulated position bought at 2.0, price moves to 3.0
    state.record_buy(100 * SCALE, 2 * SCALE, 4_000);
    state.push_log(
        LogEvent { slot: 9, price: 3 * SCALE, side: TradeSide::Buy, amount: SCALE },
        16,
    );

    let outcome = engine.evaluate_tick(&mut state, &ctx, 10_000);
    match outcome {
        TickOutcome::Alert(bundle) => {
            assert_eq!(bundle.chat, 77);
            assert_eq!(bundle.probability, 150_000);
            assert_eq!(bundle.latest_price, 3 * SCALE);
            assert_eq!(bundle.outcomes.len(), 1);
            let report = &bundle.outcomes[0];
            assert_eq!(report.entry_price, 2 * SCALE);
            assert_eq!(report.exit_price, 3 * SCALE);
            // (3.0 - 2.0) / 2.0 * 100 = +50%
            assert_eq!(report.pnl_percent_fp, 50 * (SCALE as i128));
            assert_eq!(report.elapsed_ms, 6_000);
        }
        _ => panic!("expected an alert"),
    }
}

#[test]
fn outcome_with_zero_entry_price_reports_zero_pnl() {
    let engine = DetectionEngine::new(100_000, 16);
    let mut state = risky_state();
    let ctx = watched_context();
    state.record_buy(100 * SCALE, 0, 4_000);
    let outcome = engine.evaluate_tick(&mut state, &ctx, 10_000);
    match outcome {
        TickOutcome::Alert(bundle) => {
            assert_eq!(bundle.outcomes.len(), 1);
            assert_eq!(bundle.outcomes[0].pnl_percent_fp, 0);
        }
        _ => panic!("expected an alert"),
    }
}

#[test]
fn stopping_the_session_stops_alerts_but_not_evaluation() {
    let engine = DetectionEngine::new(100_000, 16);
    let mut state = risky_state();
    let mut ctx = watched_context();

    let first = engine.evaluate_tick(&mut state, &ctx, 10_000);
    assert!(matches!(first, TickOutcome::Alert(_)));

    ctx.clear_target();
    let second = engine.evaluate_tick(&mut state, &ctx, 20_000);
    assert!(matches!(second, TickOutcome::Skipped));
    assert_eq!(state.risk_state.last_alert_ms, Some(10_000));
}

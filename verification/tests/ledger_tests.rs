use rug_surfer_bot::ledger::{pnl_percent_fp, SellOutcome};
use rug_surfer_bot::state::GlobalState;
use rug_surfer_bot::SCALE;

#[test]
fn buy_then_partial_sell_matches_the_worked_example() {
    // recordBuy(100, price = 2.0) -> quantity = 50
    let mut state = GlobalState::new(16);
    let qty = state.record_buy(100 * SCALE, 2 * SCALE, 1_000);
    assert_eq!(qty, 50 * SCALE);
    assert_eq!(state.simulations.len(), 1);
    assert_eq!(state.simulations[0].token_qty, 50 * SCALE);
    assert_eq!(state.simulations[0].amount_sol, 100 * SCALE);
    assert_eq!(state.simulations[0].realized_profit_sol, 0);

    // recordSell(50%, price = 3.0) -> proceeds 75, remaining 25,
    // realized 75, cumulative pnl (75 - 100) / 100 * 100 = -25%.
    let outcome = state.record_sell(50, 3 * SCALE);
    match outcome {
        SellOutcome::Sold(report) => {
            assert_eq!(report.proceeds, 75 * SCALE);
            assert_eq!(report.remaining_quantity, 25 * SCALE);
            assert_eq!(report.cumulative_pnl_fp, -25 * (SCALE as i128));
        }
        SellOutcome::Inactive => panic!("expected a sold report"),
    }
    assert_eq!(state.simulations[0].token_qty, 25 * SCALE);
    assert_eq!(state.simulations[0].realized_profit_sol, 75 * SCALE);
}

#[test]
fn buy_at_zero_price_yields_zero_quantity_without_failure() {
    let mut state = GlobalState::new(16);
    let qty = state.record_buy(100 * SCALE, 0, 1_000);
    assert_eq!(qty, 0);
    assert_eq!(state.simulations.len(), 1);
    assert_eq!(state.simulations[0].token_qty, 0);
}

#[test]
fn sell_without_a_position_reports_inactive() {
    let mut state = GlobalState::new(16);
    let outcome = state.record_sell(50, 3 * SCALE);
    assert_eq!(outcome, SellOutcome::Inactive);
    assert!(state.simulations.is_empty());
}

#[test]
fn sell_hits_only_the_most_recent_position() {
    let mut state = GlobalState::new(16);
    state.record_buy(100 * SCALE, 2 * SCALE, 1_000);
    state.record_buy(60 * SCALE, 3 * SCALE, 2_000);
    let outcome = state.record_sell(100, 3 * SCALE);
    match outcome {
        SellOutcome::Sold(report) => {
            // second position: 20 tokens, all sold at 3.0 -> 60 back, 0% pnl
            assert_eq!(report.proceeds, 60 * SCALE);
            assert_eq!(report.remaining_quantity, 0);
            assert_eq!(report.cumulative_pnl_fp, 0);
        }
        SellOutcome::Inactive => panic!("expected a sold report"),
    }
    // first position untouched
    assert_eq!(state.simulations[0].token_qty, 50 * SCALE);
    assert_eq!(state.simulations[0].realized_profit_sol, 0);
}

#[test]
fn repeated_sells_accumulate_realized_proceeds() {
    let mut state = GlobalState::new(16);
    state.record_buy(100 * SCALE, 2 * SCALE, 1_000);
    state.record_sell(50, 3 * SCALE);
    let outcome = state.record_sell(100, 4 * SCALE);
    match outcome {
        SellOutcome::Sold(report) => {
            // remaining 25 tokens sold at 4.0 -> 100; realized 75 + 100 = 175
            assert_eq!(report.proceeds, 100 * SCALE);
            assert_eq!(report.remaining_quantity, 0);
            // (175 - 100) / 100 * 100 = +75%
            assert_eq!(report.cumulative_pnl_fp, 75 * (SCALE as i128));
        }
        SellOutcome::Inactive => panic!("expected a sold report"),
    }
}

#[test]
fn sell_with_zero_invested_amount_reports_zero_pnl() {
    let mut state = GlobalState::new(16);
    state.record_buy(0, 2 * SCALE, 1_000);
    let outcome = state.record_sell(100, 5 * SCALE);
    match outcome {
        SellOutcome::Sold(report) => {
            assert_eq!(report.proceeds, 0);
            assert_eq!(report.cumulative_pnl_fp, 0);
        }
        SellOutcome::Inactive => panic!("expected a sold report"),
    }
}

#[test]
fn pnl_percent_basic_values() {
    // price doubled: +100%
    assert_eq!(pnl_percent_fp(2 * SCALE, SCALE), 100 * (SCALE as i128));
    // price halved: -50%
    assert_eq!(pnl_percent_fp(SCALE / 2, SCALE), -50 * (SCALE as i128));
    // zero base: soft 0
    assert_eq!(pnl_percent_fp(5 * SCALE, 0), 0);
    // unchanged: 0
    assert_eq!(pnl_percent_fp(SCALE, SCALE), 0);
}

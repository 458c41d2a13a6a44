use vstd::prelude::*;
use vstd::arithmetic::div_mod::{
    lemma_div_by_multiple, lemma_div_is_ordered, lemma_div_is_ordered_by_denominator,
};
use vstd::arithmetic::mul::{lemma_mul_inequality, lemma_mul_is_commutative};

use crate::state::{GlobalState, SimulationPosition};
use crate::SCALE;

verus! {

/// Result of selling from the most recent simulated position.
#[derive(Debug, Clone, Copy, PartialEq, Eq, Structural)]
pub struct SellReport {
    /// Fixed-point amount received for the sold quantity.
    pub proceeds: u64,
    /// Fixed-point percentage (realized - invested) / invested * 100 of the
    /// position after this sale.
    pub cumulative_pnl_fp: i128,
    /// Fixed-point quantity still held after this sale.
    pub remaining_quantity: u64,
}

/// A sell either hits the most recent position or reports that no position
/// is open; the latter is a typed result, not a failure.
#[derive(Debug, Clone, Copy, PartialEq, Eq, Structural)]
pub enum SellOutcome {
    Inactive,
    Sold(SellReport),
}

/// Quantity bought with `invest` at `price` (both fixed-point): 0 on a zero
/// price (soft failure), else invest / price.
pub open spec fn spec_buy_qty_fp(invest: u64, price: u64) -> int {
    if price == 0 {
        0
    } else {
        (invest as int) * (SCALE as int) / (price as int)
    }
}

/// Quantity sold when `percent` (in whole percent, 0..=100) of `qty` is
/// cashed out.
pub open spec fn spec_sold_qty_fp(qty: u64, percent: u64) -> int {
    (qty as int) * (percent as int) / 100
}

/// Fixed-point amount received for `sold` quantity at `price`.
pub open spec fn spec_proceeds_fp(sold: int, price: u64) -> int {
    sold * (price as int) / (SCALE as int)
}

/// Fixed-point percentage (value - base) / base * 100; 0 when base is 0.
/// The magnitude is rounded down, the sign kept.
pub open spec fn spec_pnl_percent_fp(value: int, base: int) -> int {
    if base <= 0 {
        0
    } else if value >= base {
        (value - base) * 100 * (SCALE as int) / base
    } else {
        -((base - value) * 100 * (SCALE as int) / base)
    }
}

/// Fixed-point percentage gain or loss of `value` over `base`, 0 when base
/// is 0; total over all inputs.
pub fn pnl_percent_fp(value: u64, base: u64) -> (pnl: i128)
    ensures
        pnl == spec_pnl_percent_fp(value as int, base as int),
{
    if base == 0 {
        0
    } else if value >= base {
        let num: u128 = ((value - base) as u128) * 100_000_000u128;
        let r: u128 = num / (base as u128);
        proof {
            lemma_div_is_ordered_by_denominator(num as int, 1, base as int);
        }
        r as i128
    } else {
        let num: u128 = ((base - value) as u128) * 100_000_000u128;
        let r: u128 = num / (base as u128);
        proof {
            lemma_mul_inequality((base - value) as int, base as int, 100_000_000int);
            lemma_div_is_ordered(
                ((base - value) as int) * 100_000_000int,
                (base as int) * 100_000_000int,
                base as int,
            );
            lemma_mul_is_commutative(base as int, 100_000_000int);
            lemma_div_by_multiple(100_000_000int, base as int);
        }
        -(r as i128)
    }
}

impl GlobalState {
    /// Opens a new simulated position: invests `invest` at `price` (both
    /// fixed-point) at time `now` and appends it to the ledger. A zero
    /// price yields quantity 0 without failing. Returns the bought
    /// quantity.
    pub fn record_buy(&mut self, invest: u64, price: u64, now: u64) -> (qty: u64)
        requires
            price > 0 ==> (invest as int) * (SCALE as int) / (price as int) <= u64::MAX,
        ensures
            qty == spec_buy_qty_fp(invest, price),
            final(self).simulations@ == old(self).simulations@.push(
                (SimulationPosition {
                    timestamp: now,
                    amount_sol: invest,
                    buy_price: price,
                    token_qty: qty,
                    realized_profit_sol: 0,
                }),
            ),
            final(self).holders_state == old(self).holders_state,
            final(self).lp_state == old(self).lp_state,
            final(self).logs_state == old(self).logs_state,
            final(self).creator_state == old(self).creator_state,
            final(self).risk_state == old(self).risk_state,
            final(self).cluster_profile == old(self).cluster_profile,
    {
        let qty: u64 = if price == 0 {
            0
        } else {
            let num: u128 = (invest as u128) * (SCALE as u128);
            let q: u128 = num / (price as u128);
            q as u64
        };
        self.simulations.push(SimulationPosition {
            timestamp: now,
            amount_sol: invest,
            buy_price: price,
            token_qty: qty,
            realized_profit_sol: 0,
        });
        qty
    }

    /// Sells `percent` (0..=100) of the most recently opened position at
    /// `price`: decrements its remaining quantity, accumulates the
    /// proceeds, and reports proceeds, cumulative profit percentage and
    /// remaining quantity. With no open position the ledger is unchanged
    /// and `Inactive` is returned.
    pub fn record_sell(&mut self, percent: u64, price: u64) -> (outcome: SellOutcome)
        requires
            percent <= 100,
            old(self).simulations@.len() > 0 ==> (old(self).simulations@.last().realized_profit_sol
                as int) + spec_proceeds_fp(
                spec_sold_qty_fp(old(self).simulations@.last().token_qty, percent),
                price,
            ) <= u64::MAX,
        ensures
            old(self).simulations@.len() == 0 ==> outcome == SellOutcome::Inactive
                && final(self).simulations@ == old(self).simulations@,
            old(self).simulations@.len() > 0 ==> ({
                let pos = old(self).simulations@.last();
                let sold = spec_sold_qty_fp(pos.token_qty, percent);
                let proceeds = spec_proceeds_fp(sold, price);
                let new_realized = pos.realized_profit_sol + proceeds;
                &&& final(self).simulations@ == old(self).simulations@.update(
                    old(self).simulations@.len() - 1,
                    (SimulationPosition {
                        timestamp: pos.timestamp,
                        amount_sol: pos.amount_sol,
                        buy_price: pos.buy_price,
                        token_qty: (pos.token_qty - sold) as u64,
                        realized_profit_sol: new_realized as u64,
                    }),
                )
                &&& outcome == SellOutcome::Sold(
                    (SellReport {
                        proceeds: proceeds as u64,
                        cumulative_pnl_fp: spec_pnl_percent_fp(
                            new_realized,
                            pos.amount_sol as int,
                        ) as i128,
                        remaining_quantity: (pos.token_qty - sold) as u64,
                    }),
                )
            }),
            final(self).holders_state == old(self).holders_state,
            final(self).lp_state == old(self).lp_state,
            final(self).logs_state == old(self).logs_state,
            final(self).creator_state == old(self).creator_state,
            final(self).risk_state == old(self).risk_state,
            final(self).cluster_profile == old(self).cluster_profile,
    {
        let popped = self.simulations.pop();
        match popped {
            Option::None => SellOutcome::Inactive,
            Option::Some(pos) => {
                let sold: u64 = {
                    assert((pos.token_qty as int) * (percent as int) <= (u64::MAX as int) * 100)
                        by (nonlinear_arith)
                        requires
                            0 <= percent <= 100,
                            0 <= pos.token_qty <= u64::MAX,
                    ;
                    let num: u128 = (pos.token_qty as u128) * (percent as u128);
                    let s: u128 = num / 100;
                    proof {
                        lemma_mul_inequality(percent as int, 100, pos.token_qty as int);
                        lemma_mul_is_commutative(percent as int, pos.token_qty as int);
                        lemma_mul_is_commutative(100, pos.token_qty as int);
                        lemma_div_is_ordered(
                            (pos.token_qty as int) * (percent as int),
                            (pos.token_qty as int) * 100,
                            100,
                        );
                        lemma_mul_is_commutative(pos.token_qty as int, 100);
                        lemma_div_by_multiple(pos.token_qty as int, 100);
                    }
                    s as u64
                };
                let proceeds: u64 = {
                    assert((sold as int) * (price as int) <= (u64::MAX as int) * (u64::MAX as int))
                        by (nonlinear_arith)
                        requires
                            0 <= sold <= u64::MAX,
                            0 <= price <= u64::MAX,
                    ;
                    let num: u128 = (sold as u128) * (price as u128);
                    let p: u128 = num / (SCALE as u128);
                    p as u64
                };
                let new_qty: u64 = pos.token_qty - sold;
                let new_realized: u64 = pos.realized_profit_sol + proceeds;
                let pnl: i128 = pnl_percent_fp(new_realized, pos.amount_sol);
                self.simulations.push(SimulationPosition {
                    timestamp: pos.timestamp,
                    amount_sol: pos.amount_sol,
                    buy_price: pos.buy_price,
                    token_qty: new_qty,
                    realized_profit_sol: new_realized,
                });
                assert(self.simulations@ =~= old(self).simulations@.update(
                    old(self).simulations@.len() - 1,
                    (SimulationPosition {
                        timestamp: pos.timestamp,
                        amount_sol: pos.amount_sol,
                        buy_price: pos.buy_price,
                        token_qty: new_qty,
                        realized_profit_sol: new_realized,
                    }),
                ));
                SellOutcome::Sold(SellReport {
                    proceeds,
                    cumulative_pnl_fp: pnl,
                    remaining_quantity: new_qty,
                })
            },
        }
    }
}

} // verus!

use vstd::prelude::*;

pub mod cluster;
pub mod engine;
pub mod ledger;
pub mod signals;
pub mod state;
pub mod time;
pub mod types;

verus! {

/// Scale of all fixed-point quantities in this crate: scores, prices,
/// balances and amounts are integers counting 1/1_000_000 units, so the
/// value 1_000_000 stands for 1.0.
pub const SCALE: u64 = 1_000_000;

/// Drop ratios at or below this level (0.05) are treated as noise.
pub const NOISE_FLOOR_FP: u64 = 50_000;

/// A holder drop ratio at or above this level (0.30) saturates the signal.
pub const HOLDER_FULL_DROP_FP: u64 = 300_000;

/// A liquidity drop ratio at or above this level (0.25) saturates the signal.
pub const LIQUIDITY_FULL_DROP_FP: u64 = 250_000;

/// Number of same-slot sells that saturates the synchronous-sell signal.
pub const BURST_FULL_COUNT: u64 = 4;

/// An active creator idle for strictly more than this many milliseconds
/// scores the high creator signal.
pub const CREATOR_IDLE_MS: u64 = 10_000;

/// Creator signal (0.6) for an active creator idle beyond CREATOR_IDLE_MS.
pub const CREATOR_IDLE_SIGNAL_FP: u64 = 600_000;

/// Creator signal (0.3) for an active, recently seen creator.
pub const CREATOR_RECENT_SIGNAL_FP: u64 = 300_000;

/// Flat contribution (0.15) when the cluster profile reports at least one
/// suspicious wallet.
pub const WEAK_CLUSTER_SIGNAL_FP: u64 = 150_000;

/// Flat escalation penalty (0.3) added when both escalation gates are passed.
pub const ESCALATION_BONUS_FP: u64 = 300_000;

/// Escalation requires the holder signal strictly above this gate (0.9).
pub const ESCALATION_HOLDER_GATE_FP: u64 = 900_000;

/// Escalation requires the liquidity signal strictly above this gate (0.6).
pub const ESCALATION_LIQUIDITY_GATE_FP: u64 = 600_000;

/// Weight (x100) of the holder signal in the combined score.
pub const WEIGHT_HOLDER: u64 = 20;

/// Weight (x100) of the liquidity signal in the combined score.
pub const WEIGHT_LIQUIDITY: u64 = 25;

/// Weight (x100) of the synchronous-sell signal in the combined score.
pub const WEIGHT_BURST: u64 = 25;

/// Weight (x100) of the creator signal in the combined score.
pub const WEIGHT_CREATOR: u64 = 20;

/// Denominator of the signal weights.
pub const WEIGHT_DENOM: u64 = 100;

/// Minimum time between two alert dispatches, in milliseconds.
pub const ALERT_COOLDOWN_MS: u64 = 1_500;

/// Difference of two timestamps, clamped at zero when the clock went
/// backwards.
pub open spec fn sat_sub(a: u64, b: u64) -> u64 {
    if a >= b {
        (a - b) as u64
    } else {
        0
    }
}

} // verus!

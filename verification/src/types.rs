use vstd::prelude::*;

verus! {

/// Direction of a trade event.
#[derive(Debug, Clone, Copy, PartialEq, Eq, Structural)]
pub enum TradeSide {
    Buy,
    Sell,
}

/// One immutable trade observation: execution slot, fixed-point price and
/// amount, and the side of the trade.
#[derive(Debug, Clone)]
pub struct LogEvent {
    pub slot: u64,
    pub price: u64,
    pub side: TradeSide,
    pub amount: u64,
}

/// Conversational state of one front-end chat. The front-end drives the
/// transitions; the core only stores session and record operations
/// independent of it.
#[derive(Debug, Clone, Copy, PartialEq, Eq, Structural)]
pub enum TelegramState {
    Idle,
    AwaitingMint,
    AwaitingSimulationAmount,
    AwaitingSellSelection,
}

/// Delivery target of the evaluation loop: the chat that receives alerts and
/// the mint being tracked. While `active_chat` is `None` the loop ticks but
/// skips evaluation.
#[derive(Debug, Clone)]
pub struct MonitoringContext {
    pub active_chat: Option<i64>,
    pub tracked_mint: Option<String>,
}

impl MonitoringContext {
    /// A context with no delivery target: evaluation is skipped until a
    /// session starts.
    pub fn new() -> (ctx: Self)
        ensures
            ctx.active_chat is None,
            ctx.tracked_mint is None,
    {
        Self { active_chat: None, tracked_mint: None }
    }

    /// Points the evaluation loop at a delivery target; alerts for `mint`
    /// will go to `chat`.
    pub fn set_target(&mut self, chat: i64, mint: String)
        ensures
            final(self).active_chat == Some(chat),
            final(self).tracked_mint == Some(mint),
    {
        self.active_chat = Some(chat);
        self.tracked_mint = Some(mint);
    }

    /// Clears the delivery target: evaluation continues but no further
    /// alerts fire.
    pub fn clear_target(&mut self)
        ensures
            final(self).active_chat is None,
            final(self).tracked_mint is None,
    {
        self.active_chat = None;
        self.tracked_mint = None;
    }
}

} // verus!

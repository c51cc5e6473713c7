//! Enumerations of orders and of the venue's request fields.

use vstd::prelude::*;

verus! {

/// Side of an order.
#[derive(Clone, Copy, Debug, PartialEq, Eq, Structural)]
pub enum OrderSide {
    /// No side given.
    NoOrderSide,
    /// Buy.
    Buy,
    /// Sell.
    Sell,
}

/// Type of an order.
#[derive(Clone, Copy, Debug, PartialEq, Eq, Structural)]
pub enum OrderType {
    /// Market order.
    Market,
    /// Limit order.
    Limit,
    /// Stop-market order.
    StopMarket,
    /// Stop-limit order.
    StopLimit,
    /// Market-to-limit order.
    MarketToLimit,
    /// Market-if-touched order.
    MarketIfTouched,
    /// Limit-if-touched order.
    LimitIfTouched,
    /// Trailing stop-market order.
    TrailingStopMarket,
    /// Trailing stop-limit order.
    TrailingStopLimit,
}

impl OrderType {
    /// The variant's name.
    pub open spec fn name(self) -> Seq<char> {
        match self {
            OrderType::Market => "Market"@,
            OrderType::Limit => "Limit"@,
            OrderType::StopMarket => "StopMarket"@,
            OrderType::StopLimit => "StopLimit"@,
            OrderType::MarketToLimit => "MarketToLimit"@,
            OrderType::MarketIfTouched => "MarketIfTouched"@,
            OrderType::LimitIfTouched => "LimitIfTouched"@,
            OrderType::TrailingStopMarket => "TrailingStopMarket"@,
            OrderType::TrailingStopLimit => "TrailingStopLimit"@,
        }
    }

    /// The variant's name.
    pub fn as_name(&self) -> (r: &'static str)
        ensures
            r@ == self.name(),
    {
        match self {
            OrderType::Market => "Market",
            OrderType::Limit => "Limit",
            OrderType::StopMarket => "StopMarket",
            OrderType::StopLimit => "StopLimit",
            OrderType::MarketToLimit => "MarketToLimit",
            OrderType::MarketIfTouched => "MarketIfTouched",
            OrderType::LimitIfTouched => "LimitIfTouched",
            OrderType::TrailingStopMarket => "TrailingStopMarket",
            OrderType::TrailingStopLimit => "TrailingStopLimit",
        }
    }
}

/// How long an order stays in force.
#[derive(Clone, Copy, Debug, PartialEq, Eq, Structural)]
pub enum TimeInForce {
    /// Good till canceled.
    Gtc,
    /// Immediate or cancel.
    Ioc,
    /// Fill or kill.
    Fok,
    /// Good till date.
    Gtd,
    /// Good for the session.
    Day,
    /// At the open.
    AtTheOpen,
    /// At the close.
    AtTheClose,
}

impl TimeInForce {
    /// The variant's name.
    pub open spec fn name(self) -> Seq<char> {
        match self {
            TimeInForce::Gtc => "Gtc"@,
            TimeInForce::Ioc => "Ioc"@,
            TimeInForce::Fok => "Fok"@,
            TimeInForce::Gtd => "Gtd"@,
            TimeInForce::Day => "Day"@,
            TimeInForce::AtTheOpen => "AtTheOpen"@,
            TimeInForce::AtTheClose => "AtTheClose"@,
        }
    }

    /// The variant's name.
    pub fn as_name(&self) -> (r: &'static str)
        ensures
            r@ == self.name(),
    {
        match self {
            TimeInForce::Gtc => "Gtc",
            TimeInForce::Ioc => "Ioc",
            TimeInForce::Fok => "Fok",
            TimeInForce::Gtd => "Gtd",
            TimeInForce::Day => "Day",
            TimeInForce::AtTheOpen => "AtTheOpen",
            TimeInForce::AtTheClose => "AtTheClose",
        }
    }
}

/// Status of an order.
#[derive(Clone, Copy, Debug, PartialEq, Eq, Structural)]
pub enum OrderStatus {
    /// Created on the client.
    Initialized,
    /// Denied before submission.
    Denied,
    /// Held by the emulator.
    Emulated,
    /// Released by the emulator.
    Released,
    /// Submitted to the venue.
    Submitted,
    /// Accepted by the venue.
    Accepted,
    /// Rejected by the venue.
    Rejected,
    /// Canceled.
    Canceled,
    /// Expired at the venue.
    Expired,
    /// Triggered at the venue.
    Triggered,
    /// Update pending.
    PendingUpdate,
    /// Cancel pending.
    PendingCancel,
    /// Filled in part.
    PartiallyFilled,
    /// Filled completely.
    Filled,
}

/// Liquidity role of a fill.
#[derive(Clone, Copy, Debug, PartialEq, Eq, Structural)]
pub enum LiquiditySide {
    /// Resting order.
    Maker,
    /// Crossing order.
    Taker,
}

/// Contingency of an order within a list.
#[derive(Clone, Copy, Debug, PartialEq, Eq, Structural)]
pub enum ContingencyType {
    /// None.
    NoContingency,
    /// One cancels the other.
    Oco,
    /// One triggers the other.
    Oto,
    /// One updates the other.
    Ouo,
}

/// Side of a venue request.
#[derive(Clone, Copy, Debug, PartialEq, Eq, Structural)]
pub enum BinanceSide {
    /// `BUY`.
    Buy,
    /// `SELL`.
    Sell,
}

/// Order type of a Spot request.
#[derive(Clone, Copy, Debug, PartialEq, Eq, Structural)]
pub enum BinanceSpotOrderType {
    /// `LIMIT`.
    Limit,
    /// `MARKET`.
    Market,
    /// `STOP_LOSS`.
    StopLoss,
    /// `STOP_LOSS_LIMIT`.
    StopLossLimit,
    /// `TAKE_PROFIT`.
    TakeProfit,
    /// `TAKE_PROFIT_LIMIT`.
    TakeProfitLimit,
    /// `LIMIT_MAKER`.
    LimitMaker,
}

impl BinanceSpotOrderType {
    /// The variant's name.
    pub open spec fn name(self) -> Seq<char> {
        match self {
            BinanceSpotOrderType::Limit => "Limit"@,
            BinanceSpotOrderType::Market => "Market"@,
            BinanceSpotOrderType::StopLoss => "StopLoss"@,
            BinanceSpotOrderType::StopLossLimit => "StopLossLimit"@,
            BinanceSpotOrderType::TakeProfit => "TakeProfit"@,
            BinanceSpotOrderType::TakeProfitLimit => "TakeProfitLimit"@,
            BinanceSpotOrderType::LimitMaker => "LimitMaker"@,
        }
    }

    /// The variant's name.
    pub fn as_name(&self) -> (r: &'static str)
        ensures
            r@ == self.name(),
    {
        match self {
            BinanceSpotOrderType::Limit => "Limit",
            BinanceSpotOrderType::Market => "Market",
            BinanceSpotOrderType::StopLoss => "StopLoss",
            BinanceSpotOrderType::StopLossLimit => "StopLossLimit",
            BinanceSpotOrderType::TakeProfit => "TakeProfit",
            BinanceSpotOrderType::TakeProfitLimit => "TakeProfitLimit",
            BinanceSpotOrderType::LimitMaker => "LimitMaker",
        }
    }
}

/// Time in force of a venue request or report.
#[derive(Clone, Copy, Debug, PartialEq, Eq, Structural)]
pub enum BinanceTimeInForce {
    /// `GTC`.
    Gtc,
    /// `IOC`.
    Ioc,
    /// `FOK`.
    Fok,
    /// `GTX`.
    Gtx,
    /// `GTD`.
    Gtd,
}

/// How much of an order the venue answers with.
#[derive(Clone, Copy, Debug, PartialEq, Eq, Structural)]
pub enum BinanceOrderResponseType {
    /// `ACK`.
    Ack,
    /// `RESULT`.
    Result,
    /// `FULL`.
    Full,
}

/// What a cancel-replace does when its cancel fails.
#[derive(Clone, Copy, Debug, PartialEq, Eq, Structural)]
pub enum BinanceCancelReplaceMode {
    /// `STOP_ON_FAILURE`.
    StopOnFailure,
    /// `ALLOW_FAILURE`.
    AllowFailure,
}

/// Self-trade prevention of a venue request.
#[derive(Clone, Copy, Debug, PartialEq, Eq, Structural)]
pub enum BinanceSelfTradePreventionMode {
    /// `EXPIRE_TAKER`.
    ExpireTaker,
    /// `EXPIRE_MAKER`.
    ExpireMaker,
    /// `EXPIRE_BOTH`.
    ExpireBoth,
}

/// What an execution report is about.
#[derive(Clone, Copy, Debug, PartialEq, Eq, Structural)]
pub enum BinanceSpotExecutionType {
    /// The order was accepted.
    New,
    /// The order was canceled.
    Canceled,
    /// The order was replaced.
    Replaced,
    /// The order was rejected.
    Rejected,
    /// The order traded.
    Trade,
    /// The order expired.
    Expired,
    /// The order expired by self-trade prevention.
    TradePrevention,
}

} // verus!

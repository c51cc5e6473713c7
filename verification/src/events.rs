//! Order events that follow from what the venue reports.

use crate::enums::{LiquiditySide, OrderSide, OrderType};
use crate::identifiers::{
    AccountId, ClientOrderId, InstrumentId, StrategyId, TradeId, TraderId, UnixNanos, VenueOrderId,
};
use crate::types::{Currency, Money, Price, Quantity};
use vstd::prelude::*;

verus! {

/// What happened to an order.
#[derive(Debug, PartialEq, Eq)]
#[allow(inconsistent_fields)]
pub enum OrderEventKind {
    /// The venue accepted the order.
    Accepted {
        /// Venue order ID.
        venue_order_id: VenueOrderId,
    },
    /// The order was rejected.
    Rejected {
        /// Why.
        reason: String,
        /// Whether because a post-only order would have crossed.
        due_post_only: bool,
    },
    /// The order was canceled.
    Canceled {
        /// Venue order ID.
        venue_order_id: Option<VenueOrderId>,
    },
    /// The order expired.
    Expired {
        /// Venue order ID.
        venue_order_id: Option<VenueOrderId>,
    },
    /// The order was replaced.
    Updated {
        /// Venue order ID.
        venue_order_id: Option<VenueOrderId>,
        /// New quantity.
        quantity: Quantity,
        /// New price.
        price: Option<Price>,
        /// New trigger price, where there is one.
        trigger_price: Option<Price>,
    },
    /// The order filled, in whole or in part.
    Filled {
        /// Venue order ID.
        venue_order_id: VenueOrderId,
        /// Trade.
        trade_id: TradeId,
        /// Side of the order.
        order_side: OrderSide,
        /// Type of the order.
        order_type: OrderType,
        /// Quantity filled.
        last_qty: Quantity,
        /// Price of the fill.
        last_px: Price,
        /// Currency of the commission.
        currency: Currency,
        /// Liquidity role.
        liquidity_side: LiquiditySide,
        /// Commission paid.
        commission: Money,
    },
    /// A cancel was rejected.
    CancelRejected {
        /// Why.
        reason: String,
        /// Venue order ID, where the request named one.
        venue_order_id: Option<VenueOrderId>,
    },
    /// A replacement was rejected.
    ModifyRejected {
        /// Why.
        reason: String,
        /// Venue order ID, where the request named one.
        venue_order_id: Option<VenueOrderId>,
    },
}

/// An event of one order. The sender gives it an event ID when it leaves; none of these events
/// comes from reconciliation.
#[derive(Debug, PartialEq, Eq)]
pub struct OrderEvent {
    /// Trader that the node runs for.
    pub trader_id: TraderId,
    /// Strategy that owns the order.
    pub strategy_id: StrategyId,
    /// Instrument of the order.
    pub instrument_id: InstrumentId,
    /// Order.
    pub client_order_id: ClientOrderId,
    /// Account of the order.
    pub account_id: AccountId,
    /// When it happened.
    pub ts_event: UnixNanos,
    /// When the event was made.
    pub ts_init: UnixNanos,
    /// What happened.
    pub kind: OrderEventKind,
}

/// What happened to an order, with its texts as character sequences.
#[allow(inconsistent_fields)]
pub enum EventKindView {
    /// The venue accepted the order.
    Accepted { venue_order_id: Seq<char> },
    /// The order was rejected.
    Rejected { reason: Seq<char>, due_post_only: bool },
    /// The order was canceled.
    Canceled { venue_order_id: Option<Seq<char>> },
    /// The order expired.
    Expired { venue_order_id: Option<Seq<char>> },
    /// The order was replaced.
    Updated {
        venue_order_id: Option<Seq<char>>,
        quantity: Quantity,
        price: Option<Price>,
        trigger_price: Option<Price>,
    },
    /// The order filled, in whole or in part.
    Filled {
        venue_order_id: Seq<char>,
        trade_id: Seq<char>,
        order_side: OrderSide,
        order_type: OrderType,
        last_qty: Quantity,
        last_px: Price,
        currency: Seq<char>,
        currency_precision: u8,
        liquidity_side: LiquiditySide,
        commission_raw: i128,
        commission_currency: Seq<char>,
        commission_precision: u8,
    },
    /// A cancel was rejected.
    CancelRejected { reason: Seq<char>, venue_order_id: Option<Seq<char>> },
    /// A replacement was rejected.
    ModifyRejected { reason: Seq<char>, venue_order_id: Option<Seq<char>> },
}

/// An order event with its texts as character sequences.
pub struct EventView {
    /// Trader that the node runs for.
    pub trader_id: Seq<char>,
    /// Strategy that owns the order.
    pub strategy_id: Seq<char>,
    /// Instrument of the order.
    pub instrument_id: (Seq<char>, Seq<char>),
    /// Order.
    pub client_order_id: Seq<char>,
    /// Account of the order.
    pub account_id: Seq<char>,
    /// When it happened.
    pub ts_event: UnixNanos,
    /// When the event was made.
    pub ts_init: UnixNanos,
    /// What happened.
    pub kind: EventKindView,
}

/// The text of a venue order ID that may be absent.
pub open spec fn venue_id_view(id: Option<VenueOrderId>) -> Option<Seq<char>> {
    match id {
        Some(id) => Some(id@),
        None => None,
    }
}

impl View for OrderEventKind {
    type V = EventKindView;

    open spec fn view(&self) -> EventKindView {
        match *self {
            OrderEventKind::Accepted { venue_order_id } => EventKindView::Accepted {
                venue_order_id: venue_order_id@,
            },
            OrderEventKind::Rejected { reason, due_post_only } => EventKindView::Rejected {
                reason: reason@,
                due_post_only,
            },
            OrderEventKind::Canceled { venue_order_id } => EventKindView::Canceled {
                venue_order_id: venue_id_view(venue_order_id),
            },
            OrderEventKind::Expired { venue_order_id } => EventKindView::Expired {
                venue_order_id: venue_id_view(venue_order_id),
            },
            OrderEventKind::Updated { venue_order_id, quantity, price, trigger_price } =>
                EventKindView::Updated {
                    venue_order_id: venue_id_view(venue_order_id),
                    quantity,
                    price,
                    trigger_price,
                },
            OrderEventKind::Filled {
                venue_order_id,
                trade_id,
                order_side,
                order_type,
                last_qty,
                last_px,
                currency,
                liquidity_side,
                commission,
            } => EventKindView::Filled {
                venue_order_id: venue_order_id@,
                trade_id: trade_id@,
                order_side,
                order_type,
                last_qty,
                last_px,
                currency: currency.code@,
                currency_precision: currency.precision,
                liquidity_side,
                commission_raw: commission.raw,
                commission_currency: commission.currency.code@,
                commission_precision: commission.currency.precision,
            },
            OrderEventKind::CancelRejected { reason, venue_order_id } =>
                EventKindView::CancelRejected {
                    reason: reason@,
                    venue_order_id: venue_id_view(venue_order_id),
                },
            OrderEventKind::ModifyRejected { reason, venue_order_id } =>
                EventKindView::ModifyRejected {
                    reason: reason@,
                    venue_order_id: venue_id_view(venue_order_id),
                },
        }
    }
}

impl View for OrderEvent {
    type V = EventView;

    open spec fn view(&self) -> EventView {
        EventView {
            trader_id: self.trader_id@,
            strategy_id: self.strategy_id@,
            instrument_id: self.instrument_id@,
            client_order_id: self.client_order_id@,
            account_id: self.account_id@,
            ts_event: self.ts_event,
            ts_init: self.ts_init,
            kind: self.kind@,
        }
    }
}

} // verus!

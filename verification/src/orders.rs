//! Orders of the client, and the parameters of the Spot requests made for them.

use crate::enums::{
    BinanceCancelReplaceMode, BinanceOrderResponseType, BinanceSelfTradePreventionMode, BinanceSide,
    BinanceSpotOrderType, BinanceTimeInForce, ContingencyType, OrderSide, OrderType, TimeInForce,
};
use crate::identifiers::{ClientOrderId, InstrumentId, StrategyId, VenueOrderId};
use crate::text::{i64_of_text, join, opt_text, parse_i64};
use crate::types::{Price, Quantity, FIXED_PRECISION};
use vstd::prelude::*;

verus! {

/// An order of the client.
#[derive(Debug)]
pub struct Order {
    /// Client order ID.
    pub client_order_id: ClientOrderId,
    /// Strategy that owns the order.
    pub strategy_id: StrategyId,
    /// Instrument of the order.
    pub instrument_id: InstrumentId,
    /// Side.
    pub order_side: OrderSide,
    /// Type.
    pub order_type: OrderType,
    /// Quantity.
    pub quantity: Quantity,
    /// How long it stays in force.
    pub time_in_force: TimeInForce,
    /// Limit price, where there is one.
    pub price: Option<Price>,
    /// Trigger price, where there is one.
    pub trigger_price: Option<Price>,
    /// Whether it may only rest.
    pub is_post_only: bool,
    /// Whether its quantity is in the quote currency.
    pub is_quote_quantity: bool,
    /// Quantity shown, where not all of it is.
    pub display_qty: Option<Quantity>,
    /// Contingency within a list, where there is one.
    pub contingency_type: Option<ContingencyType>,
    /// Orders that it is linked with.
    pub linked_order_ids: Option<Vec<ClientOrderId>>,
    /// Whether it is closed.
    pub is_closed: bool,
}

/// Whether a price has a text.
pub open spec fn price_renders(price: Option<Price>) -> bool {
    price matches Some(p) ==> p.precision <= FIXED_PRECISION && p.raw > i128::MIN
}

/// Whether a quantity has a text.
pub open spec fn quantity_renders(quantity: Option<Quantity>) -> bool {
    quantity matches Some(q) ==> q.precision <= FIXED_PRECISION
}

/// The text of a price that may be absent.
pub open spec fn price_text(price: Option<Price>) -> Option<Seq<char>> {
    match price {
        Some(p) => Some(p.text()),
        None => None,
    }
}

/// The text of a quantity that may be absent.
pub open spec fn quantity_text(quantity: Option<Quantity>) -> Option<Seq<char>> {
    match quantity {
        Some(q) => Some(q.text()),
        None => None,
    }
}

fn render_price(price: &Option<Price>) -> (r: Option<String>)
    requires
        price_renders(*price),
    ensures
        opt_text(r) == price_text(*price),
{
    match price {
        Some(p) => Some(p.render()),
        None => None,
    }
}

fn render_quantity(quantity: &Option<Quantity>) -> (r: Option<String>)
    requires
        quantity_renders(*quantity),
    ensures
        opt_text(r) == quantity_text(*quantity),
{
    match quantity {
        Some(q) => Some(q.render()),
        None => None,
    }
}

impl Order {
    /// Whether every number of the order is within the fixed precision.
    pub open spec fn renders(self) -> bool {
        &&& self.quantity.precision <= FIXED_PRECISION
        &&& price_renders(self.price)
        &&& price_renders(self.trigger_price)
        &&& quantity_renders(self.display_qty)
    }
}

/// Why no request can be built for an order.
#[derive(Clone, Debug, PartialEq, Eq)]
pub enum ParamsError {
    /// The venue has no such side.
    Side,
    /// The venue has no such order type.
    OrderType(OrderType),
    /// The venue has no such time in force.
    TimeInForce(TimeInForce),
    /// A conditional order has no trigger price.
    MissingTrigger,
    /// A venue order ID is not a number.
    VenueOrderId(String),
}

/// Why no request can be built, with its text as a character sequence.
pub enum ParamsErrorView {
    /// The venue has no such side.
    Side,
    /// The venue has no such order type.
    OrderType(OrderType),
    /// The venue has no such time in force.
    TimeInForce(TimeInForce),
    /// A conditional order has no trigger price.
    MissingTrigger,
    /// A venue order ID is not a number.
    VenueOrderId(Seq<char>),
}

impl View for ParamsError {
    type V = ParamsErrorView;

    open spec fn view(&self) -> ParamsErrorView {
        match *self {
            ParamsError::Side => ParamsErrorView::Side,
            ParamsError::OrderType(t) => ParamsErrorView::OrderType(t),
            ParamsError::TimeInForce(t) => ParamsErrorView::TimeInForce(t),
            ParamsError::MissingTrigger => ParamsErrorView::MissingTrigger,
            ParamsError::VenueOrderId(id) => ParamsErrorView::VenueOrderId(id@),
        }
    }
}

impl ParamsErrorView {
    /// What the error says.
    pub open spec fn text(self) -> Seq<char> {
        match self {
            ParamsErrorView::Side => "Unsupported order side for Binance: NoOrderSide"@,
            ParamsErrorView::OrderType(t) => "Unsupported order type for Binance Spot: "@
                + t.name(),
            ParamsErrorView::TimeInForce(t) => "Unsupported time in force for Binance Spot: "@
                + t.name(),
            ParamsErrorView::MissingTrigger => "Conditional orders require a trigger price"@,
            ParamsErrorView::VenueOrderId(id) => "Invalid venue order ID: "@ + id,
        }
    }
}

impl ParamsError {
    /// What the error says.
    pub fn message(&self) -> (r: String)
        ensures
            r@ == self@.text(),
    {
        match self {
            ParamsError::Side => "Unsupported order side for Binance: NoOrderSide".to_owned(),
            ParamsError::OrderType(t) => join(
                "Unsupported order type for Binance Spot: ",
                t.as_name(),
            ),
            ParamsError::TimeInForce(t) => join(
                "Unsupported time in force for Binance Spot: ",
                t.as_name(),
            ),
            ParamsError::MissingTrigger => "Conditional orders require a trigger price".to_owned(),
            ParamsError::VenueOrderId(id) => join("Invalid venue order ID: ", id.as_str()),
        }
    }
}

/// The venue's side for a side.
pub open spec fn spot_side(side: OrderSide) -> Result<BinanceSide, ParamsErrorView> {
    match side {
        OrderSide::Buy => Ok(BinanceSide::Buy),
        OrderSide::Sell => Ok(BinanceSide::Sell),
        OrderSide::NoOrderSide => Err(ParamsErrorView::Side),
    }
}

/// The venue's order type for an order type; a post-only limit order is a limit maker.
pub open spec fn spot_type(order_type: OrderType, post_only: bool) -> Result<
    BinanceSpotOrderType,
    ParamsErrorView,
> {
    match order_type {
        OrderType::Market => Ok(BinanceSpotOrderType::Market),
        OrderType::Limit => Ok(
            if post_only {
                BinanceSpotOrderType::LimitMaker
            } else {
                BinanceSpotOrderType::Limit
            },
        ),
        OrderType::StopMarket => Ok(BinanceSpotOrderType::StopLoss),
        OrderType::StopLimit => Ok(BinanceSpotOrderType::StopLossLimit),
        OrderType::MarketIfTouched => Ok(BinanceSpotOrderType::TakeProfit),
        OrderType::LimitIfTouched => Ok(BinanceSpotOrderType::TakeProfitLimit),
        _ => Err(ParamsErrorView::OrderType(order_type)),
    }
}

/// The venue's time in force for a time in force.
pub open spec fn spot_time_in_force(time_in_force: TimeInForce) -> Result<
    BinanceTimeInForce,
    ParamsErrorView,
> {
    match time_in_force {
        TimeInForce::Gtc => Ok(BinanceTimeInForce::Gtc),
        TimeInForce::Ioc => Ok(BinanceTimeInForce::Ioc),
        TimeInForce::Fok => Ok(BinanceTimeInForce::Fok),
        _ => Err(ParamsErrorView::TimeInForce(time_in_force)),
    }
}

/// Whether `r` is what `expected` says, an error being told by its view.
pub open spec fn params_result<T>(
    r: Result<T, ParamsError>,
    expected: Result<T, ParamsErrorView>,
) -> bool {
    match expected {
        Ok(value) => r == Ok::<T, ParamsError>(value),
        Err(e) => r matches Err(found) && found@ == e,
    }
}

/// The venue's side for a side.
pub fn order_side_to_binance(side: OrderSide) -> (r: Result<BinanceSide, ParamsError>)
    ensures
        params_result(r, spot_side(side)),
{
    match side {
        OrderSide::Buy => Ok(BinanceSide::Buy),
        OrderSide::Sell => Ok(BinanceSide::Sell),
        OrderSide::NoOrderSide => Err(ParamsError::Side),
    }
}

/// The venue's order type for an order type.
pub fn order_type_to_binance_spot(order_type: OrderType, post_only: bool) -> (r: Result<
    BinanceSpotOrderType,
    ParamsError,
>)
    ensures
        params_result(r, spot_type(order_type, post_only)),
{
    match order_type {
        OrderType::Market => Ok(BinanceSpotOrderType::Market),
        OrderType::Limit => if post_only {
            Ok(BinanceSpotOrderType::LimitMaker)
        } else {
            Ok(BinanceSpotOrderType::Limit)
        },
        OrderType::StopMarket => Ok(BinanceSpotOrderType::StopLoss),
        OrderType::StopLimit => Ok(BinanceSpotOrderType::StopLossLimit),
        OrderType::MarketIfTouched => Ok(BinanceSpotOrderType::TakeProfit),
        OrderType::LimitIfTouched => Ok(BinanceSpotOrderType::TakeProfitLimit),
        _ => Err(ParamsError::OrderType(order_type)),
    }
}

/// The venue's time in force for a time in force.
pub fn time_in_force_to_binance_spot(time_in_force: TimeInForce) -> (r: Result<
    BinanceTimeInForce,
    ParamsError,
>)
    ensures
        params_result(r, spot_time_in_force(time_in_force)),
{
    match time_in_force {
        TimeInForce::Gtc => Ok(BinanceTimeInForce::Gtc),
        TimeInForce::Ioc => Ok(BinanceTimeInForce::Ioc),
        TimeInForce::Fok => Ok(BinanceTimeInForce::Fok),
        _ => Err(ParamsError::TimeInForce(time_in_force)),
    }
}

/// Parameters of a request that places an order.
#[derive(Clone, Debug, PartialEq, Eq)]
pub struct NewOrderParams {
    /// `symbol`.
    pub symbol: String,
    /// `side`.
    pub side: BinanceSide,
    /// `type`.
    pub order_type: BinanceSpotOrderType,
    /// `timeInForce`.
    pub time_in_force: Option<BinanceTimeInForce>,
    /// `quantity`.
    pub quantity: Option<String>,
    /// `quoteOrderQty`.
    pub quote_order_qty: Option<String>,
    /// `price`.
    pub price: Option<String>,
    /// `newClientOrderId`.
    pub new_client_order_id: Option<String>,
    /// `stopPrice`.
    pub stop_price: Option<String>,
    /// `trailingDelta`.
    pub trailing_delta: Option<i64>,
    /// `icebergQty`.
    pub iceberg_qty: Option<String>,
    /// `newOrderRespType`.
    pub new_order_resp_type: Option<BinanceOrderResponseType>,
    /// `selfTradePreventionMode`.
    pub self_trade_prevention_mode: Option<BinanceSelfTradePreventionMode>,
    /// `strategyId`.
    pub strategy_id: Option<i64>,
    /// `strategyType`.
    pub strategy_type: Option<i64>,
}

/// Parameters of a request that places an order, with their texts as character sequences.
pub struct NewOrderView {
    /// `symbol`.
    pub symbol: Seq<char>,
    /// `side`.
    pub side: BinanceSide,
    /// `type`.
    pub order_type: BinanceSpotOrderType,
    /// `timeInForce`.
    pub time_in_force: Option<BinanceTimeInForce>,
    /// `quantity`.
    pub quantity: Option<Seq<char>>,
    /// `quoteOrderQty`.
    pub quote_order_qty: Option<Seq<char>>,
    /// `price`.
    pub price: Option<Seq<char>>,
    /// `newClientOrderId`.
    pub new_client_order_id: Option<Seq<char>>,
    /// `stopPrice`.
    pub stop_price: Option<Seq<char>>,
    /// `trailingDelta`.
    pub trailing_delta: Option<i64>,
    /// `icebergQty`.
    pub iceberg_qty: Option<Seq<char>>,
    /// `newOrderRespType`.
    pub new_order_resp_type: Option<BinanceOrderResponseType>,
    /// `selfTradePreventionMode`.
    pub self_trade_prevention_mode: Option<BinanceSelfTradePreventionMode>,
    /// `strategyId`.
    pub strategy_id: Option<i64>,
    /// `strategyType`.
    pub strategy_type: Option<i64>,
}

impl View for NewOrderParams {
    type V = NewOrderView;

    open spec fn view(&self) -> NewOrderView {
        NewOrderView {
            symbol: self.symbol@,
            side: self.side,
            order_type: self.order_type,
            time_in_force: self.time_in_force,
            quantity: opt_text(self.quantity),
            quote_order_qty: opt_text(self.quote_order_qty),
            price: opt_text(self.price),
            new_client_order_id: opt_text(self.new_client_order_id),
            stop_price: opt_text(self.stop_price),
            trailing_delta: self.trailing_delta,
            iceberg_qty: opt_text(self.iceberg_qty),
            new_order_resp_type: self.new_order_resp_type,
            self_trade_prevention_mode: self.self_trade_prevention_mode,
            strategy_id: self.strategy_id,
            strategy_type: self.strategy_type,
        }
    }
}

/// Whether an order type waits for a trigger price.
pub open spec fn requires_trigger(order_type: OrderType) -> bool {
    match order_type {
        OrderType::StopMarket => true,
        OrderType::StopLimit => true,
        OrderType::MarketIfTouched => true,
        OrderType::LimitIfTouched => true,
        _ => false,
    }
}

/// Whether the venue takes a time in force with an order type.
pub open spec fn supports_time_in_force(order_type: BinanceSpotOrderType) -> bool {
    match order_type {
        BinanceSpotOrderType::Limit => true,
        BinanceSpotOrderType::StopLossLimit => true,
        BinanceSpotOrderType::TakeProfitLimit => true,
        _ => false,
    }
}

/// The time in force that a request of an order type carries.
pub open spec fn carried_time_in_force(
    order_type: BinanceSpotOrderType,
    time_in_force: TimeInForce,
) -> Result<Option<BinanceTimeInForce>, ParamsErrorView> {
    if supports_time_in_force(order_type) {
        match spot_time_in_force(time_in_force) {
            Ok(t) => Ok(Some(t)),
            Err(e) => Err(e),
        }
    } else {
        Ok(None)
    }
}

/// The request that places an order, or why there is none: the first of side, type, trigger and
/// time in force that the venue does not take.
pub open spec fn new_order_request(
    order: Order,
    venue_client_order_id: Seq<char>,
    is_post_only: bool,
    is_quote_quantity: bool,
) -> Result<NewOrderView, ParamsErrorView> {
    match (spot_side(order.order_side), spot_type(order.order_type, is_post_only)) {
        (Err(e), _) => Err(e),
        (_, Err(e)) => Err(e),
        (Ok(side), Ok(order_type)) => if requires_trigger(order.order_type)
            && order.trigger_price is None {
            Err(ParamsErrorView::MissingTrigger)
        } else {
            match carried_time_in_force(order_type, order.time_in_force) {
                Err(e) => Err(e),
                Ok(time_in_force) => Ok(
                    NewOrderView {
                        symbol: order.instrument_id@.0,
                        side,
                        order_type,
                        time_in_force,
                        quantity: if is_quote_quantity {
                            None
                        } else {
                            Some(order.quantity.text())
                        },
                        quote_order_qty: if is_quote_quantity {
                            Some(order.quantity.text())
                        } else {
                            None
                        },
                        price: price_text(order.price),
                        new_client_order_id: Some(venue_client_order_id),
                        stop_price: price_text(order.trigger_price),
                        trailing_delta: None,
                        iceberg_qty: quantity_text(order.display_qty),
                        new_order_resp_type: Some(BinanceOrderResponseType::Full),
                        self_trade_prevention_mode: None,
                        strategy_id: None,
                        strategy_type: None,
                    },
                ),
            }
        },
    }
}

/// Builds the request that places an order under the ID that the venue gets to know.
pub fn build_new_order_params(
    order: &Order,
    venue_client_order_id: &str,
    is_post_only: bool,
    is_quote_quantity: bool,
) -> (r: Result<NewOrderParams, ParamsError>)
    requires
        order.renders(),
    ensures
        match new_order_request(*order, venue_client_order_id@, is_post_only, is_quote_quantity) {
            Ok(request) => r matches Ok(params) && params@ == request,
            Err(e) => r matches Err(found) && found@ == e,
        },
{
    let side = match order_side_to_binance(order.order_side) {
        Ok(side) => side,
        Err(e) => return Err(e),
    };
    let order_type = match order_type_to_binance_spot(order.order_type, is_post_only) {
        Ok(order_type) => order_type,
        Err(e) => return Err(e),
    };
    let conditional = match order.order_type {
        OrderType::StopMarket => true,
        OrderType::StopLimit => true,
        OrderType::MarketIfTouched => true,
        OrderType::LimitIfTouched => true,
        _ => false,
    };
    if conditional && order.trigger_price.is_none() {
        return Err(ParamsError::MissingTrigger);
    }
    let takes_time_in_force = match order_type {
        BinanceSpotOrderType::Limit => true,
        BinanceSpotOrderType::StopLossLimit => true,
        BinanceSpotOrderType::TakeProfitLimit => true,
        _ => false,
    };
    let time_in_force = if takes_time_in_force {
        match time_in_force_to_binance_spot(order.time_in_force) {
            Ok(t) => Some(t),
            Err(e) => return Err(e),
        }
    } else {
        None
    };
    let amount = order.quantity.render();
    let (quantity, quote_order_qty) = if is_quote_quantity {
        (None, Some(amount))
    } else {
        (Some(amount), None)
    };
    Ok(
        NewOrderParams {
            symbol: order.instrument_id.symbol.clone(),
            side,
            order_type,
            time_in_force,
            quantity,
            quote_order_qty,
            price: render_price(&order.price),
            new_client_order_id: Some(venue_client_order_id.to_owned()),
            stop_price: render_price(&order.trigger_price),
            trailing_delta: None,
            iceberg_qty: render_quantity(&order.display_qty),
            new_order_resp_type: Some(BinanceOrderResponseType::Full),
            self_trade_prevention_mode: None,
            strategy_id: None,
            strategy_type: None,
        },
    )
}

/// Parameters of a request that cancels an order.
#[derive(Clone, Debug, PartialEq, Eq)]
pub struct CancelOrderParams {
    /// `symbol`.
    pub symbol: String,
    /// `orderId`.
    pub order_id: Option<i64>,
    /// `origClientOrderId`.
    pub orig_client_order_id: Option<String>,
    /// `newClientOrderId`.
    pub new_client_order_id: Option<String>,
}

/// Parameters of a request that cancels an order, with their texts as character sequences.
pub struct CancelOrderView {
    /// `symbol`.
    pub symbol: Seq<char>,
    /// `orderId`.
    pub order_id: Option<i64>,
    /// `origClientOrderId`.
    pub orig_client_order_id: Option<Seq<char>>,
    /// `newClientOrderId`.
    pub new_client_order_id: Option<Seq<char>>,
}

impl View for CancelOrderParams {
    type V = CancelOrderView;

    open spec fn view(&self) -> CancelOrderView {
        CancelOrderView {
            symbol: self.symbol@,
            order_id: self.order_id,
            orig_client_order_id: opt_text(self.orig_client_order_id),
            new_client_order_id: opt_text(self.new_client_order_id),
        }
    }
}

/// The number of a venue order ID that may be absent or no number.
pub open spec fn venue_order_number(id: Option<VenueOrderId>) -> Option<i64> {
    match id {
        Some(id) => i64_of_text(id@),
        None => None,
    }
}

/// The request that cancels an order: by its venue number where there is one, and by the client
/// order ID that the venue knows otherwise.
pub open spec fn cancel_request(
    symbol: Seq<char>,
    venue_order_id: Option<VenueOrderId>,
    venue_client_order_id: Seq<char>,
) -> CancelOrderView {
    match venue_order_number(venue_order_id) {
        Some(number) => CancelOrderView {
            symbol,
            order_id: Some(number),
            orig_client_order_id: None,
            new_client_order_id: None,
        },
        None => CancelOrderView {
            symbol,
            order_id: None,
            orig_client_order_id: Some(venue_client_order_id),
            new_client_order_id: None,
        },
    }
}

/// Builds the request that cancels an order.
pub fn build_cancel_order_params(
    instrument_id: &InstrumentId,
    venue_order_id: &Option<VenueOrderId>,
    venue_client_order_id: &str,
) -> (params: CancelOrderParams)
    ensures
        params@ == cancel_request(instrument_id@.0, *venue_order_id, venue_client_order_id@),
{
    let number = match venue_order_id {
        Some(id) => parse_i64(id.as_str()),
        None => None,
    };
    match number {
        Some(order_id) => CancelOrderParams {
            symbol: instrument_id.symbol.clone(),
            order_id: Some(order_id),
            orig_client_order_id: None,
            new_client_order_id: None,
        },
        None => CancelOrderParams {
            symbol: instrument_id.symbol.clone(),
            order_id: None,
            orig_client_order_id: Some(venue_client_order_id.to_owned()),
            new_client_order_id: None,
        },
    }
}

/// Parameters of a request that replaces an order.
#[derive(Clone, Debug, PartialEq, Eq)]
pub struct CancelReplaceOrderParams {
    /// `symbol`.
    pub symbol: String,
    /// `side`.
    pub side: BinanceSide,
    /// `type`.
    pub order_type: BinanceSpotOrderType,
    /// `cancelReplaceMode`.
    pub cancel_replace_mode: BinanceCancelReplaceMode,
    /// `timeInForce`.
    pub time_in_force: Option<BinanceTimeInForce>,
    /// `quantity`.
    pub quantity: Option<String>,
    /// `quoteOrderQty`.
    pub quote_order_qty: Option<String>,
    /// `price`.
    pub price: Option<String>,
    /// `cancelOrderId`.
    pub cancel_order_id: Option<i64>,
    /// `cancelOrigClientOrderId`.
    pub cancel_orig_client_order_id: Option<String>,
    /// `newClientOrderId`.
    pub new_client_order_id: Option<String>,
    /// `stopPrice`.
    pub stop_price: Option<String>,
    /// `trailingDelta`.
    pub trailing_delta: Option<i64>,
    /// `icebergQty`.
    pub iceberg_qty: Option<String>,
    /// `newOrderRespType`.
    pub new_order_resp_type: Option<BinanceOrderResponseType>,
    /// `selfTradePreventionMode`.
    pub self_trade_prevention_mode: Option<BinanceSelfTradePreventionMode>,
}

/// Parameters of a request that replaces an order, with their texts as character sequences.
pub struct CancelReplaceView {
    /// `symbol`.
    pub symbol: Seq<char>,
    /// `side`.
    pub side: BinanceSide,
    /// `type`.
    pub order_type: BinanceSpotOrderType,
    /// `cancelReplaceMode`.
    pub cancel_replace_mode: BinanceCancelReplaceMode,
    /// `timeInForce`.
    pub time_in_force: Option<BinanceTimeInForce>,
    /// `quantity`.
    pub quantity: Option<Seq<char>>,
    /// `quoteOrderQty`.
    pub quote_order_qty: Option<Seq<char>>,
    /// `price`.
    pub price: Option<Seq<char>>,
    /// `cancelOrderId`.
    pub cancel_order_id: Option<i64>,
    /// `cancelOrigClientOrderId`.
    pub cancel_orig_client_order_id: Option<Seq<char>>,
    /// `newClientOrderId`.
    pub new_client_order_id: Option<Seq<char>>,
    /// `stopPrice`.
    pub stop_price: Option<Seq<char>>,
    /// `trailingDelta`.
    pub trailing_delta: Option<i64>,
    /// `icebergQty`.
    pub iceberg_qty: Option<Seq<char>>,
    /// `newOrderRespType`.
    pub new_order_resp_type: Option<BinanceOrderResponseType>,
    /// `selfTradePreventionMode`.
    pub self_trade_prevention_mode: Option<BinanceSelfTradePreventionMode>,
}

impl View for CancelReplaceOrderParams {
    type V = CancelReplaceView;

    open spec fn view(&self) -> CancelReplaceView {
        CancelReplaceView {
            symbol: self.symbol@,
            side: self.side,
            order_type: self.order_type,
            cancel_replace_mode: self.cancel_replace_mode,
            time_in_force: self.time_in_force,
            quantity: opt_text(self.quantity),
            quote_order_qty: opt_text(self.quote_order_qty),
            price: opt_text(self.price),
            cancel_order_id: self.cancel_order_id,
            cancel_orig_client_order_id: opt_text(self.cancel_orig_client_order_id),
            new_client_order_id: opt_text(self.new_client_order_id),
            stop_price: opt_text(self.stop_price),
            trailing_delta: self.trailing_delta,
            iceberg_qty: opt_text(self.iceberg_qty),
            new_order_resp_type: self.new_order_resp_type,
            self_trade_prevention_mode: self.self_trade_prevention_mode,
        }
    }
}

/// A command that replaces an order.
#[derive(Debug)]
pub struct ModifyOrder {
    /// Instrument of the order.
    pub instrument_id: InstrumentId,
    /// Order.
    pub client_order_id: ClientOrderId,
    /// Venue order ID, where the command names one.
    pub venue_order_id: Option<VenueOrderId>,
    /// New price, where there is one.
    pub price: Option<Price>,
}

/// The request that replaces an order, or why there is none.
pub open spec fn replace_request(
    cmd: ModifyOrder,
    order: Order,
    quantity: Quantity,
    venue_client_order_id: Seq<char>,
) -> Result<CancelReplaceView, ParamsErrorView> {
    match (
        spot_side(order.order_side),
        spot_type(order.order_type, false),
        spot_time_in_force(order.time_in_force),
    ) {
        (Err(e), _, _) => Err(e),
        (_, Err(e), _) => Err(e),
        (_, _, Err(e)) => Err(e),
        (Ok(side), Ok(order_type), Ok(time_in_force)) => if cmd.venue_order_id is Some
            && venue_order_number(cmd.venue_order_id) is None {
            Err(ParamsErrorView::VenueOrderId(cmd.venue_order_id->0@))
        } else {
            let number = venue_order_number(cmd.venue_order_id);
            Ok(
                CancelReplaceView {
                    symbol: cmd.instrument_id@.0,
                    side,
                    order_type,
                    cancel_replace_mode: BinanceCancelReplaceMode::StopOnFailure,
                    time_in_force: Some(time_in_force),
                    quantity: Some(quantity.text()),
                    quote_order_qty: None,
                    price: price_text(cmd.price),
                    cancel_order_id: number,
                    cancel_orig_client_order_id: if number is None {
                        Some(venue_client_order_id)
                    } else {
                        None
                    },
                    new_client_order_id: Some(venue_client_order_id),
                    stop_price: None,
                    trailing_delta: None,
                    iceberg_qty: None,
                    new_order_resp_type: Some(BinanceOrderResponseType::Full),
                    self_trade_prevention_mode: None,
                },
            )
        },
    }
}

/// Builds the request that replaces an order.
pub fn build_cancel_replace_params(
    cmd: &ModifyOrder,
    order: &Order,
    quantity: Quantity,
    venue_client_order_id: &str,
) -> (r: Result<CancelReplaceOrderParams, ParamsError>)
    requires
        quantity.precision <= FIXED_PRECISION,
        price_renders(cmd.price),
    ensures
        match replace_request(*cmd, *order, quantity, venue_client_order_id@) {
            Ok(request) => r matches Ok(params) && params@ == request,
            Err(e) => r matches Err(found) && found@ == e,
        },
{
    let side = match order_side_to_binance(order.order_side) {
        Ok(side) => side,
        Err(e) => return Err(e),
    };
    let order_type = match order_type_to_binance_spot(order.order_type, false) {
        Ok(order_type) => order_type,
        Err(e) => return Err(e),
    };
    let time_in_force = match time_in_force_to_binance_spot(order.time_in_force) {
        Ok(t) => t,
        Err(e) => return Err(e),
    };
    let cancel_order_id = match &cmd.venue_order_id {
        Some(id) => match parse_i64(id.as_str()) {
            Some(number) => Some(number),
            None => return Err(ParamsError::VenueOrderId(id.0.clone())),
        },
        None => None,
    };
    let cancel_orig_client_order_id = if cancel_order_id.is_none() {
        Some(venue_client_order_id.to_owned())
    } else {
        None
    };
    Ok(
        CancelReplaceOrderParams {
            symbol: cmd.instrument_id.symbol.clone(),
            side,
            order_type,
            cancel_replace_mode: BinanceCancelReplaceMode::StopOnFailure,
            time_in_force: Some(time_in_force),
            quantity: Some(quantity.render()),
            quote_order_qty: None,
            price: render_price(&cmd.price),
            cancel_order_id,
            cancel_orig_client_order_id,
            new_client_order_id: Some(venue_client_order_id.to_owned()),
            stop_price: None,
            trailing_delta: None,
            iceberg_qty: None,
            new_order_resp_type: Some(BinanceOrderResponseType::Full),
            self_trade_prevention_mode: None,
        },
    )
}

/// A request for an order names exactly one amount, carries a time in force exactly when the
/// venue takes one, and asks for the full answer.
pub proof fn law_new_order_request_is_complete(
    order: Order,
    venue_client_order_id: Seq<char>,
    is_post_only: bool,
    is_quote_quantity: bool,
)
    ensures
        new_order_request(order, venue_client_order_id, is_post_only, is_quote_quantity) matches Ok(
            request,
        ) ==> {
            &&& request.quantity is Some <==> request.quote_order_qty is None
            &&& request.quote_order_qty is Some <==> is_quote_quantity
            &&& request.time_in_force is Some <==> supports_time_in_force(request.order_type)
            &&& request.order_type == BinanceSpotOrderType::LimitMaker <==> order.order_type
                == OrderType::Limit && is_post_only
            &&& requires_trigger(order.order_type) ==> request.stop_price is Some
            &&& request.new_order_resp_type == Some(BinanceOrderResponseType::Full)
            &&& request.new_client_order_id == Some(venue_client_order_id)
        },
{
}

/// A cancel names its order by exactly one of its two IDs, and never gives the cancel an ID of its
/// own.
pub proof fn law_cancel_names_one_id(
    symbol: Seq<char>,
    venue_order_id: Option<VenueOrderId>,
    venue_client_order_id: Seq<char>,
)
    ensures
        ({
            let request = cancel_request(symbol, venue_order_id, venue_client_order_id);
            &&& request.order_id is Some <==> request.orig_client_order_id is None
            &&& request.new_client_order_id is None
            &&& venue_order_id is None ==> request.orig_client_order_id == Some(
                venue_client_order_id,
            )
        }),
{
}

} // verus!

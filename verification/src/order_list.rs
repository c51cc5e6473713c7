//! Order lists: how the legs of a one-cancels-the-other pair become one request, and what a
//! failed list means for its orders.

use crate::dispatch_state::{DispatchView, WsDispatchState};
use crate::enums::{
    BinanceOrderResponseType, BinanceSelfTradePreventionMode, BinanceSide, BinanceSpotOrderType,
    BinanceTimeInForce, ContingencyType,
};
use crate::events::{EventKindView, EventView, OrderEvent, OrderEventKind};
use crate::identifiers::{AccountId, TraderId, UnixNanos};
use crate::orders::{build_new_order_params, new_order_request, NewOrderParams, NewOrderView, Order};
use crate::text::{int_text, join, opt_text, render_u128};
use crate::venue_error::{
    ambiguous_code, is_ambiguous_code, is_local_http_command_failure, local_http_failure,
    BinanceSpotHttpError,
};
use vstd::prelude::*;

verus! {

/// An order of a list, with the client order ID that the venue gets to know.
#[derive(Debug)]
pub struct ListedOrder {
    /// The order.
    pub order: Order,
    /// The client order ID that the venue gets to know.
    pub venue_client_order_id: String,
}

/// Parameters of a request that places two orders of which one cancels the other.
#[derive(Clone, Debug, PartialEq, Eq)]
pub struct NewOcoOrderListParams {
    /// `symbol`.
    pub symbol: String,
    /// `listClientOrderId`.
    pub list_client_order_id: Option<String>,
    /// `side`.
    pub side: BinanceSide,
    /// `quantity`.
    pub quantity: String,
    /// `aboveType`.
    pub above_type: BinanceSpotOrderType,
    /// `aboveClientOrderId`.
    pub above_client_order_id: Option<String>,
    /// `aboveIcebergQty`.
    pub above_iceberg_qty: Option<String>,
    /// `abovePrice`.
    pub above_price: Option<String>,
    /// `aboveStopPrice`.
    pub above_stop_price: Option<String>,
    /// `aboveTimeInForce`.
    pub above_time_in_force: Option<BinanceTimeInForce>,
    /// `belowType`.
    pub below_type: BinanceSpotOrderType,
    /// `belowClientOrderId`.
    pub below_client_order_id: Option<String>,
    /// `belowIcebergQty`.
    pub below_iceberg_qty: Option<String>,
    /// `belowPrice`.
    pub below_price: Option<String>,
    /// `belowStopPrice`.
    pub below_stop_price: Option<String>,
    /// `belowTimeInForce`.
    pub below_time_in_force: Option<BinanceTimeInForce>,
    /// `newOrderRespType`.
    pub new_order_resp_type: Option<BinanceOrderResponseType>,
    /// `selfTradePreventionMode`.
    pub self_trade_prevention_mode: Option<BinanceSelfTradePreventionMode>,
}

/// Parameters of such a request, with their texts as character sequences.
pub struct OcoView {
    /// `symbol`.
    pub symbol: Seq<char>,
    /// `listClientOrderId`.
    pub list_client_order_id: Option<Seq<char>>,
    /// `side`.
    pub side: BinanceSide,
    /// `quantity`.
    pub quantity: Seq<char>,
    /// `aboveType`.
    pub above_type: BinanceSpotOrderType,
    /// `aboveClientOrderId`.
    pub above_client_order_id: Option<Seq<char>>,
    /// `aboveIcebergQty`.
    pub above_iceberg_qty: Option<Seq<char>>,
    /// `abovePrice`.
    pub above_price: Option<Seq<char>>,
    /// `aboveStopPrice`.
    pub above_stop_price: Option<Seq<char>>,
    /// `aboveTimeInForce`.
    pub above_time_in_force: Option<BinanceTimeInForce>,
    /// `belowType`.
    pub below_type: BinanceSpotOrderType,
    /// `belowClientOrderId`.
    pub below_client_order_id: Option<Seq<char>>,
    /// `belowIcebergQty`.
    pub below_iceberg_qty: Option<Seq<char>>,
    /// `belowPrice`.
    pub below_price: Option<Seq<char>>,
    /// `belowStopPrice`.
    pub below_stop_price: Option<Seq<char>>,
    /// `belowTimeInForce`.
    pub below_time_in_force: Option<BinanceTimeInForce>,
    /// `newOrderRespType`.
    pub new_order_resp_type: Option<BinanceOrderResponseType>,
    /// `selfTradePreventionMode`.
    pub self_trade_prevention_mode: Option<BinanceSelfTradePreventionMode>,
}

impl View for NewOcoOrderListParams {
    type V = OcoView;

    open spec fn view(&self) -> OcoView {
        OcoView {
            symbol: self.symbol@,
            list_client_order_id: opt_text(self.list_client_order_id),
            side: self.side,
            quantity: self.quantity@,
            above_type: self.above_type,
            above_client_order_id: opt_text(self.above_client_order_id),
            above_iceberg_qty: opt_text(self.above_iceberg_qty),
            above_price: opt_text(self.above_price),
            above_stop_price: opt_text(self.above_stop_price),
            above_time_in_force: self.above_time_in_force,
            below_type: self.below_type,
            below_client_order_id: opt_text(self.below_client_order_id),
            below_iceberg_qty: opt_text(self.below_iceberg_qty),
            below_price: opt_text(self.below_price),
            below_stop_price: opt_text(self.below_stop_price),
            below_time_in_force: self.below_time_in_force,
            new_order_resp_type: self.new_order_resp_type,
            self_trade_prevention_mode: self.self_trade_prevention_mode,
        }
    }
}

/// Where a leg stands relative to the market.
#[derive(Clone, Copy, Debug, PartialEq, Eq, Structural)]
pub enum SpotOcoLegPosition {
    /// Above the market.
    Above,
    /// Below the market.
    Below,
}

/// Whether an order type takes a profit: it rests or triggers on the far side of the market.
pub open spec fn takes_profit(order_type: BinanceSpotOrderType) -> bool {
    match order_type {
        BinanceSpotOrderType::LimitMaker => true,
        BinanceSpotOrderType::TakeProfit => true,
        BinanceSpotOrderType::TakeProfitLimit => true,
        _ => false,
    }
}

/// Whether an order type stops a loss: it triggers on the near side of the market.
pub open spec fn stops_loss(order_type: BinanceSpotOrderType) -> bool {
    match order_type {
        BinanceSpotOrderType::StopLoss => true,
        BinanceSpotOrderType::StopLossLimit => true,
        _ => false,
    }
}

/// Where a leg stands, or why it cannot be one: a sell takes its profit above the market and a buy
/// below it, and a stop is on the other side.
pub open spec fn leg_position(side: BinanceSide, order_type: BinanceSpotOrderType) -> Result<
    SpotOcoLegPosition,
    Seq<char>,
> {
    if takes_profit(order_type) {
        Ok(
            if side == BinanceSide::Sell {
                SpotOcoLegPosition::Above
            } else {
                SpotOcoLegPosition::Below
            },
        )
    } else if stops_loss(order_type) {
        Ok(
            if side == BinanceSide::Buy {
                SpotOcoLegPosition::Above
            } else {
                SpotOcoLegPosition::Below
            },
        )
    } else {
        Err("Unsupported Binance Spot OCO leg order type: "@ + order_type.name())
    }
}

/// Where a leg stands relative to the market.
pub fn spot_oco_leg_position(side: BinanceSide, order_type: BinanceSpotOrderType) -> (r: Result<
    SpotOcoLegPosition,
    String,
>)
    ensures
        match leg_position(side, order_type) {
            Ok(position) => r == Ok::<SpotOcoLegPosition, String>(position),
            Err(text) => r matches Err(found) && found@ == text,
        },
{
    match (side, order_type) {
        (BinanceSide::Sell, BinanceSpotOrderType::LimitMaker) => Ok(SpotOcoLegPosition::Above),
        (BinanceSide::Sell, BinanceSpotOrderType::TakeProfit) => Ok(SpotOcoLegPosition::Above),
        (BinanceSide::Sell, BinanceSpotOrderType::TakeProfitLimit) => Ok(SpotOcoLegPosition::Above),
        (BinanceSide::Buy, BinanceSpotOrderType::StopLoss) => Ok(SpotOcoLegPosition::Above),
        (BinanceSide::Buy, BinanceSpotOrderType::StopLossLimit) => Ok(SpotOcoLegPosition::Above),
        (BinanceSide::Sell, BinanceSpotOrderType::StopLoss) => Ok(SpotOcoLegPosition::Below),
        (BinanceSide::Sell, BinanceSpotOrderType::StopLossLimit) => Ok(SpotOcoLegPosition::Below),
        (BinanceSide::Buy, BinanceSpotOrderType::LimitMaker) => Ok(SpotOcoLegPosition::Below),
        (BinanceSide::Buy, BinanceSpotOrderType::TakeProfit) => Ok(SpotOcoLegPosition::Below),
        (BinanceSide::Buy, BinanceSpotOrderType::TakeProfitLimit) => Ok(SpotOcoLegPosition::Below),
        (_, unsupported) => Err(
            join("Unsupported Binance Spot OCO leg order type: ", unsupported.as_name()),
        ),
    }
}

/// Whether an order belongs with others: it has a contingency or is linked.
pub open spec fn grouped(order: Order) -> bool {
    ||| order.contingency_type matches Some(c) && c != ContingencyType::NoContingency
    ||| order.linked_order_ids matches Some(ids) && ids@.len() > 0
}

/// Whether an order belongs with others.
pub fn is_grouped_order(order: &Order) -> (r: bool)
    ensures
        r == grouped(*order),
{
    let contingent = match order.contingency_type {
        Some(ContingencyType::NoContingency) => false,
        Some(_) => true,
        None => false,
    };
    let linked = match &order.linked_order_ids {
        Some(ids) => ids.len() > 0,
        None => false,
    };
    contingent || linked
}

/// One leg of a list: where it stands and the request it would be alone, or why it is none.
pub open spec fn leg_request(listed: ListedOrder) -> Result<
    (SpotOcoLegPosition, NewOrderView),
    Seq<char>,
> {
    match new_order_request(
        listed.order,
        listed.venue_client_order_id@,
        listed.order.is_post_only,
        false,
    ) {
        Err(e) => Err(e.text()),
        Ok(request) => match leg_position(request.side, request.order_type) {
            Err(text) => Err(text),
            Ok(position) => Ok((position, request)),
        },
    }
}

/// Why two orders are no pair, if they are none.
pub open spec fn pair_refusal(first: Order, second: Order) -> Option<Seq<char>> {
    if first.contingency_type != Some(ContingencyType::Oco) || second.contingency_type != Some(
        ContingencyType::Oco,
    ) {
        Some("Binance Spot grouped order-list submission currently supports only OCO lists"@)
    } else if first.instrument_id@ != second.instrument_id@ {
        Some("Binance Spot OCO order-list legs must use the same instrument"@)
    } else if first.order_side != second.order_side {
        Some("Binance Spot OCO order-list legs must use the same side"@)
    } else if first.quantity.raw != second.quantity.raw {
        Some("Binance Spot OCO order-list legs must use the same quantity"@)
    } else if first.is_quote_quantity || second.is_quote_quantity {
        Some("Binance Spot OCO order-list legs do not support quote quantity"@)
    } else {
        None
    }
}

/// The request of two legs that stand on either side of the market.
pub open spec fn paired(
    symbol: Seq<char>,
    list_id: Seq<char>,
    above: NewOrderView,
    below: NewOrderView,
) -> OcoView {
    OcoView {
        symbol,
        list_client_order_id: Some(list_id),
        side: above.side,
        quantity: above.quantity->0,
        above_type: above.order_type,
        above_client_order_id: above.new_client_order_id,
        above_iceberg_qty: above.iceberg_qty,
        above_price: above.price,
        above_stop_price: above.stop_price,
        above_time_in_force: above.time_in_force,
        below_type: below.order_type,
        below_client_order_id: below.new_client_order_id,
        below_iceberg_qty: below.iceberg_qty,
        below_price: below.price,
        below_stop_price: below.stop_price,
        below_time_in_force: below.time_in_force,
        new_order_resp_type: Some(BinanceOrderResponseType::Full),
        self_trade_prevention_mode: None,
    }
}

/// The request of a list of orders of which one cancels the other, or why there is none.
pub open spec fn oco_request(list_id: Seq<char>, orders: Seq<ListedOrder>) -> Result<
    OcoView,
    Seq<char>,
> {
    if orders.len() != 2 {
        Err(
            "Binance Spot OCO order-list submission requires exactly 2 orders, was "@ + int_text(
                orders.len() as int,
            ),
        )
    } else {
        match pair_refusal(orders[0].order, orders[1].order) {
            Some(text) => Err(text),
            None => match (leg_request(orders[0]), leg_request(orders[1])) {
                (Err(text), _) => Err(text),
                (_, Err(text)) => Err(text),
                (Ok((p, first)), Ok((q, second))) => if p == q {
                    if p == SpotOcoLegPosition::Above {
                        Err("Binance Spot OCO order-list resolved more than one above leg"@)
                    } else {
                        Err("Binance Spot OCO order-list resolved more than one below leg"@)
                    }
                } else {
                    let symbol = orders[0].order.instrument_id@.0;
                    if p == SpotOcoLegPosition::Above {
                        Ok(paired(symbol, list_id, first, second))
                    } else {
                        Ok(paired(symbol, list_id, second, first))
                    }
                },
            },
        }
    }
}

/// The request of an order list, or why there is none: only pairs are taken.
pub open spec fn list_request(list_id: Seq<char>, orders: Seq<ListedOrder>) -> Result<
    OcoView,
    Seq<char>,
> {
    if exists|i: int| 0 <= i < orders.len() && grouped(#[trigger] orders[i].order) {
        oco_request(list_id, orders)
    } else {
        Err("Binance Spot order-list submission currently supports only OCO lists"@)
    }
}

/// Whether `r` is what `expected` says of a list.
pub open spec fn list_result(
    r: Result<NewOcoOrderListParams, String>,
    expected: Result<OcoView, Seq<char>>,
) -> bool {
    match expected {
        Ok(request) => r matches Ok(params) && params@ == request,
        Err(text) => r matches Err(found) && found@ == text,
    }
}

fn build_leg(listed: &ListedOrder) -> (r: Result<(SpotOcoLegPosition, NewOrderParams), String>)
    requires
        listed.order.renders(),
    ensures
        match leg_request(*listed) {
            Ok((position, request)) => r matches Ok((p, params)) && p == position && params@
                == request,
            Err(text) => r matches Err(found) && found@ == text,
        },
{
    match build_new_order_params(
        &listed.order,
        listed.venue_client_order_id.as_str(),
        listed.order.is_post_only,
        false,
    ) {
        Err(e) => Err(e.message()),
        Ok(params) => match spot_oco_leg_position(params.side, params.order_type) {
            Err(text) => Err(text),
            Ok(position) => Ok((position, params)),
        },
    }
}

fn build_pair(
    symbol: &String,
    list_id: &str,
    above: NewOrderParams,
    below: NewOrderParams,
) -> (params: NewOcoOrderListParams)
    requires
        above.quantity is Some,
    ensures
        params@ == paired(symbol@, list_id@, above@, below@),
{
    let quantity = match above.quantity {
        Some(quantity) => quantity,
        None => String::new(),
    };
    NewOcoOrderListParams {
        symbol: symbol.clone(),
        list_client_order_id: Some(list_id.to_owned()),
        side: above.side,
        quantity,
        above_type: above.order_type,
        above_client_order_id: above.new_client_order_id,
        above_iceberg_qty: above.iceberg_qty,
        above_price: above.price,
        above_stop_price: above.stop_price,
        above_time_in_force: above.time_in_force,
        below_type: below.order_type,
        below_client_order_id: below.new_client_order_id,
        below_iceberg_qty: below.iceberg_qty,
        below_price: below.price,
        below_stop_price: below.stop_price,
        below_time_in_force: below.time_in_force,
        new_order_resp_type: Some(BinanceOrderResponseType::Full),
        self_trade_prevention_mode: None,
    }
}

fn is_oco(order: &Order) -> (r: bool)
    ensures
        r == (order.contingency_type == Some(ContingencyType::Oco)),
{
    match order.contingency_type {
        Some(c) => c == ContingencyType::Oco,
        None => false,
    }
}

/// Builds the request of two orders of which one cancels the other.
pub fn build_spot_oco_order_list_params(list_id: &str, orders: &Vec<ListedOrder>) -> (r: Result<
    NewOcoOrderListParams,
    String,
>)
    requires
        forall|i: int| 0 <= i < orders@.len() ==> #[trigger] orders@[i].order.renders(),
    ensures
        list_result(r, oco_request(list_id@, orders@)),
{
    if orders.len() != 2 {
        let count = render_u128(orders.len() as u128);
        return Err(
            join(
                "Binance Spot OCO order-list submission requires exactly 2 orders, was ",
                count.as_str(),
            ),
        );
    }
    let first = &orders[0].order;
    let second = &orders[1].order;
    assert(orders@[0].order.renders() && orders@[1].order.renders());
    if !is_oco(first) || !is_oco(second) {
        return Err(
            "Binance Spot grouped order-list submission currently supports only OCO lists".to_owned(),
        );
    }
    if first.instrument_id != second.instrument_id {
        return Err("Binance Spot OCO order-list legs must use the same instrument".to_owned());
    }
    if first.order_side != second.order_side {
        return Err("Binance Spot OCO order-list legs must use the same side".to_owned());
    }
    if first.quantity.raw != second.quantity.raw {
        return Err("Binance Spot OCO order-list legs must use the same quantity".to_owned());
    }
    if first.is_quote_quantity || second.is_quote_quantity {
        return Err("Binance Spot OCO order-list legs do not support quote quantity".to_owned());
    }
    let (first_position, first_leg) = match build_leg(&orders[0]) {
        Ok(leg) => leg,
        Err(text) => return Err(text),
    };
    let (second_position, second_leg) = match build_leg(&orders[1]) {
        Ok(leg) => leg,
        Err(text) => return Err(text),
    };
    match (first_position, second_position) {
        (SpotOcoLegPosition::Above, SpotOcoLegPosition::Above) => Err(
            "Binance Spot OCO order-list resolved more than one above leg".to_owned(),
        ),
        (SpotOcoLegPosition::Below, SpotOcoLegPosition::Below) => Err(
            "Binance Spot OCO order-list resolved more than one below leg".to_owned(),
        ),
        (SpotOcoLegPosition::Above, SpotOcoLegPosition::Below) => Ok(
            build_pair(&first.instrument_id.symbol, list_id, first_leg, second_leg),
        ),
        (SpotOcoLegPosition::Below, SpotOcoLegPosition::Above) => Ok(
            build_pair(&first.instrument_id.symbol, list_id, second_leg, first_leg),
        ),
    }
}

/// Builds the request of an order list.
pub fn build_spot_order_list_params(list_id: &str, orders: &Vec<ListedOrder>) -> (r: Result<
    NewOcoOrderListParams,
    String,
>)
    requires
        forall|i: int| 0 <= i < orders@.len() ==> #[trigger] orders@[i].order.renders(),
    ensures
        list_result(r, list_request(list_id@, orders@)),
{
    let count: usize = orders.len();
    let mut i: usize = 0;
    while i < count
        invariant
            i <= count,
            count == orders@.len(),
            forall|k: int| 0 <= k < orders@.len() ==> #[trigger] orders@[k].order.renders(),
            forall|k: int| 0 <= k < i ==> !grouped(#[trigger] orders@[k].order),
        decreases count - i,
    {
        if is_grouped_order(&orders[i].order) {
            assert(grouped(orders@[i as int].order));
            return build_spot_oco_order_list_params(list_id, orders);
        }
        i = i + 1;
    }
    Err("Binance Spot order-list submission currently supports only OCO lists".to_owned())
}

/// Whether a failed list is known not to have been placed, so that its orders are rejected.
pub open spec fn list_is_rejected(error: BinanceSpotHttpError) -> bool {
    match error {
        BinanceSpotHttpError::BinanceError { code, .. } => !ambiguous_code(code as int),
        _ => local_http_failure(error),
    }
}

/// The rejection of one order of a list.
pub open spec fn list_rejection(
    order: Order,
    trader_id: TraderId,
    account_id: AccountId,
    error_text: Seq<char>,
    ts_now: UnixNanos,
) -> EventView {
    EventView {
        trader_id: trader_id@,
        strategy_id: order.strategy_id@,
        instrument_id: order.instrument_id@,
        client_order_id: order.client_order_id@,
        account_id: account_id@,
        ts_event: ts_now,
        ts_init: ts_now,
        kind: EventKindView::Rejected {
            reason: "submit-order-list-error: "@ + error_text,
            due_post_only: false,
        },
    }
}

/// The state once each of `orders` has come to its end.
pub open spec fn without_orders(state: DispatchView, orders: Seq<Order>) -> DispatchView
    decreases orders.len(),
{
    if orders.len() == 0 {
        state
    } else {
        without_orders(state, orders.drop_last()).without_order(orders.last().client_order_id@)
    }
}

/// What the failure of a list leads to: the state then, and the rejections of its orders.
pub open spec fn list_failure(
    state: DispatchView,
    trader_id: TraderId,
    account_id: AccountId,
    orders: Seq<Order>,
    error: BinanceSpotHttpError,
    error_text: Seq<char>,
    ts_now: UnixNanos,
) -> (DispatchView, Seq<EventView>) {
    if list_is_rejected(error) {
        (
            without_orders(state, orders),
            orders.map_values(
                |order: Order| list_rejection(order, trader_id, account_id, error_text, ts_now),
            ),
        )
    } else {
        (state, Seq::empty())
    }
}

/// Handles the failure of a list: its orders are rejected and forgotten if the list is known not
/// to have been placed, and wait for reconciliation otherwise. `error_text` is what the failure
/// says. The rejections come with how the list ends, which is always with the failure.
pub fn handle_spot_order_list_submit_error(
    state: &mut WsDispatchState,
    trader_id: &TraderId,
    account_id: &AccountId,
    orders: &Vec<Order>,
    error: BinanceSpotHttpError,
    error_text: &str,
    ts_now: UnixNanos,
) -> (r: (Vec<OrderEvent>, Result<(), BinanceSpotHttpError>))
    ensures
        r.1 == Err::<(), BinanceSpotHttpError>(error),
        list_is_rejected(error) ==> {
            &&& final(state)@ == without_orders(old(state)@, orders@)
            &&& r.0@.len() == orders@.len()
            &&& forall|i: int|
                0 <= i < orders@.len() ==> (#[trigger] r.0@[i])@ == list_rejection(
                    orders@[i],
                    *trader_id,
                    *account_id,
                    error_text@,
                    ts_now,
                )
        },
        !list_is_rejected(error) ==> final(state)@ == old(state)@ && r.0@.len() == 0,
        (final(state)@, r.0@.map_values(|event: OrderEvent| event@)) == list_failure(
            old(state)@,
            *trader_id,
            *account_id,
            orders@,
            error,
            error_text@,
            ts_now,
        ),
{
    let mut events: Vec<OrderEvent> = Vec::new();
    let rejected = match &error {
        BinanceSpotHttpError::BinanceError { code, .. } => !is_ambiguous_code(*code),
        _ => is_local_http_command_failure(&error),
    };
    if !rejected {
        assert(events@.map_values(|event: OrderEvent| event@) =~= Seq::<EventView>::empty());
        return (events, Err(error));
    }
    let ghost before = state@;
    let count: usize = orders.len();
    let mut i: usize = 0;
    proof {
        assert(orders@.take(0) =~= Seq::<Order>::empty());
    }
    while i < count
        invariant
            i <= count,
            count == orders@.len(),
            events@.len() == i,
            state@ == without_orders(before, orders@.take(i as int)),
            forall|k: int|
                0 <= k < i ==> (#[trigger] events@[k])@ == list_rejection(
                    orders@[k],
                    *trader_id,
                    *account_id,
                    error_text@,
                    ts_now,
                ),
        decreases count - i,
    {
        let order = &orders[i];
        state.cleanup_terminal(&order.client_order_id);
        let event = OrderEvent {
            trader_id: trader_id.clone(),
            strategy_id: order.strategy_id.clone(),
            instrument_id: order.instrument_id.clone(),
            client_order_id: order.client_order_id.clone(),
            account_id: account_id.clone(),
            ts_event: ts_now,
            ts_init: ts_now,
            kind: OrderEventKind::Rejected {
                reason: join("submit-order-list-error: ", error_text),
                due_post_only: false,
            },
        };
        events.push(event);
        proof {
            let next = orders@.take(i + 1);
            assert(next.drop_last() =~= orders@.take(i as int));
            assert(next.last() == orders@[i as int]);
        }
        i = i + 1;
    }
    proof {
        assert(orders@.take(count as int) =~= orders@);
        assert(events@.map_values(|event: OrderEvent| event@) =~= list_failure(
            before,
            *trader_id,
            *account_id,
            orders@,
            error,
            error_text@,
            ts_now,
        ).1);
    }
    (events, Err(error))
}

/// The order in which the legs of a pair are listed makes no difference to its request.
pub proof fn law_leg_order_is_irrelevant(list_id: Seq<char>, a: ListedOrder, b: ListedOrder)
    ensures
        oco_request(list_id, seq![a, b]) is Ok <==> oco_request(list_id, seq![b, a]) is Ok,
        oco_request(list_id, seq![a, b]) is Ok ==> oco_request(list_id, seq![a, b]) == oco_request(
            list_id,
            seq![b, a],
        ),
{
}

/// A request for a pair has one leg that takes its profit and one that stops its loss, each on
/// its side of the market.
pub proof fn law_pair_has_both_legs(list_id: Seq<char>, orders: Seq<ListedOrder>)
    ensures
        oco_request(list_id, orders) matches Ok(request) ==> {
            &&& orders.len() == 2
            &&& takes_profit(request.above_type) <==> request.side == BinanceSide::Sell
            &&& stops_loss(request.above_type) <==> request.side == BinanceSide::Buy
            &&& takes_profit(request.below_type) <==> request.side == BinanceSide::Buy
            &&& stops_loss(request.below_type) <==> request.side == BinanceSide::Sell
        },
{
}

/// An order type stands on opposite sides of the market for a buy and a sell, or on neither.
pub proof fn law_leg_position_mirrors_the_side(order_type: BinanceSpotOrderType)
    ensures
        leg_position(BinanceSide::Buy, order_type) is Ok <==> leg_position(
            BinanceSide::Sell,
            order_type,
        ) is Ok,
        leg_position(BinanceSide::Buy, order_type) is Ok ==> leg_position(
            BinanceSide::Buy,
            order_type,
        ) != leg_position(BinanceSide::Sell, order_type),
{
}

/// No order of a rejected list stays registered.
pub proof fn law_rejected_list_is_forgotten(state: DispatchView, orders: Seq<Order>, i: int)
    requires
        0 <= i < orders.len(),
    ensures
        !without_orders(state, orders).order_identities.contains_key(orders[i].client_order_id@),
        !without_orders(state, orders).accepted.contains(orders[i].client_order_id@),
    decreases orders.len(),
{
    if i < orders.len() - 1 {
        law_rejected_list_is_forgotten(state, orders.drop_last(), i);
        assert(orders.drop_last()[i] == orders[i]);
    }
}

} // verus!

//! What holds of every Spot request: each of its parameters is that of the order it is made for.

use crate::dispatch_state::DispatchView;
use crate::enums::{
    BinanceCancelReplaceMode, BinanceOrderResponseType, BinanceSide, BinanceSpotOrderType,
    BinanceTimeInForce, ContingencyType, OrderSide, OrderType, TimeInForce,
};
use crate::events::EventKindView;
use crate::identifiers::{AccountId, TraderId, UnixNanos, VenueOrderId};
use crate::order_list::{
    grouped, leg_position, list_failure, list_is_rejected, list_rejection, list_request,
    list_result, oco_request, without_orders, ListedOrder, NewOcoOrderListParams, OcoView,
    SpotOcoLegPosition,
};
use crate::orders::{
    cancel_request, new_order_request, params_result, replace_request, spot_side,
    spot_time_in_force, spot_type, CancelOrderParams, CancelReplaceOrderParams, ModifyOrder,
    NewOrderParams, Order, ParamsError, ParamsErrorView,
};
use crate::text::{i64_of_text, int_text};
use crate::types::Quantity;
use crate::venue_error::BinanceSpotHttpError;
use vstd::prelude::*;

verus! {

/// The venue's names for a side, a type and a time in force. What it has no name for is refused.
pub proof fn law_venue_names(
    side: OrderSide,
    order_type: OrderType,
    post_only: bool,
    time_in_force: TimeInForce,
)
    ensures
        spot_side(side) == Ok::<BinanceSide, ParamsErrorView>(BinanceSide::Buy) <==> side
            == OrderSide::Buy,
        spot_side(side) == Ok::<BinanceSide, ParamsErrorView>(BinanceSide::Sell) <==> side
            == OrderSide::Sell,
        spot_side(side) == Err::<BinanceSide, ParamsErrorView>(ParamsErrorView::Side) <==> side
            == OrderSide::NoOrderSide,
        spot_type(order_type, post_only) matches Ok(t) ==> {
            &&& t == BinanceSpotOrderType::Market <==> order_type == OrderType::Market
            &&& t == BinanceSpotOrderType::Limit <==> order_type == OrderType::Limit && !post_only
            &&& t == BinanceSpotOrderType::LimitMaker <==> order_type == OrderType::Limit
                && post_only
            &&& t == BinanceSpotOrderType::StopLoss <==> order_type == OrderType::StopMarket
            &&& t == BinanceSpotOrderType::StopLossLimit <==> order_type == OrderType::StopLimit
            &&& t == BinanceSpotOrderType::TakeProfit <==> order_type == OrderType::MarketIfTouched
            &&& t == BinanceSpotOrderType::TakeProfitLimit <==> order_type
                == OrderType::LimitIfTouched
        },
        spot_type(order_type, post_only) is Ok <==> {
            ||| order_type == OrderType::Market
            ||| order_type == OrderType::Limit
            ||| order_type == OrderType::StopMarket
            ||| order_type == OrderType::StopLimit
            ||| order_type == OrderType::MarketIfTouched
            ||| order_type == OrderType::LimitIfTouched
        },
        spot_type(order_type, post_only) matches Err(e) ==> e == ParamsErrorView::OrderType(
            order_type,
        ),
        spot_time_in_force(time_in_force) == Ok::<BinanceTimeInForce, ParamsErrorView>(
            BinanceTimeInForce::Gtc,
        ) <==> time_in_force == TimeInForce::Gtc,
        spot_time_in_force(time_in_force) == Ok::<BinanceTimeInForce, ParamsErrorView>(
            BinanceTimeInForce::Ioc,
        ) <==> time_in_force == TimeInForce::Ioc,
        spot_time_in_force(time_in_force) == Ok::<BinanceTimeInForce, ParamsErrorView>(
            BinanceTimeInForce::Fok,
        ) <==> time_in_force == TimeInForce::Fok,
        spot_time_in_force(time_in_force) is Ok ==> time_in_force == TimeInForce::Gtc
            || time_in_force == TimeInForce::Ioc || time_in_force == TimeInForce::Fok,
        spot_time_in_force(time_in_force) matches Err(e) ==> e == ParamsErrorView::TimeInForce(
            time_in_force,
        ),
{
}

/// A result that is what was expected has its value, or its error.
pub proof fn law_expected_result_is_given<T>(
    r: Result<T, ParamsError>,
    expected: Result<T, ParamsErrorView>,
)
    requires
        params_result(r, expected),
    ensures
        r is Ok <==> expected is Ok,
        r is Ok ==> r->Ok_0 == expected->Ok_0,
        r is Err ==> r->Err_0@ == expected->Err_0,
{
}

/// A request that places an order carries the order's time in force if it is a limit request of
/// any kind, and none otherwise.
pub proof fn law_time_in_force_is_carried(
    order: Order,
    venue_client_order_id: Seq<char>,
    is_post_only: bool,
    is_quote_quantity: bool,
)
    ensures
        new_order_request(order, venue_client_order_id, is_post_only, is_quote_quantity) matches Ok(
            request,
        ) ==> {
            let limited = request.order_type == BinanceSpotOrderType::Limit || request.order_type
                == BinanceSpotOrderType::StopLossLimit || request.order_type
                == BinanceSpotOrderType::TakeProfitLimit;
            &&& !limited ==> request.time_in_force is None
            &&& limited && order.time_in_force == TimeInForce::Gtc ==> request.time_in_force
                == Some(BinanceTimeInForce::Gtc)
            &&& limited && order.time_in_force == TimeInForce::Ioc ==> request.time_in_force
                == Some(BinanceTimeInForce::Ioc)
            &&& limited && order.time_in_force == TimeInForce::Fok ==> request.time_in_force
                == Some(BinanceTimeInForce::Fok)
            &&& limited ==> order.time_in_force == TimeInForce::Gtc || order.time_in_force
                == TimeInForce::Ioc || order.time_in_force == TimeInForce::Fok
        },
{
}

/// A request that places an order asks for that order: its symbol, side and type, its quantity in
/// the currency that was asked for, its price, trigger and display quantity, under the ID that the
/// venue gets to know, answered in full.
pub proof fn law_placement_asks_for_the_order(
    order: Order,
    venue_client_order_id: Seq<char>,
    is_post_only: bool,
    is_quote_quantity: bool,
)
    ensures
        new_order_request(order, venue_client_order_id, is_post_only, is_quote_quantity) matches Ok(
            request,
        ) ==> {
            &&& request.symbol == order.instrument_id.symbol@
            &&& request.side == BinanceSide::Buy <==> order.order_side == OrderSide::Buy
            &&& request.side == BinanceSide::Sell <==> order.order_side == OrderSide::Sell
            &&& request.order_type == BinanceSpotOrderType::Market <==> order.order_type
                == OrderType::Market
            &&& request.order_type == BinanceSpotOrderType::Limit <==> order.order_type
                == OrderType::Limit && !is_post_only
            &&& request.order_type == BinanceSpotOrderType::LimitMaker <==> order.order_type
                == OrderType::Limit && is_post_only
            &&& request.order_type == BinanceSpotOrderType::StopLoss <==> order.order_type
                == OrderType::StopMarket
            &&& request.order_type == BinanceSpotOrderType::StopLossLimit <==> order.order_type
                == OrderType::StopLimit
            &&& request.order_type == BinanceSpotOrderType::TakeProfit <==> order.order_type
                == OrderType::MarketIfTouched
            &&& request.order_type == BinanceSpotOrderType::TakeProfitLimit <==> order.order_type
                == OrderType::LimitIfTouched
            &&& is_quote_quantity ==> request.quantity is None && request.quote_order_qty == Some(
                order.quantity.text(),
            )
            &&& !is_quote_quantity ==> request.quote_order_qty is None && request.quantity == Some(
                order.quantity.text(),
            )
            &&& request.price is Some <==> order.price is Some
            &&& order.price matches Some(price) ==> request.price == Some(price.text())
            &&& request.stop_price is Some <==> order.trigger_price is Some
            &&& order.trigger_price matches Some(price) ==> request.stop_price == Some(price.text())
            &&& request.iceberg_qty is Some <==> order.display_qty is Some
            &&& order.display_qty matches Some(quantity) ==> request.iceberg_qty == Some(
                quantity.text(),
            )
            &&& request.new_client_order_id == Some(venue_client_order_id)
            &&& request.new_order_resp_type == Some(BinanceOrderResponseType::Full)
            &&& request.trailing_delta is None
            &&& request.self_trade_prevention_mode is None
            &&& request.strategy_id is None
            &&& request.strategy_type is None
        },
{
}

/// An order can be placed exactly when it has a side, a type that the venue has, a trigger if it is
/// conditional, and a time in force that the venue has if it is a limit order that may take. The
/// first of these that it lacks is named.
pub proof fn law_order_can_be_placed_exactly(
    order: Order,
    venue_client_order_id: Seq<char>,
    is_post_only: bool,
    is_quote_quantity: bool,
)
    ensures
        ({
            let r = new_order_request(
                order,
                venue_client_order_id,
                is_post_only,
                is_quote_quantity,
            );
            let sided = order.order_side == OrderSide::Buy || order.order_side == OrderSide::Sell;
            let conditional = order.order_type == OrderType::StopMarket || order.order_type
                == OrderType::StopLimit || order.order_type == OrderType::MarketIfTouched
                || order.order_type == OrderType::LimitIfTouched;
            let typed = conditional || order.order_type == OrderType::Market || order.order_type
                == OrderType::Limit;
            let triggered = !conditional || order.trigger_price is Some;
            let timed = order.time_in_force == TimeInForce::Gtc || order.time_in_force
                == TimeInForce::Ioc || order.time_in_force == TimeInForce::Fok || order.order_type
                == OrderType::Market || order.order_type == OrderType::StopMarket
                || order.order_type == OrderType::MarketIfTouched || (order.order_type
                == OrderType::Limit && is_post_only);
            &&& r is Ok <==> sided && typed && triggered && timed
            &&& !sided ==> r->Err_0 == ParamsErrorView::Side
            &&& sided && !typed ==> r->Err_0 == ParamsErrorView::OrderType(order.order_type)
            &&& sided && typed && !triggered ==> r->Err_0 == ParamsErrorView::MissingTrigger
            &&& sided && typed && triggered && !timed ==> r->Err_0 == ParamsErrorView::TimeInForce(
                order.time_in_force,
            )
        }),
{
}

/// A request that cancels an order names it once: by its number where the venue order ID is one,
/// and by the client order ID that the venue knows otherwise.
pub proof fn law_cancel_names_the_order_once(
    symbol: Seq<char>,
    venue_order_id: Option<VenueOrderId>,
    venue_client_order_id: Seq<char>,
)
    ensures
        ({
            let request = cancel_request(symbol, venue_order_id, venue_client_order_id);
            &&& request.symbol == symbol
            &&& request.new_client_order_id is None
            &&& request.order_id is Some <==> (venue_order_id matches Some(id) && i64_of_text(
                id.0@,
            ) is Some)
            &&& request.order_id is Some ==> request.orig_client_order_id is None
                && request.order_id == i64_of_text((venue_order_id->0).0@)
            &&& request.order_id is None ==> request.orig_client_order_id == Some(
                venue_client_order_id,
            )
        }),
{
}

/// A request that replaces an order keeps the order's side, type and time in force, takes the new
/// quantity and price, names the order to cancel once, and keeps the ID that the venue knows; and
/// nothing is placed if the cancel fails.
pub proof fn law_replacement_asks_for_the_change(
    cmd: ModifyOrder,
    order: Order,
    quantity: Quantity,
    venue_client_order_id: Seq<char>,
)
    ensures
        replace_request(cmd, order, quantity, venue_client_order_id) matches Ok(request) ==> {
            &&& request.symbol == cmd.instrument_id.symbol@
            &&& request.side == BinanceSide::Buy <==> order.order_side == OrderSide::Buy
            &&& request.side == BinanceSide::Sell <==> order.order_side == OrderSide::Sell
            &&& request.order_type == BinanceSpotOrderType::Market <==> order.order_type
                == OrderType::Market
            &&& request.order_type == BinanceSpotOrderType::Limit <==> order.order_type
                == OrderType::Limit
            &&& request.order_type == BinanceSpotOrderType::StopLoss <==> order.order_type
                == OrderType::StopMarket
            &&& request.order_type == BinanceSpotOrderType::StopLossLimit <==> order.order_type
                == OrderType::StopLimit
            &&& request.order_type == BinanceSpotOrderType::TakeProfit <==> order.order_type
                == OrderType::MarketIfTouched
            &&& request.order_type == BinanceSpotOrderType::TakeProfitLimit <==> order.order_type
                == OrderType::LimitIfTouched
            &&& request.order_type != BinanceSpotOrderType::LimitMaker
            &&& request.time_in_force == Some(BinanceTimeInForce::Gtc) <==> order.time_in_force
                == TimeInForce::Gtc
            &&& request.time_in_force == Some(BinanceTimeInForce::Ioc) <==> order.time_in_force
                == TimeInForce::Ioc
            &&& request.time_in_force == Some(BinanceTimeInForce::Fok) <==> order.time_in_force
                == TimeInForce::Fok
            &&& request.cancel_replace_mode == BinanceCancelReplaceMode::StopOnFailure
            &&& request.quantity == Some(quantity.text())
            &&& request.quote_order_qty is None
            &&& request.price is Some <==> cmd.price is Some
            &&& cmd.price matches Some(price) ==> request.price == Some(price.text())
            &&& request.cancel_order_id is Some <==> cmd.venue_order_id is Some
            &&& cmd.venue_order_id matches Some(id) ==> request.cancel_order_id == i64_of_text(
                id.0@,
            ) && request.cancel_orig_client_order_id is None
            &&& cmd.venue_order_id is None ==> request.cancel_orig_client_order_id == Some(
                venue_client_order_id,
            )
            &&& request.new_client_order_id == Some(venue_client_order_id)
            &&& request.new_order_resp_type == Some(BinanceOrderResponseType::Full)
            &&& request.stop_price is None
            &&& request.trailing_delta is None
            &&& request.iceberg_qty is None
            &&& request.self_trade_prevention_mode is None
        },
{
}

/// An order can be replaced exactly when it has a side, a type and a time in force that the venue
/// has, and its venue order ID, where the command names one, is a number. The first of these that
/// fails is named.
pub proof fn law_order_can_be_replaced_exactly(
    cmd: ModifyOrder,
    order: Order,
    quantity: Quantity,
    venue_client_order_id: Seq<char>,
)
    ensures
        ({
            let r = replace_request(cmd, order, quantity, venue_client_order_id);
            let sided = order.order_side == OrderSide::Buy || order.order_side == OrderSide::Sell;
            let typed = order.order_type == OrderType::Market || order.order_type
                == OrderType::Limit || order.order_type == OrderType::StopMarket || order.order_type
                == OrderType::StopLimit || order.order_type == OrderType::MarketIfTouched
                || order.order_type == OrderType::LimitIfTouched;
            let timed = order.time_in_force == TimeInForce::Gtc || order.time_in_force
                == TimeInForce::Ioc || order.time_in_force == TimeInForce::Fok;
            let numbered = cmd.venue_order_id matches Some(id) ==> i64_of_text(id.0@) is Some;
            &&& r is Ok <==> sided && typed && timed && numbered
            &&& !sided ==> r->Err_0 == ParamsErrorView::Side
            &&& sided && !typed ==> r->Err_0 == ParamsErrorView::OrderType(order.order_type)
            &&& sided && typed && !timed ==> r->Err_0 == ParamsErrorView::TimeInForce(
                order.time_in_force,
            )
            &&& sided && typed && timed && !numbered ==> r->Err_0 == ParamsErrorView::VenueOrderId(
                (cmd.venue_order_id->0).0@,
            )
        }),
{
}

/// The parameters that are sent are those that are spoken of.
pub proof fn law_sent_parameters_are_kept(
    new: NewOrderParams,
    cancel: CancelOrderParams,
    replace: CancelReplaceOrderParams,
)
    ensures
        new@.symbol == new.symbol@,
        new@.side == new.side,
        new@.order_type == new.order_type,
        new@.time_in_force == new.time_in_force,
        new@.quantity is Some <==> new.quantity is Some,
        new.quantity matches Some(t) ==> new@.quantity == Some(t@),
        new@.quote_order_qty is Some <==> new.quote_order_qty is Some,
        new.quote_order_qty matches Some(t) ==> new@.quote_order_qty == Some(t@),
        new@.price is Some <==> new.price is Some,
        new.price matches Some(t) ==> new@.price == Some(t@),
        new@.new_client_order_id is Some <==> new.new_client_order_id is Some,
        new.new_client_order_id matches Some(t) ==> new@.new_client_order_id == Some(t@),
        new@.stop_price is Some <==> new.stop_price is Some,
        new.stop_price matches Some(t) ==> new@.stop_price == Some(t@),
        new@.iceberg_qty is Some <==> new.iceberg_qty is Some,
        new.iceberg_qty matches Some(t) ==> new@.iceberg_qty == Some(t@),
        new@.trailing_delta == new.trailing_delta,
        new@.new_order_resp_type == new.new_order_resp_type,
        new@.self_trade_prevention_mode == new.self_trade_prevention_mode,
        new@.strategy_id == new.strategy_id,
        new@.strategy_type == new.strategy_type,
        cancel@.symbol == cancel.symbol@,
        cancel@.order_id == cancel.order_id,
        cancel@.orig_client_order_id is Some <==> cancel.orig_client_order_id is Some,
        cancel.orig_client_order_id matches Some(t) ==> cancel@.orig_client_order_id == Some(t@),
        cancel@.new_client_order_id is Some <==> cancel.new_client_order_id is Some,
        cancel.new_client_order_id matches Some(t) ==> cancel@.new_client_order_id == Some(t@),
        replace@.symbol == replace.symbol@,
        replace@.side == replace.side,
        replace@.order_type == replace.order_type,
        replace@.cancel_replace_mode == replace.cancel_replace_mode,
        replace@.time_in_force == replace.time_in_force,
        replace@.quantity is Some <==> replace.quantity is Some,
        replace.quantity matches Some(t) ==> replace@.quantity == Some(t@),
        replace@.quote_order_qty is Some <==> replace.quote_order_qty is Some,
        replace.quote_order_qty matches Some(t) ==> replace@.quote_order_qty == Some(t@),
        replace@.price is Some <==> replace.price is Some,
        replace.price matches Some(t) ==> replace@.price == Some(t@),
        replace@.cancel_order_id == replace.cancel_order_id,
        replace@.cancel_orig_client_order_id is Some <==> replace.cancel_orig_client_order_id
            is Some,
        replace.cancel_orig_client_order_id matches Some(t) ==> replace@.cancel_orig_client_order_id
            == Some(t@),
        replace@.new_client_order_id is Some <==> replace.new_client_order_id is Some,
        replace.new_client_order_id matches Some(t) ==> replace@.new_client_order_id == Some(t@),
        replace@.stop_price is Some <==> replace.stop_price is Some,
        replace.stop_price matches Some(t) ==> replace@.stop_price == Some(t@),
        replace@.iceberg_qty is Some <==> replace.iceberg_qty is Some,
        replace.iceberg_qty matches Some(t) ==> replace@.iceberg_qty == Some(t@),
        replace@.trailing_delta == replace.trailing_delta,
        replace@.new_order_resp_type == replace.new_order_resp_type,
        replace@.self_trade_prevention_mode == replace.self_trade_prevention_mode,
{
}

/// The same of the parameters of a pair.
pub proof fn law_sent_pair_is_kept(params: NewOcoOrderListParams)
    ensures
        params@.symbol == params.symbol@,
        params@.side == params.side,
        params@.quantity == params.quantity@,
        params@.list_client_order_id is Some <==> params.list_client_order_id is Some,
        params.list_client_order_id matches Some(t) ==> params@.list_client_order_id == Some(t@),
        params@.above_type == params.above_type,
        params@.below_type == params.below_type,
        params@.above_time_in_force == params.above_time_in_force,
        params@.below_time_in_force == params.below_time_in_force,
        params@.above_client_order_id is Some <==> params.above_client_order_id is Some,
        params.above_client_order_id matches Some(t) ==> params@.above_client_order_id == Some(t@),
        params@.below_client_order_id is Some <==> params.below_client_order_id is Some,
        params.below_client_order_id matches Some(t) ==> params@.below_client_order_id == Some(t@),
        params@.above_iceberg_qty is Some <==> params.above_iceberg_qty is Some,
        params.above_iceberg_qty matches Some(t) ==> params@.above_iceberg_qty == Some(t@),
        params@.below_iceberg_qty is Some <==> params.below_iceberg_qty is Some,
        params.below_iceberg_qty matches Some(t) ==> params@.below_iceberg_qty == Some(t@),
        params@.above_price is Some <==> params.above_price is Some,
        params.above_price matches Some(t) ==> params@.above_price == Some(t@),
        params@.below_price is Some <==> params.below_price is Some,
        params.below_price matches Some(t) ==> params@.below_price == Some(t@),
        params@.above_stop_price is Some <==> params.above_stop_price is Some,
        params.above_stop_price matches Some(t) ==> params@.above_stop_price == Some(t@),
        params@.below_stop_price is Some <==> params.below_stop_price is Some,
        params.below_stop_price matches Some(t) ==> params@.below_stop_price == Some(t@),
        params@.new_order_resp_type == params.new_order_resp_type,
        params@.self_trade_prevention_mode == params.self_trade_prevention_mode,
{
}

/// A sell takes its profit above the market and stops its loss below it, and a buy the other way
/// round. No other order can be a leg.
pub proof fn law_legs_stand_on_their_side(side: BinanceSide, order_type: BinanceSpotOrderType)
    ensures
        leg_position(side, order_type) == Ok::<SpotOcoLegPosition, Seq<char>>(
            SpotOcoLegPosition::Above,
        ) <==> {
            ||| side == BinanceSide::Sell && (order_type == BinanceSpotOrderType::LimitMaker
                || order_type == BinanceSpotOrderType::TakeProfit || order_type
                == BinanceSpotOrderType::TakeProfitLimit)
            ||| side == BinanceSide::Buy && (order_type == BinanceSpotOrderType::StopLoss
                || order_type == BinanceSpotOrderType::StopLossLimit)
        },
        leg_position(side, order_type) == Ok::<SpotOcoLegPosition, Seq<char>>(
            SpotOcoLegPosition::Below,
        ) <==> {
            ||| side == BinanceSide::Buy && (order_type == BinanceSpotOrderType::LimitMaker
                || order_type == BinanceSpotOrderType::TakeProfit || order_type
                == BinanceSpotOrderType::TakeProfitLimit)
            ||| side == BinanceSide::Sell && (order_type == BinanceSpotOrderType::StopLoss
                || order_type == BinanceSpotOrderType::StopLossLimit)
        },
        leg_position(side, order_type) matches Err(text) ==> text
            == "Unsupported Binance Spot OCO leg order type: "@ + order_type.name(),
{
}

/// An order belongs with others if and only if it has a contingency or is linked with some order.
pub proof fn law_grouped_orders(order: Order)
    ensures
        grouped(order) <==> {
            ||| order.contingency_type is Some && order.contingency_type->0
                != ContingencyType::NoContingency
            ||| order.linked_order_ids is Some && (order.linked_order_ids->0)@.len() > 0
        },
{
}

/// The request of a pair is made of its two orders: it has their symbol, side and quantity, and of
/// each leg the type, prices, display quantity, time in force and ID that the order alone would be
/// placed with, the leg that stands above the market above and the other below.
pub proof fn law_pair_is_made_of_its_orders(list_id: Seq<char>, orders: Seq<ListedOrder>)
    ensures
        oco_request(list_id, orders) matches Ok(request) ==> {
            &&& orders.len() == 2
            &&& {
                let first = new_order_request(
                    orders[0].order,
                    orders[0].venue_client_order_id@,
                    orders[0].order.is_post_only,
                    false,
                );
                let second = new_order_request(
                    orders[1].order,
                    orders[1].venue_client_order_id@,
                    orders[1].order.is_post_only,
                    false,
                );
                let swapped = leg_position(first->Ok_0.side, first->Ok_0.order_type)->Ok_0
                    == SpotOcoLegPosition::Below;
                let above = if swapped {
                    second->Ok_0
                } else {
                    first->Ok_0
                };
                let below = if swapped {
                    first->Ok_0
                } else {
                    second->Ok_0
                };
                &&& first is Ok
                &&& second is Ok
                &&& leg_position(above.side, above.order_type) == Ok::<
                    SpotOcoLegPosition,
                    Seq<char>,
                >(SpotOcoLegPosition::Above)
                &&& leg_position(below.side, below.order_type) == Ok::<
                    SpotOcoLegPosition,
                    Seq<char>,
                >(SpotOcoLegPosition::Below)
                &&& request.symbol == orders[0].order.instrument_id.symbol@
                &&& request.symbol == orders[1].order.instrument_id.symbol@
                &&& request.list_client_order_id == Some(list_id)
                &&& request.side == BinanceSide::Buy <==> orders[0].order.order_side
                    == OrderSide::Buy
                &&& request.side == BinanceSide::Buy <==> orders[1].order.order_side
                    == OrderSide::Buy
                &&& request.quantity == if swapped {
                    orders[1].order.quantity.text()
                } else {
                    orders[0].order.quantity.text()
                }
                &&& orders[0].order.quantity.raw == orders[1].order.quantity.raw
                &&& request.above_type == above.order_type
                &&& request.above_client_order_id == above.new_client_order_id
                &&& request.above_iceberg_qty == above.iceberg_qty
                &&& request.above_price == above.price
                &&& request.above_stop_price == above.stop_price
                &&& request.above_time_in_force == above.time_in_force
                &&& request.below_type == below.order_type
                &&& request.below_client_order_id == below.new_client_order_id
                &&& request.below_iceberg_qty == below.iceberg_qty
                &&& request.below_price == below.price
                &&& request.below_stop_price == below.stop_price
                &&& request.below_time_in_force == below.time_in_force
                &&& request.new_order_resp_type == Some(BinanceOrderResponseType::Full)
                &&& request.self_trade_prevention_mode is None
            }
        },
{
}

/// Two orders make a pair exactly when both are contingent on each other, of one instrument, side
/// and quantity, in the base currency, each can be placed alone, and one stands above the market
/// and the other below it.
pub proof fn law_orders_pair_exactly(list_id: Seq<char>, orders: Seq<ListedOrder>)
    requires
        orders.len() == 2,
    ensures
        ({
            let a = orders[0].order;
            let b = orders[1].order;
            let first = new_order_request(
                a,
                orders[0].venue_client_order_id@,
                a.is_post_only,
                false,
            );
            let second = new_order_request(
                b,
                orders[1].venue_client_order_id@,
                b.is_post_only,
                false,
            );
            let p = leg_position(first->Ok_0.side, first->Ok_0.order_type);
            let q = leg_position(second->Ok_0.side, second->Ok_0.order_type);
            let r = oco_request(list_id, orders);
            let contingent = a.contingency_type == Some(ContingencyType::Oco)
                && b.contingency_type == Some(ContingencyType::Oco);
            let same = a.instrument_id.symbol@ == b.instrument_id.symbol@ && a.instrument_id.venue@
                == b.instrument_id.venue@;
            let plain = contingent && same && a.order_side == b.order_side && a.quantity.raw
                == b.quantity.raw && !a.is_quote_quantity && !b.is_quote_quantity;
            &&& r is Ok <==> plain && first is Ok && second is Ok && p is Ok && q is Ok && p != q
            &&& !contingent ==> r->Err_0
                == "Binance Spot grouped order-list submission currently supports only OCO lists"@
            &&& contingent && !same ==> r->Err_0
                == "Binance Spot OCO order-list legs must use the same instrument"@
            &&& contingent && same && a.order_side != b.order_side ==> r->Err_0
                == "Binance Spot OCO order-list legs must use the same side"@
            &&& contingent && same && a.order_side == b.order_side && a.quantity.raw
                != b.quantity.raw ==> r->Err_0
                == "Binance Spot OCO order-list legs must use the same quantity"@
            &&& contingent && same && a.order_side == b.order_side && a.quantity.raw
                == b.quantity.raw && (a.is_quote_quantity || b.is_quote_quantity) ==> r->Err_0
                == "Binance Spot OCO order-list legs do not support quote quantity"@
            &&& plain && first is Err ==> r->Err_0 == first->Err_0.text()
            &&& plain && first is Ok && p is Err ==> r->Err_0 == p->Err_0
            &&& plain && first is Ok && p is Ok && second is Err ==> r->Err_0
                == second->Err_0.text()
            &&& plain && first is Ok && p is Ok && second is Ok && q is Err ==> r->Err_0
                == q->Err_0
            &&& plain && first is Ok && second is Ok && p is Ok && p == q ==> r->Err_0 == if p->Ok_0
                == SpotOcoLegPosition::Above {
                "Binance Spot OCO order-list resolved more than one above leg"@
            } else {
                "Binance Spot OCO order-list resolved more than one below leg"@
            }
        }),
{
}

/// A list is placed as a pair, and only if some order of it belongs with others.
pub proof fn law_only_pairs_are_listed(list_id: Seq<char>, orders: Seq<ListedOrder>)
    ensures
        orders.len() != 2 ==> oco_request(list_id, orders) == Err::<OcoView, Seq<char>>(
            "Binance Spot OCO order-list submission requires exactly 2 orders, was "@ + int_text(
                orders.len() as int,
            ),
        ),
        (exists|i: int| 0 <= i < orders.len() && grouped(#[trigger] orders[i].order))
            ==> list_request(list_id, orders) == oco_request(list_id, orders),
        (forall|i: int| 0 <= i < orders.len() ==> !grouped(#[trigger] orders[i].order))
            ==> list_request(list_id, orders) == Err::<OcoView, Seq<char>>(
            "Binance Spot order-list submission currently supports only OCO lists"@,
        ),
        list_request(list_id, orders) is Ok ==> orders.len() == 2,
{
}

/// A result that is what a list calls for has its parameters, or its text.
pub proof fn law_list_result_is_given(
    r: Result<NewOcoOrderListParams, String>,
    expected: Result<OcoView, Seq<char>>,
)
    requires
        list_result(r, expected),
    ensures
        r is Ok <==> expected is Ok,
        r is Ok ==> (r->Ok_0)@ == expected->Ok_0,
        r is Err ==> (r->Err_0)@ == expected->Err_0,
{
}

/// The orders of a failed list are rejected if and only if the venue answered with an error that
/// settles it, or nothing left.
pub proof fn law_failed_list_is_rejected_exactly(error: BinanceSpotHttpError)
    ensures
        list_is_rejected(error) <==> match error {
            BinanceSpotHttpError::BinanceError { code, .. } => code != -1006 && code != -1007,
            BinanceSpotHttpError::MissingCredentials => true,
            BinanceSpotHttpError::ValidationError(_) => true,
            _ => false,
        },
{
}

/// The rejection of an order of a list is about that order, says what the failure says, and never
/// blames post-only.
pub proof fn law_list_rejection_is_about_its_order(
    order: Order,
    trader_id: TraderId,
    account_id: AccountId,
    error_text: Seq<char>,
    ts_now: UnixNanos,
)
    ensures
        ({
            let event = list_rejection(order, trader_id, account_id, error_text, ts_now);
            &&& event.trader_id == trader_id.0@
            &&& event.strategy_id == order.strategy_id.0@
            &&& event.instrument_id == (order.instrument_id.symbol@, order.instrument_id.venue@)
            &&& event.client_order_id == order.client_order_id.0@
            &&& event.account_id == account_id.0@
            &&& event.ts_event == ts_now
            &&& event.ts_init == ts_now
            &&& event.kind == (EventKindView::Rejected {
                reason: "submit-order-list-error: "@ + error_text,
                due_post_only: false,
            })
        }),
{
}

/// The failure of a list rejects each of its orders once, in their order, and forgets them, if the
/// list is known not to have been placed; and leads to nothing otherwise.
pub proof fn law_failed_list_rejects_each_order(
    state: DispatchView,
    trader_id: TraderId,
    account_id: AccountId,
    orders: Seq<Order>,
    error: BinanceSpotHttpError,
    error_text: Seq<char>,
    ts_now: UnixNanos,
)
    ensures
        ({
            let (after, events) = list_failure(
                state,
                trader_id,
                account_id,
                orders,
                error,
                error_text,
                ts_now,
            );
            let settled = match error {
                BinanceSpotHttpError::BinanceError { code, .. } => code != -1006 && code != -1007,
                BinanceSpotHttpError::MissingCredentials => true,
                BinanceSpotHttpError::ValidationError(_) => true,
                _ => false,
            };
            &&& settled ==> {
                &&& after == without_orders(state, orders)
                &&& events.len() == orders.len()
                &&& forall|i: int|
                    0 <= i < orders.len() ==> #[trigger] events[i] == list_rejection(
                        orders[i],
                        trader_id,
                        account_id,
                        error_text,
                        ts_now,
                    )
            }
            &&& !settled ==> after == state && events.len() == 0
        }),
{
}

/// What a rejected list forgets is its own orders: any other order stays as it was, and so does
/// everything else that is remembered.
pub proof fn law_rejected_list_leaves_others_alone(
    state: DispatchView,
    orders: Seq<Order>,
    id: Seq<char>,
)
    requires
        forall|i: int| 0 <= i < orders.len() ==> (#[trigger] orders[i]).client_order_id.0@ != id,
    ensures
        ({
            let after = without_orders(state, orders);
            &&& after.order_identities.contains_key(id) == state.order_identities.contains_key(id)
            &&& state.order_identities.contains_key(id) ==> after.order_identities[id]
                == state.order_identities[id]
            &&& after.accepted.contains(id) == state.accepted.contains(id)
            &&& after.filled == state.filled
            &&& after.pending_requests == state.pending_requests
        }),
    decreases orders.len(),
{
    if orders.len() > 0 {
        let rest = orders.drop_last();
        assert forall|i: int| 0 <= i < rest.len() implies (#[trigger] rest[i]).client_order_id.0@
            != id by {
            assert(rest[i] == orders[i]);
        }
        law_rejected_list_leaves_others_alone(state, rest, id);
        assert(orders.last() == orders[orders.len() - 1]);
    }
}

} // verus!

use spot_execution::dispatch_state::{OrderIdentity, WsDispatchState};
use spot_execution::enums::{
    BinanceCancelReplaceMode, BinanceOrderResponseType, BinanceSelfTradePreventionMode, BinanceSide,
    BinanceSpotOrderType, BinanceTimeInForce, ContingencyType, OrderSide, OrderType, TimeInForce,
};
use spot_execution::events::OrderEventKind;
use spot_execution::identifiers::{
    AccountId, ClientOrderId, InstrumentId, StrategyId, TraderId, UnixNanos, VenueOrderId,
};
use spot_execution::order_list::{
    build_spot_oco_order_list_params, build_spot_order_list_params,
    handle_spot_order_list_submit_error, is_grouped_order, spot_oco_leg_position, ListedOrder,
    SpotOcoLegPosition,
};
use spot_execution::orders::{
    build_cancel_order_params, build_cancel_replace_params, build_new_order_params,
    CancelOrderParams, ModifyOrder, NewOrderParams, Order, ParamsError,
};
use spot_execution::types::{Price, Quantity};
use spot_execution::venue_error::BinanceSpotHttpError;

fn order(id: &str, order_type: OrderType) -> Order {
    Order {
        client_order_id: ClientOrderId::new(id),
        strategy_id: StrategyId::new("S-1"),
        instrument_id: InstrumentId::new("BTCUSDT", "BINANCE"),
        order_side: OrderSide::Sell,
        order_type,
        quantity: Quantity::parse("0.001", 3).unwrap(),
        time_in_force: TimeInForce::Gtc,
        price: Some(Price::parse("50000", 2).unwrap()),
        trigger_price: None,
        is_post_only: false,
        is_quote_quantity: false,
        display_qty: None,
        contingency_type: None,
        linked_order_ids: None,
        is_closed: false,
    }
}

fn leg(id: &str, order_type: OrderType) -> ListedOrder {
    let mut leg = order(id, order_type);
    leg.contingency_type = Some(ContingencyType::Oco);
    if order_type == OrderType::Limit {
        leg.is_post_only = true;
    } else {
        leg.trigger_price = Some(Price::parse("49000", 2).unwrap());
    }
    ListedOrder { order: leg, venue_client_order_id: format!("x-{id}") }
}

#[test]
fn final_spot_unsigned_request_field_inventory_is_exhaustive() {
    let submit = NewOrderParams {
        symbol: "BTCUSDT".to_string(),
        side: BinanceSide::Buy,
        order_type: BinanceSpotOrderType::Limit,
        time_in_force: Some(BinanceTimeInForce::Gtc),
        quantity: Some("0.001".to_string()),
        quote_order_qty: Some("50".to_string()),
        price: Some("50000".to_string()),
        new_client_order_id: Some("SAE-SPOT-1".to_string()),
        stop_price: Some("49000".to_string()),
        trailing_delta: Some(10),
        iceberg_qty: Some("0.0001".to_string()),
        new_order_resp_type: Some(BinanceOrderResponseType::Full),
        self_trade_prevention_mode: Some(BinanceSelfTradePreventionMode::ExpireMaker),
        strategy_id: Some(1),
        strategy_type: Some(1_000_000),
    };
    assert_eq!(
        submit.field_names(),
        vec![
            "symbol",
            "side",
            "type",
            "timeInForce",
            "quantity",
            "quoteOrderQty",
            "price",
            "newClientOrderId",
            "stopPrice",
            "trailingDelta",
            "icebergQty",
            "newOrderRespType",
            "selfTradePreventionMode",
            "strategyId",
            "strategyType",
        ]
    );
    let cancel = CancelOrderParams {
        symbol: "BTCUSDT".to_string(),
        order_id: Some(1),
        orig_client_order_id: Some("SAE-SPOT-1".to_string()),
        new_client_order_id: Some("CANCEL-REPLACEMENT".to_string()),
    };
    assert_eq!(
        cancel.field_names(),
        vec!["symbol", "orderId", "origClientOrderId", "newClientOrderId"]
    );
}

#[test]
fn absent_fields_are_left_out() {
    let params = build_new_order_params(&order("O-1", OrderType::Limit), "x-1", false, false).unwrap();
    assert_eq!(
        params.field_names(),
        vec![
            "symbol",
            "side",
            "type",
            "timeInForce",
            "quantity",
            "price",
            "newClientOrderId",
            "newOrderRespType",
        ]
    );
    let cancel =
        build_cancel_order_params(&InstrumentId::new("BTCUSDT", "BINANCE"), &None, "x-1");
    assert_eq!(cancel.field_names(), vec!["symbol", "origClientOrderId"]);
}

#[test]
fn a_limit_order_is_placed_with_all_it_says() {
    let params = build_new_order_params(&order("O-1", OrderType::Limit), "x-1", false, false);
    assert_eq!(
        params,
        Ok(NewOrderParams {
            symbol: "BTCUSDT".to_string(),
            side: BinanceSide::Sell,
            order_type: BinanceSpotOrderType::Limit,
            time_in_force: Some(BinanceTimeInForce::Gtc),
            quantity: Some("0.001".to_string()),
            quote_order_qty: None,
            price: Some("50000.00".to_string()),
            new_client_order_id: Some("x-1".to_string()),
            stop_price: None,
            trailing_delta: None,
            iceberg_qty: None,
            new_order_resp_type: Some(BinanceOrderResponseType::Full),
            self_trade_prevention_mode: None,
            strategy_id: None,
            strategy_type: None,
        })
    );
}

#[test]
fn order_types_map_to_the_venue() {
    for (order_type, post_only, expected, in_force) in [
        (OrderType::Market, false, BinanceSpotOrderType::Market, None),
        (
            OrderType::Limit,
            false,
            BinanceSpotOrderType::Limit,
            Some(BinanceTimeInForce::Gtc),
        ),
        (OrderType::Limit, true, BinanceSpotOrderType::LimitMaker, None),
        (OrderType::StopMarket, false, BinanceSpotOrderType::StopLoss, None),
        (
            OrderType::StopLimit,
            false,
            BinanceSpotOrderType::StopLossLimit,
            Some(BinanceTimeInForce::Gtc),
        ),
        (
            OrderType::MarketIfTouched,
            false,
            BinanceSpotOrderType::TakeProfit,
            None,
        ),
        (
            OrderType::LimitIfTouched,
            false,
            BinanceSpotOrderType::TakeProfitLimit,
            Some(BinanceTimeInForce::Gtc),
        ),
    ] {
        let mut order = order("O-1", order_type);
        order.trigger_price = Some(Price::parse("49000", 2).unwrap());
        let params = build_new_order_params(&order, "x-1", post_only, false).unwrap();
        assert_eq!(params.order_type, expected);
        assert_eq!(params.time_in_force, in_force);
        assert_eq!(params.stop_price, Some("49000.00".to_string()));
    }
}

#[test]
fn amounts_are_in_base_or_in_quote() {
    let mut order = order("O-1", OrderType::Market);
    order.price = None;
    order.display_qty = Some(Quantity::parse("0.0001", 4).unwrap());
    let params = build_new_order_params(&order, "x-1", false, true).unwrap();
    assert_eq!(params.quantity, None);
    assert_eq!(params.quote_order_qty, Some("0.001".to_string()));
    assert_eq!(params.iceberg_qty, Some("0.0001".to_string()));
    assert_eq!(params.price, None);
}

#[test]
fn orders_that_the_venue_does_not_take() {
    let mut sideless = order("O-1", OrderType::Limit);
    sideless.order_side = OrderSide::NoOrderSide;
    let trailing = order("O-1", OrderType::TrailingStopMarket);
    let untriggered = order("O-1", OrderType::StopLimit);
    let mut dated = order("O-1", OrderType::Limit);
    dated.time_in_force = TimeInForce::Gtd;
    for (order, error, text) in [
        (
            sideless,
            ParamsError::Side,
            "Unsupported order side for Binance: NoOrderSide",
        ),
        (
            trailing,
            ParamsError::OrderType(OrderType::TrailingStopMarket),
            "Unsupported order type for Binance Spot: TrailingStopMarket",
        ),
        (
            untriggered,
            ParamsError::MissingTrigger,
            "Conditional orders require a trigger price",
        ),
        (
            dated,
            ParamsError::TimeInForce(TimeInForce::Gtd),
            "Unsupported time in force for Binance Spot: Gtd",
        ),
    ] {
        assert_eq!(build_new_order_params(&order, "x-1", false, false), Err(error.clone()));
        assert_eq!(error.message(), text);
    }
}

#[test]
fn cancels_prefer_the_venue_number() {
    let instrument = InstrumentId::new("BTCUSDT", "BINANCE");
    let by_number =
        build_cancel_order_params(&instrument, &Some(VenueOrderId::new("123")), "x-1");
    assert_eq!(
        by_number,
        CancelOrderParams {
            symbol: "BTCUSDT".to_string(),
            order_id: Some(123),
            orig_client_order_id: None,
            new_client_order_id: None,
        }
    );
    for venue_order_id in [None, Some(VenueOrderId::new("abc"))] {
        let by_id = build_cancel_order_params(&instrument, &venue_order_id, "x-1");
        assert_eq!(by_id.order_id, None);
        assert_eq!(by_id.orig_client_order_id, Some("x-1".to_string()));
    }
}

#[test]
fn replacements_stop_on_failure() {
    let mut cmd = ModifyOrder {
        instrument_id: InstrumentId::new("BTCUSDT", "BINANCE"),
        client_order_id: ClientOrderId::new("O-1"),
        venue_order_id: Some(VenueOrderId::new("77")),
        price: Some(Price::parse("51000", 2).unwrap()),
    };
    let order = order("O-1", OrderType::Limit);
    let quantity = Quantity::parse("0.002", 3).unwrap();
    let params = build_cancel_replace_params(&cmd, &order, quantity, "x-1").unwrap();
    assert_eq!(params.cancel_replace_mode, BinanceCancelReplaceMode::StopOnFailure);
    assert_eq!(params.cancel_order_id, Some(77));
    assert_eq!(params.cancel_orig_client_order_id, None);
    assert_eq!(params.new_client_order_id, Some("x-1".to_string()));
    assert_eq!(params.quantity, Some("0.002".to_string()));
    assert_eq!(params.price, Some("51000.00".to_string()));
    assert_eq!(params.time_in_force, Some(BinanceTimeInForce::Gtc));
    cmd.venue_order_id = None;
    let params = build_cancel_replace_params(&cmd, &order, quantity, "x-1").unwrap();
    assert_eq!(params.cancel_order_id, None);
    assert_eq!(params.cancel_orig_client_order_id, Some("x-1".to_string()));
    cmd.venue_order_id = Some(VenueOrderId::new("abc"));
    let error = build_cancel_replace_params(&cmd, &order, quantity, "x-1").unwrap_err();
    assert_eq!(error.message(), "Invalid venue order ID: abc");
}

#[test]
fn legs_stand_on_their_side_of_the_market() {
    for (order_type, sell) in [
        (BinanceSpotOrderType::LimitMaker, SpotOcoLegPosition::Above),
        (BinanceSpotOrderType::TakeProfit, SpotOcoLegPosition::Above),
        (BinanceSpotOrderType::TakeProfitLimit, SpotOcoLegPosition::Above),
        (BinanceSpotOrderType::StopLoss, SpotOcoLegPosition::Below),
        (BinanceSpotOrderType::StopLossLimit, SpotOcoLegPosition::Below),
    ] {
        assert_eq!(spot_oco_leg_position(BinanceSide::Sell, order_type), Ok(sell));
        let buy = spot_oco_leg_position(BinanceSide::Buy, order_type).unwrap();
        assert_ne!(buy, sell);
    }
    assert_eq!(
        spot_oco_leg_position(BinanceSide::Sell, BinanceSpotOrderType::Market),
        Err("Unsupported Binance Spot OCO leg order type: Market".to_string())
    );
}

#[test]
fn a_pair_becomes_one_request_in_either_order() {
    let forth = vec![leg("A", OrderType::Limit), leg("B", OrderType::StopLimit)];
    let back = vec![leg("B", OrderType::StopLimit), leg("A", OrderType::Limit)];
    let params = build_spot_oco_order_list_params("L-1", &forth).unwrap();
    assert_eq!(params.symbol, "BTCUSDT");
    assert_eq!(params.list_client_order_id, Some("L-1".to_string()));
    assert_eq!(params.side, BinanceSide::Sell);
    assert_eq!(params.quantity, "0.001");
    assert_eq!(params.above_type, BinanceSpotOrderType::LimitMaker);
    assert_eq!(params.above_client_order_id, Some("x-A".to_string()));
    assert_eq!(params.above_time_in_force, None);
    assert_eq!(params.below_type, BinanceSpotOrderType::StopLossLimit);
    assert_eq!(params.below_client_order_id, Some("x-B".to_string()));
    assert_eq!(params.below_stop_price, Some("49000.00".to_string()));
    assert_eq!(params.below_time_in_force, Some(BinanceTimeInForce::Gtc));
    assert_eq!(build_spot_order_list_params("L-1", &back), Ok(params));
}

#[test]
fn pairs_that_are_none() {
    let pair = || vec![leg("A", OrderType::Limit), leg("B", OrderType::StopLimit)];
    let error = |orders: Vec<ListedOrder>| {
        build_spot_oco_order_list_params("L-1", &orders).unwrap_err()
    };
    let mut three = pair();
    three.push(leg("C", OrderType::StopLimit));
    assert_eq!(
        error(three),
        "Binance Spot OCO order-list submission requires exactly 2 orders, was 3"
    );
    let mut orders = pair();
    orders[1].order.contingency_type = Some(ContingencyType::Oto);
    assert_eq!(
        error(orders),
        "Binance Spot grouped order-list submission currently supports only OCO lists"
    );
    let mut orders = pair();
    orders[1].order.instrument_id = InstrumentId::new("ETHUSDT", "BINANCE");
    assert_eq!(
        error(orders),
        "Binance Spot OCO order-list legs must use the same instrument"
    );
    let mut orders = pair();
    orders[1].order.order_side = OrderSide::Buy;
    assert_eq!(
        error(orders),
        "Binance Spot OCO order-list legs must use the same side"
    );
    let mut orders = pair();
    orders[1].order.quantity = Quantity::parse("0.002", 3).unwrap();
    assert_eq!(
        error(orders),
        "Binance Spot OCO order-list legs must use the same quantity"
    );
    let mut orders = pair();
    orders[0].order.is_quote_quantity = true;
    assert_eq!(
        error(orders),
        "Binance Spot OCO order-list legs do not support quote quantity"
    );
    let orders = vec![leg("A", OrderType::Limit), leg("B", OrderType::LimitIfTouched)];
    assert_eq!(
        error(orders),
        "Binance Spot OCO order-list resolved more than one above leg"
    );
    let orders = vec![leg("A", OrderType::StopMarket), leg("B", OrderType::StopLimit)];
    assert_eq!(
        error(orders),
        "Binance Spot OCO order-list resolved more than one below leg"
    );
    let mut orders = pair();
    orders[0].order.is_post_only = false;
    assert_eq!(
        error(orders),
        "Unsupported Binance Spot OCO leg order type: Limit"
    );
    let mut orders = pair();
    orders[1].order.trigger_price = None;
    assert_eq!(error(orders), "Conditional orders require a trigger price");
}

#[test]
fn only_grouped_orders_make_a_list() {
    let mut lone = order("A", OrderType::Limit);
    assert!(!is_grouped_order(&lone));
    lone.contingency_type = Some(ContingencyType::NoContingency);
    assert!(!is_grouped_order(&lone));
    lone.linked_order_ids = Some(vec![]);
    assert!(!is_grouped_order(&lone));
    lone.linked_order_ids = Some(vec![ClientOrderId::new("B")]);
    assert!(is_grouped_order(&lone));
    lone.linked_order_ids = None;
    lone.contingency_type = Some(ContingencyType::Ouo);
    assert!(is_grouped_order(&lone));
    let plain = vec![
        ListedOrder { order: order("A", OrderType::Limit), venue_client_order_id: "x".to_string() },
        ListedOrder { order: order("B", OrderType::Limit), venue_client_order_id: "y".to_string() },
    ];
    assert_eq!(
        build_spot_order_list_params("L-1", &plain),
        Err("Binance Spot order-list submission currently supports only OCO lists".to_string())
    );
}

#[test]
fn a_rejected_list_rejects_each_order() {
    for (error, rejected) in [
        (
            BinanceSpotHttpError::BinanceError { code: -2010, message: "no".to_string() },
            true,
        ),
        (BinanceSpotHttpError::MissingCredentials, true),
        (BinanceSpotHttpError::ValidationError("bad".to_string()), true),
        (
            BinanceSpotHttpError::BinanceError { code: -1007, message: "late".to_string() },
            false,
        ),
        (
            BinanceSpotHttpError::BinanceError { code: -1006, message: "odd".to_string() },
            false,
        ),
        (BinanceSpotHttpError::NetworkError("lost".to_string()), false),
    ] {
        let orders = vec![order("A", OrderType::Limit), order("B", OrderType::StopLimit)];
        let mut state = WsDispatchState::new();
        for order in &orders {
            state.register_order(
                &order.client_order_id,
                OrderIdentity {
                    instrument_id: order.instrument_id.clone(),
                    strategy_id: order.strategy_id.clone(),
                    order_side: order.order_side,
                    order_type: order.order_type,
                    price: order.price,
                    quantity: order.quantity,
                },
            );
        }
        let (events, ended) = handle_spot_order_list_submit_error(
            &mut state,
            &TraderId::new("TESTER-001"),
            &AccountId::new("BINANCE-001"),
            &orders,
            error.clone(),
            "why",
            UnixNanos(5),
        );
        assert_eq!(ended, Err(error));
        assert_eq!(events.len(), if rejected { 2 } else { 0 });
        for (event, order) in events.iter().zip(&orders) {
            assert_eq!(event.client_order_id, order.client_order_id);
            assert_eq!(event.ts_event, UnixNanos(5));
            assert_eq!(
                event.kind,
                OrderEventKind::Rejected {
                    reason: "submit-order-list-error: why".to_string(),
                    due_post_only: false,
                }
            );
        }
        for order in &orders {
            assert_eq!(state.identity(&order.client_order_id).is_none(), rejected);
        }
    }
}

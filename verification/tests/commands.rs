use spot_execution::client::{BinanceExecClientConfig, BinanceSpotExecutionClient};
use spot_execution::commands::{
    cancel_order_internal, final_time_in_force, retry_digest, submit_order, submit_order_internal,
    CancelOrder, ClientScope, CommandRefusal, SubmitOrder, Submission,
};
use spot_execution::dispatch_state::WsDispatchState;
use spot_execution::enums::{OrderSide, OrderType, TimeInForce};
use spot_execution::events::OrderEventKind;
use spot_execution::execution_write::{
    ExecutionEndpointPath, ExecutionHttpMethod, ExecutionTimeInForce,
    ExecutionTransportTargetViewV1, ExecutionWriteElementViewV1, ExecutionWriteGateError,
    ExecutionWriteKind, FinalWritePayloadDigest, TransportOutcomeClass,
};
use spot_execution::identifiers::{
    AccountId, ClientId, ClientOrderId, InstrumentId, StrategyId, TraderId, UnixNanos, VenueOrderId,
    UUID4,
};
use spot_execution::orders::Order;
use spot_execution::types::{Price, Quantity};
use spot_execution::venue_error::{BinanceSpotHttpError, CommandError};
use spot_execution::write_task::{WriteAction, WriteAnswer, WriteRequest, WriteSignal, WriteTask};

const DIGEST: &str = "000102030405060708090a0b0c0d0e0f101112131415161718191a1b1c1d1eff";

fn scope() -> ClientScope {
    ClientScope {
        client_id: ClientId::new("BINANCE-SPOT"),
        trader_id: TraderId::new("TESTER-001"),
        account_id: AccountId::new("BINANCE-001"),
    }
}

fn order() -> Order {
    Order {
        client_order_id: ClientOrderId::new("O-1"),
        strategy_id: StrategyId::new("S-1"),
        instrument_id: InstrumentId::new("BTCUSDT", "BINANCE"),
        order_side: OrderSide::Buy,
        order_type: OrderType::Limit,
        quantity: Quantity::parse("0.001", 3).unwrap(),
        time_in_force: TimeInForce::Gtc,
        price: Some(Price::parse("50000", 0).unwrap()),
        trigger_price: None,
        is_post_only: false,
        is_quote_quantity: false,
        display_qty: None,
        contingency_type: None,
        linked_order_ids: None,
        is_closed: false,
    }
}

fn submit(retry_of: Option<&str>) -> SubmitOrder {
    SubmitOrder {
        command_id: UUID4::from_random_bits(7),
        client_order_id: ClientOrderId::new("O-1"),
        retry_of: retry_of.map(str::to_string),
    }
}

fn cancel() -> CancelOrder {
    CancelOrder {
        command_id: UUID4::from_random_bits(8),
        strategy_id: StrategyId::new("S-1"),
        instrument_id: InstrumentId::new("BTCUSDT", "BINANCE"),
        client_order_id: ClientOrderId::new("O-1"),
        venue_order_id: None,
    }
}

fn prepare(cmd: &SubmitOrder, order: &Order, state: &mut WsDispatchState) -> Result<WriteTask, String> {
    submit_order_internal(&scope(), cmd, Ok(order), state, UnixNanos(1)).map_err(|e| e.message())
}

fn arm(task: &mut WriteTask, state: &mut WsDispatchState) {
    assert!(matches!(
        task.advance(WriteSignal::Begin { has_gate: true }, state),
        WriteAction::Acquire
    ));
    assert!(matches!(
        task.advance(WriteSignal::Permit(Ok(())), state),
        WriteAction::Arm
    ));
    assert!(matches!(
        task.advance(WriteSignal::Armed(Ok(())), state),
        WriteAction::Send
    ));
}

fn venue_error(code: i64, message: &str) -> CommandError {
    CommandError::Http(BinanceSpotHttpError::BinanceError { code, message: message.to_string() })
}

fn failed(error: CommandError) -> WriteAnswer {
    WriteAnswer::Failed { error, text: "why".to_string() }
}

#[test]
fn retry_digests_are_sixty_four_lowercase_hex_characters() {
    assert_eq!(retry_digest(&None), Ok(None));
    let mut bytes = [0_u8; 32];
    for (index, byte) in bytes.iter_mut().enumerate() {
        *byte = index as u8;
    }
    bytes[31] = 0xff;
    assert_eq!(
        retry_digest(&Some(DIGEST.to_string())),
        Ok(Some(FinalWritePayloadDigest(bytes)))
    );
    for text in [
        "".to_string(),
        DIGEST[1..].to_string(),
        format!("{DIGEST}0"),
        DIGEST.to_uppercase(),
        DIGEST.replace("ff", "g0"),
        DIGEST.replace("ff", "\u{e9}0"),
    ] {
        assert_eq!(retry_digest(&Some(text)), Err(CommandRefusal::RetryDigest));
    }
    assert_eq!(
        CommandRefusal::RetryDigest.message(),
        "sae_retry_of must be 64 lowercase hex characters"
    );
}

#[test]
fn time_in_force_is_carried_as_the_request_means_it() {
    for (order_type, time_in_force, post_only, expected) in [
        (OrderType::Market, TimeInForce::Day, true, ExecutionTimeInForce::NotApplicable),
        (OrderType::Limit, TimeInForce::Day, true, ExecutionTimeInForce::Gtx),
        (OrderType::Limit, TimeInForce::Gtc, false, ExecutionTimeInForce::Gtc),
        (OrderType::Limit, TimeInForce::Ioc, false, ExecutionTimeInForce::Ioc),
        (OrderType::Limit, TimeInForce::Fok, false, ExecutionTimeInForce::Fok),
    ] {
        assert_eq!(final_time_in_force(order_type, time_in_force, post_only), Ok(expected));
    }
    let refused = final_time_in_force(OrderType::Limit, TimeInForce::Gtd, false).unwrap_err();
    assert_eq!(
        refused.message(),
        "first-release Binance Spot rejects time in force Gtd"
    );
}

#[test]
fn orders_outside_the_first_release_are_refused() {
    let mutations: Vec<(fn(&mut Order), &str)> = vec![
        (
            |order| order.order_type = OrderType::StopLimit,
            "first-release Binance Spot rejects conditional order type StopLimit",
        ),
        (
            |order| order.is_quote_quantity = true,
            "first-release Binance Spot rejects quote-order quantity",
        ),
        (
            |order| order.trigger_price = Some(Price { raw: 1, precision: 0 }),
            "first-release Binance Spot rejects trigger price",
        ),
        (
            |order| order.display_qty = Some(Quantity { raw: 1, precision: 0 }),
            "first-release Binance Spot rejects display quantity",
        ),
        (
            |order| order.price = None,
            "Binance Spot limit order requires a price",
        ),
        (
            |order| order.order_type = OrderType::Market,
            "Binance Spot market order forbids a price",
        ),
        (
            |order| order.time_in_force = TimeInForce::AtTheOpen,
            "first-release Binance Spot rejects time in force AtTheOpen",
        ),
    ];
    for (mutate, text) in mutations {
        let mut order = order();
        mutate(&mut order);
        let mut state = WsDispatchState::new();
        assert_eq!(prepare(&submit(None), &order, &mut state).unwrap_err(), text);
        assert!(state.identity(&order.client_order_id).is_none());
    }
    let mut state = WsDispatchState::new();
    assert_eq!(
        prepare(&submit(Some("xyz")), &order(), &mut state).unwrap_err(),
        "sae_retry_of must be 64 lowercase hex characters"
    );
}

#[test]
fn a_prepared_submission_is_admitted_and_registered() {
    let mut state = WsDispatchState::new();
    let task = prepare(&submit(None), &order(), &mut state).unwrap();
    assert_eq!(task.payload().validate_first_release(task.context()), Ok(()));
    assert_eq!(task.payload().kind, ExecutionWriteKind::Submit);
    assert_eq!(task.payload().retry_of, None);
    let identity = state.identity(&ClientOrderId::new("O-1")).unwrap();
    assert_eq!(identity.order_type, OrderType::Limit);
    assert_eq!(identity.price, Some(Price::parse("50000", 0).unwrap()));
    match task.request() {
        WriteRequest::Submit(request) => {
            assert_eq!(request.account_id, AccountId::new("BINANCE-001"));
            assert_eq!(request.client_order_id, ClientOrderId::new("O-1"));
            assert_eq!(request.time_in_force, TimeInForce::Gtc);
            assert_eq!(request.quantity, Quantity::parse("0.001", 3).unwrap());
        }
        WriteRequest::Cancel(_) => panic!("Expected a submission"),
    }
    let retry = prepare(&submit(Some(DIGEST)), &order(), &mut state).unwrap();
    assert_eq!(retry.payload().kind, ExecutionWriteKind::Retry);
    assert_eq!(retry.context().kind, ExecutionWriteKind::Retry);
    assert_eq!(retry.payload().retry_of.unwrap().0[31], 0xff);
    assert_eq!(retry.payload().validate_first_release(retry.context()), Ok(()));
}

#[test]
fn submissions_that_the_policy_refuses_at_last() {
    let mut state = WsDispatchState::new();
    let mut post_only_market = order();
    post_only_market.order_type = OrderType::Market;
    post_only_market.price = None;
    post_only_market.is_post_only = true;
    let mut empty = order();
    empty.quantity = Quantity { raw: 0, precision: 3 };
    for order in [post_only_market, empty] {
        let mut task = prepare(&submit(None), &order, &mut state).unwrap();
        match task.advance(WriteSignal::Begin { has_gate: true }, &mut state) {
            WriteAction::Refuse(error) => assert_eq!(
                error.message(),
                "invalid execution write context: submit request is outside the first-release policy"
            ),
            other => panic!("Expected a refusal, was {other:?}"),
        }
    }
    let nil = SubmitOrder { command_id: UUID4::default(), ..submit(None) };
    let mut task = prepare(&nil, &order(), &mut state).unwrap();
    assert!(matches!(
        task.advance(WriteSignal::Begin { has_gate: true }, &mut state),
        WriteAction::Refuse(ExecutionWriteGateError::InvalidContext(_))
    ));
}

#[test]
fn nothing_is_sent_without_a_gate_a_permit_and_an_arm() {
    let mut state = WsDispatchState::new();
    let mut task = prepare(&submit(None), &order(), &mut state).unwrap();
    assert!(matches!(
        task.advance(WriteSignal::Armed(Ok(())), &mut state),
        WriteAction::Ignore
    ));
    assert!(matches!(
        task.advance(WriteSignal::Begin { has_gate: false }, &mut state),
        WriteAction::Refuse(ExecutionWriteGateError::MissingGate)
    ));
    assert!(matches!(
        task.advance(WriteSignal::Begin { has_gate: true }, &mut state),
        WriteAction::Ignore
    ));

    let mut task = prepare(&submit(None), &order(), &mut state).unwrap();
    task.advance(WriteSignal::Begin { has_gate: true }, &mut state);
    let denied = ExecutionWriteGateError::Denied("no".to_string());
    match task.advance(WriteSignal::Permit(Err(denied.clone())), &mut state) {
        WriteAction::Refuse(error) => assert_eq!(error, denied),
        other => panic!("Expected a refusal, was {other:?}"),
    }

    let mut task = prepare(&submit(None), &order(), &mut state).unwrap();
    task.advance(WriteSignal::Begin { has_gate: true }, &mut state);
    task.advance(WriteSignal::Permit(Ok(())), &mut state);
    let rejected = ExecutionWriteGateError::ArmRejected("changed".to_string());
    match task.advance(WriteSignal::Armed(Err(rejected.clone())), &mut state) {
        WriteAction::Refuse(error) => assert_eq!(error, rejected),
        other => panic!("Expected a refusal, was {other:?}"),
    }
}

#[test]
fn an_accepted_submission_is_announced() {
    let mut state = WsDispatchState::new();
    let mut task = prepare(&submit(None), &order(), &mut state).unwrap();
    arm(&mut task, &mut state);
    let answer = WriteAnswer::Accepted(VenueOrderId::new("99"));
    assert!(matches!(
        task.advance(WriteSignal::Answer(answer), &mut state),
        WriteAction::Record(TransportOutcomeClass::AcceptedNonterminal)
    ));
    assert!(!state.has_emitted_accepted(&ClientOrderId::new("O-1")));
    match task.advance(WriteSignal::Recorded { ts_now: UnixNanos(9) }, &mut state) {
        WriteAction::Report { event: Some(event), error: None } => {
            assert_eq!(
                event.kind,
                OrderEventKind::Accepted { venue_order_id: VenueOrderId::new("99") }
            );
            assert_eq!(event.ts_event, UnixNanos(1));
            assert_eq!(event.ts_init, UnixNanos(1));
        }
        other => panic!("Expected an acceptance, was {other:?}"),
    }
    assert!(state.has_emitted_accepted(&ClientOrderId::new("O-1")));
    assert!(matches!(
        task.advance(WriteSignal::Recorded { ts_now: UnixNanos(9) }, &mut state),
        WriteAction::Ignore
    ));
}

#[test]
fn failed_submissions_are_classified() {
    for (error, outcome, due_post_only) in [
        (venue_error(-2010, "Insufficient balance."), TransportOutcomeClass::RejectedDefinitive, false),
        (
            venue_error(-2010, "Order would immediately match and take."),
            TransportOutcomeClass::RejectedDefinitive,
            true,
        ),
        (venue_error(-5022, "GTX"), TransportOutcomeClass::RejectedDefinitive, true),
        (
            CommandError::Http(BinanceSpotHttpError::MissingCredentials),
            TransportOutcomeClass::RejectedDefinitive,
            false,
        ),
        (
            CommandError::Http(BinanceSpotHttpError::ValidationError("bad".to_string())),
            TransportOutcomeClass::RejectedDefinitive,
            false,
        ),
        (venue_error(-1006, "bus"), TransportOutcomeClass::OutcomeUnknown, false),
        (venue_error(-1007, "timeout"), TransportOutcomeClass::OutcomeUnknown, false),
        (
            CommandError::Http(BinanceSpotHttpError::NetworkError("reset".to_string())),
            TransportOutcomeClass::OutcomeUnknown,
            false,
        ),
        (CommandError::Other("odd".to_string()), TransportOutcomeClass::OutcomeUnknown, false),
    ] {
        let mut state = WsDispatchState::new();
        let mut task = prepare(&submit(None), &order(), &mut state).unwrap();
        arm(&mut task, &mut state);
        match task.advance(WriteSignal::Answer(failed(error.clone())), &mut state) {
            WriteAction::Record(recorded) => assert_eq!(recorded, outcome),
            other => panic!("Expected an outcome, was {other:?}"),
        }
        let id = ClientOrderId::new("O-1");
        match task.advance(WriteSignal::Recorded { ts_now: UnixNanos(9) }, &mut state) {
            WriteAction::Report { event, error: Some(told) } => {
                assert_eq!(told, error);
                if outcome == TransportOutcomeClass::RejectedDefinitive {
                    let event = event.unwrap();
                    assert_eq!(
                        event.kind,
                        OrderEventKind::Rejected {
                            reason: "submit-order-error: why".to_string(),
                            due_post_only,
                        }
                    );
                    assert_eq!(event.ts_event, UnixNanos(1));
                    assert_eq!(event.ts_init, UnixNanos(9));
                    assert!(state.identity(&id).is_none());
                } else {
                    assert_eq!(event, None);
                    assert!(state.identity(&id).is_some());
                }
            }
            other => panic!("Expected a failure, was {other:?}"),
        }
    }
}

fn prepare_cancel() -> WriteTask {
    cancel_order_internal(&scope(), &cancel()).unwrap()
}

#[test]
fn a_prepared_cancel_is_admitted() {
    let task = prepare_cancel();
    assert_eq!(task.payload().validate_first_release(task.context()), Ok(()));
    assert!(matches!(
        task.payload().elements[0],
        ExecutionWriteElementViewV1::Cancel { venue_order_id: None, .. }
    ));
    let mut named = cancel();
    named.venue_order_id = Some(VenueOrderId::new("99"));
    let refused = cancel_order_internal(&scope(), &named).unwrap_err();
    assert_eq!(
        refused.message(),
        "first-release Binance Spot cancel requires exact ClientOrderId only"
    );
}

#[test]
fn cancels_are_reported_as_they_came_out() {
    let canceled = OrderEventKind::Canceled { venue_order_id: Some(VenueOrderId::new("99")) };
    let rejected = || OrderEventKind::CancelRejected {
        reason: "cancel-order-error: why".to_string(),
        venue_order_id: None,
    };
    for (answer, outcome, kind) in [
        (
            WriteAnswer::Accepted(VenueOrderId::new("99")),
            TransportOutcomeClass::AcceptedNonterminal,
            Some(canceled),
        ),
        (
            failed(venue_error(-2011, "Unknown order sent.")),
            TransportOutcomeClass::RejectedDefinitive,
            Some(rejected()),
        ),
        (
            failed(venue_error(-1006, "An unexpected response was received.")),
            TransportOutcomeClass::OutcomeUnknown,
            Some(rejected()),
        ),
        (
            failed(venue_error(-1007, "Timeout waiting for response.")),
            TransportOutcomeClass::OutcomeUnknown,
            Some(rejected()),
        ),
        (
            failed(CommandError::Http(BinanceSpotHttpError::ValidationError("bad".to_string()))),
            TransportOutcomeClass::RejectedDefinitive,
            None,
        ),
        (
            failed(CommandError::Http(BinanceSpotHttpError::MissingCredentials)),
            TransportOutcomeClass::RejectedDefinitive,
            None,
        ),
        (
            failed(CommandError::Other("lost".to_string())),
            TransportOutcomeClass::OutcomeUnknown,
            None,
        ),
        (
            failed(CommandError::Http(BinanceSpotHttpError::NetworkError("lost".to_string()))),
            TransportOutcomeClass::OutcomeUnknown,
            None,
        ),
    ] {
        let mut state = WsDispatchState::new();
        prepare(&submit(None), &order(), &mut state).unwrap();
        let gone = outcome == TransportOutcomeClass::AcceptedNonterminal;
        let mut task = prepare_cancel();
        arm(&mut task, &mut state);
        match task.advance(WriteSignal::Answer(answer), &mut state) {
            WriteAction::Record(recorded) => assert_eq!(recorded, outcome),
            other => panic!("Expected an outcome, was {other:?}"),
        }
        match task.advance(WriteSignal::Recorded { ts_now: UnixNanos(9) }, &mut state) {
            WriteAction::Report { event, error } => {
                assert_eq!(error.is_none(), gone);
                match (event, kind) {
                    (Some(event), Some(kind)) => {
                        assert_eq!(event.kind, kind);
                        assert_eq!(event.ts_event, UnixNanos(9));
                    }
                    (None, None) => {}
                    other => panic!("Unexpected event {other:?}"),
                }
            }
            other => panic!("Expected a report, was {other:?}"),
        }
        assert_eq!(state.identity(&ClientOrderId::new("O-1")).is_none(), gone);
    }
}

#[test]
fn order_writes_go_over_http_whatever_the_transport_flag() {
    for use_ws_order_transport in [false, true] {
        let config = BinanceExecClientConfig {
            use_ws_trading: true,
            require_ws_trading: true,
            use_ws_order_transport,
            treat_expired_as_canceled: false,
        };
        let mut client = BinanceSpotExecutionClient::new_with_write_gate(scope(), config);
        let mut placed = match client.submit_order(&submit(None), Ok(&order()), UnixNanos(1)) {
            Submission::Submitted(Ok(task)) => task,
            other => panic!("Expected a write, was {other:?}"),
        };
        let mut canceled = client.cancel_order(&cancel()).unwrap();
        for (task, method) in [
            (&mut placed, ExecutionHttpMethod::Post),
            (&mut canceled, ExecutionHttpMethod::Delete),
        ] {
            assert_eq!(
                task.payload().transport,
                ExecutionTransportTargetViewV1::Http {
                    method,
                    path: ExecutionEndpointPath::SpotOrder,
                    recv_window_ms: 5_000,
                }
            );
            let signal = client.begin_write();
            assert!(matches!(
                task.advance(signal, client.dispatch_state()),
                WriteAction::Acquire
            ));
        }
    }
}

#[test]
fn a_client_without_a_gate_refuses_its_writes() {
    let config = BinanceExecClientConfig {
        use_ws_trading: true,
        require_ws_trading: false,
        use_ws_order_transport: true,
        treat_expired_as_canceled: false,
    };
    let mut client = BinanceSpotExecutionClient::new(scope(), config);
    let mut task = client.cancel_order(&cancel()).unwrap();
    let signal = client.begin_write();
    assert!(matches!(signal, WriteSignal::Begin { has_gate: false }));
    assert!(!matches!(
        task.advance(signal, client.dispatch_state()),
        WriteAction::Acquire
    ));
}

#[test]
fn an_order_that_is_not_found_is_refused() {
    let mut state = WsDispatchState::new();
    let lost = || Err("order O-1 not in cache".to_string());
    match submit_order(&scope(), &submit(None), lost(), &mut state, UnixNanos(1)) {
        Submission::Refused(refusal) => {
            assert_eq!(refusal, CommandRefusal::OrderLookup("order O-1 not in cache".to_string()));
            assert_eq!(refusal.message(), "order O-1 not in cache");
        }
        other => panic!("Expected a refusal, was {other:?}"),
    }
    assert!(matches!(
        submit_order_internal(&scope(), &submit(None), lost(), &mut state, UnixNanos(1)),
        Err(CommandRefusal::OrderLookup(_))
    ));
    assert!(state.identity(&ClientOrderId::new("O-1")).is_none());
}

#[test]
fn closed_and_refused_orders_are_not_announced() {
    let mut state = WsDispatchState::new();
    let mut closed = order();
    closed.is_closed = true;
    assert!(matches!(
        submit_order(&scope(), &submit(None), Ok(&closed), &mut state, UnixNanos(1)),
        Submission::Closed
    ));
    let mut conditional = order();
    conditional.order_type = OrderType::StopMarket;
    assert!(matches!(
        submit_order(&scope(), &submit(None), Ok(&conditional), &mut state, UnixNanos(1)),
        Submission::Refused(CommandRefusal::ConditionalOrderType(OrderType::StopMarket))
    ));
    assert!(matches!(
        submit_order(&scope(), &submit(None), Ok(&order()), &mut state, UnixNanos(1)),
        Submission::Submitted(Ok(_))
    ));
    let mut unpriced = order();
    unpriced.price = None;
    assert!(matches!(
        submit_order(&scope(), &submit(None), Ok(&unpriced), &mut state, UnixNanos(1)),
        Submission::Submitted(Err(CommandRefusal::LimitWithoutPrice))
    ));
}

#[test]
fn deny_only_commands_are_denied() {
    let config = BinanceExecClientConfig {
        use_ws_trading: false,
        require_ws_trading: false,
        use_ws_order_transport: false,
        treat_expired_as_canceled: false,
    };
    let client = BinanceSpotExecutionClient::new(scope(), config);
    for (result, kind) in [
        (client.submit_order_list(), ExecutionWriteKind::SubmitList),
        (client.modify_order(), ExecutionWriteKind::Modify),
        (client.batch_modify_orders(), ExecutionWriteKind::BatchModify),
        (client.cancel_all_orders(), ExecutionWriteKind::CancelAll),
        (client.batch_cancel_orders(), ExecutionWriteKind::BatchCancel),
    ] {
        assert_eq!(result, Err(ExecutionWriteGateError::Unsupported(kind)));
    }
    assert!(client.generate_position_status_reports::<()>().is_empty());
    assert!(!client.has_write_gate());
}

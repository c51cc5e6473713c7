use spot_execution::binance_truth::PrivateStreamState;
use spot_execution::client::{BinanceExecClientConfig, BinanceSpotExecutionClient};
use spot_execution::commands::{ClientScope, SubmitOrder, Submission};
use spot_execution::connect::{ConnectAction, ConnectSignal, ConnectTask, SetupResponse};
use spot_execution::dispatch::{BinanceSpotWsTradingMessage, ResolvedReport};
use spot_execution::enums::{
    BinanceSpotExecutionType, BinanceTimeInForce, LiquiditySide, OrderSide, OrderType, TimeInForce,
};
use spot_execution::events::OrderEventKind;
use spot_execution::identifiers::{
    AccountId, ClientId, ClientOrderId, InstrumentId, StrategyId, TraderId, UnixNanos, UUID4,
};
use spot_execution::orders::Order;
use spot_execution::reports::{BinanceSpotExecutionReport, DispatchAction};
use spot_execution::types::{Price, Quantity};

fn client(use_ws_trading: bool, require_ws_trading: bool) -> BinanceSpotExecutionClient {
    BinanceSpotExecutionClient::new_with_write_gate(
        ClientScope {
            client_id: ClientId::new("BINANCE-SPOT"),
            trader_id: TraderId::new("TESTER-001"),
            account_id: AccountId::new("BINANCE-001"),
        },
        BinanceExecClientConfig {
            use_ws_trading,
            require_ws_trading,
            use_ws_order_transport: true,
            treat_expired_as_canceled: false,
        },
    )
}

fn finished(action: ConnectAction) -> Result<(), String> {
    match action {
        ConnectAction::Finish(result) => result,
        other => panic!("Expected the end, was {other:?}"),
    }
}

fn register(task: &mut ConnectTask, client: &mut BinanceSpotExecutionClient) -> ConnectAction {
    assert!(matches!(
        task.advance(ConnectSignal::Begin, client),
        ConnectAction::RequestInstruments
    ));
    assert!(matches!(
        task.advance(ConnectSignal::Instruments { received: true, any: true }, client),
        ConnectAction::RequestAccount { keep_instruments: true }
    ));
    assert!(matches!(
        task.advance(ConnectSignal::Account { received: true }, client),
        ConnectAction::AwaitRegistration
    ));
    task.advance(ConnectSignal::Registered(Ok(())), client)
}

fn authenticate(task: &mut ConnectTask, client: &mut BinanceSpotExecutionClient) {
    assert!(matches!(register(task, client), ConnectAction::Open));
    assert!(matches!(
        task.advance(ConnectSignal::Opened(Ok(())), client),
        ConnectAction::LogOn
    ));
    assert!(matches!(
        task.advance(ConnectSignal::LoggedOn(Ok(())), client),
        ConnectAction::AwaitAuthentication
    ));
    assert!(matches!(
        task.advance(ConnectSignal::Setup(SetupResponse::Success), client),
        ConnectAction::Subscribe
    ));
}

#[test]
fn a_client_without_a_socket_connects_over_http() {
    let mut client = client(false, false);
    let mut task = ConnectTask::new();
    assert_eq!(finished(register(&mut task, &mut client)), Ok(()));
    assert!(client.is_connected());
    let health = client.private_stream_health();
    assert_eq!(health.state, PrivateStreamState::Reconciling);
    assert!(!health.authenticated);
}

#[test]
fn a_socket_is_set_up_step_by_step() {
    let mut client = client(true, true);
    let mut task = ConnectTask::new();
    authenticate(&mut task, &mut client);
    assert!(!client.private_stream_health().authenticated);
    assert!(matches!(
        task.advance(ConnectSignal::Subscribed(Ok(())), &mut client),
        ConnectAction::AwaitSubscription
    ));
    assert!(client.private_stream_health().authenticated);
    let action = task.advance(ConnectSignal::Setup(SetupResponse::Success), &mut client);
    assert_eq!(finished(action), Ok(()));
    assert!(client.is_connected());
    let health = client.private_stream_health();
    assert!(health.subscribed);
    assert_eq!(health.state, PrivateStreamState::Reconciling);
    assert_eq!(task.generation(), health.generation);
    assert!(client.mark_private_stream_reconciled(task.generation(), UnixNanos(3)));
    assert_eq!(client.private_stream_health().state, PrivateStreamState::Ready);
    let mut again = ConnectTask::new();
    assert_eq!(finished(again.advance(ConnectSignal::Begin, &mut client)), Ok(()));
    assert_eq!(client.private_stream_health().state, PrivateStreamState::Ready);
}

#[test]
fn instruments_are_loaded_once() {
    let mut client = client(false, false);
    let mut task = ConnectTask::new();
    task.advance(ConnectSignal::Begin, &mut client);
    assert!(matches!(
        task.advance(ConnectSignal::Instruments { received: true, any: false }, &mut client),
        ConnectAction::RequestAccount { keep_instruments: false }
    ));
    let failed = task.advance(ConnectSignal::Account { received: false }, &mut client);
    assert_eq!(
        finished(failed),
        Err("failed to request Binance account state".to_string())
    );
    let mut again = ConnectTask::new();
    assert!(matches!(
        again.advance(ConnectSignal::Begin, &mut client),
        ConnectAction::RequestAccount { keep_instruments: false }
    ));
    assert_eq!(again.generation(), 2);
    again.advance(ConnectSignal::Account { received: true }, &mut client);
    let lost = again.advance(
        ConnectSignal::Registered(Err("timeout waiting for account".to_string())),
        &mut client,
    );
    assert_eq!(finished(lost), Err("timeout waiting for account".to_string()));
    assert!(!client.is_connected());
}

#[test]
fn missing_instruments_end_the_connection() {
    let mut client = client(true, false);
    let mut task = ConnectTask::new();
    task.advance(ConnectSignal::Begin, &mut client);
    let failed =
        task.advance(ConnectSignal::Instruments { received: false, any: false }, &mut client);
    assert_eq!(
        finished(failed),
        Err("failed to request Binance Spot instruments".to_string())
    );
    assert!(!client.is_connected());
}

#[test]
fn a_required_socket_must_be_configured() {
    let mut client = client(false, true);
    let mut task = ConnectTask::new();
    assert_eq!(
        finished(task.advance(ConnectSignal::Begin, &mut client)),
        Err("require_ws_trading=true requires use_ws_trading=true".to_string())
    );
    let health = client.private_stream_health();
    assert_eq!(health.state, PrivateStreamState::Failed);
    assert_eq!(
        health.detail,
        Some("require_ws_trading=true but use_ws_trading=false".to_string())
    );
}

#[test]
fn every_failure_of_the_socket_falls_back_to_http() {
    for (step, reason) in [
        (0, "Failed to connect WS trading API: lost"),
        (1, "WS session logon failed: lost"),
        (2, "WS session authentication timed out"),
        (3, "WS user data subscribe failed: lost"),
        (4, "WS user data subscription timed out"),
        (5, "lost"),
        (6, "WS setup error channel closed"),
    ] {
        for required in [false, true] {
            let mut client = client(true, required);
            let mut task = ConnectTask::new();
            let lost = || Err("lost".to_string());
            let action = match step {
                0 => {
                    register(&mut task, &mut client);
                    task.advance(ConnectSignal::Opened(lost()), &mut client)
                }
                1 => {
                    register(&mut task, &mut client);
                    task.advance(ConnectSignal::Opened(Ok(())), &mut client);
                    task.advance(ConnectSignal::LoggedOn(lost()), &mut client)
                }
                2 => {
                    register(&mut task, &mut client);
                    task.advance(ConnectSignal::Opened(Ok(())), &mut client);
                    task.advance(ConnectSignal::LoggedOn(Ok(())), &mut client);
                    task.advance(ConnectSignal::Setup(SetupResponse::TimedOut), &mut client)
                }
                3 => {
                    authenticate(&mut task, &mut client);
                    task.advance(ConnectSignal::Subscribed(lost()), &mut client)
                }
                _ => {
                    authenticate(&mut task, &mut client);
                    task.advance(ConnectSignal::Subscribed(Ok(())), &mut client);
                    let response = match step {
                        4 => SetupResponse::TimedOut,
                        5 => SetupResponse::Error("lost".to_string()),
                        _ => SetupResponse::ChannelClosed,
                    };
                    task.advance(ConnectSignal::Setup(response), &mut client)
                }
            };
            assert!(matches!(action, ConnectAction::Close));
            let health = client.private_stream_health();
            assert_eq!(health.state, PrivateStreamState::Failed);
            assert_eq!(health.detail, Some(reason.to_string()));
            let end = finished(task.advance(ConnectSignal::Closed, &mut client));
            if required {
                assert_eq!(
                    end,
                    Err(format!("required Spot private WebSocket failed: {reason}"))
                );
            } else {
                assert_eq!(end, Ok(()));
            }
            assert_eq!(client.is_connected(), !required);
            assert!(!client.mark_private_stream_reconciled(task.generation(), UnixNanos(1)));
        }
    }
}

#[test]
fn signals_out_of_turn_are_ignored() {
    let mut client = client(true, false);
    let mut task = ConnectTask::new();
    assert!(matches!(
        task.advance(ConnectSignal::Opened(Ok(())), &mut client),
        ConnectAction::Ignore
    ));
    assert!(matches!(
        task.advance(ConnectSignal::Begin, &mut client),
        ConnectAction::RequestInstruments
    ));
}

#[test]
fn the_stream_keeps_its_health_up_to_date() {
    let mut client = client(true, false);
    let mut task = ConnectTask::new();
    authenticate(&mut task, &mut client);
    let generation = task.generation();
    let actions = client.on_stream_message(
        generation,
        &BinanceSpotWsTradingMessage::Authenticated,
        UnixNanos(5),
        UnixNanos(6),
    );
    assert_eq!(actions, vec![DispatchAction::NotifyAuthenticated]);
    assert_eq!(client.private_stream_health().last_heartbeat, Some(UnixNanos(5)));
    task.advance(ConnectSignal::Subscribed(Ok(())), &mut client);
    task.advance(ConnectSignal::Setup(SetupResponse::Success), &mut client);
    assert!(client.mark_private_stream_reconciled(generation, UnixNanos(7)));
    client.on_stream_message(
        generation,
        &BinanceSpotWsTradingMessage::Reconnected,
        UnixNanos(8),
        UnixNanos(8),
    );
    let health = client.private_stream_health();
    assert_eq!(health.state, PrivateStreamState::Stale);
    assert_eq!(
        health.detail,
        Some("Spot private WebSocket reconnected; reconciliation required".to_string())
    );
    assert!(!client.mark_private_stream_reconciled(generation, UnixNanos(9)));
    client.on_stream_end(generation);
    let health = client.private_stream_health();
    assert_eq!(health.state, PrivateStreamState::Failed);
    assert_eq!(health.detail, Some("Spot private dispatch loop ended".to_string()));
}

#[test]
fn starting_stopping_and_disconnecting() {
    let mut client = client(false, false);
    assert!(client.start());
    assert!(!client.start());
    let mut task = ConnectTask::new();
    register(&mut task, &mut client);
    assert!(client.is_connected());
    client.disconnected();
    assert!(!client.is_connected());
    let health = client.private_stream_health();
    assert_eq!(health.state, PrivateStreamState::Stale);
    assert_eq!(health.detail, Some("Spot execution client disconnected".to_string()));
    register_again(&mut client);
    assert!(client.stop());
    assert!(!client.is_connected());
    assert!(!client.stop());
}

fn register_again(client: &mut BinanceSpotExecutionClient) {
    let mut task = ConnectTask::new();
    task.advance(ConnectSignal::Begin, client);
    task.advance(ConnectSignal::Account { received: true }, client);
    task.advance(ConnectSignal::Registered(Ok(())), client);
    assert!(client.is_connected());
}

#[test]
fn the_trading_client_is_up_only_when_all_of_it_is() {
    let used = client(true, false);
    assert!(used.ws_trading_active(true, true));
    assert!(!used.ws_trading_active(false, true));
    assert!(!used.ws_trading_active(true, false));
    assert!(!client(false, false).ws_trading_active(true, true));
}

fn order() -> Order {
    Order {
        client_order_id: ClientOrderId::new("O-1"),
        strategy_id: StrategyId::new("S-1"),
        instrument_id: InstrumentId::new("BTCUSDT", "BINANCE"),
        order_side: OrderSide::Buy,
        order_type: OrderType::Limit,
        quantity: Quantity::parse("1", 0).unwrap(),
        time_in_force: TimeInForce::Gtc,
        price: Some(Price::parse("1", 0).unwrap()),
        trigger_price: None,
        is_post_only: false,
        is_quote_quantity: false,
        display_qty: None,
        contingency_type: None,
        linked_order_ids: None,
        is_closed: false,
    }
}

#[test]
fn a_submitted_order_is_known_to_the_client() {
    let mut client = client(true, false);
    let order = order();
    let cmd = SubmitOrder {
        command_id: UUID4::from_random_bits(1),
        client_order_id: ClientOrderId::new("O-1"),
        retry_of: None,
    };
    assert!(matches!(
        client.submit_order(&cmd, Ok(&order), UnixNanos(1)),
        Submission::Submitted(Ok(_))
    ));
    assert!(client.orders().identity(&order.client_order_id).is_some());
}

#[test]
fn a_fill_of_a_submitted_order_reaches_the_client() {
    let mut client = client(true, false);
    client.register_currency("EUR", 2);
    let cmd = SubmitOrder {
        command_id: UUID4::from_random_bits(1),
        client_order_id: ClientOrderId::new("O-1"),
        retry_of: None,
    };
    client.submit_order(&cmd, Ok(&order()), UnixNanos(1));
    let trade = |commission_asset: &str, trade_id: i64| {
        BinanceSpotWsTradingMessage::ExecutionReport(Box::new(ResolvedReport {
            report: BinanceSpotExecutionReport {
                symbol: "BTCUSDT".to_string(),
                client_order_id: "x-1".to_string(),
                order_id: 5,
                trade_id,
                event_time: 7,
                execution_type: BinanceSpotExecutionType::Trade,
                order_type: "LIMIT".to_string(),
                time_in_force: BinanceTimeInForce::Gtc,
                price: "1".to_string(),
                stop_price: "0".to_string(),
                original_qty: "1".to_string(),
                last_filled_qty: "0.1".to_string(),
                last_filled_price: "1".to_string(),
                cumulative_filled_qty: "0.1".to_string(),
                commission: "0.125".to_string(),
                commission_asset: Some(commission_asset.to_string()),
                is_maker: false,
                reject_reason: "NONE".to_string(),
            },
            client_order_id: ClientOrderId::new("O-1"),
            precisions: Some((0, 1)),
            status_parse: Ok(()),
            fill_parse: Ok(()),
        }))
    };
    for (asset, trade_id, precision, raw) in [
        ("EUR", 1, 2, 1_200_000_000_000_000),
        ("BNB", 2, 8, 1_250_000_000_000_000),
    ] {
        let actions =
            client.on_stream_message(1, &trade(asset, trade_id), UnixNanos(8), UnixNanos(9));
        match actions.last() {
            Some(DispatchAction::Event(event)) => match &event.kind {
                OrderEventKind::Filled { currency, commission, liquidity_side, .. } => {
                    assert_eq!(event.ts_event, UnixNanos(7_000_000));
                    assert_eq!(currency.precision, precision);
                    assert_eq!(commission.raw, raw);
                    assert_eq!(*liquidity_side, LiquiditySide::Taker);
                }
                other => panic!("Expected a fill, was {other:?}"),
            },
            other => panic!("Expected a fill, was {other:?}"),
        }
    }
    assert!(client.orders().has_filled(&ClientOrderId::new("O-1")));
}

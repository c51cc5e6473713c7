use spot_execution::decimal::DecimalValue;
use spot_execution::dispatch::{
    dispatch_fill, dispatch_replacement, dispatch_tracked_execution_report,
    dispatch_untracked_execution_report, dispatch_ws_trading_message, read_replacement, read_trade,
    BinanceSpotWsTradingMessage, ResolvedReport,
};
use spot_execution::dispatch_state::{
    FifoCache, OrderIdentity, PendingOperation, PendingRequest, WsDispatchState, SEEN_TRADES,
};
use spot_execution::enums::{
    BinanceSpotExecutionType, BinanceTimeInForce, LiquiditySide, OrderSide, OrderType,
};
use spot_execution::events::{OrderEvent, OrderEventKind};
use spot_execution::identifiers::{
    AccountId, ClientOrderId, InstrumentId, StrategyId, TraderId, UnixNanos, VenueOrderId,
};
use spot_execution::reports::{
    BinanceSpotExecutionReport, DispatchAction, DispatchContext, ReplacementFields, ReportTerms,
    TrackedOrder, TradeFields,
};
use spot_execution::types::{CurrencyRegistry, Price, Quantity};
use spot_execution::venue_error::{
    is_ambiguous_submit_error, is_local_command_failure, is_local_http_command_failure,
    is_spot_post_only_rejection, is_structured_venue_rejection, BinanceSpotHttpError, CommandError,
    BINANCE_GTX_ORDER_REJECT_CODE, BINANCE_NEW_ORDER_REJECTED_CODE, BINANCE_STATUS_UNKNOWN_CODE,
    BINANCE_UNEXPECTED_RESPONSE_CODE,
};

const POST_ONLY_MSG: &str = "Order would immediately match and take.";
const NOW: UnixNanos = UnixNanos(1_709_654_400_000_000_000);

fn context(treat_expired_as_canceled: bool) -> DispatchContext {
    DispatchContext {
        trader_id: TraderId::new("TESTER-001"),
        account_id: AccountId::new("BINANCE-001"),
        treat_expired_as_canceled,
    }
}

fn terms(price_precision: u8, size_precision: u8) -> ReportTerms {
    ReportTerms {
        instrument_id: InstrumentId::new("ETHUSDT", "BINANCE"),
        price_precision,
        size_precision,
        account_id: AccountId::new("BINANCE-001"),
        ts_init: NOW,
    }
}

fn status_report(terms: ReportTerms, treat_expired_as_canceled: bool) -> DispatchAction {
    DispatchAction::OrderStatusReport { terms, treat_expired_as_canceled }
}

fn identity(symbol: &str) -> OrderIdentity {
    OrderIdentity {
        instrument_id: InstrumentId::new(symbol, "BINANCE"),
        strategy_id: StrategyId::new("TEST-STRATEGY"),
        order_side: OrderSide::Buy,
        order_type: OrderType::Limit,
        price: None,
        quantity: Quantity::parse("1", 0).unwrap(),
    }
}

fn tracked_state(id: &str, symbol: &str) -> WsDispatchState {
    let mut state = WsDispatchState::new();
    state.register_order(&ClientOrderId::new(id), identity(symbol));
    state
}

fn report(execution_type: BinanceSpotExecutionType) -> BinanceSpotExecutionReport {
    BinanceSpotExecutionReport {
        symbol: "ETHUSDT".to_string(),
        client_order_id: "x-TD67BGP9-T0000000000000".to_string(),
        order_id: 12_345_678,
        trade_id: 98_765_432,
        event_time: 1_709_654_400_000,
        execution_type,
        order_type: "LIMIT".to_string(),
        time_in_force: BinanceTimeInForce::Gtc,
        price: "2500.00000000".to_string(),
        stop_price: "0.00000000".to_string(),
        original_qty: "1.00000000".to_string(),
        last_filled_qty: "0.50000000".to_string(),
        last_filled_price: "2499.50000000".to_string(),
        cumulative_filled_qty: "0.50000000".to_string(),
        commission: "0.00050000".to_string(),
        commission_asset: Some("BNB".to_string()),
        is_maker: true,
        reject_reason: "NONE".to_string(),
    }
}

const ORDER: &str = "O-20200101-000000-000-000-0";

fn resolved(report: BinanceSpotExecutionReport, id: &str) -> BinanceSpotWsTradingMessage {
    BinanceSpotWsTradingMessage::ExecutionReport(Box::new(ResolvedReport {
        report,
        client_order_id: ClientOrderId::new(id),
        precisions: None,
        status_parse: Ok(()),
        fill_parse: Ok(()),
    }))
}

struct Desk {
    state: WsDispatchState,
    seen: FifoCache,
    currencies: CurrencyRegistry,
    expired_as_canceled: bool,
}

impl Desk {
    fn new(state: WsDispatchState) -> Desk {
        Desk {
            state,
            seen: FifoCache::new(),
            currencies: CurrencyRegistry::new(),
            expired_as_canceled: false,
        }
    }

    fn dispatch(&mut self, msg: BinanceSpotWsTradingMessage) -> Vec<DispatchAction> {
        dispatch_ws_trading_message(
            &msg,
            &context(self.expired_as_canceled),
            &mut self.state,
            &mut self.seen,
            &mut self.currencies,
            NOW,
        )
    }

    fn report(&mut self, report: BinanceSpotExecutionReport) -> Vec<DispatchAction> {
        self.dispatch(resolved(report, ORDER))
    }
}

fn event(action: &DispatchAction) -> &OrderEvent {
    match action {
        DispatchAction::Event(event) => event,
        other => panic!("Expected an event, was {other:?}"),
    }
}

fn fills(actions: &[DispatchAction]) -> Vec<&OrderEvent> {
    let mut found = Vec::new();
    for action in actions {
        if let DispatchAction::Event(event) = action {
            if matches!(event.kind, OrderEventKind::Filled { .. }) {
                found.push(event);
            }
        }
    }
    found
}

fn pending(id: &str, venue: Option<&str>, operation: PendingOperation) -> PendingRequest {
    PendingRequest {
        client_order_id: ClientOrderId::new(id),
        venue_order_id: venue.map(VenueOrderId::new),
        operation,
    }
}

#[test]
fn test_dispatch_ws_trading_message_emits_cancel_rejected_and_clears_pending_request() {
    let mut desk = Desk::new(tracked_state("TEST", "BTCUSDT"));
    desk.state.insert_pending(
        "req-cancel",
        pending("TEST", Some("12345"), PendingOperation::Cancel),
    );
    let actions = desk.dispatch(BinanceSpotWsTradingMessage::CancelRejected {
        request_id: "req-cancel".to_string(),
        code: -2011,
        msg: "Unknown order sent".to_string(),
    });
    assert!(!desk.state.has_pending("req-cancel"));
    assert_eq!(actions.len(), 1);
    let event = event(&actions[0]);
    assert_eq!(event.client_order_id, ClientOrderId::new("TEST"));
    assert_eq!(event.account_id, AccountId::new("BINANCE-001"));
    assert_eq!(
        event.kind,
        OrderEventKind::CancelRejected {
            reason: "code=-2011: Unknown order sent".to_string(),
            venue_order_id: Some(VenueOrderId::new("12345")),
        }
    );
}

#[test]
fn test_dispatch_ws_trading_message_unknown_status_keeps_order_registered() {
    for (code, msg) in [
        (
            BINANCE_UNEXPECTED_RESPONSE_CODE,
            "An unexpected response was received from the message bus",
        ),
        (
            BINANCE_STATUS_UNKNOWN_CODE,
            "Timeout waiting for response from backend server",
        ),
    ] {
        let mut desk = Desk::new(tracked_state("TEST", "BTCUSDT"));
        desk.state
            .insert_pending("req-submit", pending("TEST", None, PendingOperation::Place));
        let actions = desk.dispatch(BinanceSpotWsTradingMessage::OrderRejected {
            request_id: "req-submit".to_string(),
            code: code as i32,
            msg: msg.to_string(),
        });
        assert!(!desk.state.has_pending("req-submit"));
        assert!(desk.state.identity(&ClientOrderId::new("TEST")).is_some());
        assert!(actions.is_empty());
    }
}

#[test]
fn test_dispatch_ws_trading_message_definite_submit_rejection_emits_order_rejected() {
    let mut desk = Desk::new(tracked_state("TEST", "BTCUSDT"));
    desk.state
        .insert_pending("req-submit", pending("TEST", None, PendingOperation::Place));
    let actions = desk.dispatch(BinanceSpotWsTradingMessage::OrderRejected {
        request_id: "req-submit".to_string(),
        code: BINANCE_NEW_ORDER_REJECTED_CODE as i32,
        msg: POST_ONLY_MSG.to_string(),
    });
    assert!(!desk.state.has_pending("req-submit"));
    assert!(desk.state.identity(&ClientOrderId::new("TEST")).is_none());
    assert_eq!(actions.len(), 1);
    let event = event(&actions[0]);
    assert_eq!(event.client_order_id, ClientOrderId::new("TEST"));
    assert_eq!(event.account_id, AccountId::new("BINANCE-001"));
    assert_eq!(event.ts_event, NOW);
    match &event.kind {
        OrderEventKind::Rejected { reason, due_post_only } => {
            assert!(reason.contains("code=-2010"));
            assert!(*due_post_only);
        }
        other => panic!("Expected a rejection, was {other:?}"),
    }
}

#[test]
fn test_dispatch_ws_trading_message_emits_modify_rejected_and_clears_pending_request() {
    let mut desk = Desk::new(tracked_state("TEST", "BTCUSDT"));
    desk.state.insert_pending(
        "req-modify",
        pending("TEST", Some("12345"), PendingOperation::Modify),
    );
    let actions = desk.dispatch(BinanceSpotWsTradingMessage::CancelReplaceRejected {
        request_id: "req-modify".to_string(),
        code: -2021,
        msg: "Order cancel-replace partially failed".to_string(),
    });
    assert!(!desk.state.has_pending("req-modify"));
    assert_eq!(actions.len(), 1);
    let event = event(&actions[0]);
    assert_eq!(event.client_order_id, ClientOrderId::new("TEST"));
    assert_eq!(event.account_id, AccountId::new("BINANCE-001"));
    match &event.kind {
        OrderEventKind::ModifyRejected { reason, .. } => assert!(reason.contains("code=-2021")),
        other => panic!("Expected a rejection, was {other:?}"),
    }
    assert!(desk.state.identity(&ClientOrderId::new("TEST")).is_some());
}

#[test]
fn test_is_spot_post_only_rejection() {
    let venue = |code: i64, message: &str| BinanceSpotHttpError::BinanceError {
        code,
        message: message.to_string(),
    };
    for (error, expected) in [
        (
            venue(BINANCE_GTX_ORDER_REJECT_CODE, "Order would immediately trigger."),
            true,
        ),
        (venue(BINANCE_NEW_ORDER_REJECTED_CODE, POST_ONLY_MSG), true),
        (
            venue(BINANCE_NEW_ORDER_REJECTED_CODE, "Insufficient balance."),
            false,
        ),
        (venue(-2011, "Unknown order sent."), false),
        (
            BinanceSpotHttpError::NetworkError("connection reset".to_string()),
            false,
        ),
    ] {
        assert_eq!(is_spot_post_only_rejection(&error), expected);
    }
}

#[test]
fn test_unknown_status_submit_error_is_ambiguous() {
    for code in [BINANCE_UNEXPECTED_RESPONSE_CODE, BINANCE_STATUS_UNKNOWN_CODE] {
        let err = CommandError::Http(BinanceSpotHttpError::BinanceError {
            code,
            message: "test error".to_string(),
        });
        assert!(is_ambiguous_submit_error(&err));
        assert!(is_structured_venue_rejection(&err));
    }
}

#[test]
fn test_other_structured_submit_error_is_not_ambiguous() {
    let err = CommandError::Http(BinanceSpotHttpError::BinanceError {
        code: BINANCE_GTX_ORDER_REJECT_CODE,
        message: "test error".to_string(),
    });
    assert!(!is_ambiguous_submit_error(&err));
    assert!(is_structured_venue_rejection(&err));
}

#[test]
fn local_failures_are_those_before_the_request_left() {
    for (error, local) in [
        (BinanceSpotHttpError::MissingCredentials, true),
        (BinanceSpotHttpError::ValidationError("bad".to_string()), true),
        (BinanceSpotHttpError::NetworkError("lost".to_string()), false),
        (BinanceSpotHttpError::Other("odd".to_string()), false),
    ] {
        assert_eq!(is_local_http_command_failure(&error), local);
        assert_eq!(is_local_command_failure(&CommandError::Http(error)), local);
    }
    assert!(!is_local_command_failure(&CommandError::Other("odd".to_string())));
    assert!(!is_structured_venue_rejection(&CommandError::Other("odd".to_string())));
}

#[test]
fn test_dispatch_tracked_execution_report_trade_dedup() {
    let mut desk = Desk::new(tracked_state(ORDER, "ETHUSDT"));
    let mut actions = desk.report(report(BinanceSpotExecutionType::Trade));
    let again = desk.report(report(BinanceSpotExecutionType::Trade));
    assert!(again.is_empty());
    actions.extend(again);
    let found = fills(&actions);
    assert_eq!(found.len(), 1);
    assert_eq!(found[0].client_order_id, ClientOrderId::new(ORDER));
    match &found[0].kind {
        OrderEventKind::Filled {
            trade_id,
            liquidity_side,
            last_qty,
            last_px,
            commission,
            currency,
            venue_order_id,
            ..
        } => {
            assert_eq!(trade_id.as_str(), "98765432");
            assert_eq!(*liquidity_side, LiquiditySide::Maker);
            assert_eq!(*last_qty, Quantity::parse("0.5", 8).unwrap());
            assert_eq!(*last_px, Price::parse("2499.5", 8).unwrap());
            assert_eq!(commission.raw, 5 * 10_i128.pow(12));
            assert_eq!(currency.code, "BNB");
            assert_eq!(currency.precision, 8);
            assert_eq!(venue_order_id.as_str(), "12345678");
        }
        other => panic!("Expected a fill, was {other:?}"),
    }
}

#[test]
fn test_dispatch_tracked_execution_report_invalid_fill_qty_skips_filled_event() {
    let mut desk = Desk::new(tracked_state(ORDER, "ETHUSDT"));
    let mut bad = report(BinanceSpotExecutionType::Trade);
    bad.last_filled_qty = "not-a-number".to_string();
    let actions = desk.report(bad);
    assert!(fills(&actions).is_empty());
    assert_eq!(
        actions[1],
        DispatchAction::Warning(
            "Failed to parse Spot execution report last_filled_qty for symbol=ETHUSDT, \
             order_id=12345678, trade_id=98765432, \
             client_order_id=x-TD67BGP9-T0000000000000: not a decimal number"
                .to_string()
        )
    );
    assert!(!desk.state.has_filled(&ClientOrderId::new(ORDER)));
}

#[test]
fn test_dispatch_tracked_execution_report_expired_respects_config() {
    for treat_expired_as_canceled in [false, true] {
        let id = ClientOrderId::new(ORDER);
        let mut state = WsDispatchState::new();
        state.insert_accepted(&id);
        let order = TrackedOrder {
            client_order_id: id.clone(),
            identity: identity("ETHUSDT"),
            instrument_id: InstrumentId::new("ETHUSDT", "BINANCE"),
            price_precision: 2,
            size_precision: 5,
        };
        let actions = dispatch_tracked_execution_report(
            &report(BinanceSpotExecutionType::Expired),
            &context(treat_expired_as_canceled),
            &order,
            &mut state,
            &mut FifoCache::new(),
            &mut CurrencyRegistry::new(),
            NOW,
        );
        assert_eq!(actions.len(), 1);
        let event = event(&actions[0]);
        assert_eq!(event.client_order_id, id);
        let venue_order_id = Some(VenueOrderId::new("12345678"));
        let expected = if treat_expired_as_canceled {
            OrderEventKind::Canceled { venue_order_id }
        } else {
            OrderEventKind::Expired { venue_order_id }
        };
        assert_eq!(event.kind, expected);
        assert!(!state.has_emitted_accepted(&id));
    }
}

#[test]
fn test_dispatch_tracked_execution_report_rejected_gtx_sets_post_only() {
    let id = "O-20200101-000000-000-000-1";
    let mut desk = Desk::new(tracked_state(id, "ETHUSDT"));
    let mut rejected = report(BinanceSpotExecutionType::Rejected);
    rejected.time_in_force = BinanceTimeInForce::Gtx;
    rejected.trade_id = -1;
    let actions = desk.dispatch(resolved(rejected, id));
    let event = event(&actions[0]);
    assert_eq!(event.client_order_id, ClientOrderId::new(id));
    assert_eq!(event.account_id, AccountId::new("BINANCE-001"));
    assert_eq!(
        event.kind,
        OrderEventKind::Rejected { reason: "NONE".to_string(), due_post_only: true }
    );
}

#[test]
fn rejection_reason_and_post_only_follow_the_report() {
    for (order_type, reason, told, due_post_only) in [
        ("LIMIT_MAKER", "", "Order rejected by venue", true),
        ("LIMIT_MAKER", "NONE", "NONE", true),
        ("LIMIT_MAKER", "INSUFFICIENT_BALANCE", "INSUFFICIENT_BALANCE", false),
        ("LIMIT", "", "Order rejected by venue", false),
    ] {
        let mut desk = Desk::new(tracked_state(ORDER, "ETHUSDT"));
        let mut rejected = report(BinanceSpotExecutionType::Rejected);
        rejected.order_type = order_type.to_string();
        rejected.reject_reason = reason.to_string();
        let actions = desk.report(rejected);
        assert_eq!(actions.len(), 1);
        assert_eq!(
            event(&actions[0]).kind,
            OrderEventKind::Rejected { reason: told.to_string(), due_post_only }
        );
        assert!(desk.state.identity(&ClientOrderId::new(ORDER)).is_none());
    }
}

#[test]
fn a_new_order_is_announced_once_and_then_updated() {
    let mut desk = Desk::new(tracked_state(ORDER, "ETHUSDT"));
    let first = desk.report(report(BinanceSpotExecutionType::New));
    assert_eq!(first.len(), 1);
    assert_eq!(
        event(&first[0]).kind,
        OrderEventKind::Accepted { venue_order_id: VenueOrderId::new("12345678") }
    );
    assert_eq!(event(&first[0]).ts_event, UnixNanos(1_709_654_400_000_000_000));
    let second = desk.report(report(BinanceSpotExecutionType::New));
    assert_eq!(
        event(&second[0]).kind,
        OrderEventKind::Updated {
            venue_order_id: Some(VenueOrderId::new("12345678")),
            quantity: Quantity::parse("1", 8).unwrap(),
            price: Some(Price::parse("2500", 8).unwrap()),
            trigger_price: None,
        }
    );
    let mut stopped = report(BinanceSpotExecutionType::New);
    stopped.stop_price = "2400.5".to_string();
    let third = desk.report(stopped);
    match &event(&third[0]).kind {
        OrderEventKind::Updated { trigger_price, .. } => {
            assert_eq!(*trigger_price, Some(Price::parse("2400.5", 8).unwrap()));
        }
        other => panic!("Expected an update, was {other:?}"),
    }
    for field in ["price", "original_qty", "stop_price"] {
        let mut bad = report(BinanceSpotExecutionType::New);
        match field {
            "price" => bad.price = "x".to_string(),
            "original_qty" => bad.original_qty = "x".to_string(),
            _ => bad.stop_price = "x".to_string(),
        }
        let actions = desk.report(bad);
        assert_eq!(actions.len(), 1);
        match &actions[0] {
            DispatchAction::Warning(text) => {
                assert!(text.starts_with(&format!(
                    "Failed to parse Spot execution report {field} for symbol=ETHUSDT"
                )));
            }
            other => panic!("Expected a warning, was {other:?}"),
        }
    }
}

#[test]
fn a_filled_order_is_not_announced_again() {
    let mut desk = Desk::new(tracked_state(ORDER, "ETHUSDT"));
    let filled = desk.report(report(BinanceSpotExecutionType::Trade));
    assert_eq!(filled.len(), 2);
    assert!(matches!(event(&filled[0]).kind, OrderEventKind::Accepted { .. }));
    assert!(desk.report(report(BinanceSpotExecutionType::New)).is_empty());
    assert!(desk.report(report(BinanceSpotExecutionType::Replaced)).is_empty());
}

#[test]
fn a_completely_filled_order_is_forgotten() {
    let mut desk = Desk::new(tracked_state(ORDER, "ETHUSDT"));
    let mut last = report(BinanceSpotExecutionType::Trade);
    last.cumulative_filled_qty = "1".to_string();
    assert_eq!(desk.report(last).len(), 2);
    let id = ClientOrderId::new(ORDER);
    assert!(desk.state.identity(&id).is_none());
    assert!(!desk.state.has_emitted_accepted(&id));
    assert!(desk.state.has_filled(&id));
    let mut later = report(BinanceSpotExecutionType::Trade);
    later.trade_id = 7;
    assert_eq!(
        desk.report(later),
        vec![status_report(terms(8, 8), false), DispatchAction::FillReport { terms: terms(8, 8) }]
    );
}

#[test]
fn unreadable_totals_are_logged_and_keep_the_order() {
    let mut desk = Desk::new(tracked_state(ORDER, "ETHUSDT"));
    let mut odd = report(BinanceSpotExecutionType::Trade);
    odd.cumulative_filled_qty = "?".to_string();
    odd.original_qty = "?".to_string();
    let actions = desk.report(odd);
    assert_eq!(actions.len(), 4);
    assert_eq!(fills(&actions).len(), 1);
    assert!(matches!(actions[2], DispatchAction::Warning(_)));
    assert!(matches!(actions[3], DispatchAction::Warning(_)));
    assert!(desk.state.identity(&ClientOrderId::new(ORDER)).is_some());
}

#[test]
fn a_commission_without_an_asset_is_paid_in_usdt() {
    let mut desk = Desk::new(tracked_state(ORDER, "ETHUSDT"));
    let mut trade = report(BinanceSpotExecutionType::Trade);
    trade.commission_asset = None;
    let actions = desk.report(trade);
    match &fills(&actions)[0].kind {
        OrderEventKind::Filled { currency, commission, .. } => {
            assert_eq!(currency.code, "USDT");
            assert_eq!(commission.currency.code, "USDT");
            assert_eq!(commission.currency.precision, 8);
        }
        other => panic!("Expected a fill, was {other:?}"),
    }
}

#[test]
fn a_commission_out_of_range_is_logged() {
    let mut desk = Desk::new(tracked_state(ORDER, "ETHUSDT"));
    let mut trade = report(BinanceSpotExecutionType::Trade);
    trade.commission = "20000000000000000".to_string();
    let actions = desk.report(trade);
    assert!(fills(&actions).is_empty());
    assert_eq!(
        actions[1],
        DispatchAction::Warning(
            "Failed to build Spot commission money for symbol=ETHUSDT, order_id=12345678, \
             trade_id=98765432: value out of range"
                .to_string()
        )
    );
}

#[test]
fn a_canceled_order_is_announced_first() {
    for execution_type in [
        BinanceSpotExecutionType::Canceled,
        BinanceSpotExecutionType::TradePrevention,
    ] {
        let mut desk = Desk::new(tracked_state(ORDER, "ETHUSDT"));
        let actions = desk.report(report(execution_type));
        assert_eq!(actions.len(), 2);
        assert!(matches!(event(&actions[0]).kind, OrderEventKind::Accepted { .. }));
        assert_eq!(event(&actions[0]).ts_event, NOW);
        assert!(matches!(event(&actions[1]).kind, OrderEventKind::Canceled { .. }));
        assert!(desk.state.identity(&ClientOrderId::new(ORDER)).is_none());
    }
}

#[test]
fn untracked_reports_are_left_to_reconciliation() {
    let mut desk = Desk::new(WsDispatchState::new());
    for execution_type in [
        BinanceSpotExecutionType::New,
        BinanceSpotExecutionType::Canceled,
        BinanceSpotExecutionType::Replaced,
        BinanceSpotExecutionType::Rejected,
        BinanceSpotExecutionType::Expired,
        BinanceSpotExecutionType::TradePrevention,
    ] {
        assert_eq!(
            desk.report(report(execution_type)),
            vec![status_report(terms(8, 8), false)]
        );
    }
    let mut seen = FifoCache::new();
    let trade = report(BinanceSpotExecutionType::Trade);
    assert_eq!(
        dispatch_untracked_execution_report(
            &trade,
            terms(2, 5),
            true,
            &Ok(()),
            &Ok(()),
            &mut seen
        ),
        vec![status_report(terms(2, 5), true), DispatchAction::FillReport { terms: terms(2, 5) }]
    );
    assert!(dispatch_untracked_execution_report(
            &trade,
            terms(2, 5),
            true,
            &Ok(()),
            &Ok(()),
            &mut seen
        ).is_empty());
}

#[test]
fn an_unreadable_report_does_not_stop_the_other() {
    let unreadable = || Err("bad side".to_string());
    let no_status =
        || DispatchAction::Error("Failed to parse order status report: bad side".to_string());
    let no_fill = || DispatchAction::Error("Failed to parse fill report: bad side".to_string());
    let status = || status_report(terms(8, 8), false);
    let fill = || DispatchAction::FillReport { terms: terms(8, 8) };
    for (status_parse, fill_parse, expected) in [
        (unreadable(), Ok(()), vec![no_status(), fill()]),
        (Ok(()), unreadable(), vec![status(), no_fill()]),
        (unreadable(), unreadable(), vec![no_status(), no_fill()]),
    ] {
        let mut desk = Desk::new(WsDispatchState::new());
        let trade = ResolvedReport {
            report: report(BinanceSpotExecutionType::Trade),
            client_order_id: ClientOrderId::new(ORDER),
            precisions: None,
            status_parse,
            fill_parse,
        };
        assert_eq!(
            desk.dispatch(BinanceSpotWsTradingMessage::ExecutionReport(Box::new(trade))),
            expected
        );
        assert!(desk.report(report(BinanceSpotExecutionType::Trade)).is_empty());
    }
}

#[test]
fn a_trade_stays_known_until_it_has_to_give_way() {
    let mut desk = Desk::new(WsDispatchState::new());
    assert_eq!(desk.report(report(BinanceSpotExecutionType::Trade)).len(), 2);
    let mut newer = report(BinanceSpotExecutionType::Trade);
    for trade_id in 0..SEEN_TRADES - 1 {
        newer.trade_id = i64::try_from(trade_id).unwrap();
        assert_eq!(desk.report(newer.clone()).len(), 2);
    }
    assert!(desk.report(report(BinanceSpotExecutionType::Trade)).is_empty());
    newer.trade_id = -1;
    assert_eq!(desk.report(newer).len(), 2);
    assert_eq!(desk.report(report(BinanceSpotExecutionType::Trade)).len(), 2);
}

#[test]
fn untracked_reports_are_made_on_the_terms_of_the_client() {
    let mut desk = Desk::new(WsDispatchState::new());
    desk.expired_as_canceled = true;
    let known = ResolvedReport {
        report: report(BinanceSpotExecutionType::Expired),
        client_order_id: ClientOrderId::new(ORDER),
        precisions: Some((2, 5)),
        status_parse: Ok(()),
        fill_parse: Ok(()),
    };
    assert_eq!(known.report_terms(&context(true), NOW), terms(2, 5));
    assert_eq!(
        desk.dispatch(BinanceSpotWsTradingMessage::ExecutionReport(Box::new(known))),
        vec![status_report(terms(2, 5), true)]
    );
}

#[test]
fn known_precisions_shape_the_numbers() {
    let mut desk = Desk::new(tracked_state(ORDER, "ETHUSDT"));
    let actions = desk.dispatch(BinanceSpotWsTradingMessage::ExecutionReport(Box::new(
        ResolvedReport {
            report: report(BinanceSpotExecutionType::Trade),
            client_order_id: ClientOrderId::new(ORDER),
            precisions: Some((2, 5)),
            status_parse: Ok(()),
            fill_parse: Ok(()),
        },
    )));
    match &fills(&actions)[0].kind {
        OrderEventKind::Filled { last_qty, last_px, .. } => {
            assert_eq!(last_px.precision, 2);
            assert_eq!(last_qty.precision, 5);
            assert_eq!(last_px.render(), "2499.50");
            assert_eq!(last_qty.render(), "0.50000");
        }
        other => panic!("Expected a fill, was {other:?}"),
    }
}

#[test]
fn answers_clear_their_request_only() {
    let id = || "a".to_string();
    let messages = vec![
        BinanceSpotWsTradingMessage::OrderAccepted { request_id: id() },
        BinanceSpotWsTradingMessage::OrderCanceled { request_id: id() },
        BinanceSpotWsTradingMessage::CancelReplaceAccepted { request_id: id() },
        BinanceSpotWsTradingMessage::RequestFailed { request_id: id(), msg: "lost".to_string() },
        BinanceSpotWsTradingMessage::AllOrdersCanceled { request_id: id() },
    ];
    for message in messages {
        let mut desk = Desk::new(tracked_state("TEST", "BTCUSDT"));
        desk.state.insert_pending("a", pending("TEST", None, PendingOperation::Place));
        desk.state.insert_pending("b", pending("TEST", None, PendingOperation::Place));
        assert!(desk.dispatch(message).is_empty());
        assert!(!desk.state.has_pending("a"));
        assert!(desk.state.has_pending("b"));
        assert!(desk.state.identity(&ClientOrderId::new("TEST")).is_some());
    }
}

#[test]
fn rejections_without_a_known_request_report_nothing() {
    let mut desk = Desk::new(tracked_state("TEST", "BTCUSDT"));
    let rejected = |request_id: &str| BinanceSpotWsTradingMessage::OrderRejected {
        request_id: request_id.to_string(),
        code: -2010,
        msg: "no".to_string(),
    };
    assert!(desk.dispatch(rejected("unknown")).is_empty());
    desk.state
        .insert_pending("other", pending("OTHER", None, PendingOperation::Place));
    assert!(desk.dispatch(rejected("other")).is_empty());
    assert!(!desk.state.has_pending("other"));
}

#[test]
fn stream_messages_lead_to_their_action() {
    let mut desk = Desk::new(WsDispatchState::new());
    for (message, expected) in [
        (
            BinanceSpotWsTradingMessage::UserDataSubscribed,
            vec![DispatchAction::NotifySubscribed],
        ),
        (
            BinanceSpotWsTradingMessage::Authenticated,
            vec![DispatchAction::NotifyAuthenticated],
        ),
        (
            BinanceSpotWsTradingMessage::AccountPosition,
            vec![DispatchAction::AccountPosition],
        ),
        (
            BinanceSpotWsTradingMessage::BalanceUpdate,
            vec![DispatchAction::RefreshAccount],
        ),
        (
            BinanceSpotWsTradingMessage::Error("bad".to_string()),
            vec![DispatchAction::SetupError("bad".to_string())],
        ),
        (BinanceSpotWsTradingMessage::Connected, vec![]),
        (BinanceSpotWsTradingMessage::Reconnected, vec![]),
        (BinanceSpotWsTradingMessage::ServerShutdown { event_time: 1 }, vec![]),
    ] {
        assert_eq!(desk.dispatch(message), expected);
    }
}

#[test]
fn the_oldest_trade_gives_way() {
    let mut seen = FifoCache::new();
    let symbol = "ETHUSDT".to_string();
    let last = SEEN_TRADES as i64;
    for trade_id in 0..last {
        seen.add(&symbol, trade_id);
    }
    assert!(seen.contains(&symbol, 0));
    seen.add(&symbol, 0);
    assert!(seen.contains(&symbol, 1));
    seen.add(&symbol, last);
    assert!(!seen.contains(&symbol, 0));
    assert!(seen.contains(&symbol, 1));
    assert!(seen.contains(&symbol, last));
    assert!(!seen.contains(&"BTCUSDT".to_string(), 1));
}

#[test]
fn a_fill_follows_from_the_fields_that_were_read() {
    let order = TrackedOrder {
        client_order_id: ClientOrderId::new(ORDER),
        identity: identity("ETHUSDT"),
        instrument_id: InstrumentId::new("ETHUSDT", "BINANCE"),
        price_precision: 2,
        size_precision: 5,
    };
    let trade = report(BinanceSpotExecutionType::Trade);
    let fields = |commission: Result<DecimalValue, DispatchAction>| TradeFields {
        last_qty: Ok(Quantity { raw: 5_000_000_000_000_000, precision: 5 }),
        last_px: Ok(Price { raw: 24_995_000_000_000_000_000, precision: 2 }),
        commission,
        cumulative_qty: Ok(DecimalValue { mantissa: 100, scale: 2 }),
        original_qty: Ok(DecimalValue { mantissa: 1, scale: 0 }),
    };
    let mut state = tracked_state(ORDER, "ETHUSDT");
    let actions = dispatch_fill(
        &trade,
        fields(Ok(DecimalValue { mantissa: 5, scale: 4 })),
        &context(false),
        &order,
        &mut state,
        &mut CurrencyRegistry::new(),
        NOW,
    );
    assert_eq!(actions.len(), 2);
    match &fills(&actions)[0].kind {
        OrderEventKind::Filled { last_qty, commission, .. } => {
            assert_eq!(last_qty.raw, 5_000_000_000_000_000);
            assert_eq!(commission.raw, 5_000_000_000_000);
        }
        other => panic!("Expected a fill, was {other:?}"),
    }
    assert!(state.identity(&ClientOrderId::new(ORDER)).is_none());

    let mut state = tracked_state(ORDER, "ETHUSDT");
    let warning = DispatchAction::Warning("unreadable".to_string());
    let actions = dispatch_fill(
        &trade,
        fields(Err(DispatchAction::Warning("unreadable".to_string()))),
        &context(false),
        &order,
        &mut state,
        &mut CurrencyRegistry::new(),
        NOW,
    );
    assert_eq!(actions.len(), 2);
    assert_eq!(actions[1], warning);
    assert!(state.identity(&ClientOrderId::new(ORDER)).is_some());

    let read = read_trade(&trade, &order);
    assert_eq!(read.last_qty, Ok(Quantity { raw: 5_000_000_000_000_000, precision: 5 }));
    assert_eq!(read.commission, Ok(DecimalValue { mantissa: 50_000, scale: 8 }));
}

#[test]
fn a_replacement_follows_from_the_fields_that_were_read() {
    let order = TrackedOrder {
        client_order_id: ClientOrderId::new(ORDER),
        identity: identity("ETHUSDT"),
        instrument_id: InstrumentId::new("ETHUSDT", "BINANCE"),
        price_precision: 2,
        size_precision: 5,
    };
    let replaced = report(BinanceSpotExecutionType::New);
    let price = Price { raw: 10_000_000_000_000_000, precision: 2 };
    let quantity = Quantity { raw: 10_000_000_000_000_000, precision: 5 };
    for (stop, trigger, expected) in [
        (0, Err(DispatchAction::Warning("unused".to_string())), Some(None)),
        (1, Ok(price), Some(Some(price))),
        (1, Err(DispatchAction::Warning("bad".to_string())), None),
    ] {
        let action = dispatch_replacement(
            &replaced,
            ReplacementFields {
                price: Ok(price),
                quantity: Ok(quantity),
                stop_price: Ok(DecimalValue { mantissa: stop, scale: 0 }),
                trigger_price: trigger,
            },
            &context(false),
            &order,
            NOW,
        );
        match expected {
            Some(trigger_price) => assert_eq!(
                event(&action).kind,
                OrderEventKind::Updated {
                    venue_order_id: Some(VenueOrderId::new("12345678")),
                    quantity,
                    price: Some(price),
                    trigger_price,
                }
            ),
            None => assert_eq!(action, DispatchAction::Warning("bad".to_string())),
        }
    }
    assert_eq!(
        read_replacement(&replaced, &order).price,
        Ok(Price { raw: 25_000_000_000_000_000_000, precision: 2 })
    );
}

#[test]
fn an_answer_finds_a_request_that_was_remembered() {
    let mut desk = Desk::new(tracked_state("TEST", "BTCUSDT"));
    desk.state
        .insert_pending("req-submit", pending("TEST", None, PendingOperation::Place));
    desk.report(report(BinanceSpotExecutionType::Trade));
    let actions = desk.dispatch(BinanceSpotWsTradingMessage::OrderRejected {
        request_id: "req-submit".to_string(),
        code: -1013,
        msg: "Filter failure: LOT_SIZE".to_string(),
    });
    assert_eq!(
        event(&actions[0]).kind,
        OrderEventKind::Rejected {
            reason: "code=-1013: Filter failure: LOT_SIZE".to_string(),
            due_post_only: false,
        }
    );
}

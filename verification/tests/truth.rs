use spot_execution::binance_truth::{BinanceModeProof, ExactOrderQueryResult, OrderStatusReport};
use spot_execution::commands::ClientScope;
use spot_execution::dispatch_state::{OrderIdentity, WsDispatchState};
use spot_execution::enums::{OrderSide, OrderStatus, OrderType};
use spot_execution::identifiers::{
    AccountId, ClientId, ClientOrderId, InstrumentId, StrategyId, TraderId, UnixNanos, VenueOrderId,
    UUID4,
};
use spot_execution::queries::{
    generate_fill_reports, generate_mass_status, generate_order_status_report,
    generate_order_status_reports, mass_status, normalize_spot_order_status_report,
    normalize_spot_order_status_reports, present_order_status_report, query_order,
    GenerateFillReports, GenerateOrderStatusReport, GenerateOrderStatusReports, QueryOrder,
};
use spot_execution::truth::{
    AccountFacts, GenerateBinanceTruthReport, TruthAction, TruthReportError, TruthSignal, TruthTask,
};
use spot_execution::types::Quantity;

type Report = OrderStatusReport<&'static str>;

fn report(id: &str, order_status: OrderStatus) -> Report {
    OrderStatusReport {
        account_id: AccountId::new("BINANCE-001"),
        instrument_id: InstrumentId::new("ETHUSDT", "BINANCE"),
        client_order_id: Some(ClientOrderId::new(id)),
        venue_order_id: VenueOrderId::new("1"),
        order_status,
        quantity: Quantity::parse("1", 0).unwrap(),
        filled_qty: Quantity::parse("0", 0).unwrap(),
        price: None,
        ts_init: UnixNanos(1),
        rest: "as the venue said",
    }
}

fn state(ids: &[&str]) -> WsDispatchState {
    let mut state = WsDispatchState::new();
    for id in ids {
        state.register_order(
            &ClientOrderId::new(id),
            OrderIdentity {
                instrument_id: InstrumentId::new("ETHUSDT", "BINANCE"),
                strategy_id: StrategyId::new("S-1"),
                order_side: OrderSide::Buy,
                order_type: OrderType::Limit,
                price: None,
                quantity: Quantity::parse("1", 0).unwrap(),
            },
        );
    }
    state
}

fn task(client: &str, account: &str, ids: &[&str]) -> TruthTask<Report> {
    TruthTask::new(
        ClientId::new("BINANCE-SPOT"),
        AccountId::new("BINANCE-001"),
        GenerateBinanceTruthReport {
            request_id: UUID4::from_random_bits(3),
            client_id: ClientId::new(client),
            account_id: AccountId::new(account),
            exact_order_ids: ids.iter().map(|id| ClientOrderId::new(id)).collect(),
        },
    )
}

fn facts() -> AccountFacts {
    AccountFacts { can_trade: true, account_type: "SPOT".to_string(), balances: vec![] }
}

fn advance(
    task: &mut TruthTask<Report>,
    signal: TruthSignal<Report>,
    state: &WsDispatchState,
    ts_now: UnixNanos,
) -> TruthAction<Report, ()> {
    task.generate_truth_report(signal, state, ts_now)
}

fn asked_for(action: TruthAction<Report, ()>) -> String {
    match action {
        TruthAction::RequestExact(query) => {
            assert_eq!(query.account_id, AccountId::new("BINANCE-001"));
            assert_eq!(query.instrument_id, InstrumentId::new("ETHUSDT", "BINANCE"));
            assert_eq!(query.venue_order_id, None);
            query.client_order_id.unwrap().0
        }
        other => panic!("Expected a query, was {other:?}"),
    }
}

fn failure(action: TruthAction<Report, ()>) -> TruthReportError {
    match action {
        TruthAction::Finish(Err(error)) => error,
        other => panic!("Expected a failure, was {other:?}"),
    }
}

#[test]
fn a_truth_report_answers_every_order_asked_for() {
    let state = state(&["B", "A"]);
    let mut task = task("BINANCE-SPOT", "BINANCE-001", &["B", "A"]);
    let now = UnixNanos(9);
    assert!(matches!(
        advance(&mut task, TruthSignal::Begin, &state, now),
        TruthAction::RequestAccount
    ));
    match advance(&mut task, TruthSignal::Account(Ok(facts())), &state, now) {
        TruthAction::RequestOpenOrders(query) => {
            assert_eq!(query.account_id, AccountId::new("BINANCE-001"));
            assert_eq!(query.instrument_id, None);
            assert_eq!(query.start, None);
            assert_eq!(query.end, None);
            assert!(query.open_only);
        }
        other => panic!("Expected a query, was {other:?}"),
    }
    let open = vec![report("A", OrderStatus::Accepted)];
    let first = advance(&mut task, TruthSignal::OpenOrders(Ok(open)), &state, now);
    assert_eq!(asked_for(first), "B");
    let second = advance(&mut task, TruthSignal::Exact(Ok(None)), &state, now);
    assert_eq!(asked_for(second), "A");
    let found = report("A", OrderStatus::Accepted);
    match advance(&mut task, TruthSignal::Exact(Ok(Some(found))), &state, now) {
        TruthAction::Finish(Ok(truth)) => {
            assert_eq!(truth.request_id, UUID4::from_random_bits(3));
            assert_eq!(truth.client_id, ClientId::new("BINANCE-SPOT"));
            assert_eq!(truth.account_id, AccountId::new("BINANCE-001"));
            assert_eq!(
                truth.mode,
                BinanceModeProof::Spot { can_trade: true, account_type: "SPOT".to_string() }
            );
            assert!(truth.positions.is_empty());
            assert_eq!(truth.open_orders.len(), 1);
            assert_eq!(truth.ts_received, now);
            let listed: Vec<&str> = truth
                .exact_orders
                .entries()
                .iter()
                .map(|entry| entry.0.as_str())
                .collect();
            assert_eq!(listed, vec!["A", "B"]);
            assert_eq!(
                truth.exact_orders.get(&ClientOrderId::new("B")),
                Some(&ExactOrderQueryResult::NotFound)
            );
            assert_eq!(
                truth.exact_orders.get(&ClientOrderId::new("A")),
                Some(&ExactOrderQueryResult::Found(Box::new(report(
                    "A",
                    OrderStatus::Accepted
                ))))
            );
            assert_eq!(truth.exact_orders.get(&ClientOrderId::new("C")), None);
        }
        other => panic!("Expected a report, was {other:?}"),
    }
}

#[test]
fn a_request_without_orders_is_complete_after_the_open_orders() {
    let state = state(&[]);
    let mut task = task("BINANCE-SPOT", "BINANCE-001", &[]);
    advance(&mut task, TruthSignal::Begin, &state, UnixNanos(1));
    advance(&mut task, TruthSignal::Account(Ok(facts())), &state, UnixNanos(2));
    match advance(&mut task, TruthSignal::OpenOrders(Ok(vec![])), &state, UnixNanos(3)) {
        TruthAction::Finish(Ok(truth)) => assert!(truth.exact_orders.entries().is_empty()),
        other => panic!("Expected a report, was {other:?}"),
    }
    assert!(matches!(
        advance(&mut task, TruthSignal::Begin, &state, UnixNanos(4)),
        TruthAction::Ignore
    ));
}

#[test]
fn an_order_named_twice_has_its_last_answer() {
    let state = state(&["A", "B"]);
    let now = UnixNanos(9);
    let mut task = task("BINANCE-SPOT", "BINANCE-001", &["A", "B", "A"]);
    advance(&mut task, TruthSignal::Begin, &state, now);
    advance(&mut task, TruthSignal::Account(Ok(facts())), &state, now);
    let mut query = advance(&mut task, TruthSignal::OpenOrders(Ok(vec![])), &state, now);
    for (id, answer) in [
        ("A", None),
        ("B", Some(report("B", OrderStatus::Filled))),
        ("A", Some(report("A", OrderStatus::Canceled))),
    ] {
        assert_eq!(asked_for(query), id);
        query = advance(&mut task, TruthSignal::Exact(Ok(answer)), &state, now);
    }
    match query {
        TruthAction::Finish(Ok(truth)) => {
            for (id, order_status) in [("A", OrderStatus::Canceled), ("B", OrderStatus::Filled)] {
                assert_eq!(
                    truth.exact_orders.get(&ClientOrderId::new(id)),
                    Some(&ExactOrderQueryResult::Found(Box::new(report(id, order_status))))
                );
            }
            assert_eq!(truth.exact_orders.entries().len(), 2);
        }
        other => panic!("Expected a report, was {other:?}"),
    }
}

#[test]
fn misdirected_truth_requests_are_refused() {
    let state = state(&[]);
    let now = UnixNanos(1);
    let mut other_client = task("BINANCE-FUTURES", "BINANCE-001", &[]);
    match failure(advance(&mut other_client, TruthSignal::Begin, &state, now)) {
        TruthReportError::ClientIdMismatch { expected, actual } => {
            assert_eq!(expected, ClientId::new("BINANCE-SPOT"));
            assert_eq!(actual, ClientId::new("BINANCE-FUTURES"));
        }
        other => panic!("Unexpected error {other:?}"),
    }
    let mut other_account = task("BINANCE-SPOT", "BINANCE-002", &[]);
    match failure(advance(&mut other_account, TruthSignal::Begin, &state, now)) {
        TruthReportError::AccountIdMismatch { expected, actual } => {
            assert_eq!(expected, AccountId::new("BINANCE-001"));
            assert_eq!(actual, AccountId::new("BINANCE-002"));
        }
        other => panic!("Unexpected error {other:?}"),
    }
}

#[test]
fn every_failed_query_ends_the_truth_report() {
    let now = UnixNanos(1);
    let lost = || "lost".to_string();
    let known = state(&["A"]);

    let mut truth = task("BINANCE-SPOT", "BINANCE-001", &["A"]);
    advance(&mut truth, TruthSignal::Begin, &known, now);
    let action = advance(&mut truth, TruthSignal::Account(Err(lost())), &known, now);
    assert!(matches!(failure(action), TruthReportError::Account(text) if text == "lost"));

    let mut truth = task("BINANCE-SPOT", "BINANCE-001", &["A"]);
    advance(&mut truth, TruthSignal::Begin, &known, now);
    advance(&mut truth, TruthSignal::Account(Ok(facts())), &known, now);
    let action = advance(&mut truth, TruthSignal::OpenOrders(Err(lost())), &known, now);
    assert!(matches!(failure(action), TruthReportError::OpenOrders(text) if text == "lost"));

    let mut truth = task("BINANCE-SPOT", "BINANCE-001", &["A", "X"]);
    advance(&mut truth, TruthSignal::Begin, &known, now);
    advance(&mut truth, TruthSignal::Account(Ok(facts())), &known, now);
    advance(&mut truth, TruthSignal::OpenOrders(Ok(vec![])), &known, now);
    let action = advance(&mut truth, TruthSignal::Exact(Ok(None)), &known, now);
    assert!(matches!(
        failure(action),
        TruthReportError::MissingOrderOrigin(id) if id == ClientOrderId::new("X")
    ));

    let mut truth = task("BINANCE-SPOT", "BINANCE-001", &["A"]);
    advance(&mut truth, TruthSignal::Begin, &known, now);
    advance(&mut truth, TruthSignal::Account(Ok(facts())), &known, now);
    advance(&mut truth, TruthSignal::OpenOrders(Ok(vec![])), &known, now);
    let action = advance(&mut truth, TruthSignal::Exact(Err(lost())), &known, now);
    assert!(matches!(
        failure(action),
        TruthReportError::ExactOrder { client_order_id, detail }
            if client_order_id == ClientOrderId::new("A") && detail == "lost"
    ));
}

#[test]
fn test_normalize_spot_order_status_report_expired_respects_config() {
    for (treat_expired_as_canceled, expected) in
        [(false, OrderStatus::Expired), (true, OrderStatus::Canceled)]
    {
        let mut single = report("A", OrderStatus::Expired);
        let mut reports = vec![
            report("A", OrderStatus::Expired),
            report("B", OrderStatus::Filled),
        ];
        normalize_spot_order_status_report(&mut single, treat_expired_as_canceled);
        normalize_spot_order_status_reports(&mut reports, treat_expired_as_canceled);
        assert_eq!(single.order_status, expected);
        assert_eq!(reports[0].order_status, expected);
        assert_eq!(reports[1].order_status, OrderStatus::Filled);
        let shown = present_order_status_report(
            Some(report("A", OrderStatus::Expired)),
            treat_expired_as_canceled,
        );
        assert_eq!(shown, Some(single));
    }
    assert_eq!(present_order_status_report::<()>(None, true), None);
}

#[test]
fn queries_name_what_is_asked_for() {
    let account = AccountId::new("BINANCE-001");
    let instrument = InstrumentId::new("ETHUSDT", "BINANCE");
    let mut cmd = GenerateOrderStatusReport {
        instrument_id: None,
        client_order_id: Some(ClientOrderId::new("A")),
        venue_order_id: Some(VenueOrderId::new("7")),
    };
    assert!(generate_order_status_report(&account, &cmd).is_none());
    cmd.instrument_id = Some(instrument.clone());
    let query = generate_order_status_report(&account, &cmd).unwrap();
    assert_eq!(query.account_id, account);
    assert_eq!(query.instrument_id, instrument);
    assert_eq!(query.client_order_id, Some(ClientOrderId::new("A")));
    assert_eq!(query.venue_order_id, Some(VenueOrderId::new("7")));

    let mut cmd = GenerateFillReports {
        instrument_id: None,
        venue_order_id: None,
        start: Some(UnixNanos(1)),
        end: None,
    };
    assert!(generate_fill_reports(&account, &cmd).is_none());
    cmd.instrument_id = Some(instrument.clone());
    assert_eq!(
        generate_fill_reports(&account, &cmd).unwrap().start,
        Some(UnixNanos(1))
    );

    let query = query_order(
        &account,
        &QueryOrder {
            instrument_id: instrument.clone(),
            client_order_id: ClientOrderId::new("A"),
            venue_order_id: None,
        },
    );
    assert_eq!(query.client_order_id, Some(ClientOrderId::new("A")));

    let query = generate_order_status_reports(
        &account,
        &GenerateOrderStatusReports {
            instrument_id: Some(instrument.clone()),
            start: None,
            end: Some(UnixNanos(4)),
            open_only: false,
        },
    );
    assert_eq!(query.instrument_id, Some(instrument));
    assert_eq!(query.end, Some(UnixNanos(4)));
    assert!(!query.open_only);
}

#[test]
fn a_mass_status_names_the_client_and_presents_its_orders() {
    let scope = ClientScope {
        client_id: ClientId::new("BINANCE-SPOT"),
        trader_id: TraderId::new("TESTER-001"),
        account_id: AccountId::new("BINANCE-001"),
    };
    let found = || vec![report("A", OrderStatus::Expired), report("B", OrderStatus::Accepted)];
    for (treat_expired_as_canceled, expected) in
        [(false, OrderStatus::Expired), (true, OrderStatus::Canceled)]
    {
        let positions: Vec<()> = vec![];
        let status =
            mass_status(&scope, found(), positions, treat_expired_as_canceled, UnixNanos(9));
        assert_eq!(status.client_id, ClientId::new("BINANCE-SPOT"));
        assert_eq!(status.account_id, AccountId::new("BINANCE-001"));
        assert_eq!(status.venue, "BINANCE");
        assert_eq!(status.ts_init, UnixNanos(9));
        assert_eq!(
            status.order_reports,
            vec![report("A", expected), report("B", OrderStatus::Accepted)]
        );
        assert!(status.position_reports.is_empty());
    }
}

#[test]
fn a_mass_status_asks_for_open_orders_since_the_lookback() {
    let account = AccountId::new("BINANCE-001");
    let now = UnixNanos(120_000_000_001);
    let query = generate_mass_status(&account, Some(2), now);
    assert_eq!(query.start, Some(UnixNanos(1)));
    assert!(query.open_only);
    assert_eq!(query.instrument_id, None);
    assert_eq!(
        generate_mass_status(&account, Some(3), now).start,
        Some(UnixNanos(0))
    );
    assert_eq!(generate_mass_status(&account, None, now).start, None);
}

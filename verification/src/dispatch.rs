//! Dispatch of what the venue sends: execution reports and answers to WebSocket requests.

use crate::dispatch_state::{
    cache_wf, seen_after, DispatchView, FifoCache, OrderIdentity, PendingRequest, WsDispatchState,
};
use crate::enums::{BinanceSpotExecutionType, BinanceTimeInForce, LiquiditySide};
use crate::events::{venue_id_view, EventKindView, EventView, OrderEvent, OrderEventKind};
use crate::identifiers::{ClientOrderId, InstrumentId, TradeId, UnixNanos};
use crate::reports::{
    actions_view, at_rest, commission_code, commission_precision, currencies_after,
    decimal_field_wf, ended_outcome, ensure_accepted_emitted, fill_outcome, lemma_actions_empty,
    lemma_actions_push, make_order_event, new_outcome, parse_spot_execution_report_decimal,
    parse_spot_execution_report_price, parse_spot_execution_report_quantity, reject_reason,
    rejected_post_only, replacement_action, replacement_fields, tracked_outcome, trade_fields,
    trade_outcome, warn_invalid_commission, ActionView, BinanceSpotExecutionReport, DispatchAction,
    DispatchContext, Outcome, ReplacementFields, ReportTerms, TermsView, TrackedOrder, TrackedView,
    TradeFields,
};
use crate::text::{int_text, join, render_i128};
use crate::types::{Currency, CurrencyRegistry, Money, CRYPTO_PRECISION};
use crate::venue_error::{ambiguous_code, is_ambiguous_code, is_post_only_code, post_only_rejection};
use vstd::prelude::*;
use vstd::string::*;

verus! {

/// Reads the fields of a replacement.
pub fn read_replacement(report: &BinanceSpotExecutionReport, order: &TrackedOrder) -> (fields:
    ReplacementFields)
    ensures
        fields@ == replacement_fields(*report, order@),
        decimal_field_wf(fields@.stop_price),
{
    ReplacementFields {
        price: parse_spot_execution_report_price(
            report,
            report.price.as_str(),
            order.price_precision,
            "price",
        ),
        quantity: parse_spot_execution_report_quantity(
            report,
            report.original_qty.as_str(),
            order.size_precision,
            "original_qty",
        ),
        stop_price: parse_spot_execution_report_decimal(
            report,
            report.stop_price.as_str(),
            "stop_price",
        ),
        trigger_price: parse_spot_execution_report_price(
            report,
            report.stop_price.as_str(),
            order.price_precision,
            "stop_price",
        ),
    }
}

/// Reports a replacement that the venue announces as a new order, once its fields are read.
pub fn dispatch_replacement(
    report: &BinanceSpotExecutionReport,
    fields: ReplacementFields,
    context: &DispatchContext,
    order: &TrackedOrder,
    ts_init: UnixNanos,
) -> (action: DispatchAction)
    requires
        report.time_in_range(),
        decimal_field_wf(fields@.stop_price),
    ensures
        action@ == replacement_action(*report, fields@, *context, order@, ts_init),
{
    let price = match fields.price {
        Ok(price) => price,
        Err(warning) => return warning,
    };
    let quantity = match fields.quantity {
        Ok(quantity) => quantity,
        Err(warning) => return warning,
    };
    let stop_price = match fields.stop_price {
        Ok(stop_price) => stop_price,
        Err(warning) => return warning,
    };
    let trigger_price = if stop_price.is_positive() {
        match fields.trigger_price {
            Ok(trigger_price) => Some(trigger_price),
            Err(warning) => return warning,
        }
    } else {
        None
    };
    let kind = OrderEventKind::Updated {
        venue_order_id: Some(report.venue_id()),
        quantity,
        price: Some(price),
        trigger_price,
    };
    make_order_event(context, order, report.event_instant(), ts_init, kind)
}

/// Reports an order that the venue announces as new.
fn dispatch_new(
    report: &BinanceSpotExecutionReport,
    context: &DispatchContext,
    order: &TrackedOrder,
    state: &mut WsDispatchState,
    ts_init: UnixNanos,
) -> (actions: Vec<DispatchAction>)
    requires
        report.time_in_range(),
    ensures
        (final(state)@, actions_view(actions@)) == new_outcome(
            *report,
            *context,
            order@,
            old(state)@,
            ts_init,
        ),
{
    broadcast use {lemma_actions_push, lemma_actions_empty};

    let mut actions: Vec<DispatchAction> = Vec::new();
    if state.has_filled(&order.client_order_id) {
        return actions;
    }
    if state.has_emitted_accepted(&order.client_order_id) {
        let fields = read_replacement(report, order);
        let action = dispatch_replacement(report, fields, context, order, ts_init);
        actions.push(action);
        assert(actions_view(actions@) =~= seq![action@]);
        return actions;
    }
    let venue_order_id = report.venue_id();
    ensure_accepted_emitted(
        context,
        order,
        &venue_order_id,
        state,
        report.event_instant(),
        ts_init,
    )
}

/// The currency that a commission is paid in.
fn commission_currency(
    report: &BinanceSpotExecutionReport,
    currencies: &mut CurrencyRegistry,
) -> (currency: Currency)
    ensures
        currency.code@ == commission_code(*report),
        currency.precision == commission_precision(*report, old(currencies)@),
        final(currencies)@ == currencies_after(*report, old(currencies)@),
{
    match &report.commission_asset {
        Some(asset) => currencies.get_or_create_crypto(asset.as_str()),
        None => Currency { code: "USDT".to_owned(), precision: CRYPTO_PRECISION },
    }
}

/// Reads the fields of a trade.
pub fn read_trade(report: &BinanceSpotExecutionReport, order: &TrackedOrder) -> (fields: TradeFields)
    ensures
        fields@ == trade_fields(*report, order@),
        fields@.wf(),
{
    TradeFields {
        last_qty: parse_spot_execution_report_quantity(
            report,
            report.last_filled_qty.as_str(),
            order.size_precision,
            "last_filled_qty",
        ),
        last_px: parse_spot_execution_report_price(
            report,
            report.last_filled_price.as_str(),
            order.price_precision,
            "last_filled_price",
        ),
        commission: parse_spot_execution_report_decimal(
            report,
            report.commission.as_str(),
            "commission",
        ),
        cumulative_qty: parse_spot_execution_report_decimal(
            report,
            report.cumulative_filled_qty.as_str(),
            "cumulative_filled_qty",
        ),
        original_qty: parse_spot_execution_report_decimal(
            report,
            report.original_qty.as_str(),
            "original_qty",
        ),
    }
}

/// Reports a fill of an order, once its fields are read.
pub fn dispatch_fill(
    report: &BinanceSpotExecutionReport,
    fields: TradeFields,
    context: &DispatchContext,
    order: &TrackedOrder,
    state: &mut WsDispatchState,
    currencies: &mut CurrencyRegistry,
    ts_init: UnixNanos,
) -> (actions: Vec<DispatchAction>)
    requires
        report.time_in_range(),
        fields@.wf(),
    ensures
        (final(state)@, final(currencies)@, actions_view(actions@)) == fill_outcome(
            *report,
            fields@,
            *context,
            order@,
            old(state)@,
            old(currencies)@,
            ts_init,
        ),
{
    broadcast use {lemma_actions_push, lemma_actions_empty};

    let venue_order_id = report.venue_id();
    let mut actions = ensure_accepted_emitted(
        context,
        order,
        &venue_order_id,
        state,
        ts_init,
        ts_init,
    );
    let ghost expected = fields@;
    let last_qty = match fields.last_qty {
        Ok(last_qty) => last_qty,
        Err(warning) => {
            actions.push(warning);
            return actions;
        },
    };
    let last_px = match fields.last_px {
        Ok(last_px) => last_px,
        Err(warning) => {
            actions.push(warning);
            return actions;
        },
    };
    let commission = match fields.commission {
        Ok(commission) => commission,
        Err(warning) => {
            actions.push(warning);
            return actions;
        },
    };
    let currency = commission_currency(report, currencies);
    let commission_money = match Money::from_decimal(&commission, &currency) {
        Ok(money) => money,
        Err(e) => {
            actions.push(DispatchAction::Warning(warn_invalid_commission(report, &e)));
            return actions;
        },
    };
    let liquidity_side = if report.is_maker {
        LiquiditySide::Maker
    } else {
        LiquiditySide::Taker
    };
    let filled = OrderEvent {
        trader_id: context.trader_id.clone(),
        strategy_id: order.identity.strategy_id.clone(),
        instrument_id: order.instrument_id.clone(),
        client_order_id: order.client_order_id.clone(),
        account_id: context.account_id.clone(),
        ts_event: report.event_instant(),
        ts_init,
        kind: OrderEventKind::Filled {
            venue_order_id,
            trade_id: TradeId(render_i128(report.trade_id as i128)),
            order_side: order.identity.order_side,
            order_type: order.identity.order_type,
            last_qty,
            last_px,
            currency,
            liquidity_side,
            commission: commission_money,
        },
    };
    state.insert_filled(&order.client_order_id);
    actions.push(DispatchAction::Event(filled));
    let ghost reported = actions_view(actions@);

    let cumulative = match fields.cumulative_qty {
        Ok(cumulative) => Some(cumulative),
        Err(warning) => {
            actions.push(warning);
            None
        },
    };
    let original = match fields.original_qty {
        Ok(original) => Some(original),
        Err(warning) => {
            actions.push(warning);
            None
        },
    };
    assert(actions_view(actions@) =~= reported + expected.quantity_warnings());
    let complete = match (original, cumulative) {
        (Some(original), Some(cumulative)) => original.at_most(&cumulative),
        _ => false,
    };
    assert(complete == expected.complete());
    if complete {
        state.cleanup_terminal(&order.client_order_id);
    }
    actions
}

/// Reports a trade of an order, unless it was reported before.
fn dispatch_trade(
    report: &BinanceSpotExecutionReport,
    context: &DispatchContext,
    order: &TrackedOrder,
    state: &mut WsDispatchState,
    seen: &mut FifoCache,
    currencies: &mut CurrencyRegistry,
    ts_init: UnixNanos,
) -> (actions: Vec<DispatchAction>)
    requires
        report.time_in_range(),
    ensures
        cache_wf(final(seen)@),
        (Outcome {
            actions: actions_view(actions@),
            ..at_rest(*final(state), *final(seen), *final(currencies))
        }) == trade_outcome(
            *report,
            *context,
            order@,
            at_rest(*old(state), *old(seen), *old(currencies)),
            ts_init,
        ),
{
    broadcast use {lemma_actions_push, lemma_actions_empty};

    let duplicate = seen.contains(&report.symbol, report.trade_id);
    seen.add(&report.symbol, report.trade_id);
    if duplicate {
        return Vec::new();
    }
    let fields = read_trade(report, order);
    dispatch_fill(report, fields, context, order, state, currencies, ts_init)
}

/// Reports the end of an order.
fn dispatch_end(
    report: &BinanceSpotExecutionReport,
    context: &DispatchContext,
    order: &TrackedOrder,
    state: &mut WsDispatchState,
    ts_init: UnixNanos,
    kind: OrderEventKind,
) -> (actions: Vec<DispatchAction>)
    requires
        report.time_in_range(),
    ensures
        (final(state)@, actions_view(actions@)) == ended_outcome(
            *report,
            *context,
            order@,
            old(state)@,
            ts_init,
            kind@,
        ),
{
    broadcast use {lemma_actions_push, lemma_actions_empty};

    let venue_order_id = report.venue_id();
    let mut actions = ensure_accepted_emitted(
        context,
        order,
        &venue_order_id,
        state,
        ts_init,
        ts_init,
    );
    state.cleanup_terminal(&order.client_order_id);
    actions.push(make_order_event(context, order, report.event_instant(), ts_init, kind));
    actions
}

/// Reports that an order was rejected.
fn dispatch_rejection(
    report: &BinanceSpotExecutionReport,
    context: &DispatchContext,
    order: &TrackedOrder,
    state: &mut WsDispatchState,
    ts_init: UnixNanos,
) -> (actions: Vec<DispatchAction>)
    ensures
        final(state)@ == old(state)@.without_order(order.client_order_id@),
        actions_view(actions@) == seq![
            crate::reports::order_event(
                *context,
                order@,
                ts_init,
                ts_init,
                EventKindView::Rejected {
                    reason: reject_reason(*report),
                    due_post_only: rejected_post_only(*report),
                },
            ),
        ],
{
    broadcast use {lemma_actions_push, lemma_actions_empty};

    let unexplained = report.reject_reason.as_str().is_empty();
    let reason = if unexplained {
        "Order rejected by venue".to_owned()
    } else {
        report.reject_reason.clone()
    };
    let due_post_only = report.time_in_force == BinanceTimeInForce::Gtx || (report.order_type
        == "LIMIT_MAKER".to_owned() && (unexplained || report.reject_reason == "NONE".to_owned()));
    state.cleanup_terminal(&order.client_order_id);
    let kind = OrderEventKind::Rejected { reason, due_post_only };
    let mut actions: Vec<DispatchAction> = Vec::new();
    let action = make_order_event(context, order, ts_init, ts_init, kind);
    actions.push(action);
    assert(actions_view(actions@) =~= seq![action@]);
    actions
}

/// Dispatches a report about a tracked order as order events.
pub fn dispatch_tracked_execution_report(
    report: &BinanceSpotExecutionReport,
    context: &DispatchContext,
    order: &TrackedOrder,
    state: &mut WsDispatchState,
    seen: &mut FifoCache,
    currencies: &mut CurrencyRegistry,
    ts_init: UnixNanos,
) -> (actions: Vec<DispatchAction>)
    requires
        report.time_in_range(),
    ensures
        cache_wf(final(seen)@),
        (Outcome {
            actions: actions_view(actions@),
            ..at_rest(*final(state), *final(seen), *final(currencies))
        }) == tracked_outcome(
            *report,
            *context,
            order@,
            at_rest(*old(state), *old(seen), *old(currencies)),
            ts_init,
        ),
{
    broadcast use lemma_actions_empty;

    proof {
        use_type_invariant(&*seen);
    }
    match report.execution_type {
        BinanceSpotExecutionType::New => dispatch_new(report, context, order, state, ts_init),
        BinanceSpotExecutionType::Trade => dispatch_trade(
            report,
            context,
            order,
            state,
            seen,
            currencies,
            ts_init,
        ),
        BinanceSpotExecutionType::Replaced => Vec::new(),
        BinanceSpotExecutionType::Canceled | BinanceSpotExecutionType::TradePrevention => {
            let kind = OrderEventKind::Canceled { venue_order_id: Some(report.venue_id()) };
            dispatch_end(report, context, order, state, ts_init, kind)
        },
        BinanceSpotExecutionType::Expired => {
            let kind = if context.treat_expired_as_canceled {
                OrderEventKind::Canceled { venue_order_id: Some(report.venue_id()) }
            } else {
                OrderEventKind::Expired { venue_order_id: Some(report.venue_id()) }
            };
            dispatch_end(report, context, order, state, ts_init, kind)
        },
        BinanceSpotExecutionType::Rejected => dispatch_rejection(
            report,
            context,
            order,
            state,
            ts_init,
        ),
    }
}

/// What to do with a report that is due as an order status report: publish it if it can be read as
/// one, and log why not otherwise.
pub open spec fn status_action(
    terms: TermsView,
    treat_expired_as_canceled: bool,
    status_parse: Result<(), String>,
) -> ActionView {
    match status_parse {
        Ok(_) => ActionView::OrderStatusReport { terms, treat_expired_as_canceled },
        Err(e) => ActionView::Error("Failed to parse order status report: "@ + e@),
    }
}

/// What to do with a report that is due as a fill report: publish it if it can be read as one, and
/// log why not otherwise.
pub open spec fn fill_action(terms: TermsView, fill_parse: Result<(), String>) -> ActionView {
    match fill_parse {
        Ok(_) => ActionView::FillReport { terms },
        Err(e) => ActionView::Error("Failed to parse fill report: "@ + e@),
    }
}

/// What a report about an order that the client does not track makes of it: reports for
/// reconciliation, and for a trade only once. One that cannot be read as such is logged.
pub open spec fn untracked_outcome(
    report: BinanceSpotExecutionReport,
    terms: TermsView,
    treat_expired_as_canceled: bool,
    status_parse: Result<(), String>,
    fill_parse: Result<(), String>,
    before: Outcome,
) -> Outcome {
    let status = status_action(terms, treat_expired_as_canceled, status_parse);
    match report.execution_type {
        BinanceSpotExecutionType::Trade => Outcome {
            seen: seen_after(before.seen, report.trade()),
            actions: if before.seen.contains(report.trade()) {
                Seq::empty()
            } else {
                seq![status, fill_action(terms, fill_parse)]
            },
            ..before
        },
        _ => Outcome { actions: seq![status], ..before },
    }
}

fn make_status_action(
    terms: ReportTerms,
    treat_expired_as_canceled: bool,
    status_parse: &Result<(), String>,
) -> (action: DispatchAction)
    ensures
        action@ == status_action(terms@, treat_expired_as_canceled, *status_parse),
{
    match status_parse {
        Ok(_) => DispatchAction::OrderStatusReport { terms, treat_expired_as_canceled },
        Err(e) => DispatchAction::Error(
            join("Failed to parse order status report: ", e.as_str()),
        ),
    }
}

fn make_fill_action(terms: ReportTerms, fill_parse: &Result<(), String>) -> (action: DispatchAction)
    ensures
        action@ == fill_action(terms@, *fill_parse),
{
    match fill_parse {
        Ok(_) => DispatchAction::FillReport { terms },
        Err(e) => DispatchAction::Error(join("Failed to parse fill report: ", e.as_str())),
    }
}

/// Dispatches a report about an order that the client does not track as reports for
/// reconciliation. `status_parse` and `fill_parse` tell whether the report can be read as an order
/// status report and as a fill report on these terms, or why not.
pub fn dispatch_untracked_execution_report(
    report: &BinanceSpotExecutionReport,
    terms: ReportTerms,
    treat_expired_as_canceled: bool,
    status_parse: &Result<(), String>,
    fill_parse: &Result<(), String>,
    seen: &mut FifoCache,
) -> (actions: Vec<DispatchAction>)
    ensures
        cache_wf(final(seen)@),
        forall|before: Outcome|
            before.seen == old(seen)@ ==> #[trigger] untracked_outcome(
                *report,
                terms@,
                treat_expired_as_canceled,
                *status_parse,
                *fill_parse,
                before,
            ) == (Outcome { seen: final(seen)@, actions: actions_view(actions@), ..before }),
{
    broadcast use {lemma_actions_push, lemma_actions_empty};

    proof {
        use_type_invariant(&*seen);
    }
    let mut actions: Vec<DispatchAction> = Vec::new();
    match report.execution_type {
        BinanceSpotExecutionType::Trade => {
            let duplicate = seen.contains(&report.symbol, report.trade_id);
            seen.add(&report.symbol, report.trade_id);
            if !duplicate {
                let status = make_status_action(
                    terms.clone(),
                    treat_expired_as_canceled,
                    status_parse,
                );
                let fill = make_fill_action(terms, fill_parse);
                actions.push(status);
                actions.push(fill);
                assert(actions_view(actions@) =~= seq![status@, fill@]);
            }
        },
        _ => {
            let status = make_status_action(terms, treat_expired_as_canceled, status_parse);
            actions.push(status);
            assert(actions_view(actions@) =~= seq![status@]);
        },
    }
    actions
}

/// Fractional digits of prices and quantities of an instrument that is not known.
pub const DEFAULT_PRECISION: u8 = 8;

/// The venue of every instrument of the client.
pub open spec fn venue_text() -> Seq<char> {
    "BINANCE"@
}

/// An execution report, the order that its broker tag stands for, and what is known of its
/// instrument.
#[derive(Debug)]
pub struct ResolvedReport {
    /// The report.
    pub report: BinanceSpotExecutionReport,
    /// The client order ID that the broker tag of the report stands for.
    pub client_order_id: ClientOrderId,
    /// Fractional digits of the prices and quantities of the instrument, where it is known.
    pub precisions: Option<(u8, u8)>,
    /// Whether the report can be read as an order status report on the terms of the client, or why
    /// not.
    pub status_parse: Result<(), String>,
    /// Whether the report can be read as a fill report on the terms of the client, or why not.
    pub fill_parse: Result<(), String>,
}

impl ResolvedReport {
    /// The instrument of the report.
    pub open spec fn instrument(self) -> (Seq<char>, Seq<char>) {
        (self.report.symbol@, venue_text())
    }

    /// Fractional digits of the prices of the instrument.
    pub open spec fn price_digits(self) -> u8 {
        match self.precisions {
            Some(p) => p.0,
            None => DEFAULT_PRECISION,
        }
    }

    /// Fractional digits of the quantities of the instrument.
    pub open spec fn size_digits(self) -> u8 {
        match self.precisions {
            Some(p) => p.1,
            None => DEFAULT_PRECISION,
        }
    }

    /// The order of the report, known to the client as `identity`.
    pub open spec fn tracked_as(self, identity: OrderIdentity) -> TrackedView {
        TrackedView {
            client_order_id: self.client_order_id@,
            identity,
            instrument_id: self.instrument(),
            price_precision: self.price_digits(),
            size_precision: self.size_digits(),
        }
    }

    /// What a report for reconciliation is made with.
    pub open spec fn terms(self, context: DispatchContext, ts_init: UnixNanos) -> TermsView {
        TermsView {
            instrument_id: self.instrument(),
            price_precision: self.price_digits(),
            size_precision: self.size_digits(),
            account_id: context.account_id@,
            ts_init,
        }
    }

    /// Fractional digits of the prices and quantities of the instrument.
    fn digits(&self) -> (r: (u8, u8))
        ensures
            r == (self.price_digits(), self.size_digits()),
    {
        match self.precisions {
            Some(precisions) => precisions,
            None => (DEFAULT_PRECISION, DEFAULT_PRECISION),
        }
    }

    /// What a report for reconciliation is made with.
    pub fn report_terms(&self, context: &DispatchContext, ts_init: UnixNanos) -> (terms: ReportTerms)
        ensures
            terms@ == self.terms(*context, ts_init),
    {
        let (price_precision, size_precision) = self.digits();
        ReportTerms {
            instrument_id: InstrumentId::new(self.report.symbol.as_str(), "BINANCE"),
            price_precision,
            size_precision,
            account_id: context.account_id.clone(),
            ts_init,
        }
    }
}

/// What a report makes of its order: order events if the client tracks the order, and reports
/// for reconciliation otherwise.
pub open spec fn report_outcome(
    resolved: ResolvedReport,
    context: DispatchContext,
    before: Outcome,
    ts_init: UnixNanos,
) -> Outcome {
    let id = resolved.client_order_id@;
    if before.state.order_identities.contains_key(id) {
        tracked_outcome(
            resolved.report,
            context,
            resolved.tracked_as(before.state.order_identities[id]),
            before,
            ts_init,
        )
    } else {
        untracked_outcome(
            resolved.report,
            resolved.terms(context, ts_init),
            context.treat_expired_as_canceled,
            resolved.status_parse,
            resolved.fill_parse,
            before,
        )
    }
}

/// Dispatches an execution report: a tracked order produces order events, any other falls back to
/// reports for reconciliation.
pub fn dispatch_execution_report(
    resolved: &ResolvedReport,
    context: &DispatchContext,
    state: &mut WsDispatchState,
    seen: &mut FifoCache,
    currencies: &mut CurrencyRegistry,
    ts_init: UnixNanos,
) -> (actions: Vec<DispatchAction>)
    requires
        old(state)@.order_identities.contains_key(resolved.client_order_id@)
            ==> resolved.report.time_in_range(),
    ensures
        cache_wf(final(seen)@),
        (Outcome {
            actions: actions_view(actions@),
            ..at_rest(*final(state), *final(seen), *final(currencies))
        }) == report_outcome(
            *resolved,
            *context,
            at_rest(*old(state), *old(seen), *old(currencies)),
            ts_init,
        ),
{
    let ghost before = at_rest(*state, *seen, *currencies);
    match state.identity(&resolved.client_order_id) {
        Some(identity) => {
            let (price_precision, size_precision) = resolved.digits();
            let order = TrackedOrder {
                client_order_id: resolved.client_order_id.clone(),
                identity,
                instrument_id: InstrumentId::new(resolved.report.symbol.as_str(), "BINANCE"),
                price_precision,
                size_precision,
            };
            dispatch_tracked_execution_report(
                &resolved.report,
                context,
                &order,
                state,
                seen,
                currencies,
                ts_init,
            )
        },
        None => {
            let terms = resolved.report_terms(context, ts_init);
            let actions = dispatch_untracked_execution_report(
                &resolved.report,
                terms,
                context.treat_expired_as_canceled,
                &resolved.status_parse,
                &resolved.fill_parse,
                seen,
            );
            assert(untracked_outcome(
                resolved.report,
                terms@,
                context.treat_expired_as_canceled,
                resolved.status_parse,
                resolved.fill_parse,
                before,
            ).seen == seen@);
            actions
        },
    }
}

/// A message of the WebSocket trading client.
#[derive(Debug)]
pub enum BinanceSpotWsTradingMessage {
    /// The connection is up.
    Connected,
    /// The session is authenticated.
    Authenticated,
    /// The connection is up again.
    Reconnected,
    /// A request to place an order was accepted.
    OrderAccepted {
        /// Request.
        request_id: String,
    },
    /// A request to place an order was rejected.
    OrderRejected {
        /// Request.
        request_id: String,
        /// Error code.
        code: i32,
        /// Error message.
        msg: String,
    },
    /// A request to cancel an order was accepted.
    OrderCanceled {
        /// Request.
        request_id: String,
    },
    /// A request to cancel an order was rejected.
    CancelRejected {
        /// Request.
        request_id: String,
        /// Error code.
        code: i32,
        /// Error message.
        msg: String,
    },
    /// A request to replace an order was accepted.
    CancelReplaceAccepted {
        /// Request.
        request_id: String,
    },
    /// A request to replace an order was rejected.
    CancelReplaceRejected {
        /// Request.
        request_id: String,
        /// Error code.
        code: i32,
        /// Error message.
        msg: String,
    },
    /// A request failed without an answer of the venue.
    RequestFailed {
        /// Request.
        request_id: String,
        /// What went wrong.
        msg: String,
    },
    /// A request to cancel all orders was accepted.
    AllOrdersCanceled {
        /// Request.
        request_id: String,
    },
    /// The user data is subscribed.
    UserDataSubscribed,
    /// An execution report of the user data.
    ExecutionReport(Box<ResolvedReport>),
    /// The account position changed.
    AccountPosition,
    /// A balance changed outside of trading.
    BalanceUpdate,
    /// The venue is about to close the connection.
    ServerShutdown {
        /// When the venue said so.
        event_time: i64,
    },
    /// The connection or its set-up failed.
    Error(String),
}

/// Why the venue rejected a request, as it is reported.
pub open spec fn code_reason(code: i32, msg: Seq<char>) -> Seq<char> {
    "code="@ + int_text(code as int) + ": "@ + msg
}

/// Why the venue rejected a request, as it is reported.
fn render_code_reason(code: i32, msg: &String) -> (r: String)
    ensures
        r@ == code_reason(code, msg@),
{
    let number = render_i128(code as i128);
    let mut s = "code=".to_owned();
    s.append(number.as_str());
    s.append(": ");
    s.append(msg.as_str());
    s
}

/// An event of the order of a pending request.
pub open spec fn request_event(
    context: DispatchContext,
    pending: PendingRequest,
    identity: OrderIdentity,
    ts_now: UnixNanos,
    kind: EventKindView,
) -> ActionView {
    ActionView::Event(
        EventView {
            trader_id: context.trader_id@,
            strategy_id: identity.strategy_id@,
            instrument_id: identity.instrument_id@,
            client_order_id: pending.client_order_id@,
            account_id: context.account_id@,
            ts_event: ts_now,
            ts_init: ts_now,
            kind,
        },
    )
}

/// Builds an event of the order of a pending request.
fn make_request_event(
    context: &DispatchContext,
    pending: &PendingRequest,
    identity: &OrderIdentity,
    ts_now: UnixNanos,
    kind: OrderEventKind,
) -> (actions: Vec<DispatchAction>)
    ensures
        actions_view(actions@) == seq![
            request_event(*context, *pending, *identity, ts_now, kind@),
        ],
{
    broadcast use {lemma_actions_push, lemma_actions_empty};

    let action = DispatchAction::Event(
        OrderEvent {
            trader_id: context.trader_id.clone(),
            strategy_id: identity.strategy_id.clone(),
            instrument_id: identity.instrument_id.clone(),
            client_order_id: pending.client_order_id.clone(),
            account_id: context.account_id.clone(),
            ts_event: ts_now,
            ts_init: ts_now,
            kind,
        },
    );
    let mut actions: Vec<DispatchAction> = Vec::new();
    actions.push(action);
    assert(actions_view(actions@) =~= seq![action@]);
    actions
}

/// The list of one action.
fn single(action: DispatchAction) -> (actions: Vec<DispatchAction>)
    ensures
        actions_view(actions@) == seq![action@],
{
    broadcast use {lemma_actions_push, lemma_actions_empty};

    let mut actions: Vec<DispatchAction> = Vec::new();
    actions.push(action);
    assert(actions_view(actions@) =~= seq![action@]);
    actions
}

/// The request and the order that an answer is about, where the client knows both.
pub open spec fn known_request(
    state: DispatchView,
    request_id: Seq<char>,
) -> Option<(PendingRequest, OrderIdentity)> {
    if state.pending_requests.contains_key(request_id) {
        let pending = state.pending_requests[request_id];
        if state.order_identities.contains_key(pending.client_order_id@) {
            Some((pending, state.order_identities[pending.client_order_id@]))
        } else {
            None
        }
    } else {
        None
    }
}

/// What a rejected placement makes of its order: nothing while the venue does not know the
/// outcome, and otherwise the rejection and the end of the order.
pub open spec fn place_rejection_outcome(
    context: DispatchContext,
    before: Outcome,
    request_id: Seq<char>,
    code: i32,
    msg: Seq<char>,
    ts_now: UnixNanos,
) -> Outcome {
    let state = before.state.answered(request_id);
    match known_request(before.state, request_id) {
        Some((pending, identity)) => if ambiguous_code(code as int) {
            Outcome { state, actions: Seq::empty(), ..before }
        } else {
            Outcome {
                state: state.without_order(pending.client_order_id@),
                actions: seq![
                    request_event(
                        context,
                        pending,
                        identity,
                        ts_now,
                        EventKindView::Rejected {
                            reason: code_reason(code, msg),
                            due_post_only: post_only_rejection(code as int, msg),
                        },
                    ),
                ],
                ..before
            }
        },
        None => Outcome { state, actions: Seq::empty(), ..before },
    }
}

/// What a rejected cancel or replacement makes of its order: the rejection, and nothing else.
pub open spec fn change_rejection_outcome(
    context: DispatchContext,
    before: Outcome,
    request_id: Seq<char>,
    code: i32,
    msg: Seq<char>,
    ts_now: UnixNanos,
    replaces: bool,
) -> Outcome {
    let state = before.state.answered(request_id);
    match known_request(before.state, request_id) {
        Some((pending, identity)) => {
            let reason = code_reason(code, msg);
            let venue_order_id = venue_id_view(pending.venue_order_id);
            let kind = if replaces {
                EventKindView::ModifyRejected { reason, venue_order_id }
            } else {
                EventKindView::CancelRejected { reason, venue_order_id }
            };
            Outcome {
                state,
                actions: seq![request_event(context, pending, identity, ts_now, kind)],
                ..before
            }
        },
        None => Outcome { state, actions: Seq::empty(), ..before },
    }
}

/// What a message of the trading client calls for.
pub open spec fn message_outcome(
    msg: BinanceSpotWsTradingMessage,
    context: DispatchContext,
    before: Outcome,
    ts_now: UnixNanos,
) -> Outcome {
    match msg {
        BinanceSpotWsTradingMessage::OrderAccepted { request_id } => Outcome {
            state: before.state.answered(request_id@),
            ..before
        },
        BinanceSpotWsTradingMessage::OrderRejected { request_id, code, msg } =>
            place_rejection_outcome(context, before, request_id@, code, msg@, ts_now),
        BinanceSpotWsTradingMessage::OrderCanceled { request_id } => Outcome {
            state: before.state.answered(request_id@),
            ..before
        },
        BinanceSpotWsTradingMessage::CancelRejected { request_id, code, msg } =>
            change_rejection_outcome(context, before, request_id@, code, msg@, ts_now, false),
        BinanceSpotWsTradingMessage::CancelReplaceAccepted { request_id } => Outcome {
            state: before.state.answered(request_id@),
            ..before
        },
        BinanceSpotWsTradingMessage::CancelReplaceRejected { request_id, code, msg } =>
            change_rejection_outcome(context, before, request_id@, code, msg@, ts_now, true),
        BinanceSpotWsTradingMessage::RequestFailed { request_id, msg } => Outcome {
            state: before.state.answered(request_id@),
            ..before
        },
        BinanceSpotWsTradingMessage::AllOrdersCanceled { request_id } => Outcome {
            state: before.state.answered(request_id@),
            ..before
        },
        BinanceSpotWsTradingMessage::UserDataSubscribed => Outcome {
            actions: seq![ActionView::NotifySubscribed],
            ..before
        },
        BinanceSpotWsTradingMessage::ExecutionReport(resolved) => report_outcome(
            *resolved,
            context,
            before,
            ts_now,
        ),
        BinanceSpotWsTradingMessage::AccountPosition => Outcome {
            actions: seq![ActionView::AccountPosition],
            ..before
        },
        BinanceSpotWsTradingMessage::BalanceUpdate => Outcome {
            actions: seq![ActionView::RefreshAccount],
            ..before
        },
        BinanceSpotWsTradingMessage::Connected => before,
        BinanceSpotWsTradingMessage::Authenticated => Outcome {
            actions: seq![ActionView::NotifyAuthenticated],
            ..before
        },
        BinanceSpotWsTradingMessage::Reconnected => before,
        BinanceSpotWsTradingMessage::ServerShutdown { .. } => before,
        BinanceSpotWsTradingMessage::Error(err) => Outcome {
            actions: seq![ActionView::SetupError(err@)],
            ..before
        },
    }
}

/// Handles the rejection of a request to place an order.
fn dispatch_place_rejection(
    context: &DispatchContext,
    state: &mut WsDispatchState,
    Ghost(before): Ghost<Outcome>,
    request_id: &String,
    code: i32,
    msg: &String,
    ts_now: UnixNanos,
) -> (actions: Vec<DispatchAction>)
    requires
        before.state == old(state)@,
    ensures
        (Outcome { state: final(state)@, actions: actions_view(actions@), ..before })
            == place_rejection_outcome(*context, before, request_id@, code, msg@, ts_now),
{
    broadcast use lemma_actions_empty;

    let pending = match state.take_pending(request_id.as_str()) {
        Some(pending) => pending,
        None => return Vec::new(),
    };
    if is_ambiguous_code(code as i64) {
        return Vec::new();
    }
    let identity = match state.identity(&pending.client_order_id) {
        Some(identity) => identity,
        None => return Vec::new(),
    };
    let kind = OrderEventKind::Rejected {
        reason: render_code_reason(code, msg),
        due_post_only: is_post_only_code(code as i64, msg),
    };
    state.cleanup_terminal(&pending.client_order_id);
    make_request_event(context, &pending, &identity, ts_now, kind)
}

/// Handles the rejection of a request to cancel or replace an order.
fn dispatch_change_rejection(
    context: &DispatchContext,
    state: &mut WsDispatchState,
    Ghost(before): Ghost<Outcome>,
    request_id: &String,
    code: i32,
    msg: &String,
    ts_now: UnixNanos,
    replaces: bool,
) -> (actions: Vec<DispatchAction>)
    requires
        before.state == old(state)@,
    ensures
        (Outcome { state: final(state)@, actions: actions_view(actions@), ..before })
            == change_rejection_outcome(
            *context,
            before,
            request_id@,
            code,
            msg@,
            ts_now,
            replaces,
        ),
{
    broadcast use lemma_actions_empty;

    let pending = match state.take_pending(request_id.as_str()) {
        Some(pending) => pending,
        None => return Vec::new(),
    };
    let identity = match state.identity(&pending.client_order_id) {
        Some(identity) => identity,
        None => return Vec::new(),
    };
    let reason = render_code_reason(code, msg);
    let venue_order_id = pending.venue_order_id.clone();
    let kind = if replaces {
        OrderEventKind::ModifyRejected { reason, venue_order_id }
    } else {
        OrderEventKind::CancelRejected { reason, venue_order_id }
    };
    make_request_event(context, &pending, &identity, ts_now, kind)
}

/// Dispatches a message of the trading client.
pub fn dispatch_ws_trading_message(
    msg: &BinanceSpotWsTradingMessage,
    context: &DispatchContext,
    state: &mut WsDispatchState,
    seen: &mut FifoCache,
    currencies: &mut CurrencyRegistry,
    ts_now: UnixNanos,
) -> (actions: Vec<DispatchAction>)
    requires
        msg matches BinanceSpotWsTradingMessage::ExecutionReport(resolved) ==> old(
            state,
        )@.order_identities.contains_key(resolved.client_order_id@)
            ==> resolved.report.time_in_range(),
    ensures
        cache_wf(final(seen)@),
        (Outcome {
            actions: actions_view(actions@),
            ..at_rest(*final(state), *final(seen), *final(currencies))
        }) == message_outcome(
            *msg,
            *context,
            at_rest(*old(state), *old(seen), *old(currencies)),
            ts_now,
        ),
{
    broadcast use lemma_actions_empty;

    proof {
        use_type_invariant(&*seen);
    }
    let ghost before = at_rest(*state, *seen, *currencies);
    match msg {
        BinanceSpotWsTradingMessage::OrderAccepted { request_id } => {
            state.take_pending(request_id.as_str());
            Vec::new()
        },
        BinanceSpotWsTradingMessage::OrderRejected { request_id, code, msg } =>
            dispatch_place_rejection(context, state, Ghost(before), request_id, *code, msg, ts_now),
        BinanceSpotWsTradingMessage::OrderCanceled { request_id } => {
            state.take_pending(request_id.as_str());
            Vec::new()
        },
        BinanceSpotWsTradingMessage::CancelRejected { request_id, code, msg } =>
            dispatch_change_rejection(
                context,
                state,
                Ghost(before),
                request_id,
                *code,
                msg,
                ts_now,
                false,
            ),
        BinanceSpotWsTradingMessage::CancelReplaceAccepted { request_id } => {
            state.take_pending(request_id.as_str());
            Vec::new()
        },
        BinanceSpotWsTradingMessage::CancelReplaceRejected { request_id, code, msg } =>
            dispatch_change_rejection(
                context,
                state,
                Ghost(before),
                request_id,
                *code,
                msg,
                ts_now,
                true,
            ),
        BinanceSpotWsTradingMessage::RequestFailed { request_id, .. } => {
            state.take_pending(request_id.as_str());
            Vec::new()
        },
        BinanceSpotWsTradingMessage::AllOrdersCanceled { request_id } => {
            state.take_pending(request_id.as_str());
            Vec::new()
        },
        BinanceSpotWsTradingMessage::UserDataSubscribed => single(
            DispatchAction::NotifySubscribed,
        ),
        BinanceSpotWsTradingMessage::ExecutionReport(resolved) => dispatch_execution_report(
            resolved,
            context,
            state,
            seen,
            currencies,
            ts_now,
        ),
        BinanceSpotWsTradingMessage::AccountPosition => single(DispatchAction::AccountPosition),
        BinanceSpotWsTradingMessage::BalanceUpdate => single(DispatchAction::RefreshAccount),
        BinanceSpotWsTradingMessage::Connected => Vec::new(),
        BinanceSpotWsTradingMessage::Authenticated => single(DispatchAction::NotifyAuthenticated),
        BinanceSpotWsTradingMessage::Reconnected => Vec::new(),
        BinanceSpotWsTradingMessage::ServerShutdown { .. } => Vec::new(),
        BinanceSpotWsTradingMessage::Error(err) => single(DispatchAction::SetupError(err.clone())),
    }
}

} // verus!

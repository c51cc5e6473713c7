//! What holds of every report: each event says of its order what the client registered, and of what
//! happened what the venue reported.

use crate::commands::{prepared_as, ClientScope, CommandRefusal, SubmitOrder};
use crate::decimal::{parsed_decimal, pow10, DecimalValue};
use crate::dispatch::{
    message_outcome, report_outcome, untracked_outcome, BinanceSpotWsTradingMessage, ResolvedReport,
};
use crate::dispatch_state::{seen_after, DispatchView, OrderIdentity, PendingRequest, TradeKey};
use crate::enums::{BinanceSpotExecutionType, BinanceTimeInForce, LiquiditySide};
use crate::events::{EventKindView, OrderEvent, OrderEventKind};
use crate::identifiers::UnixNanos;
use crate::orders::Order;
use crate::reports::{
    acceptance, actions_view, field_warning, fill_outcome, read_decimal, read_price, read_quantity,
    replacement_action, replacement_fields, tracked_outcome, trade_fields, ActionView,
    BinanceSpotExecutionReport, DispatchAction, DispatchContext, Outcome, ReplacementFields,
    ReplacementView, ReportTerms, TermsView, TrackedOrder, TrackedView, TradeFields, TradeView,
};
use crate::text::int_text;
use crate::types::{money_raw_of, parsed_price, parsed_quantity, FieldError, Price, Quantity};
use crate::write_task::WriteTask;
use vstd::prelude::*;

verus! {

/// The announcement of an order is about that order, as the client registered it, and is made once.
pub proof fn law_acceptance_is_announced_once(
    context: DispatchContext,
    order: TrackedView,
    state: DispatchView,
    venue_order_id: Seq<char>,
    ts_event: UnixNanos,
    ts_init: UnixNanos,
)
    ensures
        ({
            let (after, actions) = acceptance(
                context,
                order,
                state,
                venue_order_id,
                ts_event,
                ts_init,
            );
            &&& after.accepted == state.accepted.insert(order.client_order_id)
            &&& after.order_identities == state.order_identities
            &&& after.pending_requests == state.pending_requests
            &&& after.filled == state.filled
            &&& state.accepted.contains(order.client_order_id) ==> actions.len() == 0
            &&& !state.accepted.contains(order.client_order_id) ==> actions.len() == 1 && (
            actions[0] matches ActionView::Event(e) && {
                &&& e.trader_id == context.trader_id.0@
                &&& e.account_id == context.account_id.0@
                &&& e.strategy_id == order.identity.strategy_id.0@
                &&& e.instrument_id.0 == order.identity.instrument_id.symbol@
                &&& e.instrument_id.1 == order.identity.instrument_id.venue@
                &&& e.client_order_id == order.client_order_id
                &&& e.ts_event == ts_event
                &&& e.ts_init == ts_init
                &&& e.kind == (EventKindView::Accepted { venue_order_id })
            })
        }),
{
    let (after, actions) = acceptance(context, order, state, venue_order_id, ts_event, ts_init);
    assert(after.accepted =~= state.accepted.insert(order.client_order_id));
}

/// What is logged of a report names the field, its symbol, its numbers, its order and what is wrong
/// with the field.
pub proof fn law_logged_field_is_named(
    report: BinanceSpotExecutionReport,
    field: Seq<char>,
    error: Seq<char>,
)
    ensures
        field_warning(report, field, error) == "Failed to parse Spot execution report "@ + field
            + " for symbol="@ + report.symbol@ + ", order_id="@ + int_text(report.order_id as int)
            + ", trade_id="@ + int_text(report.trade_id as int) + ", client_order_id="@
            + report.client_order_id@ + ": "@ + error,
{
}

/// A field of a report is read as the price, quantity or decimal that its text denotes, and what
/// keeps it from being read is logged under its name.
pub proof fn law_fields_are_read(
    report: BinanceSpotExecutionReport,
    raw: Seq<char>,
    precision: u8,
    field: Seq<char>,
)
    ensures
        match parsed_price(raw, precision) {
            Ok(v) => read_price(report, raw, precision, field) == Ok::<_, ActionView>(v),
            Err(e) => read_price(report, raw, precision, field) == Err::<Price, _>(
                ActionView::Warning(field_warning(report, field, e.text())),
            ),
        },
        match parsed_quantity(raw, precision) {
            Ok(v) => read_quantity(report, raw, precision, field) == Ok::<_, ActionView>(v),
            Err(e) => read_quantity(report, raw, precision, field) == Err::<Quantity, _>(
                ActionView::Warning(field_warning(report, field, e.text())),
            ),
        },
        match parsed_decimal(raw) {
            Some(v) => read_decimal(report, raw, field) == Ok::<_, ActionView>(v),
            None => read_decimal(report, raw, field) == Err::<DecimalValue, _>(
                ActionView::Warning(field_warning(report, field, FieldError::NotADecimal.text())),
            ),
        },
{
}

/// The fields of a trade are those of its report: what was filled last, at which price and
/// commission, and how much of the order is filled, in the digits of its instrument. A field that
/// cannot be read is named in what is logged.
pub proof fn law_trade_is_read_from_its_report(
    report: BinanceSpotExecutionReport,
    order: TrackedView,
)
    ensures
        ({
            let fields = trade_fields(report, order);
            let qty = parsed_quantity(report.last_filled_qty@, order.size_precision);
            let px = parsed_price(report.last_filled_price@, order.price_precision);
            let commission = parsed_decimal(report.commission@);
            let cumulative = parsed_decimal(report.cumulative_filled_qty@);
            let original = parsed_decimal(report.original_qty@);
            let unread = FieldError::NotADecimal.text();
            &&& fields.last_qty is Ok <==> qty is Ok
            &&& qty matches Ok(v) ==> fields.last_qty == Ok::<_, ActionView>(v)
            &&& qty matches Err(e) ==> (fields.last_qty->Err_0 matches ActionView::Warning(text)
                && text == field_warning(report, "last_filled_qty"@, e.text()))
            &&& fields.last_px is Ok <==> px is Ok
            &&& px matches Ok(v) ==> fields.last_px == Ok::<_, ActionView>(v)
            &&& px matches Err(e) ==> (fields.last_px->Err_0 matches ActionView::Warning(text)
                && text == field_warning(report, "last_filled_price"@, e.text()))
            &&& fields.commission is Ok <==> commission is Some
            &&& commission matches Some(v) ==> fields.commission == Ok::<_, ActionView>(v)
            &&& commission is None ==> (fields.commission->Err_0 matches ActionView::Warning(text)
                && text == field_warning(report, "commission"@, unread))
            &&& fields.cumulative_qty is Ok <==> cumulative is Some
            &&& cumulative matches Some(v) ==> fields.cumulative_qty == Ok::<_, ActionView>(v)
            &&& cumulative is None ==> (
            fields.cumulative_qty->Err_0 matches ActionView::Warning(text) && text == field_warning(
                report,
                "cumulative_filled_qty"@,
                unread,
            ))
            &&& fields.original_qty is Ok <==> original is Some
            &&& original matches Some(v) ==> fields.original_qty == Ok::<_, ActionView>(v)
            &&& original is None ==> (fields.original_qty->Err_0 matches ActionView::Warning(text)
                && text == field_warning(report, "original_qty"@, unread))
        }),
{
}

/// The fields of a replacement are those of its report, in the digits of its instrument.
pub proof fn law_replacement_is_read_from_its_report(
    report: BinanceSpotExecutionReport,
    order: TrackedView,
)
    ensures
        ({
            let fields = replacement_fields(report, order);
            let price = parsed_price(report.price@, order.price_precision);
            let quantity = parsed_quantity(report.original_qty@, order.size_precision);
            let stop = parsed_decimal(report.stop_price@);
            let trigger = parsed_price(report.stop_price@, order.price_precision);
            &&& fields.price is Ok <==> price is Ok
            &&& price matches Ok(v) ==> fields.price == Ok::<_, ActionView>(v)
            &&& price matches Err(e) ==> (fields.price->Err_0 matches ActionView::Warning(text)
                && text == field_warning(report, "price"@, e.text()))
            &&& fields.quantity is Ok <==> quantity is Ok
            &&& quantity matches Ok(v) ==> fields.quantity == Ok::<_, ActionView>(v)
            &&& quantity matches Err(e) ==> (fields.quantity->Err_0 matches ActionView::Warning(
                text,
            ) && text == field_warning(report, "original_qty"@, e.text()))
            &&& fields.stop_price is Ok <==> stop is Some
            &&& stop matches Some(v) ==> fields.stop_price == Ok::<_, ActionView>(v)
            &&& stop is None ==> (fields.stop_price->Err_0 matches ActionView::Warning(text)
                && text == field_warning(report, "stop_price"@, FieldError::NotADecimal.text()))
            &&& fields.trigger_price is Ok <==> trigger is Ok
            &&& trigger matches Ok(v) ==> fields.trigger_price == Ok::<_, ActionView>(v)
            &&& trigger matches Err(e) ==> (
            fields.trigger_price->Err_0 matches ActionView::Warning(text) && text == field_warning(
                report,
                "stop_price"@,
                e.text(),
            ))
        }),
{
}

/// A fill whose fields are read is reported as it was traded: on the side and with the type that
/// the client registered for the order, in the quantity and at the price of the trade, under the
/// numbers of the order and the trade, as maker or taker, with the commission in its currency, and
/// when the venue says it happened. It follows the announcement of the order, where that was not
/// made, and comes before what is logged of the order's quantities.
pub proof fn law_readable_fill_is_reported(
    report: BinanceSpotExecutionReport,
    fields: TradeView,
    context: DispatchContext,
    order: TrackedView,
    before: DispatchView,
    known: Map<Seq<char>, u8>,
    ts_init: UnixNanos,
)
    requires
        fields.last_qty is Ok,
        fields.last_px is Ok,
        fields.commission is Ok,
    ensures
        ({
            let (after, currencies, actions) = fill_outcome(
                report,
                fields,
                context,
                order,
                before,
                known,
                ts_init,
            );
            let id = order.client_order_id;
            let k: int = if before.accepted.contains(id) {
                0
            } else {
                1
            };
            let code = match report.commission_asset {
                Some(asset) => asset@,
                None => "USDT"@,
            };
            let digits: u8 = if report.commission_asset is Some && known.contains_key(code) {
                known[code]
            } else {
                8
            };
            let raw = money_raw_of(fields.commission->Ok_0, digits);
            let w: int = if fields.cumulative_qty is Err {
                1
            } else {
                0
            };
            &&& k == 1 ==> actions[0] == acceptance(
                context,
                order,
                before,
                int_text(report.order_id as int),
                ts_init,
                ts_init,
            ).1[0]
            &&& currencies == if report.commission_asset is Some {
                known.insert(code, digits)
            } else {
                known
            }
            &&& raw is Ok ==> {
                &&& actions.len() == k + 1 + w + if fields.original_qty is Err {
                    1int
                } else {
                    0int
                }
                &&& actions[k] matches ActionView::Event(e) && {
                    &&& e.trader_id == context.trader_id.0@
                    &&& e.account_id == context.account_id.0@
                    &&& e.strategy_id == order.identity.strategy_id.0@
                    &&& e.instrument_id == order.instrument_id
                    &&& e.client_order_id == id
                    &&& 0 <= report.event_time && report.event_time * 1_000_000 <= u64::MAX
                        ==> e.ts_event.0 == report.event_time * 1_000_000
                    &&& e.ts_init == ts_init
                    &&& e.kind matches EventKindView::Filled {
                        venue_order_id,
                        trade_id,
                        order_side,
                        order_type,
                        last_qty,
                        last_px,
                        currency,
                        currency_precision,
                        liquidity_side,
                        commission_raw,
                        commission_currency,
                        commission_precision,
                    } && {
                        &&& venue_order_id == int_text(report.order_id as int)
                        &&& trade_id == int_text(report.trade_id as int)
                        &&& order_side == order.identity.order_side
                        &&& order_type == order.identity.order_type
                        &&& last_qty == fields.last_qty->Ok_0
                        &&& last_px == fields.last_px->Ok_0
                        &&& currency == code
                        &&& currency_precision == digits
                        &&& report.is_maker ==> liquidity_side == LiquiditySide::Maker
                        &&& !report.is_maker ==> liquidity_side == LiquiditySide::Taker
                        &&& commission_raw == raw->Ok_0
                        &&& commission_currency == code
                        &&& commission_precision == digits
                    }
                }
                &&& w == 1 ==> actions[k + 1] == fields.cumulative_qty->Err_0
                &&& fields.original_qty is Err ==> actions[k + 1 + w] == fields.original_qty->Err_0
            }
            &&& raw matches Err(e) ==> actions.len() == k + 1 && (
            actions[k] matches ActionView::Warning(text) && text
                =~= "Failed to build Spot commission money for symbol="@ + report.symbol@
                + ", order_id="@ + int_text(report.order_id as int) + ", trade_id="@ + int_text(
                report.trade_id as int,
            ) + ": "@ + e.text())
        }),
{
    let (after, currencies, actions) = fill_outcome(
        report,
        fields,
        context,
        order,
        before,
        known,
        ts_init,
    );
    if report.commission_asset is Some {
        let code = (report.commission_asset->0)@;
        assert(currencies =~= known.insert(
            code,
            if known.contains_key(code) {
                known[code]
            } else {
                8
            },
        ));
    }
}

/// A trade with a field that cannot be read is logged, once the order is announced, and nothing
/// else comes of it.
pub proof fn law_unreadable_fill_is_logged(
    report: BinanceSpotExecutionReport,
    fields: TradeView,
    context: DispatchContext,
    order: TrackedView,
    before: DispatchView,
    known: Map<Seq<char>, u8>,
    ts_init: UnixNanos,
)
    requires
        fields.last_qty is Err || fields.last_px is Err || fields.commission is Err,
    ensures
        ({
            let (after, currencies, actions) = fill_outcome(
                report,
                fields,
                context,
                order,
                before,
                known,
                ts_init,
            );
            let k: int = if before.accepted.contains(order.client_order_id) {
                0
            } else {
                1
            };
            &&& actions.len() == k + 1
            &&& actions[k] == if fields.last_qty is Err {
                fields.last_qty->Err_0
            } else if fields.last_px is Err {
                fields.last_px->Err_0
            } else {
                fields.commission->Err_0
            }
            &&& k == 1 ==> actions[0] == acceptance(
                context,
                order,
                before,
                int_text(report.order_id as int),
                ts_init,
                ts_init,
            ).1[0]
            &&& currencies == known
            &&& after.order_identities == before.order_identities
            &&& after.filled == before.filled
        }),
{
}

/// What a fill leaves: the order counts as announced, and as filled once its fill is reported; and
/// it is forgotten exactly when the fill is reported and the filled quantity has reached that of
/// the order.
pub proof fn law_fill_forgets_a_complete_order(
    report: BinanceSpotExecutionReport,
    fields: TradeView,
    context: DispatchContext,
    order: TrackedView,
    before: DispatchView,
    known: Map<Seq<char>, u8>,
    ts_init: UnixNanos,
)
    ensures
        ({
            let (after, _, actions) = fill_outcome(
                report,
                fields,
                context,
                order,
                before,
                known,
                ts_init,
            );
            let id = order.client_order_id;
            let code = match report.commission_asset {
                Some(asset) => asset@,
                None => "USDT"@,
            };
            let digits: u8 = if report.commission_asset is Some && known.contains_key(code) {
                known[code]
            } else {
                8
            };
            let reported = fields.last_qty is Ok && fields.last_px is Ok && fields.commission is Ok
                && money_raw_of(fields.commission->Ok_0, digits) is Ok;
            let done = reported && (fields.original_qty matches Ok(original) && (
            fields.cumulative_qty matches Ok(cumulative) && original.mantissa * pow10(
                cumulative.scale as nat,
            ) <= cumulative.mantissa * pow10(original.scale as nat)));
            &&& after.pending_requests == before.pending_requests
            &&& after.filled == if reported {
                before.filled.insert(id)
            } else {
                before.filled
            }
            &&& after.order_identities == if done {
                before.order_identities.remove(id)
            } else {
                before.order_identities
            }
            &&& after.accepted == if done {
                before.accepted.remove(id)
            } else {
                before.accepted.insert(id)
            }
        }),
{
    let (after, _, actions) = fill_outcome(
        report,
        fields,
        context,
        order,
        before,
        known,
        ts_init,
    );
    let id = order.client_order_id;
    assert(before.accepted.insert(id).remove(id) =~= before.accepted.remove(id));
    if before.accepted.contains(id) {
        assert(before.accepted.insert(id) =~= before.accepted);
    }
}

/// A trade of a tracked order is dispatched once: one that was seen before changes nothing, and a
/// new one is remembered and leads to its fill.
pub proof fn law_trade_leads_to_its_fill(
    report: BinanceSpotExecutionReport,
    context: DispatchContext,
    order: TrackedView,
    before: Outcome,
    ts_init: UnixNanos,
)
    requires
        report.execution_type == BinanceSpotExecutionType::Trade,
    ensures
        ({
            let after = tracked_outcome(report, context, order, before, ts_init);
            let trade = (report.symbol@, report.trade_id);
            &&& after.seen == seen_after(before.seen, trade)
            &&& before.seen.contains(trade) ==> after.actions.len() == 0 && after.state
                == before.state && after.currencies == before.currencies
            &&& !before.seen.contains(trade) ==> (after.state, after.currencies, after.actions)
                == fill_outcome(
                report,
                trade_fields(report, order),
                context,
                order,
                before.state,
                before.currencies,
                ts_init,
            )
        }),
{
}

/// The replacement of an order is reported as its update: with the quantity and price that were
/// read, and the trigger if the stop price is positive. The first field that cannot be read is
/// logged instead.
pub proof fn law_replacement_is_reported(
    report: BinanceSpotExecutionReport,
    fields: ReplacementView,
    context: DispatchContext,
    order: TrackedView,
    ts_init: UnixNanos,
)
    ensures
        ({
            let action = replacement_action(report, fields, context, order, ts_init);
            let stopped = fields.stop_price is Ok && fields.stop_price->Ok_0.mantissa > 0;
            if fields.price is Err {
                action == fields.price->Err_0
            } else if fields.quantity is Err {
                action == fields.quantity->Err_0
            } else if fields.stop_price is Err {
                action == fields.stop_price->Err_0
            } else if stopped && fields.trigger_price is Err {
                action == fields.trigger_price->Err_0
            } else {
                action matches ActionView::Event(e) && {
                    &&& e.trader_id == context.trader_id.0@
                    &&& e.account_id == context.account_id.0@
                    &&& e.strategy_id == order.identity.strategy_id.0@
                    &&& e.instrument_id.0 == order.identity.instrument_id.symbol@
                    &&& e.instrument_id.1 == order.identity.instrument_id.venue@
                    &&& e.client_order_id == order.client_order_id
                    &&& 0 <= report.event_time && report.event_time * 1_000_000 <= u64::MAX
                        ==> e.ts_event.0 == report.event_time * 1_000_000
                    &&& e.ts_init == ts_init
                    &&& e.kind matches EventKindView::Updated {
                        venue_order_id,
                        quantity,
                        price,
                        trigger_price,
                    } && {
                        &&& venue_order_id == Some(int_text(report.order_id as int))
                        &&& quantity == fields.quantity->Ok_0
                        &&& price == Some(fields.price->Ok_0)
                        &&& trigger_price is Some <==> stopped
                        &&& stopped ==> trigger_price == Some(fields.trigger_price->Ok_0)
                    }
                }
            }
        }),
{
}

/// A report that an order is new does nothing once the order has filled, updates an order that was
/// announced, and announces any other, as of when the venue says.
pub proof fn law_new_report_announces_or_updates(
    report: BinanceSpotExecutionReport,
    context: DispatchContext,
    order: TrackedView,
    before: Outcome,
    ts_init: UnixNanos,
)
    requires
        report.execution_type == BinanceSpotExecutionType::New,
        0 <= report.event_time && report.event_time * 1_000_000 <= u64::MAX,
    ensures
        ({
            let after = tracked_outcome(report, context, order, before, ts_init);
            let id = order.client_order_id;
            let instant = UnixNanos((report.event_time * 1_000_000) as u64);
            &&& after.seen == before.seen
            &&& after.currencies == before.currencies
            &&& before.state.filled.contains(id) ==> after.actions.len() == 0 && after.state
                == before.state
            &&& !before.state.filled.contains(id) && before.state.accepted.contains(id)
                ==> after.state == before.state && after.actions.len() == 1 && after.actions[0]
                == replacement_action(
                report,
                replacement_fields(report, order),
                context,
                order,
                ts_init,
            )
            &&& !before.state.filled.contains(id) && !before.state.accepted.contains(id) ==> (
                after.state,
                after.actions,
            ) == acceptance(
                context,
                order,
                before.state,
                int_text(report.order_id as int),
                instant,
                ts_init,
            )
        }),
{
}

/// The end of an order is reported, after its announcement where that was not made, and the order
/// is forgotten: a cancel and a prevented trade as canceled, an expiry as expired unless the client
/// asked for it to be told as canceled.
pub proof fn law_end_is_reported_and_forgotten(
    report: BinanceSpotExecutionReport,
    context: DispatchContext,
    order: TrackedView,
    before: Outcome,
    ts_init: UnixNanos,
)
    requires
        report.execution_type == BinanceSpotExecutionType::Canceled || report.execution_type
            == BinanceSpotExecutionType::TradePrevention || report.execution_type
            == BinanceSpotExecutionType::Expired,
        0 <= report.event_time && report.event_time * 1_000_000 <= u64::MAX,
    ensures
        ({
            let after = tracked_outcome(report, context, order, before, ts_init);
            let id = order.client_order_id;
            let k: int = if before.state.accepted.contains(id) {
                0
            } else {
                1
            };
            &&& after.seen == before.seen
            &&& after.currencies == before.currencies
            &&& after.state.order_identities == before.state.order_identities.remove(id)
            &&& after.state.accepted == before.state.accepted.remove(id)
            &&& after.state.filled == before.state.filled
            &&& after.state.pending_requests == before.state.pending_requests
            &&& after.actions.len() == k + 1
            &&& k == 1 ==> after.actions[0] == acceptance(
                context,
                order,
                before.state,
                int_text(report.order_id as int),
                ts_init,
                ts_init,
            ).1[0]
            &&& after.actions[k] matches ActionView::Event(e) && {
                &&& e.trader_id == context.trader_id.0@
                &&& e.account_id == context.account_id.0@
                &&& e.strategy_id == order.identity.strategy_id.0@
                &&& e.instrument_id.0 == order.identity.instrument_id.symbol@
                &&& e.instrument_id.1 == order.identity.instrument_id.venue@
                &&& e.client_order_id == id
                &&& e.ts_event.0 == report.event_time * 1_000_000
                &&& e.ts_init == ts_init
                &&& if report.execution_type == BinanceSpotExecutionType::Expired
                    && !context.treat_expired_as_canceled {
                    e.kind == (EventKindView::Expired {
                        venue_order_id: Some(int_text(report.order_id as int)),
                    })
                } else {
                    e.kind == (EventKindView::Canceled {
                        venue_order_id: Some(int_text(report.order_id as int)),
                    })
                }
            }
        }),
{
    let id = order.client_order_id;
    assert(before.state.accepted.insert(id).remove(id) =~= before.state.accepted.remove(id));
}

/// A rejected order is reported as such, with the reason that the venue gives, and forgotten,
/// without being announced. It was rejected for being post-only if it was to cancel rather than
/// cross, or rested only and was rejected for no other reason.
pub proof fn law_rejection_is_reported_and_forgotten(
    report: BinanceSpotExecutionReport,
    context: DispatchContext,
    order: TrackedView,
    before: Outcome,
    ts_init: UnixNanos,
)
    requires
        report.execution_type == BinanceSpotExecutionType::Rejected,
    ensures
        ({
            let after = tracked_outcome(report, context, order, before, ts_init);
            let id = order.client_order_id;
            &&& after.seen == before.seen
            &&& after.currencies == before.currencies
            &&& after.state.order_identities == before.state.order_identities.remove(id)
            &&& after.state.accepted == before.state.accepted.remove(id)
            &&& after.state.filled == before.state.filled
            &&& after.state.pending_requests == before.state.pending_requests
            &&& after.actions.len() == 1
            &&& after.actions[0] matches ActionView::Event(e) && {
                &&& e.trader_id == context.trader_id.0@
                &&& e.account_id == context.account_id.0@
                &&& e.strategy_id == order.identity.strategy_id.0@
                &&& e.instrument_id.0 == order.identity.instrument_id.symbol@
                &&& e.instrument_id.1 == order.identity.instrument_id.venue@
                &&& e.client_order_id == id
                &&& e.ts_event == ts_init
                &&& e.ts_init == ts_init
                &&& e.kind matches EventKindView::Rejected { reason, due_post_only } && {
                    &&& report.reject_reason@.len() == 0 ==> reason == "Order rejected by venue"@
                    &&& report.reject_reason@.len() > 0 ==> reason == report.reject_reason@
                    &&& due_post_only <==> {
                        ||| report.time_in_force == BinanceTimeInForce::Gtx
                        ||| report.order_type@ == "LIMIT_MAKER"@ && (report.reject_reason@.len()
                            == 0 || report.reject_reason@ == "NONE"@)
                    }
                }
            }
        }),
{
}

/// A report that an order was replaced does nothing: the new order is reported on its own.
pub proof fn law_replaced_report_does_nothing(
    report: BinanceSpotExecutionReport,
    context: DispatchContext,
    order: TrackedView,
    before: Outcome,
    ts_init: UnixNanos,
)
    requires
        report.execution_type == BinanceSpotExecutionType::Replaced,
    ensures
        ({
            let after = tracked_outcome(report, context, order, before, ts_init);
            &&& after.actions.len() == 0
            &&& after.state == before.state
            &&& after.seen == before.seen
            &&& after.currencies == before.currencies
        }),
{
}

/// A report about an order that the client does not track leads to no order event and changes no
/// order. It is published as an order status report, and a new trade as a fill report after that,
/// or what kept it from being read is logged. A trade that was seen before leads to nothing.
pub proof fn law_untracked_report_is_published(
    report: BinanceSpotExecutionReport,
    terms: TermsView,
    treat_expired_as_canceled: bool,
    status_parse: Result<(), String>,
    fill_parse: Result<(), String>,
    before: Outcome,
)
    ensures
        ({
            let after = untracked_outcome(
                report,
                terms,
                treat_expired_as_canceled,
                status_parse,
                fill_parse,
                before,
            );
            let traded = report.execution_type == BinanceSpotExecutionType::Trade;
            let trade = (report.symbol@, report.trade_id);
            &&& after.state == before.state
            &&& after.currencies == before.currencies
            &&& after.seen == if traded {
                seen_after(before.seen, trade)
            } else {
                before.seen
            }
            &&& traded && before.seen.contains(trade) ==> after.actions.len() == 0
            &&& !(traded && before.seen.contains(trade)) ==> {
                &&& after.actions.len() == if traded {
                    2int
                } else {
                    1int
                }
                &&& match status_parse {
                    Ok(_) => after.actions[0] == (ActionView::OrderStatusReport {
                        terms,
                        treat_expired_as_canceled,
                    }),
                    Err(e) => after.actions[0] == ActionView::Error(
                        "Failed to parse order status report: "@ + e@,
                    ),
                }
                &&& traded ==> match fill_parse {
                    Ok(_) => after.actions[1] == (ActionView::FillReport { terms }),
                    Err(e) => after.actions[1] == ActionView::Error(
                        "Failed to parse fill report: "@ + e@,
                    ),
                }
            }
        }),
{
}

/// A report is about a tracked order exactly when the client registered the order that it names.
/// Its instrument is its symbol at the venue, in the digits that are known of it, or eight.
pub proof fn law_report_is_told_by_its_order(
    resolved: ResolvedReport,
    context: DispatchContext,
    before: Outcome,
    ts_init: UnixNanos,
)
    ensures
        ({
            let after = report_outcome(resolved, context, before, ts_init);
            let id = resolved.client_order_id.0@;
            let instrument = (resolved.report.symbol@, "BINANCE"@);
            let price_digits: u8 = if resolved.precisions is Some {
                (resolved.precisions->0).0
            } else {
                8
            };
            let size_digits: u8 = if resolved.precisions is Some {
                (resolved.precisions->0).1
            } else {
                8
            };
            if before.state.order_identities.contains_key(id) {
                after == tracked_outcome(
                    resolved.report,
                    context,
                    TrackedView {
                        client_order_id: id,
                        identity: before.state.order_identities[id],
                        instrument_id: instrument,
                        price_precision: price_digits,
                        size_precision: size_digits,
                    },
                    before,
                    ts_init,
                )
            } else {
                after == untracked_outcome(
                    resolved.report,
                    TermsView {
                        instrument_id: instrument,
                        price_precision: price_digits,
                        size_precision: size_digits,
                        account_id: context.account_id.0@,
                        ts_init,
                    },
                    context.treat_expired_as_canceled,
                    resolved.status_parse,
                    resolved.fill_parse,
                    before,
                )
            }
        }),
{
}

/// Every fill that is reported is one of an order that the client registered, on the side, with the
/// type and for the strategy that it registered, and of a trade that was not seen before, in the
/// quantity and at the price that its report gives.
pub proof fn law_fill_is_that_of_the_registered_order(
    resolved: ResolvedReport,
    context: DispatchContext,
    before: Outcome,
    ts_init: UnixNanos,
    i: int,
)
    requires
        0 <= i < report_outcome(resolved, context, before, ts_init).actions.len(),
        report_outcome(resolved, context, before, ts_init).actions[i] matches ActionView::Event(e)
            && e.kind is Filled,
    ensures
        ({
            let report = resolved.report;
            let id = resolved.client_order_id.0@;
            let identity = before.state.order_identities[id];
            let e = report_outcome(resolved, context, before, ts_init).actions[i]->Event_0;
            let price_digits: u8 = if resolved.precisions is Some {
                (resolved.precisions->0).0
            } else {
                8
            };
            let size_digits: u8 = if resolved.precisions is Some {
                (resolved.precisions->0).1
            } else {
                8
            };
            &&& report.execution_type == BinanceSpotExecutionType::Trade
            &&& !before.seen.contains((report.symbol@, report.trade_id))
            &&& before.state.order_identities.contains_key(id)
            &&& e.client_order_id == id
            &&& e.strategy_id == identity.strategy_id.0@
            &&& e.instrument_id.0 == report.symbol@
            &&& e.instrument_id.1 == "BINANCE"@
            &&& e.kind matches EventKindView::Filled {
                venue_order_id,
                trade_id,
                order_side,
                order_type,
                last_qty,
                last_px,
                liquidity_side,
                ..
            } && {
                &&& order_side == identity.order_side
                &&& order_type == identity.order_type
                &&& parsed_quantity(report.last_filled_qty@, size_digits) == Ok::<_, FieldError>(
                    last_qty,
                )
                &&& parsed_price(report.last_filled_price@, price_digits) == Ok::<_, FieldError>(
                    last_px,
                )
                &&& venue_order_id == int_text(report.order_id as int)
                &&& trade_id == int_text(report.trade_id as int)
                &&& liquidity_side == LiquiditySide::Maker <==> report.is_maker
                &&& liquidity_side == LiquiditySide::Taker <==> !report.is_maker
            }
        }),
{
}

/// From the command to the fill: whatever is reported filled of an order that a submission
/// prepared is filled on the side and with the type of that order, for its strategy.
pub proof fn law_submitted_order_fills_on_its_side(
    r: Result<WriteTask, CommandRefusal>,
    unregistered: DispatchView,
    scope: ClientScope,
    cmd: SubmitOrder,
    order: Order,
    ts_command: UnixNanos,
    resolved: ResolvedReport,
    context: DispatchContext,
    before: Outcome,
    ts_init: UnixNanos,
    i: int,
)
    requires
        r is Ok,
        prepared_as(r, before.state, unregistered, scope, cmd, Ok(&order), ts_command),
        resolved.client_order_id.0@ == order.client_order_id.0@,
        0 <= i < report_outcome(resolved, context, before, ts_init).actions.len(),
        report_outcome(resolved, context, before, ts_init).actions[i] matches ActionView::Event(e)
            && e.kind is Filled,
    ensures
        ({
            let e = report_outcome(resolved, context, before, ts_init).actions[i]->Event_0;
            &&& e.client_order_id == order.client_order_id.0@
            &&& e.strategy_id == order.strategy_id.0@
            &&& e.kind->order_side == order.order_side
            &&& e.kind->order_type == order.order_type
        }),
{
    law_fill_is_that_of_the_registered_order(resolved, context, before, ts_init, i);
}

/// A placement that the venue rejects is rejected exactly once, and the order is forgotten, unless
/// the code is one of the two that leave the outcome open; then the order stays as it was. Either
/// way the request is answered. A request or an order that is not known leads to nothing.
pub proof fn law_rejected_placement_ends_its_order(
    context: DispatchContext,
    before: Outcome,
    request_id: String,
    code: i32,
    msg: String,
    ts_now: UnixNanos,
)
    ensures
        ({
            let after = message_outcome(
                BinanceSpotWsTradingMessage::OrderRejected { request_id, code, msg },
                context,
                before,
                ts_now,
            );
            let pending = before.state.pending_requests[request_id@];
            let id = pending.client_order_id.0@;
            let known = before.state.pending_requests.contains_key(request_id@)
                && before.state.order_identities.contains_key(id);
            let open = code == -1006 || code == -1007;
            &&& after.seen == before.seen
            &&& after.currencies == before.currencies
            &&& after.state.filled == before.state.filled
            &&& after.state.pending_requests == before.state.pending_requests.remove(request_id@)
            &&& !known || open ==> {
                &&& after.actions.len() == 0
                &&& after.state.order_identities == before.state.order_identities
                &&& after.state.accepted == before.state.accepted
            }
            &&& known && !open ==> {
                &&& after.state.order_identities == before.state.order_identities.remove(id)
                &&& !after.state.order_identities.contains_key(id)
                &&& after.state.accepted == before.state.accepted.remove(id)
                &&& after.actions.len() == 1
                &&& after.actions[0] matches ActionView::Event(e) && {
                    &&& e.trader_id == context.trader_id.0@
                    &&& e.account_id == context.account_id.0@
                    &&& e.strategy_id == before.state.order_identities[id].strategy_id.0@
                    &&& e.instrument_id.0
                        == before.state.order_identities[id].instrument_id.symbol@
                    &&& e.instrument_id.1 == before.state.order_identities[id].instrument_id.venue@
                    &&& e.client_order_id == id
                    &&& e.ts_event == ts_now
                    &&& e.ts_init == ts_now
                    &&& e.kind matches EventKindView::Rejected { reason, due_post_only } && {
                        &&& reason == "code="@ + int_text(code as int) + ": "@ + msg@
                        &&& due_post_only <==> code == -5022 || (code == -2010 && msg@
                            == "Order would immediately match and take."@)
                    }
                }
            }
        }),
{
}

/// A cancel or a replacement that the venue rejects is reported as such, whatever the code, and the
/// order stays as it was. A request or an order that is not known leads to nothing.
pub proof fn law_rejected_change_keeps_its_order(
    context: DispatchContext,
    before: Outcome,
    request_id: String,
    code: i32,
    msg: String,
    ts_now: UnixNanos,
    replaces: bool,
)
    ensures
        ({
            let message = if replaces {
                BinanceSpotWsTradingMessage::CancelReplaceRejected { request_id, code, msg }
            } else {
                BinanceSpotWsTradingMessage::CancelRejected { request_id, code, msg }
            };
            let after = message_outcome(message, context, before, ts_now);
            let pending = before.state.pending_requests[request_id@];
            let id = pending.client_order_id.0@;
            let known = before.state.pending_requests.contains_key(request_id@)
                && before.state.order_identities.contains_key(id);
            let said = "code="@ + int_text(code as int) + ": "@ + msg@;
            let named = match pending.venue_order_id {
                Some(named) => Some(named.0@),
                None => None,
            };
            &&& after.seen == before.seen
            &&& after.currencies == before.currencies
            &&& after.state.filled == before.state.filled
            &&& after.state.pending_requests == before.state.pending_requests.remove(request_id@)
            &&& after.state.order_identities == before.state.order_identities
            &&& after.state.accepted == before.state.accepted
            &&& !known ==> after.actions.len() == 0
            &&& known ==> {
                &&& after.actions.len() == 1
                &&& after.actions[0] matches ActionView::Event(e) && {
                    &&& e.trader_id == context.trader_id.0@
                    &&& e.account_id == context.account_id.0@
                    &&& e.strategy_id == before.state.order_identities[id].strategy_id.0@
                    &&& e.instrument_id.0
                        == before.state.order_identities[id].instrument_id.symbol@
                    &&& e.instrument_id.1 == before.state.order_identities[id].instrument_id.venue@
                    &&& e.client_order_id == id
                    &&& e.ts_event == ts_now
                    &&& e.ts_init == ts_now
                    &&& if replaces {
                        e.kind matches EventKindView::ModifyRejected { reason, venue_order_id }
                            && reason == said && venue_order_id == named
                    } else {
                        e.kind matches EventKindView::CancelRejected { reason, venue_order_id }
                            && reason == said && venue_order_id == named
                    }
                }
            }
        }),
{
}

/// An answer that a request was accepted, carried out or failed answers the request and does
/// nothing else.
pub proof fn law_answer_clears_its_request(
    message: BinanceSpotWsTradingMessage,
    request_id: Seq<char>,
    context: DispatchContext,
    before: Outcome,
    ts_now: UnixNanos,
)
    requires
        match message {
            BinanceSpotWsTradingMessage::OrderAccepted { request_id: r } => r@ == request_id,
            BinanceSpotWsTradingMessage::OrderCanceled { request_id: r } => r@ == request_id,
            BinanceSpotWsTradingMessage::CancelReplaceAccepted { request_id: r } => r@
                == request_id,
            BinanceSpotWsTradingMessage::RequestFailed { request_id: r, .. } => r@ == request_id,
            BinanceSpotWsTradingMessage::AllOrdersCanceled { request_id: r } => r@ == request_id,
            _ => false,
        },
    ensures
        ({
            let after = message_outcome(message, context, before, ts_now);
            &&& after.actions == before.actions
            &&& after.seen == before.seen
            &&& after.currencies == before.currencies
            &&& after.state.pending_requests == before.state.pending_requests.remove(request_id)
            &&& after.state.order_identities == before.state.order_identities
            &&& after.state.accepted == before.state.accepted
            &&& after.state.filled == before.state.filled
        }),
{
}

/// What any other message calls for: each wakes who waits for it, asks for the account, passes the
/// failure of the connection on, or does nothing; and an execution report is dispatched as such.
pub proof fn law_other_messages_only_act(
    message: BinanceSpotWsTradingMessage,
    context: DispatchContext,
    before: Outcome,
    ts_now: UnixNanos,
)
    ensures
        ({
            let after = message_outcome(message, context, before, ts_now);
            let kept = after.state == before.state && after.seen == before.seen && after.currencies
                == before.currencies;
            match message {
                BinanceSpotWsTradingMessage::ExecutionReport(resolved) => after == report_outcome(
                    *resolved,
                    context,
                    before,
                    ts_now,
                ),
                BinanceSpotWsTradingMessage::UserDataSubscribed => kept && after.actions == seq![
                    ActionView::NotifySubscribed,
                ],
                BinanceSpotWsTradingMessage::Authenticated => kept && after.actions == seq![
                    ActionView::NotifyAuthenticated,
                ],
                BinanceSpotWsTradingMessage::AccountPosition => kept && after.actions == seq![
                    ActionView::AccountPosition,
                ],
                BinanceSpotWsTradingMessage::BalanceUpdate => kept && after.actions == seq![
                    ActionView::RefreshAccount,
                ],
                BinanceSpotWsTradingMessage::Error(text) => kept && after.actions == seq![
                    ActionView::SetupError(text@),
                ],
                BinanceSpotWsTradingMessage::Connected => after == before,
                BinanceSpotWsTradingMessage::Reconnected => after == before,
                BinanceSpotWsTradingMessage::ServerShutdown { .. } => after == before,
                _ => true,
            }
        }),
{
}

/// Each step of what is remembered changes what it names and nothing else.
pub proof fn law_state_steps(
    state: DispatchView,
    id: Seq<char>,
    identity: OrderIdentity,
    request: PendingRequest,
)
    ensures
        DispatchView::empty().order_identities.dom() == Set::<Seq<char>>::empty(),
        DispatchView::empty().pending_requests.dom() == Set::<Seq<char>>::empty(),
        DispatchView::empty().accepted == Set::<Seq<char>>::empty(),
        DispatchView::empty().filled == Set::<Seq<char>>::empty(),
        state.registered(id, identity) == (DispatchView {
            order_identities: state.order_identities.insert(id, identity),
            pending_requests: state.pending_requests,
            accepted: state.accepted,
            filled: state.filled,
        }),
        state.requested(id, request) == (DispatchView {
            order_identities: state.order_identities,
            pending_requests: state.pending_requests.insert(id, request),
            accepted: state.accepted,
            filled: state.filled,
        }),
        state.answered(id) == (DispatchView {
            order_identities: state.order_identities,
            pending_requests: state.pending_requests.remove(id),
            accepted: state.accepted,
            filled: state.filled,
        }),
        state.with_accepted(id) == (DispatchView {
            order_identities: state.order_identities,
            pending_requests: state.pending_requests,
            accepted: state.accepted.insert(id),
            filled: state.filled,
        }),
        state.with_filled(id) == (DispatchView {
            order_identities: state.order_identities,
            pending_requests: state.pending_requests,
            accepted: state.accepted,
            filled: state.filled.insert(id),
        }),
        state.without_order(id) == (DispatchView {
            order_identities: state.order_identities.remove(id),
            pending_requests: state.pending_requests,
            accepted: state.accepted.remove(id),
            filled: state.filled,
        }),
{
}

/// A trade is remembered once, last; when ten thousand are remembered, the first of them makes
/// room for it.
pub proof fn law_trades_are_remembered_in_turn(seen: Seq<TradeKey>, key: TradeKey)
    ensures
        seen.contains(key) ==> seen_after(seen, key) == seen,
        !seen.contains(key) && seen.len() < 10_000 ==> seen_after(seen, key) == seen.push(key),
        !seen.contains(key) && seen.len() >= 10_000 ==> {
            &&& seen_after(seen, key).len() == seen.len()
            &&& seen_after(seen, key).last() == key
            &&& forall|i: int|
                0 <= i < seen.len() - 1 ==> #[trigger] seen_after(seen, key)[i] == seen[i + 1]
        },
{
}

/// An event that is sent is the one that is spoken of.
pub proof fn law_sent_event_is_kept(event: OrderEvent)
    ensures
        event@.trader_id == event.trader_id.0@,
        event@.strategy_id == event.strategy_id.0@,
        event@.instrument_id.0 == event.instrument_id.symbol@,
        event@.instrument_id.1 == event.instrument_id.venue@,
        event@.client_order_id == event.client_order_id.0@,
        event@.account_id == event.account_id.0@,
        event@.ts_event == event.ts_event,
        event@.ts_init == event.ts_init,
        event.kind matches OrderEventKind::Accepted { venue_order_id } ==> event@.kind == (
        EventKindView::Accepted { venue_order_id: venue_order_id.0@ }),
        event.kind matches OrderEventKind::Rejected { reason, due_post_only } ==> event@.kind == (
        EventKindView::Rejected { reason: reason@, due_post_only }),
        event.kind matches OrderEventKind::Canceled { venue_order_id } ==> (
        event@.kind matches EventKindView::Canceled { venue_order_id: v } && match venue_order_id {
            Some(id) => v == Some(id.0@),
            None => v is None,
        }),
        event.kind matches OrderEventKind::Expired { venue_order_id } ==> (
        event@.kind matches EventKindView::Expired { venue_order_id: v } && match venue_order_id {
            Some(id) => v == Some(id.0@),
            None => v is None,
        }),
        event.kind matches OrderEventKind::CancelRejected { reason, venue_order_id } ==> (
        event@.kind matches EventKindView::CancelRejected { reason: r, venue_order_id: v } && r
            == reason@ && match venue_order_id {
            Some(id) => v == Some(id.0@),
            None => v is None,
        }),
        event.kind matches OrderEventKind::ModifyRejected { reason, venue_order_id } ==> (
        event@.kind matches EventKindView::ModifyRejected { reason: r, venue_order_id: v } && r
            == reason@ && match venue_order_id {
            Some(id) => v == Some(id.0@),
            None => v is None,
        }),
        event.kind matches OrderEventKind::Updated {
            venue_order_id,
            quantity,
            price,
            trigger_price,
        } ==> (event@.kind matches EventKindView::Updated {
            venue_order_id: v,
            quantity: q,
            price: p,
            trigger_price: t,
        } && q == quantity && p == price && t == trigger_price && match venue_order_id {
            Some(id) => v == Some(id.0@),
            None => v is None,
        }),
        event.kind matches OrderEventKind::Filled {
            venue_order_id,
            trade_id,
            order_side,
            order_type,
            last_qty,
            last_px,
            currency,
            liquidity_side,
            commission,
        } ==> event@.kind == (EventKindView::Filled {
            venue_order_id: venue_order_id.0@,
            trade_id: trade_id.0@,
            order_side,
            order_type,
            last_qty,
            last_px,
            currency: currency.code@,
            currency_precision: currency.precision,
            liquidity_side,
            commission_raw: commission.raw,
            commission_currency: commission.currency.code@,
            commission_precision: commission.currency.precision,
        }),
{
}

/// What the caller has to do is what is spoken of.
pub proof fn law_actions_are_kept(actions: Seq<DispatchAction>, i: int)
    requires
        0 <= i < actions.len(),
    ensures
        actions_view(actions).len() == actions.len(),
        actions_view(actions)[i] == match actions[i] {
            DispatchAction::Event(event) => ActionView::Event(event@),
            DispatchAction::OrderStatusReport { terms, treat_expired_as_canceled } =>
                ActionView::OrderStatusReport { terms: terms@, treat_expired_as_canceled },
            DispatchAction::FillReport { terms } => ActionView::FillReport { terms: terms@ },
            DispatchAction::Warning(text) => ActionView::Warning(text@),
            DispatchAction::Error(text) => ActionView::Error(text@),
            DispatchAction::AccountPosition => ActionView::AccountPosition,
            DispatchAction::RefreshAccount => ActionView::RefreshAccount,
            DispatchAction::NotifyAuthenticated => ActionView::NotifyAuthenticated,
            DispatchAction::NotifySubscribed => ActionView::NotifySubscribed,
            DispatchAction::SetupError(text) => ActionView::SetupError(text@),
        },
{
}

/// The terms of a report, the order it is about and the fields that were read are what is spoken
/// of.
pub proof fn law_read_values_are_kept(
    terms: ReportTerms,
    order: TrackedOrder,
    trade: TradeFields,
    replacement: ReplacementFields,
)
    ensures
        terms@.instrument_id.0 == terms.instrument_id.symbol@,
        terms@.instrument_id.1 == terms.instrument_id.venue@,
        terms@.price_precision == terms.price_precision,
        terms@.size_precision == terms.size_precision,
        terms@.account_id == terms.account_id.0@,
        terms@.ts_init == terms.ts_init,
        order@.client_order_id == order.client_order_id.0@,
        order@.identity == order.identity,
        order@.instrument_id.0 == order.instrument_id.symbol@,
        order@.instrument_id.1 == order.instrument_id.venue@,
        order@.price_precision == order.price_precision,
        order@.size_precision == order.size_precision,
        trade@.last_qty is Ok <==> trade.last_qty is Ok,
        trade.last_qty is Ok ==> trade@.last_qty->Ok_0 == trade.last_qty->Ok_0,
        trade.last_qty is Err ==> trade@.last_qty->Err_0 == (trade.last_qty->Err_0)@,
        trade@.last_px is Ok <==> trade.last_px is Ok,
        trade.last_px is Ok ==> trade@.last_px->Ok_0 == trade.last_px->Ok_0,
        trade.last_px is Err ==> trade@.last_px->Err_0 == (trade.last_px->Err_0)@,
        trade@.commission is Ok <==> trade.commission is Ok,
        trade.commission is Ok ==> trade@.commission->Ok_0 == trade.commission->Ok_0,
        trade.commission is Err ==> trade@.commission->Err_0 == (trade.commission->Err_0)@,
        trade@.cumulative_qty is Ok <==> trade.cumulative_qty is Ok,
        trade.cumulative_qty is Ok ==> trade@.cumulative_qty->Ok_0 == trade.cumulative_qty->Ok_0,
        trade.cumulative_qty is Err ==> trade@.cumulative_qty->Err_0 == (
        trade.cumulative_qty->Err_0)@,
        trade@.original_qty is Ok <==> trade.original_qty is Ok,
        trade.original_qty is Ok ==> trade@.original_qty->Ok_0 == trade.original_qty->Ok_0,
        trade.original_qty is Err ==> trade@.original_qty->Err_0 == (trade.original_qty->Err_0)@,
        replacement@.price is Ok <==> replacement.price is Ok,
        replacement.price is Ok ==> replacement@.price->Ok_0 == replacement.price->Ok_0,
        replacement.price is Err ==> replacement@.price->Err_0 == (replacement.price->Err_0)@,
        replacement@.quantity is Ok <==> replacement.quantity is Ok,
        replacement.quantity is Ok ==> replacement@.quantity->Ok_0 == replacement.quantity->Ok_0,
        replacement.quantity is Err ==> replacement@.quantity->Err_0 == (
        replacement.quantity->Err_0)@,
        replacement@.stop_price is Ok <==> replacement.stop_price is Ok,
        replacement.stop_price is Ok ==> replacement@.stop_price->Ok_0
            == replacement.stop_price->Ok_0,
        replacement.stop_price is Err ==> replacement@.stop_price->Err_0 == (
        replacement.stop_price->Err_0)@,
        replacement@.trigger_price is Ok <==> replacement.trigger_price is Ok,
        replacement.trigger_price is Ok ==> replacement@.trigger_price->Ok_0
            == replacement.trigger_price->Ok_0,
        replacement.trigger_price is Err ==> replacement@.trigger_price->Err_0 == (
        replacement.trigger_price->Err_0)@,
{
}

} // verus!

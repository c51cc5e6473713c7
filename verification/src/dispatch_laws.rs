//! What holds of every report and message that the client dispatches.

use crate::dispatch::{
    fill_action, known_request, message_outcome, report_outcome, status_action, untracked_outcome,
    BinanceSpotWsTradingMessage, ResolvedReport,
};
use crate::dispatch_state::{
    cache_wf, law_seen_trade_is_remembered, seen_after, DispatchView, OrderIdentity, PendingRequest,
    TradeKey, SEEN_TRADES,
};
use crate::enums::BinanceSpotExecutionType;
use crate::identifiers::UnixNanos;
use crate::reports::{
    commission_precision, trade_fields, tracked_outcome, ActionView, BinanceSpotExecutionReport,
    DispatchContext, Outcome, TrackedView,
};
use crate::types::money_raw_of;
use crate::venue_error::ambiguous_code;
use vstd::prelude::*;

verus! {

/// The state that an outcome leaves behind, with what had to be done already done.
pub open spec fn settled(outcome: Outcome) -> Outcome {
    Outcome { actions: Seq::empty(), ..outcome }
}

/// Whether an action announces an order as accepted.
pub open spec fn announces(action: ActionView) -> bool {
    action matches ActionView::Event(event) && event.kind is Accepted
}

/// Whether an action reports a fill.
pub open spec fn reports_fill(action: ActionView) -> bool {
    action matches ActionView::Event(event) && event.kind is Filled
}

/// Whether an action reports that an order was canceled or expired.
pub open spec fn reports_end(action: ActionView) -> bool {
    action matches ActionView::Event(event) && (event.kind is Canceled || event.kind is Expired)
}

/// Whether a report ends its order.
pub open spec fn ends_order(report: BinanceSpotExecutionReport) -> bool {
    match report.execution_type {
        BinanceSpotExecutionType::Canceled => true,
        BinanceSpotExecutionType::TradePrevention => true,
        BinanceSpotExecutionType::Expired => true,
        BinanceSpotExecutionType::Rejected => true,
        _ => false,
    }
}

/// A trade is reported at most once: a second report of the same trade changes nothing and calls
/// for nothing, whether or not the client tracks the order.
pub proof fn law_trade_is_reported_once(
    first: ResolvedReport,
    second: ResolvedReport,
    context: DispatchContext,
    before: Outcome,
    ts_first: UnixNanos,
    ts_second: UnixNanos,
)
    requires
        cache_wf(before.seen),
        first.report.execution_type == BinanceSpotExecutionType::Trade,
        second.report.execution_type == BinanceSpotExecutionType::Trade,
        first.report.trade() == second.report.trade(),
    ensures
        ({
            let after = settled(report_outcome(first, context, before, ts_first));
            report_outcome(second, context, after, ts_second) == after
        }),
{
    let key = first.report.trade();
    law_seen_trade_is_remembered(before.seen, key, key);
    let after = settled(report_outcome(first, context, before, ts_first));
    assert(after.seen.contains(key));
    assert(report_outcome(second, context, after, ts_second) =~= after);
}

/// A message that came, and when.
pub struct DispatchEvent {
    /// The message.
    pub msg: BinanceSpotWsTradingMessage,
    /// When it came.
    pub ts_now: UnixNanos,
}

/// What a history of messages leaves behind, with what had to be done already done.
pub open spec fn dispatch_run(
    context: DispatchContext,
    before: Outcome,
    events: Seq<DispatchEvent>,
) -> Outcome
    decreases events.len(),
{
    if events.len() == 0 {
        settled(before)
    } else {
        let event = events.last();
        let earlier = dispatch_run(context, before, events.drop_last());
        settled(message_outcome(event.msg, context, earlier, event.ts_now))
    }
}

/// The trade that a message reports, if it reports one.
pub open spec fn reported_trade(msg: BinanceSpotWsTradingMessage) -> Option<TradeKey> {
    match msg {
        BinanceSpotWsTradingMessage::ExecutionReport(resolved) => if resolved.report.execution_type
            == BinanceSpotExecutionType::Trade {
            Some(resolved.report.trade())
        } else {
            None
        },
        _ => None,
    }
}

/// How many trades a history of messages reports that were not known when they came.
pub open spec fn new_trades(
    context: DispatchContext,
    before: Outcome,
    events: Seq<DispatchEvent>,
) -> nat
    decreases events.len(),
{
    if events.len() == 0 {
        0
    } else {
        let earlier = new_trades(context, before, events.drop_last());
        let seen = dispatch_run(context, before, events.drop_last()).seen;
        match reported_trade(events.last().msg) {
            Some(key) => if seen.contains(key) {
                earlier
            } else {
                earlier + 1
            },
            None => earlier,
        }
    }
}

/// A message adds the trade that it reports to those seen, and nothing else.
proof fn lemma_message_adds_its_trade(
    msg: BinanceSpotWsTradingMessage,
    context: DispatchContext,
    before: Outcome,
    ts_now: UnixNanos,
)
    ensures
        message_outcome(msg, context, before, ts_now).seen == match reported_trade(msg) {
            Some(key) => seen_after(before.seen, key),
            None => before.seen,
        },
{
}

/// A trade that came last stays in its place behind those that come after it.
proof fn lemma_trade_keeps_its_place(
    context: DispatchContext,
    before: Outcome,
    events: Seq<DispatchEvent>,
)
    requires
        cache_wf(before.seen),
        before.seen.len() > 0,
        new_trades(context, before, events) < SEEN_TRADES,
    ensures
        ({
            let seen = dispatch_run(context, before, events).seen;
            let newer = new_trades(context, before, events);
            &&& cache_wf(seen)
            &&& newer < seen.len()
            &&& seen[seen.len() - 1 - newer] == before.seen.last()
        }),
    decreases events.len(),
{
    if events.len() > 0 {
        let event = events.last();
        let earlier = dispatch_run(context, before, events.drop_last());
        lemma_trade_keeps_its_place(context, before, events.drop_last());
        lemma_message_adds_its_trade(event.msg, context, earlier, event.ts_now);
        if let Some(key) = reported_trade(event.msg) {
            law_seen_trade_is_remembered(earlier.seen, key, key);
        }
    }
}

/// A trade is reported at most once while it is known, and it stays known until ten thousand trades
/// that were not known have been reported after it: whatever comes in between, a later report of it
/// changes nothing and calls for nothing.
pub proof fn law_trade_stays_known(
    first: ResolvedReport,
    later: ResolvedReport,
    context: DispatchContext,
    before: Outcome,
    events: Seq<DispatchEvent>,
    ts_first: UnixNanos,
    ts_later: UnixNanos,
)
    requires
        cache_wf(before.seen),
        first.report.execution_type == BinanceSpotExecutionType::Trade,
        later.report.execution_type == BinanceSpotExecutionType::Trade,
        first.report.trade() == later.report.trade(),
        !before.seen.contains(first.report.trade()),
        new_trades(context, report_outcome(first, context, before, ts_first), events)
            < SEEN_TRADES,
    ensures
        ({
            let after = dispatch_run(
                context,
                report_outcome(first, context, before, ts_first),
                events,
            );
            &&& after.seen.contains(first.report.trade())
            &&& report_outcome(later, context, after, ts_later) == after
        }),
{
    let key = first.report.trade();
    let reported = report_outcome(first, context, before, ts_first);
    law_seen_trade_is_remembered(before.seen, key, key);
    assert(reported.seen == seen_after(before.seen, key));
    lemma_trade_keeps_its_place(context, reported, events);
    let after = dispatch_run(context, reported, events);
    let place = after.seen.len() - 1 - new_trades(context, reported, events);
    assert(after.seen[place] == key);
    assert(report_outcome(later, context, after, ts_later) =~= after);
}

/// A report of a tracked order yields a fill exactly when it is about a trade that was not seen
/// before and its quantity, price and commission can be read; otherwise the order is not marked
/// as filled either.
pub proof fn law_fill_needs_readable_new_trade(
    report: BinanceSpotExecutionReport,
    context: DispatchContext,
    order: TrackedView,
    before: Outcome,
    ts_init: UnixNanos,
)
    requires
        before.actions.len() == 0,
    ensures
        ({
            let after = tracked_outcome(report, context, order, before, ts_init);
            let fills = report.execution_type == BinanceSpotExecutionType::Trade
                && !before.seen.contains(report.trade()) && trade_fields(
                report,
                order,
            ).unreadable() is None && money_raw_of(
                trade_fields(report, order).commission->Ok_0,
                commission_precision(report, before.currencies),
            ) is Ok;
            &&& fills <==> exists|i: int|
                0 <= i < after.actions.len() && #[trigger] reports_fill(after.actions[i])
            &&& !fills ==> after.state.filled == before.state.filled
            &&& fills ==> after.state.filled.contains(order.client_order_id)
        }),
{
    let after = tracked_outcome(report, context, order, before, ts_init);
    if report.execution_type == BinanceSpotExecutionType::Trade && !before.seen.contains(
        report.trade(),
    ) {
        let at: int = if before.state.accepted.contains(order.client_order_id) {
            0
        } else {
            1
        };
        let fields = trade_fields(report, order);
        if fields.unreadable() is None && money_raw_of(
            fields.commission->Ok_0,
            commission_precision(report, before.currencies),
        ) is Ok {
            assert(reports_fill(after.actions[at]));
        }
    }
}

/// Every event that a report or a message yields is about the trader and the account of the
/// client.
pub proof fn law_events_name_the_account(
    msg: BinanceSpotWsTradingMessage,
    context: DispatchContext,
    before: Outcome,
    ts_now: UnixNanos,
    i: int,
)
    requires
        before.actions.len() == 0,
        0 <= i < message_outcome(msg, context, before, ts_now).actions.len(),
    ensures
        message_outcome(msg, context, before, ts_now).actions[i] matches ActionView::Event(event)
            ==> event.trader_id == context.trader_id@ && event.account_id == context.account_id@,
{
}

/// Every event that a report yields is about the order and the strategy that the report was
/// matched with.
pub proof fn law_events_name_the_order(
    resolved: ResolvedReport,
    context: DispatchContext,
    before: Outcome,
    ts_init: UnixNanos,
    i: int,
)
    requires
        before.actions.len() == 0,
        0 <= i < report_outcome(resolved, context, before, ts_init).actions.len(),
    ensures
        report_outcome(resolved, context, before, ts_init).actions[i] matches ActionView::Event(event)
            ==> {
            let id = resolved.client_order_id@;
            &&& before.state.order_identities.contains_key(id)
            &&& event.client_order_id == id
            &&& event.strategy_id == before.state.order_identities[id].strategy_id@
        },
{
}

/// A canceled, prevented, expired or rejected order is forgotten, and whatever the venue reports
/// of it afterwards is left to reconciliation.
pub proof fn law_ended_order_is_forgotten(
    ending: ResolvedReport,
    later: ResolvedReport,
    context: DispatchContext,
    before: Outcome,
    ts_init: UnixNanos,
    ts_later: UnixNanos,
)
    requires
        before.state.order_identities.contains_key(ending.client_order_id@),
        ends_order(ending.report),
        later.client_order_id@ == ending.client_order_id@,
    ensures
        ({
            let after = report_outcome(ending, context, before, ts_init);
            let id = ending.client_order_id@;
            &&& !after.state.order_identities.contains_key(id)
            &&& !after.state.accepted.contains(id)
            &&& report_outcome(later, context, settled(after), ts_later) == untracked_outcome(
                later.report,
                later.terms(context, ts_later),
                context.treat_expired_as_canceled,
                later.status_parse,
                later.fill_parse,
                settled(after),
            )
        }),
{
}

/// An order that was announced as accepted is not announced again, and one that was not is
/// announced before its first fill and before its end.
pub proof fn law_acceptance_comes_first_and_once(
    report: BinanceSpotExecutionReport,
    context: DispatchContext,
    order: TrackedView,
    before: Outcome,
    ts_init: UnixNanos,
    i: int,
)
    requires
        before.actions.len() == 0,
        0 <= i < tracked_outcome(report, context, order, before, ts_init).actions.len(),
    ensures
        ({
            let actions = tracked_outcome(report, context, order, before, ts_init).actions;
            let known = before.state.accepted.contains(order.client_order_id);
            &&& announces(actions[i]) ==> !known && i == 0
            &&& reports_fill(actions[i]) || reports_end(actions[i]) ==> known || i > 0 && announces(
                actions[0],
            )
        }),
{
}

/// A report that an order is new says nothing of an order that has filled.
pub proof fn law_filled_order_is_not_announced(
    report: BinanceSpotExecutionReport,
    context: DispatchContext,
    order: TrackedView,
    before: Outcome,
    ts_init: UnixNanos,
)
    requires
        before.actions.len() == 0,
        report.execution_type == BinanceSpotExecutionType::New,
        before.state.filled.contains(order.client_order_id),
    ensures
        tracked_outcome(report, context, order, before, ts_init) == before,
{
    assert(tracked_outcome(report, context, order, before, ts_init) =~= before);
}

/// The old half of a replacement changes nothing: its new half is what is reported.
pub proof fn law_replaced_order_waits_for_its_replacement(
    report: BinanceSpotExecutionReport,
    context: DispatchContext,
    order: TrackedView,
    before: Outcome,
    ts_init: UnixNanos,
)
    requires
        before.actions.len() == 0,
        report.execution_type == BinanceSpotExecutionType::Replaced,
    ensures
        tracked_outcome(report, context, order, before, ts_init) == before,
{
    assert(tracked_outcome(report, context, order, before, ts_init) =~= before);
}

/// An expired order is reported as canceled or as expired, as the client is configured.
pub proof fn law_expiry_respects_the_configuration(
    report: BinanceSpotExecutionReport,
    context: DispatchContext,
    order: TrackedView,
    before: Outcome,
    ts_init: UnixNanos,
)
    requires
        report.execution_type == BinanceSpotExecutionType::Expired,
    ensures
        ({
            let actions = tracked_outcome(report, context, order, before, ts_init).actions;
            &&& actions.len() > 0
            &&& actions.last() matches ActionView::Event(event) && event.kind is Canceled
                == context.treat_expired_as_canceled && event.kind is Expired
                == !context.treat_expired_as_canceled
        }),
{
}

/// A report touches no order but its own, and no pending request.
pub proof fn law_report_touches_its_order_only(
    resolved: ResolvedReport,
    context: DispatchContext,
    before: Outcome,
    ts_init: UnixNanos,
    other: Seq<char>,
)
    requires
        other != resolved.client_order_id@,
    ensures
        ({
            let after = report_outcome(resolved, context, before, ts_init).state;
            &&& after.pending_requests == before.state.pending_requests
            &&& same_order(before.state, after, other)
        }),
{
}

/// Whether two states know the same of an order.
pub open spec fn same_order(a: DispatchView, b: DispatchView, id: Seq<char>) -> bool {
    &&& a.order_identities.contains_key(id) == b.order_identities.contains_key(id)
    &&& a.order_identities.contains_key(id) ==> a.order_identities[id] == b.order_identities[id]
    &&& a.accepted.contains(id) == b.accepted.contains(id)
    &&& a.filled.contains(id) == b.filled.contains(id)
}

/// The request that a message answers, if it answers one.
pub open spec fn answers(msg: BinanceSpotWsTradingMessage) -> Option<Seq<char>> {
    match msg {
        BinanceSpotWsTradingMessage::OrderAccepted { request_id } => Some(request_id@),
        BinanceSpotWsTradingMessage::OrderRejected { request_id, .. } => Some(request_id@),
        BinanceSpotWsTradingMessage::OrderCanceled { request_id } => Some(request_id@),
        BinanceSpotWsTradingMessage::CancelRejected { request_id, .. } => Some(request_id@),
        BinanceSpotWsTradingMessage::CancelReplaceAccepted { request_id } => Some(request_id@),
        BinanceSpotWsTradingMessage::CancelReplaceRejected { request_id, .. } => Some(request_id@),
        BinanceSpotWsTradingMessage::RequestFailed { request_id, .. } => Some(request_id@),
        BinanceSpotWsTradingMessage::AllOrdersCanceled { request_id } => Some(request_id@),
        _ => None,
    }
}

/// A report about a registered order yields order events and warnings alone, and a report about any
/// other order yields reports for reconciliation alone, on the terms of the client, or what is
/// logged in their place.
pub proof fn law_registration_decides_what_is_published(
    resolved: ResolvedReport,
    context: DispatchContext,
    before: Outcome,
    ts_init: UnixNanos,
    i: int,
)
    requires
        0 <= i < report_outcome(resolved, context, before, ts_init).actions.len(),
    ensures
        ({
            let action = report_outcome(resolved, context, before, ts_init).actions[i];
            if before.state.order_identities.contains_key(resolved.client_order_id@) {
                action is Event || action is Warning
            } else {
                let terms = resolved.terms(context, ts_init);
                ||| action == fill_action(terms, resolved.fill_parse)
                ||| action == status_action(
                    terms,
                    context.treat_expired_as_canceled,
                    resolved.status_parse,
                )
            }
        }),
{
}

/// A new trade of an order that the client does not track is published as an order status report
/// and as a fill report, each if it can be read as one: one that cannot is logged, and does not
/// stop the other.
pub proof fn law_unreadable_report_does_not_stop_the_other(
    resolved: ResolvedReport,
    context: DispatchContext,
    before: Outcome,
    ts_init: UnixNanos,
)
    requires
        !before.state.order_identities.contains_key(resolved.client_order_id@),
        resolved.report.execution_type == BinanceSpotExecutionType::Trade,
        !before.seen.contains(resolved.report.trade()),
    ensures
        ({
            let actions = report_outcome(resolved, context, before, ts_init).actions;
            &&& actions.len() == 2
            &&& resolved.status_parse is Ok ==> actions[0] is OrderStatusReport
            &&& resolved.status_parse is Err ==> actions[0] is Error
            &&& resolved.fill_parse is Ok ==> actions[1] is FillReport
            &&& resolved.fill_parse is Err ==> actions[1] is Error
        }),
{
}

/// A report about an order that was just registered is told with what was registered of it.
pub proof fn law_registered_order_is_tracked(
    resolved: ResolvedReport,
    identity: OrderIdentity,
    context: DispatchContext,
    before: Outcome,
    ts_init: UnixNanos,
)
    ensures
        ({
            let registered = Outcome {
                state: before.state.registered(resolved.client_order_id@, identity),
                ..before
            };
            report_outcome(resolved, context, registered, ts_init) == tracked_outcome(
                resolved.report,
                context,
                resolved.tracked_as(identity),
                registered,
                ts_init,
            )
        }),
{
}

/// The answer to a request that was remembered before it was sent finds the request and its order,
/// whatever the venue reports of other orders in between.
pub proof fn law_answer_finds_its_request(
    state: DispatchView,
    request_id: Seq<char>,
    request: PendingRequest,
    identity: OrderIdentity,
    other: ResolvedReport,
    context: DispatchContext,
    seen: Outcome,
    ts_init: UnixNanos,
)
    requires
        seen.state == state.registered(request.client_order_id@, identity).requested(
            request_id,
            request,
        ),
        other.client_order_id@ != request.client_order_id@,
    ensures
        known_request(seen.state, request_id) == Some((request, identity)),
        known_request(report_outcome(other, context, seen, ts_init).state, request_id) == Some(
            (request, identity),
        ),
{
    law_report_touches_its_order_only(
        other,
        context,
        seen,
        ts_init,
        request.client_order_id@,
    );
}

/// An answer clears the request that it answers and no other; a message that answers none leaves
/// every request pending.
pub proof fn law_answer_clears_its_request_only(
    msg: BinanceSpotWsTradingMessage,
    context: DispatchContext,
    before: Outcome,
    ts_now: UnixNanos,
)
    ensures
        message_outcome(msg, context, before, ts_now).state.pending_requests == match answers(msg) {
            Some(request_id) => before.state.pending_requests.remove(request_id),
            None => before.state.pending_requests,
        },
{
}

/// A rejection that leaves the outcome of a placement open reports nothing and keeps the order
/// registered.
pub proof fn law_ambiguous_rejection_keeps_the_order(
    request_id: String,
    code: i32,
    text: String,
    context: DispatchContext,
    before: Outcome,
    ts_now: UnixNanos,
)
    requires
        ambiguous_code(code as int),
    ensures
        ({
            let msg = BinanceSpotWsTradingMessage::OrderRejected { request_id, code, msg: text };
            message_outcome(msg, context, before, ts_now) == Outcome {
                state: before.state.answered(request_id@),
                actions: Seq::empty(),
                ..before
            }
        }),
{
}

/// A definite rejection of a placement that the client knows is reported once and ends the
/// order; the rejection of a cancel or a replacement is reported once and keeps it.
pub proof fn law_definite_rejection_is_reported(
    msg: BinanceSpotWsTradingMessage,
    context: DispatchContext,
    before: Outcome,
    ts_now: UnixNanos,
    request_id: Seq<char>,
)
    requires
        before.actions.len() == 0,
        answers(msg) == Some(request_id),
        msg is OrderRejected || msg is CancelRejected || msg is CancelReplaceRejected,
        msg matches BinanceSpotWsTradingMessage::OrderRejected { code, .. } ==> !ambiguous_code(
            code as int,
        ),
        before.state.pending_requests.contains_key(request_id),
        before.state.order_identities.contains_key(
            before.state.pending_requests[request_id].client_order_id@,
        ),
    ensures
        ({
            let after = message_outcome(msg, context, before, ts_now);
            let id = before.state.pending_requests[request_id].client_order_id@;
            &&& after.actions.len() == 1
            &&& after.actions[0] matches ActionView::Event(event) && event.client_order_id == id && (
            msg is OrderRejected <==> event.kind is Rejected) && (msg is CancelRejected
                <==> event.kind is CancelRejected) && (msg is CancelReplaceRejected
                <==> event.kind is ModifyRejected)
            &&& after.state.order_identities.contains_key(id) <==> !(msg is OrderRejected)
        }),
{
}

} // verus!

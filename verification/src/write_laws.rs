//! What holds of every write: which final requests are let through, what is prepared for a command,
//! and what a write that failed means for its order.

use crate::commands::{
    cancel_prepared_as, cancel_write_is, carried_in_force, hex_value, is_digest_text, is_hex,
    order_refusal, prepared_as, refused_as, submit_refusal, submit_write_is, submitted_as,
    CancelOrder, ClientScope, CommandRefusal, RefusalView, SubmitOrder, Submission,
};
use crate::dispatch_state::DispatchView;
use crate::enums::{OrderType, TimeInForce};
use crate::events::EventKindView;
use crate::execution_write::{
    first_release_refusal, verdict_is, ExecutionEndpointPath, ExecutionHttpMethod,
    ExecutionOrderResponseMode, ExecutionProduct, ExecutionRoute, ExecutionTimeInForce,
    ExecutionTransportTargetViewV1, ExecutionWriteContext, ExecutionWriteElementViewV1,
    ExecutionWriteGateError, ExecutionWriteKind, ExecutionWritePayloadViewV1, GateErrorView,
    TransportOutcomeClass,
};
use crate::identifiers::{TraderId, UnixNanos, UUID4};
use crate::orders::Order;
use crate::venue_error::{
    ambiguous_code, ambiguous_error, http_post_only_rejection, local_failure, local_http_failure,
    post_only_rejection, structured_rejection, BinanceSpotHttpError, CommandError,
};
use crate::write_task::{
    cancel_report, outcome_class, submit_report, write_report, write_step, CancelRequest,
    SubmitRequest, WriteAction, WriteActionView, WriteAnswer, WritePhase, WriteRequest, WriteSignal,
    WriteTask, WriteView,
};
use vstd::prelude::*;

verus! {

/// A placement is let through exactly when it is the one order of an identified command, on the
/// route of its product, over the transport that places orders there, with an ancestor if and only
/// if it is a retry, and an order that the route takes: a market order without price, time in force
/// and post-only, or a limit order with a price and a time in force, which is the crossing
/// prevention one if it is post-only; of some quantity, without any control that is left out; and
/// answered in full and never reducing on Spot, while Futures leaves the reduction to the order.
pub proof fn law_placement_is_admitted_exactly(
    payload: ExecutionWritePayloadViewV1,
    context: ExecutionWriteContext,
)
    requires
        payload.elements@.len() == 1,
        payload.elements@[0] is Submit,
    ensures
        first_release_refusal(payload, context) is None <==> (
        payload.elements@[0] matches ExecutionWriteElementViewV1::Submit {
            batch_index,
            instrument_id,
            client_order_id,
            side,
            order_type,
            time_in_force,
            quantity,
            price,
            trigger_price,
            quote_quantity,
            display_quantity,
            reduce_only,
            post_only,
            position_side,
            close_position,
            working_type,
            price_protect,
            response_mode,
            good_till_date_ms,
            self_trade_prevention_mode,
            trailing_delta,
            activation_price,
            callback_rate,
            price_match,
            strategy_id,
            strategy_type,
        } && {
            &&& payload.schema_version == 1
            &&& context.command_id.bits != 0
            &&& context.client_id.0@ == payload.client_id.0@
            &&& context.account_id.0@ == payload.account_id.0@
            &&& context.route == payload.route
            &&& context.kind == payload.kind
            &&& context.client_order_ids@.len() == 1
            &&& context.client_order_ids@[0].0@ == client_order_id.0@
            &&& context.instrument_id is Some
            &&& context.instrument_id->0.symbol@ == instrument_id.symbol@
            &&& context.instrument_id->0.venue@ == instrument_id.venue@
            &&& payload.route == ExecutionRoute::BinanceSpot <==> payload.product
                == ExecutionProduct::Spot
            &&& match payload.transport {
                ExecutionTransportTargetViewV1::Http { method, path, recv_window_ms } => {
                    &&& method == ExecutionHttpMethod::Post
                    &&& path == ExecutionEndpointPath::SpotOrder <==> payload.route
                        == ExecutionRoute::BinanceSpot
                    &&& 1 <= recv_window_ms <= 60_000
                },
                ExecutionTransportTargetViewV1::WebSocketApi { method, recv_window_ms } => {
                    &&& method@ == "order.place"@
                    &&& 1 <= recv_window_ms <= 60_000
                },
            }
            &&& payload.kind == ExecutionWriteKind::Submit && payload.retry_of is None
                || payload.kind == ExecutionWriteKind::Retry && payload.retry_of is Some
            &&& batch_index == 0
            &&& quantity.raw > 0
            &&& {
                ||| order_type == OrderType::Market && price is None && time_in_force
                    == ExecutionTimeInForce::NotApplicable && !post_only
                ||| order_type == OrderType::Limit && price is Some && !post_only && time_in_force
                    != ExecutionTimeInForce::NotApplicable
                ||| order_type == OrderType::Limit && price is Some && post_only && time_in_force
                    == ExecutionTimeInForce::Gtx
            }
            &&& trigger_price is None
            &&& quote_quantity is None
            &&& display_quantity is None
            &&& position_side is None
            &&& close_position is None
            &&& working_type is None
            &&& price_protect is None
            &&& good_till_date_ms is None
            &&& self_trade_prevention_mode is None
            &&& trailing_delta is None
            &&& activation_price is None
            &&& callback_rate is None
            &&& price_match is None
            &&& strategy_id is None
            &&& strategy_type is None
            &&& payload.route == ExecutionRoute::BinanceSpot ==> !reduce_only && response_mode
                == ExecutionOrderResponseMode::SpotFull
            &&& payload.route == ExecutionRoute::BinanceFutures ==> response_mode
                == ExecutionOrderResponseMode::FuturesOmitted
        }),
{
    reveal_strlit("order.place");
    reveal_strlit("order.cancel");
}

/// Whether a Futures placement is let through does not depend on whether it only reduces a
/// position, nor does it on any route depend on its side.
pub proof fn law_reduction_and_side_are_free(
    a: ExecutionWritePayloadViewV1,
    b: ExecutionWritePayloadViewV1,
    context: ExecutionWriteContext,
)
    requires
        a.schema_version == b.schema_version,
        a.kind == b.kind,
        a.client_id == b.client_id,
        a.account_id == b.account_id,
        a.product == b.product,
        a.route == b.route,
        a.transport == b.transport,
        a.retry_of == b.retry_of,
        a.elements@.len() == 1,
        b.elements@.len() == 1,
        a.elements@[0] is Submit,
        b.elements@[0] is Submit,
        b.elements@[0] == (ExecutionWriteElementViewV1::Submit {
            side: b.elements@[0]->Submit_side,
            reduce_only: b.elements@[0]->reduce_only,
            batch_index: a.elements@[0]->Submit_batch_index,
            instrument_id: a.elements@[0]->Submit_instrument_id,
            client_order_id: a.elements@[0]->Submit_client_order_id,
            order_type: a.elements@[0]->order_type,
            time_in_force: a.elements@[0]->time_in_force,
            quantity: a.elements@[0]->Submit_quantity,
            price: a.elements@[0]->Submit_price,
            trigger_price: a.elements@[0]->trigger_price,
            quote_quantity: a.elements@[0]->quote_quantity,
            display_quantity: a.elements@[0]->display_quantity,
            post_only: a.elements@[0]->post_only,
            position_side: a.elements@[0]->position_side,
            close_position: a.elements@[0]->close_position,
            working_type: a.elements@[0]->working_type,
            price_protect: a.elements@[0]->price_protect,
            response_mode: a.elements@[0]->response_mode,
            good_till_date_ms: a.elements@[0]->good_till_date_ms,
            self_trade_prevention_mode: a.elements@[0]->self_trade_prevention_mode,
            trailing_delta: a.elements@[0]->trailing_delta,
            activation_price: a.elements@[0]->activation_price,
            callback_rate: a.elements@[0]->callback_rate,
            price_match: a.elements@[0]->price_match,
            strategy_id: a.elements@[0]->strategy_id,
            strategy_type: a.elements@[0]->strategy_type,
        }),
        a.route == ExecutionRoute::BinanceFutures || a.elements@[0]->reduce_only
            == b.elements@[0]->reduce_only,
    ensures
        first_release_refusal(a, context) == first_release_refusal(b, context),
{
}

/// A cancel is let through exactly when it is the one cancel of an identified command, on the route
/// of its product, over the transport that cancels orders there, without an ancestor, and names its
/// order by the original client order ID alone.
pub proof fn law_cancel_is_admitted_exactly(
    payload: ExecutionWritePayloadViewV1,
    context: ExecutionWriteContext,
)
    requires
        payload.elements@.len() == 1,
        payload.elements@[0] is Cancel,
    ensures
        first_release_refusal(payload, context) is None <==> (
        payload.elements@[0] matches ExecutionWriteElementViewV1::Cancel {
            batch_index,
            instrument_id,
            client_order_id,
            venue_order_id,
            cancel_request_client_order_id,
        } && {
            &&& payload.schema_version == 1
            &&& context.command_id.bits != 0
            &&& context.client_id.0@ == payload.client_id.0@
            &&& context.account_id.0@ == payload.account_id.0@
            &&& context.route == payload.route
            &&& context.kind == payload.kind
            &&& context.client_order_ids@.len() == 1
            &&& context.client_order_ids@[0].0@ == client_order_id.0@
            &&& context.instrument_id is Some
            &&& context.instrument_id->0.symbol@ == instrument_id.symbol@
            &&& context.instrument_id->0.venue@ == instrument_id.venue@
            &&& payload.route == ExecutionRoute::BinanceSpot <==> payload.product
                == ExecutionProduct::Spot
            &&& match payload.transport {
                ExecutionTransportTargetViewV1::Http { method, path, recv_window_ms } => {
                    &&& method == ExecutionHttpMethod::Delete
                    &&& path == ExecutionEndpointPath::SpotOrder <==> payload.route
                        == ExecutionRoute::BinanceSpot
                    &&& 1 <= recv_window_ms <= 60_000
                },
                ExecutionTransportTargetViewV1::WebSocketApi { method, recv_window_ms } => {
                    &&& method@ == "order.cancel"@
                    &&& 1 <= recv_window_ms <= 60_000
                },
            }
            &&& payload.kind == ExecutionWriteKind::Cancel
            &&& payload.retry_of is None
            &&& batch_index == 0
            &&& venue_order_id is None
            &&& cancel_request_client_order_id is None
        }),
{
    reveal_strlit("order.place");
    reveal_strlit("order.cancel");
}

/// Nothing but a single placement or a single cancel is let through. A refusal says which rule was
/// broken, and a modification that breaks no earlier rule is refused as unsupported.
pub proof fn law_nothing_else_is_admitted(
    payload: ExecutionWritePayloadViewV1,
    context: ExecutionWriteContext,
)
    ensures
        payload.elements@.len() != 1 || payload.schema_version != 1 ==> first_release_refusal(
            payload,
            context,
        ) == Some(
            GateErrorView::InvalidContext(
                "first release requires schema one and one request element"@,
            ),
        ),
        payload.elements@.len() == 1 && payload.elements@[0] is Modify ==> first_release_refusal(
            payload,
            context,
        ) is Some,
        first_release_refusal(payload, context) matches Some(error) ==> {
            ||| error is InvalidContext
            ||| error == GateErrorView::Unsupported(ExecutionWriteKind::Modify)
                && payload.elements@[0] is Modify
        },
{
}

/// The rules are named in their order: the command, its order, the product, the transport, the
/// ancestry, and last what is asked for. The first that is broken is the one that is named.
pub proof fn law_first_broken_rule_is_named(
    payload: ExecutionWritePayloadViewV1,
    context: ExecutionWriteContext,
)
    requires
        payload.schema_version == 1,
        payload.elements@.len() == 1,
    ensures
        ({
            let element = payload.elements@[0];
            let (id, instrument) = match element {
                ExecutionWriteElementViewV1::Submit { client_order_id, instrument_id, .. } => (
                    client_order_id.0@,
                    instrument_id,
                ),
                ExecutionWriteElementViewV1::Cancel { client_order_id, instrument_id, .. } => (
                    client_order_id.0@,
                    instrument_id,
                ),
                ExecutionWriteElementViewV1::Modify { client_order_id, instrument_id, .. } => (
                    client_order_id.0@,
                    instrument_id,
                ),
            };
            let command = context.command_id.bits != 0 && context.client_id.0@
                == payload.client_id.0@ && context.account_id.0@ == payload.account_id.0@
                && context.route == payload.route && context.kind == payload.kind;
            let order = context.client_order_ids@.len() == 1 && context.client_order_ids@[0].0@
                == id && (context.instrument_id matches Some(named) && named.symbol@
                == instrument.symbol@ && named.venue@ == instrument.venue@);
            let spot = payload.route == ExecutionRoute::BinanceSpot;
            let product = spot <==> payload.product == ExecutionProduct::Spot;
            let places = payload.kind == ExecutionWriteKind::Submit || payload.kind
                == ExecutionWriteKind::Retry;
            let cancels = payload.kind == ExecutionWriteKind::Cancel;
            let transport = match payload.transport {
                ExecutionTransportTargetViewV1::Http { method, path, recv_window_ms } => {
                    &&& method == ExecutionHttpMethod::Post ==> places
                    &&& method == ExecutionHttpMethod::Delete ==> cancels
                    &&& path == ExecutionEndpointPath::SpotOrder <==> spot
                    &&& 1 <= recv_window_ms <= 60_000
                },
                ExecutionTransportTargetViewV1::WebSocketApi { method, recv_window_ms } => {
                    &&& (places && method@ == "order.place"@) || (cancels && method@
                        == "order.cancel"@)
                    &&& 1 <= recv_window_ms <= 60_000
                },
            };
            let ancestry = payload.retry_of is Some <==> payload.kind == ExecutionWriteKind::Retry;
            let refusal = first_release_refusal(payload, context);
            if !command {
                refusal == Some(
                    GateErrorView::InvalidContext(
                        "command, client, account, route, or mutation kind mismatch"@,
                    ),
                )
            } else if !order {
                refusal == Some(
                    GateErrorView::InvalidContext(
                        "instrument or exact client order identity mismatch"@,
                    ),
                )
            } else if !product {
                refusal == Some(GateErrorView::InvalidContext("product and route mismatch"@))
            } else if !transport {
                refusal == Some(
                    GateErrorView::InvalidContext(
                        "transport target is outside the first-release allowlist"@,
                    ),
                )
            } else if !ancestry {
                refusal == Some(
                    GateErrorView::InvalidContext("retry ancestry does not match mutation kind"@),
                )
            } else {
                match element {
                    ExecutionWriteElementViewV1::Submit { .. } => if places {
                        refusal is Some ==> refusal == Some(
                            GateErrorView::InvalidContext(
                                "submit request is outside the first-release policy"@,
                            ),
                        )
                    } else {
                        refusal == Some(
                            GateErrorView::InvalidContext(
                                "submit element does not match mutation kind"@,
                            ),
                        )
                    },
                    ExecutionWriteElementViewV1::Cancel { .. } => if cancels {
                        refusal is Some ==> refusal == Some(
                            GateErrorView::InvalidContext(
                                "cancel must use only the exact original client order ID"@,
                            ),
                        )
                    } else {
                        refusal == Some(
                            GateErrorView::InvalidContext(
                                "cancel element does not match mutation kind"@,
                            ),
                        )
                    },
                    ExecutionWriteElementViewV1::Modify { .. } => refusal == Some(
                        GateErrorView::Unsupported(ExecutionWriteKind::Modify),
                    ),
                }
            }
        }),
{
}

/// A verdict lets a request through exactly when there is no refusal, and gives the refusal
/// otherwise.
pub proof fn law_verdict_is_the_refusal(
    r: Result<(), ExecutionWriteGateError>,
    refusal: Option<GateErrorView>,
)
    requires
        verdict_is(r, refusal),
    ensures
        r is Ok <==> refusal is None,
        r matches Err(error) ==> refusal == Some(error@),
{
}

/// The time in force that a final request carries: none for a market order, that which never
/// crosses for a post-only order, and the order's own otherwise.
pub proof fn law_final_time_in_force(
    order_type: OrderType,
    time_in_force: TimeInForce,
    post_only: bool,
)
    ensures
        ({
            let carried = carried_in_force(order_type, time_in_force, post_only);
            if order_type == OrderType::Market {
                carried == Some(ExecutionTimeInForce::NotApplicable)
            } else if post_only {
                carried == Some(ExecutionTimeInForce::Gtx)
            } else {
                &&& carried == Some(ExecutionTimeInForce::Gtc) <==> time_in_force
                    == TimeInForce::Gtc
                &&& carried == Some(ExecutionTimeInForce::Ioc) <==> time_in_force
                    == TimeInForce::Ioc
                &&& carried == Some(ExecutionTimeInForce::Fok) <==> time_in_force
                    == TimeInForce::Fok
                &&& carried is Some ==> time_in_force == TimeInForce::Gtc || time_in_force
                    == TimeInForce::Ioc || time_in_force == TimeInForce::Fok
            }
        }),
{
}

/// Failures, refusals and actions of a write are those that are spoken of.
pub proof fn law_write_values_are_kept(
    error: ExecutionWriteGateError,
    refusal: CommandRefusal,
    action: WriteAction,
)
    ensures
        error@ == match error {
            ExecutionWriteGateError::MissingGate => GateErrorView::MissingGate,
            ExecutionWriteGateError::Unsupported(kind) => GateErrorView::Unsupported(kind),
            ExecutionWriteGateError::InvalidContext(d) => GateErrorView::InvalidContext(d@),
            ExecutionWriteGateError::Denied(d) => GateErrorView::Denied(d@),
            ExecutionWriteGateError::ArmRejected(d) => GateErrorView::ArmRejected(d@),
        },
        refusal@ == match refusal {
            CommandRefusal::OrderLookup(text) => RefusalView::OrderLookup(text@),
            CommandRefusal::ConditionalOrderType(t) => RefusalView::ConditionalOrderType(t),
            CommandRefusal::QuoteQuantity => RefusalView::QuoteQuantity,
            CommandRefusal::TriggerPrice => RefusalView::TriggerPrice,
            CommandRefusal::DisplayQuantity => RefusalView::DisplayQuantity,
            CommandRefusal::LimitWithoutPrice => RefusalView::LimitWithoutPrice,
            CommandRefusal::MarketWithPrice => RefusalView::MarketWithPrice,
            CommandRefusal::RetryDigest => RefusalView::RetryDigest,
            CommandRefusal::TimeInForce(t) => RefusalView::TimeInForce(t),
            CommandRefusal::CancelByVenueOrderId => RefusalView::CancelByVenueOrderId,
        },
        match action {
            WriteAction::Acquire => action@ is Acquire,
            WriteAction::Arm => action@ is Arm,
            WriteAction::Send => action@ is Send,
            WriteAction::Record(outcome) => action@ == WriteActionView::Record(outcome),
            WriteAction::Report { event, error } => action@ matches WriteActionView::Report {
                event: seen,
                error: failed,
            } && failed == error && match event {
                Some(e) => seen == Some(e@),
                None => seen is None,
            },
            WriteAction::Refuse(error) => action@ == WriteActionView::Refuse(error@),
            WriteAction::Ignore => action@ is Ignore,
        },
{
}

/// The write prepared for a submission asks, before the write gate and at the venue alike, for the
/// order that was found: its side, type, quantity, price, instrument and client order ID, in force
/// as the order says, from the client and its account.
pub proof fn law_prepared_submission_is_the_order(
    write: WriteView,
    scope: ClientScope,
    cmd: SubmitOrder,
    order: Order,
    ts_init: UnixNanos,
)
    requires
        submit_write_is(write, scope, cmd, order, ts_init),
    ensures
        write.phase is Start,
        write.trader_id == scope.trader_id,
        write.payload.schema_version == 1,
        write.payload.client_id == scope.client_id,
        write.payload.account_id == scope.account_id,
        write.payload.product == ExecutionProduct::Spot,
        write.payload.route == ExecutionRoute::BinanceSpot,
        write.payload.transport == (ExecutionTransportTargetViewV1::Http {
            method: ExecutionHttpMethod::Post,
            path: ExecutionEndpointPath::SpotOrder,
            recv_window_ms: 5_000,
        }),
        write.payload.kind == ExecutionWriteKind::Retry <==> cmd.retry_of is Some,
        write.payload.kind == ExecutionWriteKind::Submit <==> cmd.retry_of is None,
        write.payload.retry_of is Some <==> cmd.retry_of is Some,
        write.payload.elements@.len() == 1,
        write.payload.elements@[0] matches ExecutionWriteElementViewV1::Submit {
            batch_index,
            instrument_id,
            client_order_id,
            side,
            order_type,
            time_in_force,
            quantity,
            price,
            trigger_price,
            quote_quantity,
            display_quantity,
            reduce_only,
            post_only,
            position_side,
            close_position,
            working_type,
            price_protect,
            response_mode,
            good_till_date_ms,
            self_trade_prevention_mode,
            trailing_delta,
            activation_price,
            callback_rate,
            price_match,
            strategy_id,
            strategy_type,
        } && {
            &&& batch_index == 0
            &&& instrument_id == order.instrument_id
            &&& client_order_id == order.client_order_id
            &&& side == order.order_side
            &&& order_type == order.order_type
            &&& quantity == order.quantity
            &&& price == order.price
            &&& trigger_price == order.trigger_price
            &&& display_quantity == order.display_qty
            &&& post_only == order.is_post_only
            &&& order.order_type == OrderType::Market ==> time_in_force
                == ExecutionTimeInForce::NotApplicable
            &&& order.order_type != OrderType::Market && order.is_post_only ==> time_in_force
                == ExecutionTimeInForce::Gtx
            &&& order.order_type != OrderType::Market && !order.is_post_only ==> {
                &&& order.time_in_force == TimeInForce::Gtc ==> time_in_force
                    == ExecutionTimeInForce::Gtc
                &&& order.time_in_force == TimeInForce::Ioc ==> time_in_force
                    == ExecutionTimeInForce::Ioc
                &&& order.time_in_force == TimeInForce::Fok ==> time_in_force
                    == ExecutionTimeInForce::Fok
                &&& order.time_in_force == TimeInForce::Gtc || order.time_in_force
                    == TimeInForce::Ioc || order.time_in_force == TimeInForce::Fok
            }
            &&& !reduce_only
            &&& response_mode == ExecutionOrderResponseMode::SpotFull
            &&& quote_quantity is None
            &&& position_side is None
            &&& close_position is None
            &&& working_type is None
            &&& price_protect is None
            &&& good_till_date_ms is None
            &&& self_trade_prevention_mode is None
            &&& trailing_delta is None
            &&& activation_price is None
            &&& callback_rate is None
            &&& price_match is None
            &&& strategy_id is None
            &&& strategy_type is None
        },
        write.request matches WriteRequest::Submit(request) && {
            &&& request.account_id == scope.account_id
            &&& request.strategy_id == order.strategy_id
            &&& request.instrument_id == order.instrument_id
            &&& request.client_order_id == order.client_order_id
            &&& request.order_side == order.order_side
            &&& request.order_type == order.order_type
            &&& request.quantity == order.quantity
            &&& request.time_in_force == order.time_in_force
            &&& request.price == order.price
            &&& request.trigger_price == order.trigger_price
            &&& request.is_post_only == order.is_post_only
            &&& request.is_quote_quantity == order.is_quote_quantity
            &&& request.display_qty == order.display_qty
            &&& request.ts_init == ts_init
        },
        write.context.command_id == cmd.command_id,
        write.context.client_id == scope.client_id,
        write.context.account_id == scope.account_id,
        write.context.route == ExecutionRoute::BinanceSpot,
        write.context.instrument_id == Some(order.instrument_id),
        write.context.client_order_ids@.len() == 1,
        write.context.client_order_ids@[0] == order.client_order_id,
        write.context.kind == write.payload.kind,
{
}

/// The ancestor that a retry names is the digest that its parameter spells, two lowercase
/// hexadecimal digits for each byte.
pub proof fn law_retry_names_the_digest_it_spells(
    write: WriteView,
    scope: ClientScope,
    cmd: SubmitOrder,
    order: Order,
    ts_init: UnixNanos,
    i: int,
)
    requires
        submit_write_is(write, scope, cmd, order, ts_init),
        0 <= i < 64,
    ensures
        cmd.retry_of matches Some(text) ==> {
            let byte = (write.payload.retry_of->0).0@[i / 2] as int;
            let digit = if i % 2 == 0 {
                byte / 16
            } else {
                byte % 16
            };
            &&& text@.len() == 64
            &&& (write.payload.retry_of->0).0@.len() == 32
            &&& digit < 10 ==> text@[i] as int == '0' as int + digit
            &&& digit >= 10 ==> text@[i] as int == 'a' as int + digit - 10
        },
{
    if let Some(text) = cmd.retry_of {
        let k = i / 2;
        assert(is_hex(text@[2 * k]) && is_hex(text@[2 * k + 1]));
        let high = hex_value(text@[2 * k]);
        let low = hex_value(text@[2 * k + 1]);
        assert(0 <= 16 * high + low < 256);
        assert((write.payload.retry_of->0).0@[k] == (16 * high + low) as u8);
    }
}

proof fn lemma_digest_text(text: Seq<char>)
    ensures
        is_digest_text(text) <==> {
            &&& text.len() == 64
            &&& forall|i: int|
                0 <= i < 64 ==> ('0' <= #[trigger] text[i] <= '9' || 'a' <= text[i] <= 'f')
        },
{
    if is_digest_text(text) {
        assert forall|i: int| 0 <= i < 64 implies ('0' <= #[trigger] text[i] <= '9' || 'a'
            <= text[i] <= 'f') by {
            assert(is_hex(text[i]));
        }
    } else if text.len() == 64 {
        let i = choose|i: int| 0 <= i < 64 && !is_hex(#[trigger] text[i]);
        assert(!('0' <= text[i] <= '9' || 'a' <= text[i] <= 'f'));
    }
}

/// A submission is prepared exactly when the order was found, is a market order without a price or
/// a limit order with one, has no quantity in the quote currency, no trigger and no display
/// quantity, a time in force that is taken, and no retry text but a digest; and then the order is
/// registered as it is, and nothing else changes.
pub proof fn law_submission_is_prepared_exactly(
    r: Result<WriteTask, CommandRefusal>,
    after: DispatchView,
    before: DispatchView,
    scope: ClientScope,
    cmd: SubmitOrder,
    found: Result<&Order, String>,
    ts_init: UnixNanos,
)
    requires
        prepared_as(r, after, before, scope, cmd, found, ts_init),
    ensures
        r is Ok <==> (found matches Ok(order) && {
            &&& {
                ||| order.order_type == OrderType::Market && order.price is None
                ||| order.order_type == OrderType::Limit && order.price is Some
            }
            &&& !order.is_quote_quantity
            &&& order.trigger_price is None
            &&& order.display_qty is None
            &&& {
                ||| order.order_type == OrderType::Market
                ||| order.is_post_only
                ||| order.time_in_force == TimeInForce::Gtc
                ||| order.time_in_force == TimeInForce::Ioc
                ||| order.time_in_force == TimeInForce::Fok
            }
            &&& cmd.retry_of matches Some(text) ==> {
                &&& text@.len() == 64
                &&& forall|i: int|
                    0 <= i < 64 ==> ('0' <= #[trigger] text@[i] <= '9' || 'a' <= text@[i] <= 'f')
            }
        }),
        r matches Err(refusal) ==> after == before && match found {
            Err(text) => refusal@ == RefusalView::OrderLookup(text@),
            Ok(order) => Some(refusal@) == submit_refusal(cmd, *order),
        },
        r matches Ok(task) ==> submit_write_is(task@, scope, cmd, *found->Ok_0, ts_init),
        r is Ok ==> {
            let order = *found->Ok_0;
            let id = order.client_order_id.0@;
            &&& after.order_identities.contains_key(id)
            &&& after.order_identities[id].instrument_id == order.instrument_id
            &&& after.order_identities[id].strategy_id == order.strategy_id
            &&& after.order_identities[id].order_side == order.order_side
            &&& after.order_identities[id].order_type == order.order_type
            &&& after.order_identities[id].price == order.price
            &&& after.order_identities[id].quantity == order.quantity
            &&& after.order_identities.remove(id) == before.order_identities.remove(id)
            &&& after.pending_requests == before.pending_requests
            &&& after.accepted == before.accepted
            &&& after.filled == before.filled
        },
{
    if let Ok(order) = found {
        if let Some(text) = cmd.retry_of {
            lemma_digest_text(text@);
        }
        if r is Ok {
            let id = order.client_order_id.0@;
            assert(after.order_identities.remove(id) =~= before.order_identities.remove(id));
        }
    }
}

/// A refused submission says why: the first of type, quote quantity, trigger, display quantity,
/// price, retry text and time in force that keeps it from being prepared.
pub proof fn law_refused_submission_says_why(cmd: SubmitOrder, order: Order)
    ensures
        ({
            let refusal = submit_refusal(cmd, order);
            let taken = order.order_type == OrderType::Market || order.order_type
                == OrderType::Limit;
            let plain = taken && !order.is_quote_quantity && order.trigger_price is None
                && order.display_qty is None;
            &&& !taken ==> refusal == Some(RefusalView::ConditionalOrderType(order.order_type))
            &&& taken && order.is_quote_quantity ==> refusal == Some(RefusalView::QuoteQuantity)
            &&& taken && !order.is_quote_quantity && order.trigger_price is Some ==> refusal
                == Some(RefusalView::TriggerPrice)
            &&& taken && !order.is_quote_quantity && order.trigger_price is None
                && order.display_qty is Some ==> refusal == Some(RefusalView::DisplayQuantity)
            &&& plain && order.order_type == OrderType::Limit && order.price is None ==> refusal
                == Some(RefusalView::LimitWithoutPrice)
            &&& plain && order.order_type == OrderType::Market && order.price is Some ==> refusal
                == Some(RefusalView::MarketWithPrice)
            &&& refusal matches Some(RefusalView::TimeInForce(t)) ==> {
                &&& t == order.time_in_force
                &&& order.order_type == OrderType::Limit
                &&& !order.is_post_only
                &&& t != TimeInForce::Gtc && t != TimeInForce::Ioc && t != TimeInForce::Fok
            }
            &&& refusal == Some(RefusalView::RetryDigest) ==> (cmd.retry_of matches Some(text) && !{
                &&& text@.len() == 64
                &&& forall|i: int|
                    0 <= i < 64 ==> ('0' <= #[trigger] text@[i] <= '9' || 'a' <= text@[i] <= 'f')
            })
            &&& refusal matches Some(RefusalView::TimeInForce(_)) ==> (
            cmd.retry_of matches Some(text) ==> {
                &&& text@.len() == 64
                &&& forall|i: int|
                    0 <= i < 64 ==> ('0' <= #[trigger] text@[i] <= '9' || 'a' <= text@[i] <= 'f')
            })
            &&& refusal is Some ==> !(refusal->0 is OrderLookup)
                && !(refusal->0 is CancelByVenueOrderId)
        }),
{
    if let Some(text) = cmd.retry_of {
        lemma_digest_text(text@);
    }
}

/// A command for an order that is closed does nothing, one for an order that was not found is
/// refused with what the lookup said, and an order is announced exactly when it is found, open and
/// of a kind that is taken.
pub proof fn law_announced_exactly_when_taken(
    r: Submission,
    after: DispatchView,
    before: DispatchView,
    scope: ClientScope,
    cmd: SubmitOrder,
    found: Result<&Order, String>,
    ts_init: UnixNanos,
)
    requires
        submitted_as(r, after, before, scope, cmd, found, ts_init),
    ensures
        r is Submitted <==> (found matches Ok(order) && {
            &&& !order.is_closed
            &&& order.order_type == OrderType::Market || order.order_type == OrderType::Limit
            &&& !order.is_quote_quantity
            &&& order.trigger_price is None
            &&& order.display_qty is None
        }),
        r is Closed <==> (found matches Ok(order) && order.is_closed),
        found matches Err(text) ==> (r matches Submission::Refused(
            CommandRefusal::OrderLookup(said),
        ) && said@ == text@),
        r matches Submission::Refused(refusal) ==> (found matches Ok(order) ==> Some(refusal@)
            == submit_refusal(cmd, *order)),
        !(r is Submitted) ==> after == before,
        r matches Submission::Submitted(outcome) ==> prepared_as(
            outcome,
            after,
            before,
            scope,
            cmd,
            found,
            ts_init,
        ),
{
}

/// An order is refused whatever the command says exactly when it is conditional, or has a quantity
/// in the quote currency, a trigger or a display quantity.
pub proof fn law_order_is_refused_exactly(r: Result<(), CommandRefusal>, order: Order)
    requires
        refused_as(r, order_refusal(order)),
    ensures
        r is Ok <==> {
            &&& order.order_type == OrderType::Market || order.order_type == OrderType::Limit
            &&& !order.is_quote_quantity
            &&& order.trigger_price is None
            &&& order.display_qty is None
        },
        r matches Err(refusal) ==> Some(refusal@) == submit_refusal(
            SubmitOrder {
                command_id: UUID4 { bits: 0 },
                client_order_id: order.client_order_id,
                retry_of: None,
            },
            order,
        ),
{
}

/// The write prepared for a cancel asks, before the write gate and at the venue alike, for the
/// order that the command names, by its client order ID alone.
pub proof fn law_prepared_cancel_is_the_command(
    write: WriteView,
    scope: ClientScope,
    cmd: CancelOrder,
)
    requires
        cancel_write_is(write, scope, cmd),
    ensures
        write.phase is Start,
        write.trader_id == scope.trader_id,
        write.payload.schema_version == 1,
        write.payload.kind == ExecutionWriteKind::Cancel,
        write.payload.client_id == scope.client_id,
        write.payload.account_id == scope.account_id,
        write.payload.product == ExecutionProduct::Spot,
        write.payload.route == ExecutionRoute::BinanceSpot,
        write.payload.transport == (ExecutionTransportTargetViewV1::Http {
            method: ExecutionHttpMethod::Delete,
            path: ExecutionEndpointPath::SpotOrder,
            recv_window_ms: 5_000,
        }),
        write.payload.retry_of is None,
        write.payload.elements@.len() == 1,
        write.payload.elements@[0] matches ExecutionWriteElementViewV1::Cancel {
            batch_index,
            instrument_id,
            client_order_id,
            venue_order_id,
            cancel_request_client_order_id,
        } && {
            &&& batch_index == 0
            &&& instrument_id == cmd.instrument_id
            &&& client_order_id == cmd.client_order_id
            &&& venue_order_id is None
            &&& cancel_request_client_order_id is None
        },
        write.request matches WriteRequest::Cancel(request) && {
            &&& request.account_id == scope.account_id
            &&& request.strategy_id == cmd.strategy_id
            &&& request.instrument_id == cmd.instrument_id
            &&& request.client_order_id == cmd.client_order_id
            &&& request.venue_order_id == cmd.venue_order_id
        },
        write.context.command_id == cmd.command_id,
        write.context.client_id == scope.client_id,
        write.context.account_id == scope.account_id,
        write.context.route == ExecutionRoute::BinanceSpot,
        write.context.kind == ExecutionWriteKind::Cancel,
        write.context.instrument_id == Some(cmd.instrument_id),
        write.context.client_order_ids@.len() == 1,
        write.context.client_order_ids@[0] == cmd.client_order_id,
{
}

/// A cancel is prepared exactly when it names no venue order ID.
pub proof fn law_cancel_is_prepared_exactly(
    r: Result<WriteTask, CommandRefusal>,
    scope: ClientScope,
    cmd: CancelOrder,
)
    requires
        cancel_prepared_as(r, scope, cmd),
    ensures
        r is Ok <==> cmd.venue_order_id is None,
        r matches Ok(task) ==> cancel_write_is(task@, scope, cmd),
        r matches Err(refusal) ==> refusal is CancelByVenueOrderId,
{
}

/// A venue code leaves the outcome of a write open if and only if it is the one of an unexpected
/// response or the one of an unknown status.
pub proof fn law_only_two_codes_leave_the_outcome_open(code: int)
    ensures
        ambiguous_code(code) <==> code == -1006 || code == -1007,
{
}

/// A failure is a post-only rejection if and only if the venue gave the code of a crossing order,
/// or rejected a new order with the words for one that would take.
pub proof fn law_post_only_rejections(code: int, message: Seq<char>)
    ensures
        post_only_rejection(code, message) <==> code == -5022 || (code == -2010 && message
            == "Order would immediately match and take."@),
{
}

/// What a failure is is told by its variant and its code: an answer of the venue, one that leaves
/// the outcome open, a failure before anything left, or none of these.
pub proof fn law_failures_are_told_apart(error: CommandError)
    ensures
        structured_rejection(error) <==> (error matches CommandError::Http(e) && e is BinanceError),
        ambiguous_error(error) <==> (error matches CommandError::Http(e) && (
        e matches BinanceSpotHttpError::BinanceError { code, .. } && (code == -1006 || code
            == -1007))),
        local_failure(error) <==> (error matches CommandError::Http(e) && (e is MissingCredentials
            || e is ValidationError)),
{
}

/// The same of a failure of the HTTP client.
pub proof fn law_http_failures_are_told_apart(error: BinanceSpotHttpError)
    ensures
        local_http_failure(error) <==> error is MissingCredentials || error is ValidationError,
        http_post_only_rejection(error) <==> (error matches BinanceSpotHttpError::BinanceError {
            code,
            message,
        } && (code == -5022 || (code == -2010 && message@
            == "Order would immediately match and take."@))),
{
}

/// The outcome that is recorded of a write: accepted if it was; definitively rejected if the venue
/// answered with an error that settles it, or if nothing left; and unknown in every other case.
pub proof fn law_recorded_outcome(answer: WriteAnswer)
    ensures
        outcome_class(answer) == TransportOutcomeClass::AcceptedNonterminal <==> answer is Accepted,
        outcome_class(answer) == TransportOutcomeClass::RejectedDefinitive <==> (
        answer matches WriteAnswer::Failed { error, .. } && (error matches CommandError::Http(e)
            && (match e {
            BinanceSpotHttpError::BinanceError { code, .. } => code != -1006 && code != -1007,
            BinanceSpotHttpError::MissingCredentials => true,
            BinanceSpotHttpError::ValidationError(_) => true,
            _ => false,
        }))),
{
}

/// What a submission makes of its order. An accepted one is announced once more as accepted, with
/// the ID that the venue gave it. One that is settled by a rejection is rejected with what the
/// failure says, and its order is forgotten. Any other leaves everything as it was.
pub proof fn law_submission_is_settled_by_its_answer(
    trader_id: TraderId,
    request: SubmitRequest,
    answer: WriteAnswer,
    state: DispatchView,
    ts_now: UnixNanos,
)
    ensures
        ({
            let (after, event) = submit_report(trader_id, request, answer, state, ts_now);
            let id = request.client_order_id.0@;
            let settled = outcome_class(answer) == TransportOutcomeClass::RejectedDefinitive;
            &&& after.pending_requests == state.pending_requests
            &&& after.filled == state.filled
            &&& event matches Some(e) ==> {
                &&& e.trader_id == trader_id.0@
                &&& e.strategy_id == request.strategy_id.0@
                &&& e.instrument_id == (
                    request.instrument_id.symbol@,
                    request.instrument_id.venue@,
                )
                &&& e.client_order_id == id
                &&& e.account_id == request.account_id.0@
                &&& e.ts_event == request.ts_init
            }
            &&& answer matches WriteAnswer::Accepted(venue_order_id) ==> {
                &&& after.order_identities == state.order_identities
                &&& after.accepted == state.accepted.insert(id)
                &&& event matches Some(e) && e.ts_init == request.ts_init && e.kind
                    == (EventKindView::Accepted { venue_order_id: venue_order_id.0@ })
            }
            &&& answer matches WriteAnswer::Failed { error, text } ==> {
                &&& event is Some <==> settled
                &&& after.order_identities == if settled {
                    state.order_identities.remove(id)
                } else {
                    state.order_identities
                }
                &&& after.accepted == if settled {
                    state.accepted.remove(id)
                } else {
                    state.accepted
                }
                &&& event matches Some(e) ==> e.ts_init == ts_now && (
                e.kind matches EventKindView::Rejected { reason, due_post_only } && reason
                    == "submit-order-error: "@ + text@ && (due_post_only <==> (
                error matches CommandError::Http(e) && http_post_only_rejection(e))))
            }
        }),
{
}

/// What a cancel makes of its order. An accepted one is reported as canceled, with the ID that the
/// venue gave it, and the order is forgotten. A failed one leaves the order as it was, and is
/// reported as rejected, with what the failure says, exactly when the venue answered with an error.
pub proof fn law_cancel_is_settled_by_its_answer(
    trader_id: TraderId,
    request: CancelRequest,
    answer: WriteAnswer,
    state: DispatchView,
    ts_now: UnixNanos,
)
    ensures
        ({
            let (after, event) = cancel_report(trader_id, request, answer, state, ts_now);
            let id = request.client_order_id.0@;
            &&& after.pending_requests == state.pending_requests
            &&& after.filled == state.filled
            &&& event matches Some(e) ==> {
                &&& e.trader_id == trader_id.0@
                &&& e.strategy_id == request.strategy_id.0@
                &&& e.instrument_id == (
                    request.instrument_id.symbol@,
                    request.instrument_id.venue@,
                )
                &&& e.client_order_id == id
                &&& e.account_id == request.account_id.0@
                &&& e.ts_event == ts_now
                &&& e.ts_init == ts_now
            }
            &&& answer matches WriteAnswer::Accepted(venue_order_id) ==> {
                &&& after.order_identities == state.order_identities.remove(id)
                &&& after.accepted == state.accepted.remove(id)
                &&& event matches Some(e) && e.kind == (EventKindView::Canceled {
                    venue_order_id: Some(venue_order_id.0@),
                })
            }
            &&& answer matches WriteAnswer::Failed { error, text } ==> {
                &&& after == state
                &&& event is Some <==> (error matches CommandError::Http(e) && e is BinanceError)
                &&& event matches Some(e) ==> (e.kind matches EventKindView::CancelRejected {
                    reason,
                    venue_order_id,
                } && reason == "cancel-order-error: "@ + text@ && venue_order_id
                    == match request.venue_order_id {
                    Some(named) => Some(named.0@),
                    None => None,
                })
            }
        }),
{
}

/// What comes of a write is that of its submission or its cancel, by what was asked for.
pub proof fn law_write_is_settled_as_asked(
    trader_id: TraderId,
    request: WriteRequest,
    answer: WriteAnswer,
    state: DispatchView,
    ts_now: UnixNanos,
)
    ensures
        request matches WriteRequest::Submit(submit) ==> write_report(
            trader_id,
            request,
            answer,
            state,
            ts_now,
        ) == submit_report(trader_id, submit, answer, state, ts_now),
        request matches WriteRequest::Cancel(cancel) ==> write_report(
            trader_id,
            request,
            answer,
            state,
            ts_now,
        ) == cancel_report(trader_id, cancel, answer, state, ts_now),
{
}

/// A write takes one step at a time, each on the one signal that it waits for: it asks for a permit
/// only where there is a write gate and its request is let through, arms the permit once it is
/// given, sends once it is armed, records the outcome of the answer, and then reports it. Whatever
/// refuses it on the way ends it with that refusal. No other signal moves it.
pub proof fn law_write_steps(write: WriteView, state: DispatchView, signal: WriteSignal)
    ensures
        ({
            let (phase, after, action) = write_step(write, state, signal);
            let refusal = first_release_refusal(write.payload, write.context);
            &&& !(action is Report) ==> after == state
            &&& action is Acquire <==> write.phase is Start && refusal is None && (
            signal matches WriteSignal::Begin { has_gate } && has_gate)
            &&& action is Arm <==> write.phase is Acquiring && (signal matches WriteSignal::Permit(
                Ok(_),
            ))
            &&& action is Send <==> write.phase is Arming && (signal matches WriteSignal::Armed(
                Ok(_),
            ))
            &&& action is Record <==> write.phase is Sending && signal is Answer
            &&& action is Report <==> write.phase is Recording && signal is Recorded
            &&& action is Refuse <==> {
                ||| write.phase is Start && (signal matches WriteSignal::Begin { has_gate } && (
                !has_gate || refusal is Some))
                ||| write.phase is Acquiring && (signal matches WriteSignal::Permit(Err(_)))
                ||| write.phase is Arming && (signal matches WriteSignal::Armed(Err(_)))
            }
            &&& action is Acquire ==> phase is Acquiring
            &&& action is Arm ==> phase is Arming
            &&& action is Send ==> phase is Sending
            &&& action is Refuse ==> phase is Done
            &&& action is Ignore ==> phase == write.phase
            &&& action matches WriteActionView::Record(outcome) ==> (
            signal matches WriteSignal::Answer(answer) && phase == WritePhase::Recording(answer)
                && outcome == outcome_class(answer))
            &&& action matches WriteActionView::Refuse(error) ==> match signal {
                WriteSignal::Begin { has_gate } => if has_gate {
                    refusal == Some(error)
                } else {
                    error is MissingGate
                },
                WriteSignal::Permit(Err(said)) => error == said@,
                WriteSignal::Armed(Err(said)) => error == said@,
                _ => false,
            }
            &&& action matches WriteActionView::Report { event, error } ==> phase is Done && (
            write.phase matches WritePhase::Recording(answer) && (
            signal matches WriteSignal::Recorded { ts_now } && {
                &&& (after, event) == write_report(
                    write.trader_id,
                    write.request,
                    answer,
                    state,
                    ts_now,
                )
                &&& error == match answer {
                    WriteAnswer::Accepted(_) => None::<CommandError>,
                    WriteAnswer::Failed { error, .. } => Some(error),
                }
            }))
        }),
{
}

} // verus!

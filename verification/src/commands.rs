//! Commands of the trader: which are let through in the first release, and the writes that are
//! prepared for them.

use crate::dispatch_state::{DispatchView, OrderIdentity, WsDispatchState};
use crate::enums::{OrderType, TimeInForce};
use crate::execution_write::{
    first_release_refusal, ExecutionEndpointPath, ExecutionHttpMethod, ExecutionOrderResponseMode,
    ExecutionProduct, ExecutionRoute, ExecutionTimeInForce, ExecutionTransportTargetViewV1,
    ExecutionWriteContext, ExecutionWriteElementViewV1, ExecutionWriteKind,
    ExecutionWritePayloadViewV1, FinalWritePayloadDigest,
};
use crate::identifiers::{
    AccountId, ClientId, ClientOrderId, InstrumentId, StrategyId, TraderId, UnixNanos, VenueOrderId,
    UUID4,
};
use crate::orders::Order;
use crate::text::join;
use crate::write_task::{
    CancelRequest, SubmitRequest, WritePhase, WriteRequest, WriteTask, WriteView,
};
use vstd::prelude::*;
use vstd::string::*;

verus! {

/// Receive window that the first release asks for, in milliseconds.
pub const RECV_WINDOW_MS: u64 = 5_000;

/// Who the client is.
#[derive(Debug)]
pub struct ClientScope {
    /// Execution client.
    pub client_id: ClientId,
    /// Trader that the node runs for.
    pub trader_id: TraderId,
    /// Account of the client.
    pub account_id: AccountId,
}

/// A command to submit an order.
#[derive(Debug)]
pub struct SubmitOrder {
    /// Command.
    pub command_id: UUID4,
    /// Order to look up and submit.
    pub client_order_id: ClientOrderId,
    /// Text of the command's `sae_retry_of` parameter, where it has one.
    pub retry_of: Option<String>,
}

/// A command to cancel an order.
#[derive(Debug)]
pub struct CancelOrder {
    /// Command.
    pub command_id: UUID4,
    /// Strategy that owns the order.
    pub strategy_id: StrategyId,
    /// Instrument of the order.
    pub instrument_id: InstrumentId,
    /// Order.
    pub client_order_id: ClientOrderId,
    /// Venue order ID, where the command names one.
    pub venue_order_id: Option<VenueOrderId>,
}

/// Why a command is not taken up.
#[derive(Clone, Debug, PartialEq, Eq)]
pub enum CommandRefusal {
    /// The order was not found. The text is what its lookup said.
    OrderLookup(String),
    /// The order is conditional.
    ConditionalOrderType(OrderType),
    /// The quantity is in the quote currency.
    QuoteQuantity,
    /// The order has a trigger price.
    TriggerPrice,
    /// The order shows only part of its quantity.
    DisplayQuantity,
    /// A limit order has no price.
    LimitWithoutPrice,
    /// A market order has a price.
    MarketWithPrice,
    /// The retry ancestry is no digest.
    RetryDigest,
    /// The time in force is not taken.
    TimeInForce(TimeInForce),
    /// A cancel names a venue order ID.
    CancelByVenueOrderId,
}

/// Why a command is not taken up, with its text as a character sequence.
pub enum RefusalView {
    /// The order was not found. The text is what its lookup said.
    OrderLookup(Seq<char>),
    /// The order is conditional.
    ConditionalOrderType(OrderType),
    /// The quantity is in the quote currency.
    QuoteQuantity,
    /// The order has a trigger price.
    TriggerPrice,
    /// The order shows only part of its quantity.
    DisplayQuantity,
    /// A limit order has no price.
    LimitWithoutPrice,
    /// A market order has a price.
    MarketWithPrice,
    /// The retry ancestry is no digest.
    RetryDigest,
    /// The time in force is not taken.
    TimeInForce(TimeInForce),
    /// A cancel names a venue order ID.
    CancelByVenueOrderId,
}

impl View for CommandRefusal {
    type V = RefusalView;

    open spec fn view(&self) -> RefusalView {
        match *self {
            CommandRefusal::OrderLookup(text) => RefusalView::OrderLookup(text@),
            CommandRefusal::ConditionalOrderType(t) => RefusalView::ConditionalOrderType(t),
            CommandRefusal::QuoteQuantity => RefusalView::QuoteQuantity,
            CommandRefusal::TriggerPrice => RefusalView::TriggerPrice,
            CommandRefusal::DisplayQuantity => RefusalView::DisplayQuantity,
            CommandRefusal::LimitWithoutPrice => RefusalView::LimitWithoutPrice,
            CommandRefusal::MarketWithPrice => RefusalView::MarketWithPrice,
            CommandRefusal::RetryDigest => RefusalView::RetryDigest,
            CommandRefusal::TimeInForce(t) => RefusalView::TimeInForce(t),
            CommandRefusal::CancelByVenueOrderId => RefusalView::CancelByVenueOrderId,
        }
    }
}

impl RefusalView {
    /// What the refusal says.
    pub open spec fn text(self) -> Seq<char> {
        match self {
            RefusalView::OrderLookup(text) => text,
            RefusalView::ConditionalOrderType(t) =>
                "first-release Binance Spot rejects conditional order type "@ + t.name(),
            RefusalView::QuoteQuantity =>
                "first-release Binance Spot rejects quote-order quantity"@,
            RefusalView::TriggerPrice => "first-release Binance Spot rejects trigger price"@,
            RefusalView::DisplayQuantity => "first-release Binance Spot rejects display quantity"@,
            RefusalView::LimitWithoutPrice => "Binance Spot limit order requires a price"@,
            RefusalView::MarketWithPrice => "Binance Spot market order forbids a price"@,
            RefusalView::RetryDigest => "sae_retry_of must be 64 lowercase hex characters"@,
            RefusalView::TimeInForce(t) => "first-release Binance Spot rejects time in force "@
                + t.name(),
            RefusalView::CancelByVenueOrderId =>
                "first-release Binance Spot cancel requires exact ClientOrderId only"@,
        }
    }
}

impl CommandRefusal {
    /// What the refusal says.
    pub fn message(&self) -> (r: String)
        ensures
            r@ == self@.text(),
    {
        match self {
            CommandRefusal::OrderLookup(text) => text.clone(),
            CommandRefusal::ConditionalOrderType(t) => join(
                "first-release Binance Spot rejects conditional order type ",
                t.as_name(),
            ),
            CommandRefusal::QuoteQuantity =>
                "first-release Binance Spot rejects quote-order quantity".to_owned(),
            CommandRefusal::TriggerPrice =>
                "first-release Binance Spot rejects trigger price".to_owned(),
            CommandRefusal::DisplayQuantity =>
                "first-release Binance Spot rejects display quantity".to_owned(),
            CommandRefusal::LimitWithoutPrice =>
                "Binance Spot limit order requires a price".to_owned(),
            CommandRefusal::MarketWithPrice =>
                "Binance Spot market order forbids a price".to_owned(),
            CommandRefusal::RetryDigest =>
                "sae_retry_of must be 64 lowercase hex characters".to_owned(),
            CommandRefusal::TimeInForce(t) => join(
                "first-release Binance Spot rejects time in force ",
                t.as_name(),
            ),
            CommandRefusal::CancelByVenueOrderId =>
                "first-release Binance Spot cancel requires exact ClientOrderId only".to_owned(),
        }
    }
}

/// Whether a character is a lowercase hexadecimal digit.
pub open spec fn is_hex(c: char) -> bool {
    '0' <= c <= '9' || 'a' <= c <= 'f'
}

/// The value of a lowercase hexadecimal digit.
pub open spec fn hex_value(c: char) -> int {
    if '0' <= c <= '9' {
        c as int - '0' as int
    } else {
        c as int - 'a' as int + 10
    }
}

/// Whether a text is a digest: 64 lowercase hexadecimal digits.
pub open spec fn is_digest_text(text: Seq<char>) -> bool {
    &&& text.len() == 64
    &&& forall|i: int| 0 <= i < 64 ==> is_hex(#[trigger] text[i])
}

/// The bytes of a digest text, each from two digits.
pub open spec fn digest_bytes(text: Seq<char>) -> Seq<u8> {
    Seq::new(32, |i: int| (16 * hex_value(text[2 * i]) + hex_value(text[2 * i + 1])) as u8)
}

/// Whether `digest` is the retry ancestry that a parameter names.
pub open spec fn ancestry_is(
    digest: Option<FinalWritePayloadDigest>,
    param: Option<String>,
) -> bool {
    match param {
        None => digest is None,
        Some(text) => is_digest_text(text@) && (digest matches Some(d) && d.0@ == digest_bytes(
            text@,
        )),
    }
}

fn hex_digit(c: char) -> (r: Option<u8>)
    ensures
        is_hex(c) ==> (r matches Some(v) && v == hex_value(c) && v < 16),
        !is_hex(c) ==> r is None,
{
    if '0' <= c && c <= '9' {
        Some((c as u32 - '0' as u32) as u8)
    } else if 'a' <= c && c <= 'f' {
        Some((c as u32 - 'a' as u32) as u8 + 10)
    } else {
        None
    }
}

/// The retry ancestry that a command names in its `sae_retry_of` parameter, if it has one.
pub fn retry_digest(param: &Option<String>) -> (r: Result<
    Option<FinalWritePayloadDigest>,
    CommandRefusal,
>)
    ensures
        match r {
            Ok(digest) => ancestry_is(digest, *param),
            Err(e) => e == CommandRefusal::RetryDigest && (param matches Some(text)
                && !is_digest_text(text@)),
        },
{
    let value = match param {
        None => return Ok(None),
        Some(value) => value.as_str(),
    };
    if value.unicode_len() != 64 {
        return Err(CommandRefusal::RetryDigest);
    }
    let mut digest: [u8; 32] = [0; 32];
    let mut i: usize = 0;
    while i < 32
        invariant
            i <= 32,
            param matches Some(text) && text@ == value@,
            value@.len() == 64,
            digest@.len() == 32,
            forall|k: int| 0 <= k < 2 * i ==> is_hex(#[trigger] value@[k]),
            forall|k: int| 0 <= k < i ==> #[trigger] digest@[k] == digest_bytes(value@)[k],
        decreases 32 - i,
    {
        let high = hex_digit(value.get_char(2 * i));
        let low = hex_digit(value.get_char(2 * i + 1));
        match (high, low) {
            (Some(high), Some(low)) => {
                digest[i] = 16 * high + low;
            },
            _ => {
                assert(!is_hex(value@[2 * i]) || !is_hex(value@[2 * i + 1]));
                return Err(CommandRefusal::RetryDigest);
            },
        }
        i = i + 1;
    }
    assert(digest@ =~= digest_bytes(value@));
    Ok(Some(FinalWritePayloadDigest(digest)))
}

/// Why an order is not taken up whatever the command says, if it is not.
pub open spec fn order_refusal(order: Order) -> Option<RefusalView> {
    if order.order_type != OrderType::Market && order.order_type != OrderType::Limit {
        Some(RefusalView::ConditionalOrderType(order.order_type))
    } else if order.is_quote_quantity {
        Some(RefusalView::QuoteQuantity)
    } else if order.trigger_price is Some {
        Some(RefusalView::TriggerPrice)
    } else if order.display_qty is Some {
        Some(RefusalView::DisplayQuantity)
    } else {
        None
    }
}

/// Whether `r` is the verdict that `refusal` calls for.
pub open spec fn refused_as(r: Result<(), CommandRefusal>, refusal: Option<RefusalView>) -> bool {
    match refusal {
        None => r is Ok,
        Some(e) => r matches Err(found) && found@ == e,
    }
}

/// Refuses an order that the first release does not take.
pub fn validate_spot_first_release_order(order: &Order) -> (r: Result<(), CommandRefusal>)
    ensures
        refused_as(r, order_refusal(*order)),
{
    match order.order_type {
        OrderType::Market => {},
        OrderType::Limit => {},
        _ => return Err(CommandRefusal::ConditionalOrderType(order.order_type)),
    }
    if order.is_quote_quantity {
        return Err(CommandRefusal::QuoteQuantity);
    }
    if order.trigger_price.is_some() {
        return Err(CommandRefusal::TriggerPrice);
    }
    if order.display_qty.is_some() {
        return Err(CommandRefusal::DisplayQuantity);
    }
    Ok(())
}

/// The time in force that the final request carries, if it is taken.
pub open spec fn carried_in_force(
    order_type: OrderType,
    time_in_force: TimeInForce,
    post_only: bool,
) -> Option<ExecutionTimeInForce> {
    if order_type == OrderType::Market {
        Some(ExecutionTimeInForce::NotApplicable)
    } else if post_only {
        Some(ExecutionTimeInForce::Gtx)
    } else {
        match time_in_force {
            TimeInForce::Gtc => Some(ExecutionTimeInForce::Gtc),
            TimeInForce::Ioc => Some(ExecutionTimeInForce::Ioc),
            TimeInForce::Fok => Some(ExecutionTimeInForce::Fok),
            _ => None,
        }
    }
}

/// The time in force that the final request carries.
pub fn final_time_in_force(
    order_type: OrderType,
    time_in_force: TimeInForce,
    post_only: bool,
) -> (r: Result<ExecutionTimeInForce, CommandRefusal>)
    ensures
        r == match carried_in_force(order_type, time_in_force, post_only) {
            Some(t) => Ok(t),
            None => Err(CommandRefusal::TimeInForce(time_in_force)),
        },
{
    if order_type == OrderType::Market {
        return Ok(ExecutionTimeInForce::NotApplicable);
    }
    if post_only {
        return Ok(ExecutionTimeInForce::Gtx);
    }
    match time_in_force {
        TimeInForce::Gtc => Ok(ExecutionTimeInForce::Gtc),
        TimeInForce::Ioc => Ok(ExecutionTimeInForce::Ioc),
        TimeInForce::Fok => Ok(ExecutionTimeInForce::Fok),
        unsupported => Err(CommandRefusal::TimeInForce(unsupported)),
    }
}

/// Why a submission is not taken up, if it is not: the first rule that it breaks.
pub open spec fn submit_refusal(cmd: SubmitOrder, order: Order) -> Option<RefusalView> {
    if order_refusal(order) is Some {
        order_refusal(order)
    } else if order.order_type == OrderType::Limit && order.price is None {
        Some(RefusalView::LimitWithoutPrice)
    } else if order.order_type == OrderType::Market && order.price is Some {
        Some(RefusalView::MarketWithPrice)
    } else if cmd.retry_of matches Some(text) && !is_digest_text(text@) {
        Some(RefusalView::RetryDigest)
    } else if carried_in_force(
        order.order_type,
        order.time_in_force,
        order.is_post_only,
    ) is None {
        Some(RefusalView::TimeInForce(order.time_in_force))
    } else {
        None
    }
}

/// The kind of a submission: a retry if it names its ancestor.
pub open spec fn submit_kind(cmd: SubmitOrder) -> ExecutionWriteKind {
    if cmd.retry_of is Some {
        ExecutionWriteKind::Retry
    } else {
        ExecutionWriteKind::Submit
    }
}

/// The element of a submission.
pub open spec fn submit_element(
    order: Order,
    time_in_force: ExecutionTimeInForce,
) -> ExecutionWriteElementViewV1 {
    ExecutionWriteElementViewV1::Submit {
        batch_index: 0,
        instrument_id: order.instrument_id,
        client_order_id: order.client_order_id,
        side: order.order_side,
        order_type: order.order_type,
        time_in_force,
        quantity: order.quantity,
        price: order.price,
        trigger_price: order.trigger_price,
        quote_quantity: None,
        display_quantity: order.display_qty,
        reduce_only: false,
        post_only: order.is_post_only,
        position_side: None,
        close_position: None,
        working_type: None,
        price_protect: None,
        response_mode: ExecutionOrderResponseMode::SpotFull,
        good_till_date_ms: None,
        self_trade_prevention_mode: None,
        trailing_delta: None,
        activation_price: None,
        callback_rate: None,
        price_match: None,
        strategy_id: None,
        strategy_type: None,
    }
}

/// The element of a cancel.
pub open spec fn cancel_element(cmd: CancelOrder) -> ExecutionWriteElementViewV1 {
    ExecutionWriteElementViewV1::Cancel {
        batch_index: 0,
        instrument_id: cmd.instrument_id,
        client_order_id: cmd.client_order_id,
        venue_order_id: None,
        cancel_request_client_order_id: None,
    }
}

/// Whether `payload` is the final request of `kind` that the client makes by `method` with one
/// element, but for its ancestry.
pub open spec fn payload_is(
    payload: ExecutionWritePayloadViewV1,
    scope: ClientScope,
    kind: ExecutionWriteKind,
    method: ExecutionHttpMethod,
    element: ExecutionWriteElementViewV1,
) -> bool {
    &&& payload.schema_version == 1
    &&& payload.kind == kind
    &&& payload.client_id == scope.client_id
    &&& payload.account_id == scope.account_id
    &&& payload.product == ExecutionProduct::Spot
    &&& payload.route == ExecutionRoute::BinanceSpot
    &&& payload.transport == ExecutionTransportTargetViewV1::Http {
        method,
        path: ExecutionEndpointPath::SpotOrder,
        recv_window_ms: RECV_WINDOW_MS,
    }
    &&& payload.elements@ == seq![element]
}

/// Whether `context` is the context of a write of `kind` for one order.
pub open spec fn context_is(
    context: ExecutionWriteContext,
    scope: ClientScope,
    command_id: UUID4,
    kind: ExecutionWriteKind,
    instrument_id: InstrumentId,
    client_order_id: ClientOrderId,
) -> bool {
    &&& context.command_id == command_id
    &&& context.client_id == scope.client_id
    &&& context.account_id == scope.account_id
    &&& context.route == ExecutionRoute::BinanceSpot
    &&& context.instrument_id == Some(instrument_id)
    &&& context.client_order_ids@ == seq![client_order_id]
    &&& context.kind == kind
}

/// The request that the HTTP client gets for a submission.
pub open spec fn submit_request(
    scope: ClientScope,
    order: Order,
    ts_init: UnixNanos,
) -> SubmitRequest {
    SubmitRequest {
        account_id: scope.account_id,
        strategy_id: order.strategy_id,
        instrument_id: order.instrument_id,
        client_order_id: order.client_order_id,
        order_side: order.order_side,
        order_type: order.order_type,
        quantity: order.quantity,
        time_in_force: order.time_in_force,
        price: order.price,
        trigger_price: order.trigger_price,
        is_post_only: order.is_post_only,
        is_quote_quantity: order.is_quote_quantity,
        display_qty: order.display_qty,
        ts_init,
    }
}

/// Whether `write` is the write prepared for a submission.
pub open spec fn submit_write_is(
    write: WriteView,
    scope: ClientScope,
    cmd: SubmitOrder,
    order: Order,
    ts_init: UnixNanos,
) -> bool {
    let time_in_force = carried_in_force(
        order.order_type,
        order.time_in_force,
        order.is_post_only,
    );
    &&& write.phase == WritePhase::Start
    &&& write.trader_id == scope.trader_id
    &&& write.request == WriteRequest::Submit(submit_request(scope, order, ts_init))
    &&& time_in_force is Some
    &&& payload_is(
        write.payload,
        scope,
        submit_kind(cmd),
        ExecutionHttpMethod::Post,
        submit_element(order, time_in_force->0),
    )
    &&& ancestry_is(write.payload.retry_of, cmd.retry_of)
    &&& context_is(
        write.context,
        scope,
        cmd.command_id,
        submit_kind(cmd),
        order.instrument_id,
        order.client_order_id,
    )
}

/// Whether `write` is the write prepared for a cancel.
pub open spec fn cancel_write_is(write: WriteView, scope: ClientScope, cmd: CancelOrder) -> bool {
    &&& write.phase == WritePhase::Start
    &&& write.trader_id == scope.trader_id
    &&& write.request == WriteRequest::Cancel(
        CancelRequest {
            account_id: scope.account_id,
            strategy_id: cmd.strategy_id,
            instrument_id: cmd.instrument_id,
            client_order_id: cmd.client_order_id,
            venue_order_id: cmd.venue_order_id,
        },
    )
    &&& payload_is(
        write.payload,
        scope,
        ExecutionWriteKind::Cancel,
        ExecutionHttpMethod::Delete,
        cancel_element(cmd),
    )
    &&& write.payload.retry_of is None
    &&& context_is(
        write.context,
        scope,
        cmd.command_id,
        ExecutionWriteKind::Cancel,
        cmd.instrument_id,
        cmd.client_order_id,
    )
}

/// What is remembered of an order that is submitted.
pub open spec fn identity_of(order: Order) -> OrderIdentity {
    OrderIdentity {
        instrument_id: order.instrument_id,
        strategy_id: order.strategy_id,
        order_side: order.order_side,
        order_type: order.order_type,
        price: order.price,
        quantity: order.quantity,
    }
}

fn build_payload(
    scope: &ClientScope,
    kind: ExecutionWriteKind,
    method: ExecutionHttpMethod,
    element: ExecutionWriteElementViewV1,
    retry_of: Option<FinalWritePayloadDigest>,
) -> (payload: ExecutionWritePayloadViewV1)
    ensures
        payload_is(payload, *scope, kind, method, element),
        payload.retry_of == retry_of,
{
    let mut elements: Vec<ExecutionWriteElementViewV1> = Vec::new();
    elements.push(element);
    assert(elements@ =~= seq![element]);
    ExecutionWritePayloadViewV1 {
        schema_version: 1,
        kind,
        client_id: scope.client_id.clone(),
        account_id: scope.account_id.clone(),
        product: ExecutionProduct::Spot,
        route: ExecutionRoute::BinanceSpot,
        transport: ExecutionTransportTargetViewV1::Http {
            method,
            path: ExecutionEndpointPath::SpotOrder,
            recv_window_ms: RECV_WINDOW_MS,
        },
        elements,
        retry_of,
    }
}

fn build_context(
    scope: &ClientScope,
    command_id: UUID4,
    kind: ExecutionWriteKind,
    instrument_id: &InstrumentId,
    client_order_id: &ClientOrderId,
) -> (context: ExecutionWriteContext)
    ensures
        context_is(context, *scope, command_id, kind, *instrument_id, *client_order_id),
{
    let mut client_order_ids: Vec<ClientOrderId> = Vec::new();
    client_order_ids.push(client_order_id.clone());
    assert(client_order_ids@ =~= seq![*client_order_id]);
    ExecutionWriteContext {
        command_id,
        client_id: scope.client_id.clone(),
        account_id: scope.account_id.clone(),
        route: ExecutionRoute::BinanceSpot,
        instrument_id: Some(instrument_id.clone()),
        client_order_ids,
        kind,
    }
}

/// What the preparation of an order's submission leaves, if its lookup gave `found`: a failed
/// lookup and a broken rule change nothing; otherwise the order is registered, and the write that
/// places it is prepared.
pub open spec fn prepared_as(
    r: Result<WriteTask, CommandRefusal>,
    after: DispatchView,
    before: DispatchView,
    scope: ClientScope,
    cmd: SubmitOrder,
    found: Result<&Order, String>,
    ts_init: UnixNanos,
) -> bool {
    match found {
        Err(text) => after == before && (r matches Err(e) && e@ == RefusalView::OrderLookup(text@)),
        Ok(order) => match submit_refusal(cmd, *order) {
            Some(refusal) => after == before && (r matches Err(e) && e@ == refusal),
            None => {
                &&& after == before.registered(order.client_order_id@, identity_of(*order))
                &&& r matches Ok(task) && submit_write_is(task@, scope, cmd, *order, ts_init)
            },
        },
    }
}

/// Prepares the submission of an order: registers the order, so that reports about it are
/// recognised, and builds the signed HTTP write that places it. No order goes out in another way.
/// `found` is the order that the command names, or what its lookup said.
pub fn submit_order_internal(
    scope: &ClientScope,
    cmd: &SubmitOrder,
    found: Result<&Order, String>,
    state: &mut WsDispatchState,
    ts_init: UnixNanos,
) -> (r: Result<WriteTask, CommandRefusal>)
    ensures
        prepared_as(r, final(state)@, old(state)@, *scope, *cmd, found, ts_init),
{
    let order = match found {
        Ok(order) => order,
        Err(text) => return Err(CommandRefusal::OrderLookup(text)),
    };
    match validate_spot_first_release_order(order) {
        Ok(_) => {},
        Err(e) => return Err(e),
    }
    if order.order_type == OrderType::Limit {
        if order.price.is_none() {
            return Err(CommandRefusal::LimitWithoutPrice);
        }
    } else if order.price.is_some() {
        return Err(CommandRefusal::MarketWithPrice);
    }
    let retry_of = match retry_digest(&cmd.retry_of) {
        Ok(retry_of) => retry_of,
        Err(e) => return Err(e),
    };
    let kind = if retry_of.is_some() {
        ExecutionWriteKind::Retry
    } else {
        ExecutionWriteKind::Submit
    };
    let time_in_force = match final_time_in_force(
        order.order_type,
        order.time_in_force,
        order.is_post_only,
    ) {
        Ok(time_in_force) => time_in_force,
        Err(e) => return Err(e),
    };
    let element = ExecutionWriteElementViewV1::Submit {
        batch_index: 0,
        instrument_id: order.instrument_id.clone(),
        client_order_id: order.client_order_id.clone(),
        side: order.order_side,
        order_type: order.order_type,
        time_in_force,
        quantity: order.quantity,
        price: order.price,
        trigger_price: order.trigger_price,
        quote_quantity: None,
        display_quantity: order.display_qty,
        reduce_only: false,
        post_only: order.is_post_only,
        position_side: None,
        close_position: None,
        working_type: None,
        price_protect: None,
        response_mode: ExecutionOrderResponseMode::SpotFull,
        good_till_date_ms: None,
        self_trade_prevention_mode: None,
        trailing_delta: None,
        activation_price: None,
        callback_rate: None,
        price_match: None,
        strategy_id: None,
        strategy_type: None,
    };
    let payload = build_payload(scope, kind, ExecutionHttpMethod::Post, element, retry_of);
    let context = build_context(
        scope,
        cmd.command_id,
        kind,
        &order.instrument_id,
        &order.client_order_id,
    );
    state.register_order(
        &order.client_order_id,
        OrderIdentity {
            instrument_id: order.instrument_id.clone(),
            strategy_id: order.strategy_id.clone(),
            order_side: order.order_side,
            order_type: order.order_type,
            price: order.price,
            quantity: order.quantity,
        },
    );
    let request = SubmitRequest {
        account_id: scope.account_id.clone(),
        strategy_id: order.strategy_id.clone(),
        instrument_id: order.instrument_id.clone(),
        client_order_id: order.client_order_id.clone(),
        order_side: order.order_side,
        order_type: order.order_type,
        quantity: order.quantity,
        time_in_force: order.time_in_force,
        price: order.price,
        trigger_price: order.trigger_price,
        is_post_only: order.is_post_only,
        is_quote_quantity: order.is_quote_quantity,
        display_qty: order.display_qty,
        ts_init,
    };
    Ok(WriteTask::new(payload, context, WriteRequest::Submit(request), scope.trader_id.clone()))
}

/// What the preparation of a cancel leaves: a refusal if the command names a venue order ID, and
/// the write that asks for the cancel otherwise.
pub open spec fn cancel_prepared_as(
    r: Result<WriteTask, CommandRefusal>,
    scope: ClientScope,
    cmd: CancelOrder,
) -> bool {
    if cmd.venue_order_id is Some {
        r matches Err(e) && e is CancelByVenueOrderId
    } else {
        r matches Ok(task) && cancel_write_is(task@, scope, cmd)
    }
}

/// Prepares a cancel: builds the signed HTTP write that asks for it. No cancel goes out in another
/// way.
pub fn cancel_order_internal(scope: &ClientScope, cmd: &CancelOrder) -> (r: Result<
    WriteTask,
    CommandRefusal,
>)
    ensures
        cmd.venue_order_id is Some ==> r == Err::<WriteTask, CommandRefusal>(
            CommandRefusal::CancelByVenueOrderId,
        ),
        cmd.venue_order_id is None ==> (r matches Ok(task) && cancel_write_is(
            task@,
            *scope,
            *cmd,
        )),
        cancel_prepared_as(r, *scope, *cmd),
{
    if cmd.venue_order_id.is_some() {
        return Err(CommandRefusal::CancelByVenueOrderId);
    }
    let element = ExecutionWriteElementViewV1::Cancel {
        batch_index: 0,
        instrument_id: cmd.instrument_id.clone(),
        client_order_id: cmd.client_order_id.clone(),
        venue_order_id: None,
        cancel_request_client_order_id: None,
    };
    let payload = build_payload(
        scope,
        ExecutionWriteKind::Cancel,
        ExecutionHttpMethod::Delete,
        element,
        None,
    );
    let context = build_context(
        scope,
        cmd.command_id,
        ExecutionWriteKind::Cancel,
        &cmd.instrument_id,
        &cmd.client_order_id,
    );
    let request = CancelRequest {
        account_id: scope.account_id.clone(),
        strategy_id: cmd.strategy_id.clone(),
        instrument_id: cmd.instrument_id.clone(),
        client_order_id: cmd.client_order_id.clone(),
        venue_order_id: cmd.venue_order_id.clone(),
    };
    Ok(WriteTask::new(payload, context, WriteRequest::Cancel(request), scope.trader_id.clone()))
}

/// What a command to submit an order leads to.
#[derive(Debug)]
pub enum Submission {
    /// The order is closed already: nothing happens.
    Closed,
    /// The command is not taken up, and nothing is announced.
    Refused(CommandRefusal),
    /// The order is announced as submitted, and goes out unless it is refused at last.
    Submitted(Result<WriteTask, CommandRefusal>),
}

/// What a command to submit an order leads to, if the order's lookup gave `found`: a failed lookup
/// and an order that is not taken at all are refused, a closed order is left alone, and any other
/// order is announced and prepared.
pub open spec fn submitted_as(
    r: Submission,
    after: DispatchView,
    before: DispatchView,
    scope: ClientScope,
    cmd: SubmitOrder,
    found: Result<&Order, String>,
    ts_init: UnixNanos,
) -> bool {
    match found {
        Err(text) => after == before && (r matches Submission::Refused(e) && e@
            == RefusalView::OrderLookup(text@)),
        Ok(order) => if order.is_closed {
            r is Closed && after == before
        } else {
            match order_refusal(*order) {
                Some(refusal) => after == before && (r matches Submission::Refused(e) && e@
                    == refusal),
                None => r matches Submission::Submitted(outcome) && prepared_as(
                    outcome,
                    after,
                    before,
                    scope,
                    cmd,
                    found,
                    ts_init,
                ),
            }
        },
    }
}

/// Takes up a command to submit an order. `found` is the order that the command names, or what its
/// lookup said.
pub fn submit_order(
    scope: &ClientScope,
    cmd: &SubmitOrder,
    found: Result<&Order, String>,
    state: &mut WsDispatchState,
    ts_init: UnixNanos,
) -> (r: Submission)
    ensures
        submitted_as(r, final(state)@, old(state)@, *scope, *cmd, found, ts_init),
{
    let order = match found {
        Ok(order) => order,
        Err(text) => return Submission::Refused(CommandRefusal::OrderLookup(text)),
    };
    if order.is_closed {
        return Submission::Closed;
    }
    match validate_spot_first_release_order(order) {
        Ok(_) => {},
        Err(e) => return Submission::Refused(e),
    }
    Submission::Submitted(submit_order_internal(scope, cmd, Ok(order), state, ts_init))
}

/// A digest text is told by its bytes: two texts of one digest are the same.
pub proof fn law_digest_text_is_unique(a: Seq<char>, b: Seq<char>)
    requires
        is_digest_text(a),
        is_digest_text(b),
        digest_bytes(a) == digest_bytes(b),
    ensures
        a == b,
{
    assert forall|i: int| 0 <= i < 64 implies a[i] == b[i] by {
        let k = i / 2;
        assert(is_hex(a[2 * k]) && is_hex(a[2 * k + 1]));
        assert(is_hex(b[2 * k]) && is_hex(b[2 * k + 1]));
        let x = 16 * hex_value(a[2 * k]) + hex_value(a[2 * k + 1]);
        let y = 16 * hex_value(b[2 * k]) + hex_value(b[2 * k + 1]);
        assert(0 <= x < 256 && 0 <= y < 256);
        assert(digest_bytes(a)[k] == x as u8);
        assert(digest_bytes(b)[k] == y as u8);
        assert(x == y);
        assert(a[2 * k] as int == b[2 * k] as int);
        assert(a[2 * k + 1] as int == b[2 * k + 1] as int);
    }
    assert(a =~= b);
}

/// The write prepared for a submission is within the first-release policy, unless the command is
/// not identified, the quantity is zero, or a market order is post-only.
pub proof fn law_prepared_submission_is_admitted(
    write: WriteView,
    scope: ClientScope,
    cmd: SubmitOrder,
    order: Order,
    ts_init: UnixNanos,
)
    requires
        submit_refusal(cmd, order) is None,
        submit_write_is(write, scope, cmd, order, ts_init),
    ensures
        first_release_refusal(write.payload, write.context) is None <==> {
            &&& cmd.command_id.bits != 0
            &&& order.quantity.raw != 0
            &&& !(order.order_type == OrderType::Market && order.is_post_only)
        },
{
    assert(write.payload.elements@[0] == submit_element(
        order,
        carried_in_force(order.order_type, order.time_in_force, order.is_post_only)->0,
    ));
    assert(write.context.client_order_ids@[0] == order.client_order_id);
}

/// The write prepared for a cancel is within the first-release policy, unless the command is not
/// identified.
pub proof fn law_prepared_cancel_is_admitted(
    write: WriteView,
    scope: ClientScope,
    cmd: CancelOrder,
)
    requires
        cancel_write_is(write, scope, cmd),
    ensures
        first_release_refusal(write.payload, write.context) is None <==> cmd.command_id.bits != 0,
{
    assert(write.payload.elements@[0] == cancel_element(cmd));
    assert(write.context.client_order_ids@[0] == cmd.client_order_id);
}

/// What the write gate sees of a submission and what the HTTP client is asked to place agree.
pub proof fn law_submitted_request_is_the_authorized_one(
    write: WriteView,
    scope: ClientScope,
    cmd: SubmitOrder,
    order: Order,
    ts_init: UnixNanos,
)
    requires
        submit_write_is(write, scope, cmd, order, ts_init),
    ensures
        write.payload.elements@.len() == 1,
        write.request matches WriteRequest::Submit(request) && (
        write.payload.elements@[0] matches ExecutionWriteElementViewV1::Submit {
            instrument_id,
            client_order_id,
            side,
            order_type,
            quantity,
            price,
            trigger_price,
            display_quantity,
            post_only,
            ..
        } && {
            &&& request.account_id == write.payload.account_id
            &&& request.instrument_id == instrument_id
            &&& request.client_order_id == client_order_id
            &&& request.order_side == side
            &&& request.order_type == order_type
            &&& request.quantity == quantity
            &&& request.price == price
            &&& request.trigger_price == trigger_price
            &&& request.display_qty == display_quantity
            &&& request.is_post_only == post_only
        }),
{
    assert(write.payload.elements@[0] == submit_element(
        order,
        carried_in_force(order.order_type, order.time_in_force, order.is_post_only)->0,
    ));
}

} // verus!

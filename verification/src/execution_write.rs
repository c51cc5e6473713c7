//! Final execution-write authority boundary.
//!
//! The types in this module describe the complete native request immediately before transport.
//! They deliberately contain no application authority or writer-lease type. Applications inject
//! a gate which canonicalizes the view, consumes the exact registered command, and returns an
//! owned permit retained through the transport outcome.

use crate::enums::{OrderSide, OrderType};
use crate::identifiers::{AccountId, ClientId, ClientOrderId, InstrumentId, VenueOrderId, UUID4};
use crate::text::join;
use crate::types::{Money, Price, Quantity};
use vstd::prelude::*;

pub use crate::execution_persistence::ExecutionWriteKind;

verus! {

/// Opaque digest of the complete canonical final-write payload.
#[derive(Clone, Copy, Debug, PartialEq, Eq, Hash)]
pub struct FinalWritePayloadDigest(pub [u8; 32]);

/// Opaque digest of the lean execution-write context.
#[derive(Clone, Copy, Debug, PartialEq, Eq, Hash)]
pub struct WriteContextDigest(pub [u8; 32]);

/// Binance product selected by the execution client.
#[derive(Clone, Copy, Debug, PartialEq, Eq, Structural, Hash)]
pub enum ExecutionProduct {
    /// Binance Spot.
    Spot,
    /// Binance USD-M or COIN-M Futures.
    Futures,
}

/// Exact route selected for a final write.
#[derive(Clone, Copy, Debug, PartialEq, Eq, Structural, Hash)]
pub enum ExecutionRoute {
    /// Binance Spot route.
    BinanceSpot,
    /// Binance Futures route.
    BinanceFutures,
}

/// HTTP method selected for a final request.
#[derive(Clone, Copy, Debug, PartialEq, Eq, Structural, Hash)]
pub enum ExecutionHttpMethod {
    /// HTTP POST.
    Post,
    /// HTTP DELETE.
    Delete,
}

/// First-release HTTP endpoint selected for a final request.
#[derive(Clone, Copy, Debug, PartialEq, Eq, Structural, Hash)]
pub enum ExecutionEndpointPath {
    /// `/api/v3/order`.
    SpotOrder,
    /// `/fapi/v1/order` or `/dapi/v1/order` selected by the Futures product client.
    FuturesOrder,
}

/// Final transport target before dynamic authentication fields are added.
#[derive(Clone, Debug, PartialEq, Eq)]
#[allow(inconsistent_fields)]
pub enum ExecutionTransportTargetViewV1 {
    /// Signed HTTP request.
    Http {
        /// Exact method.
        method: ExecutionHttpMethod,
        /// Exact endpoint.
        path: ExecutionEndpointPath,
        /// Reviewed receive window in milliseconds.
        recv_window_ms: u64,
    },
    /// Authenticated WebSocket API order transport.
    WebSocketApi {
        /// Exact WebSocket API method.
        method: String,
        /// Reviewed receive window in milliseconds.
        recv_window_ms: u64,
    },
}

/// Binance position-side control.
#[derive(Clone, Copy, Debug, PartialEq, Eq, Structural, Hash)]
pub enum ExecutionPositionSide {
    /// Long hedge-mode side.
    Long,
    /// Short hedge-mode side.
    Short,
    /// One-way position side.
    Both,
}

/// Binance trigger-price source.
#[derive(Clone, Copy, Debug, PartialEq, Eq, Structural, Hash)]
pub enum ExecutionWorkingType {
    /// Mark price.
    MarkPrice,
    /// Contract price.
    ContractPrice,
}

/// Binance order response commitment.
#[derive(Clone, Copy, Debug, PartialEq, Eq, Structural, Hash)]
pub enum ExecutionOrderResponseMode {
    /// Spot `FULL` response.
    SpotFull,
    /// Futures response type omitted.
    FuturesOmitted,
}

/// Canonicalized time-in-force semantics in the final unsigned request.
#[derive(Clone, Copy, Debug, PartialEq, Eq, Structural, Hash)]
pub enum ExecutionTimeInForce {
    /// Good till canceled.
    Gtc,
    /// Immediate or cancel.
    Ioc,
    /// Fill or kill.
    Fok,
    /// Post-only good till crossing prevention.
    Gtx,
    /// Field omitted for a market order.
    NotApplicable,
}

/// One ordered native element in a final unsigned request.
#[derive(Clone, Debug, PartialEq, Eq)]
#[allow(inconsistent_fields)]
pub enum ExecutionWriteElementViewV1 {
    /// Submit one order.
    Submit {
        /// Zero-based contiguous batch position.
        batch_index: u16,
        /// Exact instrument.
        instrument_id: InstrumentId,
        /// Exact economic client order ID.
        client_order_id: ClientOrderId,
        /// Exact order side.
        side: OrderSide,
        /// Exact native order type.
        order_type: OrderType,
        /// Exact final time-in-force semantics.
        time_in_force: ExecutionTimeInForce,
        /// Base quantity.
        quantity: Quantity,
        /// Optional limit price.
        price: Option<Price>,
        /// Unsupported trigger price, required to remain absent.
        trigger_price: Option<Price>,
        /// Unsupported quote quantity, required to remain absent.
        quote_quantity: Option<Money>,
        /// Unsupported display quantity, required to remain absent.
        display_quantity: Option<Quantity>,
        /// Exact Futures reduce-only bit.
        reduce_only: bool,
        /// Exact post-only bit.
        post_only: bool,
        /// Unsupported hedge-mode side, required to remain absent.
        position_side: Option<ExecutionPositionSide>,
        /// Unsupported close-position bit, required to remain absent.
        close_position: Option<bool>,
        /// Unsupported trigger-price source, required to remain absent.
        working_type: Option<ExecutionWorkingType>,
        /// Unsupported price-protection bit, required to remain absent.
        price_protect: Option<bool>,
        /// Exact route-specific response commitment.
        response_mode: ExecutionOrderResponseMode,
        /// Unsupported good-till-date, required to remain absent.
        good_till_date_ms: Option<i64>,
        /// Unsupported self-trade prevention mode, required to remain absent.
        self_trade_prevention_mode: Option<String>,
        /// Unsupported trailing delta, required to remain absent.
        trailing_delta: Option<i64>,
        /// Unsupported activation price, required to remain absent.
        activation_price: Option<Price>,
        /// Unsupported callback rate, required to remain absent.
        callback_rate: Option<String>,
        /// Unsupported price-match mode, required to remain absent.
        price_match: Option<String>,
        /// Unsupported Spot strategy ID, required to remain absent.
        strategy_id: Option<i64>,
        /// Unsupported Spot strategy type, required to remain absent.
        strategy_type: Option<i64>,
    },
    /// Modify one order, represented only for typed denial.
    Modify {
        /// Zero-based contiguous batch position.
        batch_index: u16,
        /// Exact instrument.
        instrument_id: InstrumentId,
        /// Exact client order ID.
        client_order_id: ClientOrderId,
        /// Exact side.
        side: OrderSide,
        /// Replacement quantity.
        quantity: Quantity,
        /// Replacement price.
        price: Price,
    },
    /// Cancel one exact order.
    Cancel {
        /// Zero-based contiguous batch position.
        batch_index: u16,
        /// Exact instrument.
        instrument_id: InstrumentId,
        /// Exact original client order ID.
        client_order_id: ClientOrderId,
        /// Unsupported venue order ID, required to remain absent.
        venue_order_id: Option<VenueOrderId>,
        /// Unsupported replacement cancel ID, required to remain absent.
        cancel_request_client_order_id: Option<ClientOrderId>,
    },
}

impl ExecutionWriteElementViewV1 {
    /// The client order ID that the element carries.
    pub open spec fn order_id(self) -> ClientOrderId {
        match self {
            ExecutionWriteElementViewV1::Submit { client_order_id, .. } => client_order_id,
            ExecutionWriteElementViewV1::Modify { client_order_id, .. } => client_order_id,
            ExecutionWriteElementViewV1::Cancel { client_order_id, .. } => client_order_id,
        }
    }

    /// The instrument that the element carries.
    pub open spec fn instrument(self) -> InstrumentId {
        match self {
            ExecutionWriteElementViewV1::Submit { instrument_id, .. } => instrument_id,
            ExecutionWriteElementViewV1::Modify { instrument_id, .. } => instrument_id,
            ExecutionWriteElementViewV1::Cancel { instrument_id, .. } => instrument_id,
        }
    }

    /// Returns the exact client order ID represented by this element.
    #[must_use]
    pub fn client_order_id(&self) -> (id: &ClientOrderId)
        ensures
            *id == self.order_id(),
    {
        match self {
            ExecutionWriteElementViewV1::Submit { client_order_id, .. } => client_order_id,
            ExecutionWriteElementViewV1::Modify { client_order_id, .. } => client_order_id,
            ExecutionWriteElementViewV1::Cancel { client_order_id, .. } => client_order_id,
        }
    }

    /// Returns the exact instrument represented by this element.
    #[must_use]
    pub fn instrument_id(&self) -> (id: &InstrumentId)
        ensures
            *id == self.instrument(),
    {
        match self {
            ExecutionWriteElementViewV1::Submit { instrument_id, .. } => instrument_id,
            ExecutionWriteElementViewV1::Modify { instrument_id, .. } => instrument_id,
            ExecutionWriteElementViewV1::Cancel { instrument_id, .. } => instrument_id,
        }
    }
}

/// Complete non-authoritative native view of one final unsigned request.
#[derive(Clone, Debug, PartialEq, Eq)]
pub struct ExecutionWritePayloadViewV1 {
    /// Schema version, exactly one.
    pub schema_version: u8,
    /// Exact mutation kind.
    pub kind: ExecutionWriteKind,
    /// Exact execution client.
    pub client_id: ClientId,
    /// Exact venue account.
    pub account_id: AccountId,
    /// Exact product.
    pub product: ExecutionProduct,
    /// Exact route.
    pub route: ExecutionRoute,
    /// Exact transport target.
    pub transport: ExecutionTransportTargetViewV1,
    /// Ordered native request elements.
    pub elements: Vec<ExecutionWriteElementViewV1>,
    /// Exact retry ancestry, present only for reauthorized retry-as-submit.
    pub retry_of: Option<FinalWritePayloadDigest>,
}

/// Lean context supplied with the complete final request to the application gate.
#[derive(Clone, Debug, PartialEq, Eq)]
pub struct ExecutionWriteContext {
    /// Stable command ID created before persistence activation.
    pub command_id: UUID4,
    /// Exact execution client.
    pub client_id: ClientId,
    /// Exact venue account.
    pub account_id: AccountId,
    /// Exact route.
    pub route: ExecutionRoute,
    /// Exact instrument when singular.
    pub instrument_id: Option<InstrumentId>,
    /// Sorted, unique exact client order IDs.
    pub client_order_ids: Vec<ClientOrderId>,
    /// Exact mutation kind.
    pub kind: ExecutionWriteKind,
}

/// Canonical identity returned by the application gate for the acquired permit.
#[derive(Clone, Debug, PartialEq, Eq)]
pub struct ExecutionWriteIdentity {
    /// Digest of the lean context.
    pub context_digest: WriteContextDigest,
    /// Stable command ID.
    pub command_id: UUID4,
    /// Exact execution client.
    pub client_id: ClientId,
    /// Exact venue account.
    pub account_id: AccountId,
    /// Exact route.
    pub route: ExecutionRoute,
    /// Exact instrument when singular.
    pub instrument_id: Option<InstrumentId>,
    /// Sorted, unique exact client order IDs.
    pub client_order_ids: Vec<ClientOrderId>,
    /// Exact mutation kind.
    pub kind: ExecutionWriteKind,
    /// Digest of the complete canonical final request.
    pub final_payload_digest: FinalWritePayloadDigest,
}

/// Digest-only proof of the authority observed by a permit.
#[derive(Clone, Debug, PartialEq, Eq)]
pub struct ExecutionAuthorityProof {
    /// Exact authority-state digest.
    pub authority_digest: [u8; 32],
    /// Exact writer-instance digest.
    pub instance_digest: [u8; 32],
    /// Exact writer generation.
    pub generation: u64,
}

/// Final classification recorded before an owned permit is released.
#[derive(Clone, Copy, Debug, PartialEq, Eq, Structural)]
pub enum TransportOutcomeClass {
    /// Venue accepted the request into a nonterminal lifecycle.
    AcceptedNonterminal,
    /// Venue or local serializer definitively rejected before an order could exist.
    RejectedDefinitive,
    /// Request bytes may have left without a definitive outcome.
    OutcomeUnknown,
}

/// Typed final-boundary failure.
#[derive(Clone, Debug, PartialEq, Eq)]
pub enum ExecutionWriteGateError {
    /// No gate was injected into a venue-capable factory.
    MissingGate,
    /// The request kind or endpoint is deny-only in the first release.
    Unsupported(ExecutionWriteKind),
    /// The context or native payload is malformed or inconsistent.
    InvalidContext(String),
    /// The application authority denied the write.
    Denied(String),
    /// The final request no longer matches the acquired authority.
    ArmRejected(String),
}

/// A final-boundary failure with its details as character sequences.
pub enum GateErrorView {
    /// No gate was injected.
    MissingGate,
    /// The request kind is deny-only.
    Unsupported(ExecutionWriteKind),
    /// The request is malformed or inconsistent.
    InvalidContext(Seq<char>),
    /// The authority denied the write.
    Denied(Seq<char>),
    /// The request no longer matches the authority.
    ArmRejected(Seq<char>),
}

impl View for ExecutionWriteGateError {
    type V = GateErrorView;

    open spec fn view(&self) -> GateErrorView {
        match self {
            ExecutionWriteGateError::MissingGate => GateErrorView::MissingGate,
            ExecutionWriteGateError::Unsupported(kind) => GateErrorView::Unsupported(*kind),
            ExecutionWriteGateError::InvalidContext(d) => GateErrorView::InvalidContext(d@),
            ExecutionWriteGateError::Denied(d) => GateErrorView::Denied(d@),
            ExecutionWriteGateError::ArmRejected(d) => GateErrorView::ArmRejected(d@),
        }
    }
}

impl GateErrorView {
    /// What the failure says.
    pub open spec fn text(self) -> Seq<char> {
        match self {
            GateErrorView::MissingGate => "execution write gate is missing"@,
            GateErrorView::Unsupported(kind) =>
                "execution write is unsupported in the first release: "@ + kind.name(),
            GateErrorView::InvalidContext(d) => "invalid execution write context: "@ + d,
            GateErrorView::Denied(d) => "execution write authority denied: "@ + d,
            GateErrorView::ArmRejected(d) => "final execution request rejected at arm: "@ + d,
        }
    }
}

impl ExecutionWriteGateError {
    /// What the failure says.
    pub fn message(&self) -> (r: String)
        ensures
            r@ == self@.text(),
    {
        match self {
            ExecutionWriteGateError::MissingGate => "execution write gate is missing".to_owned(),
            ExecutionWriteGateError::Unsupported(kind) => join(
                "execution write is unsupported in the first release: ",
                kind.as_name(),
            ),
            ExecutionWriteGateError::InvalidContext(d) => join(
                "invalid execution write context: ",
                d.as_str(),
            ),
            ExecutionWriteGateError::Denied(d) => join(
                "execution write authority denied: ",
                d.as_str(),
            ),
            ExecutionWriteGateError::ArmRejected(d) => join(
                "final execution request rejected at arm: ",
                d.as_str(),
            ),
        }
    }

    /// The failure of a malformed or inconsistent request.
    fn invalid(detail: &str) -> (e: Self)
        ensures
            e@ == GateErrorView::InvalidContext(detail@),
    {
        ExecutionWriteGateError::InvalidContext(detail.to_owned())
    }
}

/// Largest receive window that a request may ask for, in milliseconds.
pub const MAX_RECV_WINDOW_MS: u64 = 60_000;

/// Whether the request is of the first schema and holds one element.
pub open spec fn single_element(payload: ExecutionWritePayloadViewV1) -> bool {
    payload.schema_version == 1 && payload.elements@.len() == 1
}

/// Whether the command is identified and names the client, account, route and kind of the
/// request.
pub open spec fn command_matches(
    payload: ExecutionWritePayloadViewV1,
    context: ExecutionWriteContext,
) -> bool {
    &&& context.command_id.bits != 0
    &&& context.client_id@ == payload.client_id@
    &&& context.account_id@ == payload.account_id@
    &&& context.route == payload.route
    &&& context.kind == payload.kind
}

/// Whether the command names exactly the order and the instrument of the element.
pub open spec fn order_matches(
    element: ExecutionWriteElementViewV1,
    context: ExecutionWriteContext,
) -> bool {
    &&& context.client_order_ids@.len() == 1
    &&& context.client_order_ids@[0]@ == element.order_id()@
    &&& context.instrument_id matches Some(id) && id@ == element.instrument()@
}

/// Whether a route serves a product.
pub open spec fn route_serves(route: ExecutionRoute, product: ExecutionProduct) -> bool {
    match route {
        ExecutionRoute::BinanceSpot => product == ExecutionProduct::Spot,
        ExecutionRoute::BinanceFutures => product == ExecutionProduct::Futures,
    }
}

/// Whether the kind places an order.
pub open spec fn places_order(kind: ExecutionWriteKind) -> bool {
    kind == ExecutionWriteKind::Submit || kind == ExecutionWriteKind::Retry
}

/// Whether the transport target is the one that the kind and the route call for.
pub open spec fn transport_allowed(payload: ExecutionWritePayloadViewV1) -> bool {
    match payload.transport {
        ExecutionTransportTargetViewV1::Http { method, path, recv_window_ms } => {
            &&& places_order(payload.kind) && method == ExecutionHttpMethod::Post || payload.kind
                == ExecutionWriteKind::Cancel && method == ExecutionHttpMethod::Delete
            &&& match payload.route {
                ExecutionRoute::BinanceSpot => path == ExecutionEndpointPath::SpotOrder,
                ExecutionRoute::BinanceFutures => path == ExecutionEndpointPath::FuturesOrder,
            }
            &&& 1 <= recv_window_ms <= MAX_RECV_WINDOW_MS
        },
        ExecutionTransportTargetViewV1::WebSocketApi { method, recv_window_ms } => {
            &&& places_order(payload.kind) && method@ == "order.place"@ || payload.kind
                == ExecutionWriteKind::Cancel && method@ == "order.cancel"@
            &&& 1 <= recv_window_ms <= MAX_RECV_WINDOW_MS
        },
    }
}

/// Whether the request names its ancestor exactly when it is a retry.
pub open spec fn retry_shape_valid(payload: ExecutionWritePayloadViewV1) -> bool {
    payload.retry_of is Some <==> payload.kind == ExecutionWriteKind::Retry
}

/// Whether price, time in force and post-only agree with the order type.
pub open spec fn order_shape_valid(
    order_type: OrderType,
    has_price: bool,
    time_in_force: ExecutionTimeInForce,
    post_only: bool,
) -> bool {
    match order_type {
        OrderType::Market => !has_price && time_in_force == ExecutionTimeInForce::NotApplicable
            && !post_only,
        OrderType::Limit => has_price && time_in_force != ExecutionTimeInForce::NotApplicable && (
        post_only ==> time_in_force == ExecutionTimeInForce::Gtx),
        _ => false,
    }
}

/// Whether a submit element holds none of the controls that the first release leaves out.
pub open spec fn unsupported_controls_absent(element: ExecutionWriteElementViewV1) -> bool {
    element matches ExecutionWriteElementViewV1::Submit {
        trigger_price,
        quote_quantity,
        display_quantity,
        position_side,
        close_position,
        working_type,
        price_protect,
        good_till_date_ms,
        self_trade_prevention_mode,
        trailing_delta,
        activation_price,
        callback_rate,
        price_match,
        strategy_id,
        strategy_type,
        ..
    } && {
        &&& trigger_price is None
        &&& quote_quantity is None
        &&& display_quantity is None
        &&& position_side is None
        &&& close_position is None
        &&& working_type is None
        &&& price_protect is None
        &&& good_till_date_ms is None
        &&& self_trade_prevention_mode is None
        &&& trailing_delta is None
        &&& activation_price is None
        &&& callback_rate is None
        &&& price_match is None
        &&& strategy_id is None
        &&& strategy_type is None
    }
}

/// Whether a submit element carries the controls that its route commits to.
pub open spec fn route_controls_valid(
    route: ExecutionRoute,
    element: ExecutionWriteElementViewV1,
) -> bool {
    element matches ExecutionWriteElementViewV1::Submit { reduce_only, response_mode, .. } && (
    match route {
        ExecutionRoute::BinanceSpot => !reduce_only && response_mode
            == ExecutionOrderResponseMode::SpotFull,
        ExecutionRoute::BinanceFutures => response_mode
            == ExecutionOrderResponseMode::FuturesOmitted,
    })
}

/// Whether a submit element is within the first-release policy of its route.
pub open spec fn submit_allowed(
    route: ExecutionRoute,
    element: ExecutionWriteElementViewV1,
) -> bool {
    &&& element matches ExecutionWriteElementViewV1::Submit {
        batch_index,
        order_type,
        time_in_force,
        quantity,
        price,
        post_only,
        ..
    } && batch_index == 0 && quantity.raw != 0 && order_shape_valid(
        order_type,
        price is Some,
        time_in_force,
        post_only,
    )
    &&& unsupported_controls_absent(element)
    &&& route_controls_valid(route, element)
}

/// Whether a cancel element names the order by its original client order ID alone.
pub open spec fn cancel_allowed(element: ExecutionWriteElementViewV1) -> bool {
    element matches ExecutionWriteElementViewV1::Cancel {
        batch_index,
        venue_order_id,
        cancel_request_client_order_id,
        ..
    } && batch_index == 0 && venue_order_id is None && cancel_request_client_order_id is None
}

/// Why the single element of a request is refused, if it is.
pub open spec fn element_refusal(payload: ExecutionWritePayloadViewV1) -> Option<GateErrorView> {
    let element = payload.elements@[0];
    match element {
        ExecutionWriteElementViewV1::Submit { .. } => if !places_order(payload.kind) {
            Some(
                GateErrorView::InvalidContext("submit element does not match mutation kind"@),
            )
        } else if !submit_allowed(payload.route, element) {
            Some(
                GateErrorView::InvalidContext(
                    "submit request is outside the first-release policy"@,
                ),
            )
        } else {
            None
        },
        ExecutionWriteElementViewV1::Cancel { .. } => if payload.kind
            != ExecutionWriteKind::Cancel {
            Some(
                GateErrorView::InvalidContext("cancel element does not match mutation kind"@),
            )
        } else if !cancel_allowed(element) {
            Some(
                GateErrorView::InvalidContext(
                    "cancel must use only the exact original client order ID"@,
                ),
            )
        } else {
            None
        },
        ExecutionWriteElementViewV1::Modify { .. } => Some(
            GateErrorView::Unsupported(ExecutionWriteKind::Modify),
        ),
    }
}

/// Why a request is refused in the first release, if it is: the first rule that it breaks.
pub open spec fn first_release_refusal(
    payload: ExecutionWritePayloadViewV1,
    context: ExecutionWriteContext,
) -> Option<GateErrorView> {
    if !single_element(payload) {
        Some(
            GateErrorView::InvalidContext(
                "first release requires schema one and one request element"@,
            ),
        )
    } else if !command_matches(payload, context) {
        Some(
            GateErrorView::InvalidContext(
                "command, client, account, route, or mutation kind mismatch"@,
            ),
        )
    } else if !order_matches(payload.elements@[0], context) {
        Some(GateErrorView::InvalidContext("instrument or exact client order identity mismatch"@))
    } else if !route_serves(payload.route, payload.product) {
        Some(GateErrorView::InvalidContext("product and route mismatch"@))
    } else if !transport_allowed(payload) {
        Some(
            GateErrorView::InvalidContext(
                "transport target is outside the first-release allowlist"@,
            ),
        )
    } else if !retry_shape_valid(payload) {
        Some(GateErrorView::InvalidContext("retry ancestry does not match mutation kind"@))
    } else {
        element_refusal(payload)
    }
}

/// Whether `r` is the verdict that `refusal` calls for.
pub open spec fn verdict_is(
    r: Result<(), ExecutionWriteGateError>,
    refusal: Option<GateErrorView>,
) -> bool {
    match refusal {
        None => r is Ok,
        Some(e) => r matches Err(found) && found@ == e,
    }
}

impl ExecutionWritePayloadViewV1 {
    /// Validates the fixed first-release request policy and exact lean-context parity.
    ///
    /// # Errors
    ///
    /// Returns an error for a malformed context, unsupported transport or order control, or any
    /// mismatch between the command identity and final native request.
    pub fn validate_first_release(&self, context: &ExecutionWriteContext) -> (r: Result<
        (),
        ExecutionWriteGateError,
    >)
        ensures
            verdict_is(r, first_release_refusal(*self, *context)),
    {
        if self.schema_version != 1 || self.elements.len() != 1 {
            return Err(
                ExecutionWriteGateError::invalid(
                    "first release requires schema one and one request element",
                ),
            );
        }
        if context.command_id.is_nil() || context.client_id != self.client_id
            || context.account_id != self.account_id || context.route != self.route || context.kind
            != self.kind {
            return Err(
                ExecutionWriteGateError::invalid(
                    "command, client, account, route, or mutation kind mismatch",
                ),
            );
        }
        let element = &self.elements[0];
        let same_order = context.client_order_ids.len() == 1 && context.client_order_ids[0]
            == *element.client_order_id();
        let same_instrument = match &context.instrument_id {
            Some(id) => *id == *element.instrument_id(),
            None => false,
        };
        if !same_order || !same_instrument {
            return Err(
                ExecutionWriteGateError::invalid(
                    "instrument or exact client order identity mismatch",
                ),
            );
        }
        let served = match (self.route, self.product) {
            (ExecutionRoute::BinanceSpot, ExecutionProduct::Spot) => true,
            (ExecutionRoute::BinanceFutures, ExecutionProduct::Futures) => true,
            _ => false,
        };
        if !served {
            return Err(ExecutionWriteGateError::invalid("product and route mismatch"));
        }
        self.validate_transport()?;
        self.validate_retry_shape()?;
        match element {
            ExecutionWriteElementViewV1::Submit { .. } => self.validate_submit(),
            ExecutionWriteElementViewV1::Cancel { .. } => self.validate_cancel(),
            ExecutionWriteElementViewV1::Modify { .. } => Err(
                ExecutionWriteGateError::Unsupported(ExecutionWriteKind::Modify),
            ),
        }
    }

    fn validate_transport(&self) -> (r: Result<(), ExecutionWriteGateError>)
        ensures
            verdict_is(
                r,
                if transport_allowed(*self) {
                    None
                } else {
                    Some(
                        GateErrorView::InvalidContext(
                            "transport target is outside the first-release allowlist"@,
                        ),
                    )
                },
            ),
    {
        let places = match self.kind {
            ExecutionWriteKind::Submit => true,
            ExecutionWriteKind::Retry => true,
            _ => false,
        };
        let cancels = self.kind == ExecutionWriteKind::Cancel;
        let (method_matches, route_matches, recv_window_ms) = match &self.transport {
            ExecutionTransportTargetViewV1::Http { method, path, recv_window_ms } => {
                let method_matches = match *method {
                    ExecutionHttpMethod::Post => places,
                    ExecutionHttpMethod::Delete => cancels,
                };
                let route_matches = match (self.route, *path) {
                    (ExecutionRoute::BinanceSpot, ExecutionEndpointPath::SpotOrder) => true,
                    (ExecutionRoute::BinanceFutures, ExecutionEndpointPath::FuturesOrder) => true,
                    _ => false,
                };
                (method_matches, route_matches, *recv_window_ms)
            },
            ExecutionTransportTargetViewV1::WebSocketApi { method, recv_window_ms } => {
                let method_matches = (places && *method == "order.place".to_owned()) || (cancels
                    && *method == "order.cancel".to_owned());
                (method_matches, true, *recv_window_ms)
            },
        };
        if !method_matches || !route_matches || recv_window_ms < 1 || recv_window_ms
            > MAX_RECV_WINDOW_MS {
            return Err(
                ExecutionWriteGateError::invalid(
                    "transport target is outside the first-release allowlist",
                ),
            );
        }
        Ok(())
    }

    fn validate_retry_shape(&self) -> (r: Result<(), ExecutionWriteGateError>)
        ensures
            verdict_is(
                r,
                if retry_shape_valid(*self) {
                    None
                } else {
                    Some(
                        GateErrorView::InvalidContext(
                            "retry ancestry does not match mutation kind"@,
                        ),
                    )
                },
            ),
    {
        let valid = match self.kind {
            ExecutionWriteKind::Retry => self.retry_of.is_some(),
            _ => self.retry_of.is_none(),
        };
        if !valid {
            return Err(
                ExecutionWriteGateError::invalid("retry ancestry does not match mutation kind"),
            );
        }
        Ok(())
    }

    fn validate_submit(&self) -> (r: Result<(), ExecutionWriteGateError>)
        requires
            self.elements@.len() == 1,
            self.elements@[0] is Submit,
        ensures
            verdict_is(r, element_refusal(*self)),
    {
        let places = match self.kind {
            ExecutionWriteKind::Submit => true,
            ExecutionWriteKind::Retry => true,
            _ => false,
        };
        if !places {
            return Err(
                ExecutionWriteGateError::invalid("submit element does not match mutation kind"),
            );
        }
        let allowed = match &self.elements[0] {
            ExecutionWriteElementViewV1::Submit {
                batch_index,
                order_type,
                time_in_force,
                quantity,
                price,
                trigger_price,
                quote_quantity,
                display_quantity,
                reduce_only,
                post_only,
                position_side,
                close_position,
                working_type,
                price_protect,
                response_mode,
                good_till_date_ms,
                self_trade_prevention_mode,
                trailing_delta,
                activation_price,
                callback_rate,
                price_match,
                strategy_id,
                strategy_type,
                ..
            } => {
                let shape_valid = match order_type {
                    OrderType::Market => price.is_none() && *time_in_force
                        == ExecutionTimeInForce::NotApplicable && !*post_only,
                    OrderType::Limit => price.is_some() && *time_in_force
                        != ExecutionTimeInForce::NotApplicable && (!*post_only || *time_in_force
                        == ExecutionTimeInForce::Gtx),
                    _ => false,
                };
                let unsupported_absent = trigger_price.is_none() && quote_quantity.is_none()
                    && display_quantity.is_none() && position_side.is_none()
                    && close_position.is_none() && working_type.is_none()
                    && price_protect.is_none() && good_till_date_ms.is_none()
                    && self_trade_prevention_mode.is_none() && trailing_delta.is_none()
                    && activation_price.is_none() && callback_rate.is_none()
                    && price_match.is_none() && strategy_id.is_none() && strategy_type.is_none();
                let controls_valid = match self.route {
                    ExecutionRoute::BinanceSpot => !*reduce_only && *response_mode
                        == ExecutionOrderResponseMode::SpotFull,
                    ExecutionRoute::BinanceFutures => *response_mode
                        == ExecutionOrderResponseMode::FuturesOmitted,
                };
                *batch_index == 0 && quantity.raw != 0 && shape_valid && unsupported_absent
                    && controls_valid
            },
            _ => false,
        };
        if !allowed {
            return Err(
                ExecutionWriteGateError::invalid(
                    "submit request is outside the first-release policy",
                ),
            );
        }
        Ok(())
    }

    fn validate_cancel(&self) -> (r: Result<(), ExecutionWriteGateError>)
        requires
            self.elements@.len() == 1,
            self.elements@[0] is Cancel,
        ensures
            verdict_is(r, element_refusal(*self)),
    {
        if self.kind != ExecutionWriteKind::Cancel {
            return Err(
                ExecutionWriteGateError::invalid("cancel element does not match mutation kind"),
            );
        }
        let allowed = match &self.elements[0] {
            ExecutionWriteElementViewV1::Cancel {
                batch_index,
                venue_order_id,
                cancel_request_client_order_id,
                ..
            } => *batch_index == 0 && venue_order_id.is_none()
                && cancel_request_client_order_id.is_none(),
            _ => false,
        };
        if !allowed {
            return Err(
                ExecutionWriteGateError::invalid(
                    "cancel must use only the exact original client order ID",
                ),
            );
        }
        Ok(())
    }
}

/// The kinds that the first release denies outright are refused whatever else the request and
/// the context say.
pub proof fn law_deny_only_kinds_are_refused(
    payload: ExecutionWritePayloadViewV1,
    context: ExecutionWriteContext,
)
    requires
        payload.kind != ExecutionWriteKind::Submit,
        payload.kind != ExecutionWriteKind::Retry,
        payload.kind != ExecutionWriteKind::Cancel,
    ensures
        first_release_refusal(payload, context) is Some,
{
}

/// A request that is let through names, in its single element, exactly the order, instrument,
/// client, account, route and kind of an identified command.
pub proof fn law_admitted_request_is_the_command(
    payload: ExecutionWritePayloadViewV1,
    context: ExecutionWriteContext,
)
    requires
        first_release_refusal(payload, context) is None,
    ensures
        payload.elements@.len() == 1,
        context.command_id.bits != 0,
        context.client_order_ids@.len() == 1,
        payload.elements@[0].order_id()@ == context.client_order_ids@[0]@,
        context.instrument_id is Some,
        payload.elements@[0].instrument()@ == context.instrument_id->0@,
        payload.client_id@ == context.client_id@,
        payload.account_id@ == context.account_id@,
        payload.route == context.route,
        payload.kind == context.kind,
{
}

/// A request that is let through is either a placement with a submit element or a cancel with a
/// cancel element.
pub proof fn law_admitted_element_fits_the_kind(
    payload: ExecutionWritePayloadViewV1,
    context: ExecutionWriteContext,
)
    requires
        first_release_refusal(payload, context) is None,
    ensures
        payload.elements@[0] is Submit <==> places_order(payload.kind),
        payload.elements@[0] is Cancel <==> payload.kind == ExecutionWriteKind::Cancel,
{
}

/// A submit element with any control that the first release leaves out is refused.
pub proof fn law_unsupported_control_is_refused(
    payload: ExecutionWritePayloadViewV1,
    context: ExecutionWriteContext,
)
    requires
        payload.elements@.len() == 1,
        payload.elements@[0] is Submit,
        !unsupported_controls_absent(payload.elements@[0]),
    ensures
        first_release_refusal(payload, context) is Some,
{
}

/// A cancel that names a venue order ID or a replacement ID is refused.
pub proof fn law_cancel_injection_is_refused(
    payload: ExecutionWritePayloadViewV1,
    context: ExecutionWriteContext,
)
    requires
        payload.elements@.len() == 1,
        payload.elements@[0] matches ExecutionWriteElementViewV1::Cancel {
            venue_order_id,
            cancel_request_client_order_id,
            ..
        } && (venue_order_id is Some || cancel_request_client_order_id is Some),
    ensures
        first_release_refusal(payload, context) is Some,
{
}

/// A request that is let through names an ancestor exactly when it is a retry.
pub proof fn law_retry_carries_ancestry(
    payload: ExecutionWritePayloadViewV1,
    context: ExecutionWriteContext,
)
    requires
        first_release_refusal(payload, context) is None,
    ensures
        payload.kind == ExecutionWriteKind::Retry <==> payload.retry_of is Some,
{
}

/// A WebSocket request that is let through uses `order.place` for a placement and
/// `order.cancel` for a cancel.
pub proof fn law_websocket_method_fits_the_kind(
    payload: ExecutionWritePayloadViewV1,
    context: ExecutionWriteContext,
    method: String,
    recv_window_ms: u64,
)
    requires
        payload.transport == (ExecutionTransportTargetViewV1::WebSocketApi {
            method,
            recv_window_ms,
        }),
        first_release_refusal(payload, context) is None,
    ensures
        method@ == "order.place"@ <==> places_order(payload.kind),
        method@ == "order.cancel"@ <==> payload.kind == ExecutionWriteKind::Cancel,
{
    reveal_strlit("order.place");
    reveal_strlit("order.cancel");
    assert("order.place"@.len() != "order.cancel"@.len());
}

/// A Spot placement that is let through never reduces only, and its order type is market or
/// limit.
pub proof fn law_spot_placement_shape(
    payload: ExecutionWritePayloadViewV1,
    context: ExecutionWriteContext,
)
    requires
        payload.route == ExecutionRoute::BinanceSpot,
        places_order(payload.kind),
        first_release_refusal(payload, context) is None,
    ensures
        payload.elements@[0] matches ExecutionWriteElementViewV1::Submit {
            order_type,
            quantity,
            price,
            reduce_only,
            response_mode,
            ..
        } && !reduce_only && quantity.raw > 0 && response_mode
            == ExecutionOrderResponseMode::SpotFull && (order_type == OrderType::Market && price is None
            || order_type == OrderType::Limit && price is Some),
{
}

/// Owned final-task permit retained through the transport outcome.
pub trait ExecutionWritePermit {
    /// Returns the exact canonical identity authorized by this permit.
    fn identity(&self) -> &ExecutionWriteIdentity;

    /// Returns the digest-only authority proof held by this permit.
    fn authority(&self) -> &ExecutionAuthorityProof;

    /// Rechecks the exact native request immediately before authentication and send.
    ///
    /// # Errors
    ///
    /// Returns an error when any final request field differs from the acquired identity.
    fn arm_before_transport(&mut self, final_payload: &ExecutionWritePayloadViewV1) -> Result<
        (),
        ExecutionWriteGateError,
    >;

    /// Records the transport outcome before releasing the owned permit.
    fn record_outcome(&mut self, outcome: TransportOutcomeClass);
}

} // verus!

//! Execution reports of the venue, and how they become order events.

use crate::decimal::{parsed_decimal, DecimalValue};
use crate::dispatch_state::{
    seen_after, DispatchView, FifoCache, OrderIdentity, TradeKey, WsDispatchState,
};
use crate::enums::{BinanceSpotExecutionType, BinanceTimeInForce, LiquiditySide};
use crate::events::{EventKindView, EventView, OrderEvent, OrderEventKind};
use crate::identifiers::{
    AccountId, ClientOrderId, InstrumentId, TraderId, UnixNanos, VenueOrderId, NANOS_PER_MILLI,
};
use crate::text::{int_text, render_i128};
use crate::types::{
    crypto_precision, money_raw_of, parsed_price, parsed_quantity, CurrencyRegistry, FieldError,
    Price, Quantity, CRYPTO_PRECISION,
};
use vstd::prelude::*;
use vstd::string::*;

verus! {

/// An execution report of the Spot user data stream.
#[derive(Clone, Debug, PartialEq, Eq)]
pub struct BinanceSpotExecutionReport {
    /// Symbol of the order.
    pub symbol: String,
    /// Client order ID as the venue knows it.
    pub client_order_id: String,
    /// Venue order number.
    pub order_id: i64,
    /// Trade number, or -1.
    pub trade_id: i64,
    /// When it happened, in milliseconds since the epoch.
    pub event_time: i64,
    /// What the report is about.
    pub execution_type: BinanceSpotExecutionType,
    /// Order type that the venue names.
    pub order_type: String,
    /// Time in force of the order.
    pub time_in_force: BinanceTimeInForce,
    /// Price of the order.
    pub price: String,
    /// Stop price of the order.
    pub stop_price: String,
    /// Quantity of the order.
    pub original_qty: String,
    /// Quantity of the fill.
    pub last_filled_qty: String,
    /// Price of the fill.
    pub last_filled_price: String,
    /// Quantity filled so far.
    pub cumulative_filled_qty: String,
    /// Commission paid.
    pub commission: String,
    /// Asset that the commission is paid in.
    pub commission_asset: Option<String>,
    /// Whether the order was resting.
    pub is_maker: bool,
    /// Why the order was rejected, or `NONE`.
    pub reject_reason: String,
}

impl BinanceSpotExecutionReport {
    /// Whether the time of the report can be told in nanoseconds.
    pub open spec fn time_in_range(self) -> bool {
        0 <= self.event_time && self.event_time * NANOS_PER_MILLI <= u64::MAX
    }

    /// When it happened.
    pub open spec fn ts_event(self) -> UnixNanos {
        UnixNanos((self.event_time * NANOS_PER_MILLI) as u64)
    }

    /// The trade of the report.
    pub open spec fn trade(self) -> TradeKey {
        (self.symbol@, self.trade_id)
    }

    /// When it happened.
    pub(crate) fn event_instant(&self) -> (t: UnixNanos)
        requires
            self.time_in_range(),
        ensures
            t == self.ts_event(),
    {
        UnixNanos::from_millis(self.event_time as u64)
    }

    /// The venue order ID of the report.
    pub(crate) fn venue_id(&self) -> (id: VenueOrderId)
        ensures
            id@ == int_text(self.order_id as int),
    {
        VenueOrderId(render_i128(self.order_id as i128))
    }
}

/// What a report for reconciliation is made with, beside the venue's own message.
#[derive(Debug, PartialEq, Eq)]
pub struct ReportTerms {
    /// Instrument of the order.
    pub instrument_id: InstrumentId,
    /// Fractional digits of its prices.
    pub price_precision: u8,
    /// Fractional digits of its quantities.
    pub size_precision: u8,
    /// Account of the order.
    pub account_id: AccountId,
    /// When the report is made.
    pub ts_init: UnixNanos,
}

/// What a report for reconciliation is made with, with its texts as character sequences.
pub struct TermsView {
    /// Instrument of the order.
    pub instrument_id: (Seq<char>, Seq<char>),
    /// Fractional digits of its prices.
    pub price_precision: u8,
    /// Fractional digits of its quantities.
    pub size_precision: u8,
    /// Account of the order.
    pub account_id: Seq<char>,
    /// When the report is made.
    pub ts_init: UnixNanos,
}

impl View for ReportTerms {
    type V = TermsView;

    open spec fn view(&self) -> TermsView {
        TermsView {
            instrument_id: self.instrument_id@,
            price_precision: self.price_precision,
            size_precision: self.size_precision,
            account_id: self.account_id@,
            ts_init: self.ts_init,
        }
    }
}

impl Clone for ReportTerms {
    fn clone(&self) -> (copy: Self)
        ensures
            copy == *self,
    {
        ReportTerms {
            instrument_id: self.instrument_id.clone(),
            price_precision: self.price_precision,
            size_precision: self.size_precision,
            account_id: self.account_id.clone(),
            ts_init: self.ts_init,
        }
    }
}

/// What a caller has to do with a report.
#[derive(Debug, PartialEq, Eq)]
pub enum DispatchAction {
    /// Send an order event.
    Event(OrderEvent),
    /// Publish the report as an order status report.
    OrderStatusReport {
        /// What it is made with.
        terms: ReportTerms,
        /// Whether an expired order is reported as canceled.
        treat_expired_as_canceled: bool,
    },
    /// Publish the report as a fill report.
    FillReport {
        /// What it is made with.
        terms: ReportTerms,
    },
    /// Log that a field kept an event from being made.
    Warning(String),
    /// Log that a report for reconciliation could not be made.
    Error(String),
    /// Publish the account position of the message.
    AccountPosition,
    /// Request the account state and publish it.
    RefreshAccount,
    /// Wake who waits for the session to be authenticated.
    NotifyAuthenticated,
    /// Wake who waits for the user data to be subscribed.
    NotifySubscribed,
    /// Tell who waits for the set-up that it failed.
    SetupError(String),
}

/// What a caller has to do, with its texts as character sequences.
pub enum ActionView {
    /// Send an order event.
    Event(EventView),
    /// Publish the report as an order status report.
    OrderStatusReport { terms: TermsView, treat_expired_as_canceled: bool },
    /// Publish the report as a fill report.
    FillReport { terms: TermsView },
    /// Log that a field kept an event from being made.
    Warning(Seq<char>),
    /// Log that a report for reconciliation could not be made.
    Error(Seq<char>),
    /// Publish the account position of the message.
    AccountPosition,
    /// Request the account state and publish it.
    RefreshAccount,
    /// Wake who waits for the session to be authenticated.
    NotifyAuthenticated,
    /// Wake who waits for the user data to be subscribed.
    NotifySubscribed,
    /// Tell who waits for the set-up that it failed.
    SetupError(Seq<char>),
}

impl View for DispatchAction {
    type V = ActionView;

    open spec fn view(&self) -> ActionView {
        match *self {
            DispatchAction::Event(event) => ActionView::Event(event@),
            DispatchAction::OrderStatusReport { terms, treat_expired_as_canceled } =>
                ActionView::OrderStatusReport { terms: terms@, treat_expired_as_canceled },
            DispatchAction::FillReport { terms } => ActionView::FillReport { terms: terms@ },
            DispatchAction::Warning(text) => ActionView::Warning(text@),
            DispatchAction::Error(text) => ActionView::Error(text@),
            DispatchAction::AccountPosition => ActionView::AccountPosition,
            DispatchAction::RefreshAccount => ActionView::RefreshAccount,
            DispatchAction::NotifyAuthenticated => ActionView::NotifyAuthenticated,
            DispatchAction::NotifySubscribed => ActionView::NotifySubscribed,
            DispatchAction::SetupError(text) => ActionView::SetupError(text@),
        }
    }
}

/// A list of actions with its texts as character sequences.
pub open spec fn actions_view(actions: Seq<DispatchAction>) -> Seq<ActionView> {
    actions.map_values(|a: DispatchAction| a@)
}

/// Adding an action to a list adds its view.
pub broadcast proof fn lemma_actions_push(actions: Seq<DispatchAction>, action: DispatchAction)
    ensures
        #[trigger] actions_view(actions.push(action)) == actions_view(actions).push(action@),
{
    assert(actions_view(actions.push(action)) =~= actions_view(actions).push(action@));
}

/// An empty list has an empty view.
pub broadcast proof fn lemma_actions_empty()
    ensures
        #[trigger] actions_view(Seq::<DispatchAction>::empty()) == Seq::<ActionView>::empty(),
{
    assert(actions_view(Seq::<DispatchAction>::empty()) =~= Seq::<ActionView>::empty());
}

/// Who the events of a client are about, and how it reports an expired order.
#[derive(Debug)]
pub struct DispatchContext {
    /// Trader that the node runs for.
    pub trader_id: TraderId,
    /// Account of the client.
    pub account_id: AccountId,
    /// Whether an expired order is reported as canceled.
    pub treat_expired_as_canceled: bool,
}

/// The order that a report is about, as the client knows it.
#[derive(Debug)]
pub struct TrackedOrder {
    /// Order.
    pub client_order_id: ClientOrderId,
    /// What the client knows of it.
    pub identity: OrderIdentity,
    /// Instrument that the report names.
    pub instrument_id: InstrumentId,
    /// Fractional digits of its prices.
    pub price_precision: u8,
    /// Fractional digits of its quantities.
    pub size_precision: u8,
}

/// The order that a report is about, with its texts as character sequences.
pub struct TrackedView {
    /// Order.
    pub client_order_id: Seq<char>,
    /// What the client knows of it.
    pub identity: OrderIdentity,
    /// Instrument that the report names.
    pub instrument_id: (Seq<char>, Seq<char>),
    /// Fractional digits of its prices.
    pub price_precision: u8,
    /// Fractional digits of its quantities.
    pub size_precision: u8,
}

impl View for TrackedOrder {
    type V = TrackedView;

    open spec fn view(&self) -> TrackedView {
        TrackedView {
            client_order_id: self.client_order_id@,
            identity: self.identity,
            instrument_id: self.instrument_id@,
            price_precision: self.price_precision,
            size_precision: self.size_precision,
        }
    }
}

/// What the client remembers, and what has to be done.
#[verifier::ext_equal]
pub struct Outcome {
    /// Orders and requests under way.
    pub state: DispatchView,
    /// Trades seen.
    pub seen: Seq<TradeKey>,
    /// Currencies known.
    pub currencies: Map<Seq<char>, u8>,
    /// What has to be done, in order.
    pub actions: Seq<ActionView>,
}

/// An event of a tracked order.
pub open spec fn order_event(
    context: DispatchContext,
    order: TrackedView,
    ts_event: UnixNanos,
    ts_init: UnixNanos,
    kind: EventKindView,
) -> ActionView {
    ActionView::Event(
        EventView {
            trader_id: context.trader_id@,
            strategy_id: order.identity.strategy_id@,
            instrument_id: order.identity.instrument_id@,
            client_order_id: order.client_order_id,
            account_id: context.account_id@,
            ts_event,
            ts_init,
            kind,
        },
    )
}

/// The venue order ID of a report, as text.
pub open spec fn venue_id_text(report: BinanceSpotExecutionReport) -> Seq<char> {
    int_text(report.order_id as int)
}

/// What is logged of a field that cannot be read.
pub open spec fn field_warning(
    report: BinanceSpotExecutionReport,
    field: Seq<char>,
    error: Seq<char>,
) -> Seq<char> {
    "Failed to parse Spot execution report "@ + field + " for symbol="@ + report.symbol@
        + ", order_id="@ + int_text(report.order_id as int) + ", trade_id="@ + int_text(
        report.trade_id as int,
    ) + ", client_order_id="@ + report.client_order_id@ + ": "@ + error
}

/// What is logged of a commission that is no amount of its currency.
pub open spec fn commission_warning(
    report: BinanceSpotExecutionReport,
    error: Seq<char>,
) -> Seq<char> {
    "Failed to build Spot commission money for symbol="@ + report.symbol@ + ", order_id="@
        + int_text(report.order_id as int) + ", trade_id="@ + int_text(report.trade_id as int)
        + ": "@ + error
}

/// The action that logs a field that cannot be read.
pub open spec fn warned(
    report: BinanceSpotExecutionReport,
    field: Seq<char>,
    error: FieldError,
) -> ActionView {
    ActionView::Warning(field_warning(report, field, error.text()))
}

/// What is logged of an execution report whose `field` cannot be read.
pub fn warn_invalid_spot_execution_report_field(
    report: &BinanceSpotExecutionReport,
    field: &str,
    error: &FieldError,
) -> (text: String)
    ensures
        text@ == field_warning(*report, field@, error.text()),
{
    let order_id = render_i128(report.order_id as i128);
    let trade_id = render_i128(report.trade_id as i128);
    let mut s = "Failed to parse Spot execution report ".to_owned();
    s.append(field);
    s.append(" for symbol=");
    s.append(report.symbol.as_str());
    s.append(", order_id=");
    s.append(order_id.as_str());
    s.append(", trade_id=");
    s.append(trade_id.as_str());
    s.append(", client_order_id=");
    s.append(report.client_order_id.as_str());
    s.append(": ");
    s.append(error.as_str());
    s
}

/// What is logged of a commission that is no amount of its currency.
pub(crate) fn warn_invalid_commission(report: &BinanceSpotExecutionReport, error: &FieldError) -> (text:
    String)
    ensures
        text@ == commission_warning(*report, error.text()),
{
    let order_id = render_i128(report.order_id as i128);
    let trade_id = render_i128(report.trade_id as i128);
    let mut s = "Failed to build Spot commission money for symbol=".to_owned();
    s.append(report.symbol.as_str());
    s.append(", order_id=");
    s.append(order_id.as_str());
    s.append(", trade_id=");
    s.append(trade_id.as_str());
    s.append(": ");
    s.append(error.as_str());
    s
}

/// Reads a quantity of a report, or says what to log.
pub fn parse_spot_execution_report_quantity(
    report: &BinanceSpotExecutionReport,
    raw: &str,
    precision: u8,
    field: &str,
) -> (r: Result<Quantity, DispatchAction>)
    ensures
        field_view(r) == read_quantity(*report, raw@, precision, field@),
{
    match Quantity::parse(raw, precision) {
        Ok(value) => Ok(value),
        Err(e) => Err(
            DispatchAction::Warning(warn_invalid_spot_execution_report_field(report, field, &e)),
        ),
    }
}

/// Reads a price of a report, or says what to log.
pub fn parse_spot_execution_report_price(
    report: &BinanceSpotExecutionReport,
    raw: &str,
    precision: u8,
    field: &str,
) -> (r: Result<Price, DispatchAction>)
    ensures
        field_view(r) == read_price(*report, raw@, precision, field@),
{
    match Price::parse(raw, precision) {
        Ok(value) => Ok(value),
        Err(e) => Err(
            DispatchAction::Warning(warn_invalid_spot_execution_report_field(report, field, &e)),
        ),
    }
}

/// Reads a decimal of a report, or says what to log.
pub fn parse_spot_execution_report_decimal(
    report: &BinanceSpotExecutionReport,
    raw: &str,
    field: &str,
) -> (r: Result<DecimalValue, DispatchAction>)
    ensures
        field_view(r) == read_decimal(*report, raw@, field@),
        decimal_field_wf(field_view(r)),
{
    match DecimalValue::parse(raw) {
        Some(value) => Ok(value),
        None => Err(
            DispatchAction::Warning(
                warn_invalid_spot_execution_report_field(
                    report,
                    field,
                    &FieldError::NotADecimal,
                ),
            ),
        ),
    }
}

/// The announcement that an order was accepted, unless it was made before.
pub open spec fn acceptance(
    context: DispatchContext,
    order: TrackedView,
    state: DispatchView,
    venue_order_id: Seq<char>,
    ts_event: UnixNanos,
    ts_init: UnixNanos,
) -> (DispatchView, Seq<ActionView>) {
    if state.accepted.contains(order.client_order_id) {
        (state, Seq::empty())
    } else {
        (
            state.with_accepted(order.client_order_id),
            seq![
                order_event(
                    context,
                    order,
                    ts_event,
                    ts_init,
                    EventKindView::Accepted { venue_order_id },
                ),
            ],
        )
    }
}

/// What a field of a report reads as, or the warning that it cannot be read.
pub open spec fn read_price(
    report: BinanceSpotExecutionReport,
    raw: Seq<char>,
    precision: u8,
    field: Seq<char>,
) -> Result<Price, ActionView> {
    match parsed_price(raw, precision) {
        Ok(value) => Ok(value),
        Err(e) => Err(warned(report, field, e)),
    }
}

/// What a field of a report reads as, or the warning that it cannot be read.
pub open spec fn read_quantity(
    report: BinanceSpotExecutionReport,
    raw: Seq<char>,
    precision: u8,
    field: Seq<char>,
) -> Result<Quantity, ActionView> {
    match parsed_quantity(raw, precision) {
        Ok(value) => Ok(value),
        Err(e) => Err(warned(report, field, e)),
    }
}

/// What a field of a report reads as, or the warning that it cannot be read.
pub open spec fn read_decimal(
    report: BinanceSpotExecutionReport,
    raw: Seq<char>,
    field: Seq<char>,
) -> Result<DecimalValue, ActionView> {
    match parsed_decimal(raw) {
        Some(value) => Ok(value),
        None => Err(warned(report, field, FieldError::NotADecimal)),
    }
}

/// A field that was read, with its warning by its view.
pub open spec fn field_view<T>(field: Result<T, DispatchAction>) -> Result<T, ActionView> {
    match field {
        Ok(value) => Ok(value),
        Err(warning) => Err(warning@),
    }
}

/// Whether a decimal that was read is one that a decimal can hold.
pub open spec fn decimal_field_wf(field: Result<DecimalValue, ActionView>) -> bool {
    field matches Ok(value) ==> value.wf()
}

/// The fields of a replacement, as they were read.
#[derive(Debug)]
pub struct ReplacementFields {
    /// New price.
    pub price: Result<Price, DispatchAction>,
    /// New quantity.
    pub quantity: Result<Quantity, DispatchAction>,
    /// New stop price as a number.
    pub stop_price: Result<DecimalValue, DispatchAction>,
    /// New stop price as a price.
    pub trigger_price: Result<Price, DispatchAction>,
}

/// The fields of a replacement, with their warnings by their views.
pub struct ReplacementView {
    /// New price.
    pub price: Result<Price, ActionView>,
    /// New quantity.
    pub quantity: Result<Quantity, ActionView>,
    /// New stop price as a number.
    pub stop_price: Result<DecimalValue, ActionView>,
    /// New stop price as a price.
    pub trigger_price: Result<Price, ActionView>,
}

impl View for ReplacementFields {
    type V = ReplacementView;

    open spec fn view(&self) -> ReplacementView {
        ReplacementView {
            price: field_view(self.price),
            quantity: field_view(self.quantity),
            stop_price: field_view(self.stop_price),
            trigger_price: field_view(self.trigger_price),
        }
    }
}

/// The fields of a replacement, as they read.
pub open spec fn replacement_fields(
    report: BinanceSpotExecutionReport,
    order: TrackedView,
) -> ReplacementView {
    ReplacementView {
        price: read_price(report, report.price@, order.price_precision, "price"@),
        quantity: read_quantity(
            report,
            report.original_qty@,
            order.size_precision,
            "original_qty"@,
        ),
        stop_price: read_decimal(report, report.stop_price@, "stop_price"@),
        trigger_price: read_price(
            report,
            report.stop_price@,
            order.price_precision,
            "stop_price"@,
        ),
    }
}

/// What a replacement that the venue reports as new calls for: an update, or the warning for the
/// first of its fields that cannot be read. A stop price counts only if it is positive.
pub open spec fn replacement_action(
    report: BinanceSpotExecutionReport,
    fields: ReplacementView,
    context: DispatchContext,
    order: TrackedView,
    ts_init: UnixNanos,
) -> ActionView {
    match (fields.price, fields.quantity, fields.stop_price) {
        (Err(warning), _, _) => warning,
        (_, Err(warning), _) => warning,
        (_, _, Err(warning)) => warning,
        (Ok(price), Ok(quantity), Ok(stop)) => if stop.mantissa > 0 && fields.trigger_price is Err {
            fields.trigger_price->Err_0
        } else {
            order_event(
                context,
                order,
                report.ts_event(),
                ts_init,
                EventKindView::Updated {
                    venue_order_id: Some(venue_id_text(report)),
                    quantity,
                    price: Some(price),
                    trigger_price: if stop.mantissa > 0 {
                        Some(fields.trigger_price->Ok_0)
                    } else {
                        None
                    },
                },
            )
        },
    }
}

/// What a report that an order is new makes of it: nothing if the order has filled, an update if
/// it was announced before, and its announcement otherwise.
pub open spec fn new_outcome(
    report: BinanceSpotExecutionReport,
    context: DispatchContext,
    order: TrackedView,
    state: DispatchView,
    ts_init: UnixNanos,
) -> (DispatchView, Seq<ActionView>) {
    if state.filled.contains(order.client_order_id) {
        (state, Seq::empty())
    } else if state.accepted.contains(order.client_order_id) {
        (
            state,
            seq![
                replacement_action(
                    report,
                    replacement_fields(report, order),
                    context,
                    order,
                    ts_init,
                ),
            ],
        )
    } else {
        acceptance(
            context,
            order,
            state,
            venue_id_text(report),
            report.ts_event(),
            ts_init,
        )
    }
}

/// The code of the currency that a commission is paid in.
pub open spec fn commission_code(report: BinanceSpotExecutionReport) -> Seq<char> {
    match report.commission_asset {
        Some(asset) => asset@,
        None => "USDT"@,
    }
}

/// The fractional digits of the currency that a commission is paid in.
pub open spec fn commission_precision(
    report: BinanceSpotExecutionReport,
    currencies: Map<Seq<char>, u8>,
) -> u8 {
    match report.commission_asset {
        Some(asset) => crypto_precision(currencies, asset@),
        None => CRYPTO_PRECISION,
    }
}

/// The currencies known once the commission of a report has been read.
pub open spec fn currencies_after(
    report: BinanceSpotExecutionReport,
    currencies: Map<Seq<char>, u8>,
) -> Map<Seq<char>, u8> {
    match report.commission_asset {
        Some(asset) => currencies.insert(asset@, crypto_precision(currencies, asset@)),
        None => currencies,
    }
}

/// The fields of a trade, as they were read.
#[derive(Debug)]
pub struct TradeFields {
    /// Quantity of the fill.
    pub last_qty: Result<Quantity, DispatchAction>,
    /// Price of the fill.
    pub last_px: Result<Price, DispatchAction>,
    /// Commission paid.
    pub commission: Result<DecimalValue, DispatchAction>,
    /// Quantity filled so far.
    pub cumulative_qty: Result<DecimalValue, DispatchAction>,
    /// Quantity of the order.
    pub original_qty: Result<DecimalValue, DispatchAction>,
}

/// The fields of a trade, with their warnings by their views.
pub struct TradeView {
    /// Quantity of the fill.
    pub last_qty: Result<Quantity, ActionView>,
    /// Price of the fill.
    pub last_px: Result<Price, ActionView>,
    /// Commission paid.
    pub commission: Result<DecimalValue, ActionView>,
    /// Quantity filled so far.
    pub cumulative_qty: Result<DecimalValue, ActionView>,
    /// Quantity of the order.
    pub original_qty: Result<DecimalValue, ActionView>,
}

impl View for TradeFields {
    type V = TradeView;

    open spec fn view(&self) -> TradeView {
        TradeView {
            last_qty: field_view(self.last_qty),
            last_px: field_view(self.last_px),
            commission: field_view(self.commission),
            cumulative_qty: field_view(self.cumulative_qty),
            original_qty: field_view(self.original_qty),
        }
    }
}

impl TradeView {
    /// Whether the numbers that were read are ones that a decimal can hold.
    pub open spec fn wf(self) -> bool {
        &&& decimal_field_wf(self.commission)
        &&& decimal_field_wf(self.cumulative_qty)
        &&& decimal_field_wf(self.original_qty)
    }

    /// The warning for the first field that keeps the fill from being reported.
    pub open spec fn unreadable(self) -> Option<ActionView> {
        if self.last_qty is Err {
            Some(self.last_qty->Err_0)
        } else if self.last_px is Err {
            Some(self.last_px->Err_0)
        } else if self.commission is Err {
            Some(self.commission->Err_0)
        } else {
            None
        }
    }

    /// Whether nothing of the order is left.
    pub open spec fn complete(self) -> bool {
        self.original_qty matches Ok(original) && (self.cumulative_qty matches Ok(cumulative)
            && original.le(cumulative))
    }

    /// The warnings for the quantities that tell whether anything of the order is left.
    pub open spec fn quantity_warnings(self) -> Seq<ActionView> {
        let first = if self.cumulative_qty is Err {
            seq![self.cumulative_qty->Err_0]
        } else {
            Seq::empty()
        };
        let second = if self.original_qty is Err {
            seq![self.original_qty->Err_0]
        } else {
            Seq::empty()
        };
        first + second
    }
}

/// The fields of a trade, as they read.
pub open spec fn trade_fields(
    report: BinanceSpotExecutionReport,
    order: TrackedView,
) -> TradeView {
    TradeView {
        last_qty: read_quantity(
            report,
            report.last_filled_qty@,
            order.size_precision,
            "last_filled_qty"@,
        ),
        last_px: read_price(
            report,
            report.last_filled_price@,
            order.price_precision,
            "last_filled_price"@,
        ),
        commission: read_decimal(report, report.commission@, "commission"@),
        cumulative_qty: read_decimal(
            report,
            report.cumulative_filled_qty@,
            "cumulative_filled_qty"@,
        ),
        original_qty: read_decimal(report, report.original_qty@, "original_qty"@),
    }
}

/// The event of a fill.
pub open spec fn fill_event(
    report: BinanceSpotExecutionReport,
    context: DispatchContext,
    order: TrackedView,
    precision: u8,
    last_qty: Quantity,
    last_px: Price,
    commission_raw: i128,
    ts_init: UnixNanos,
) -> ActionView {
    ActionView::Event(
        EventView {
            trader_id: context.trader_id@,
            strategy_id: order.identity.strategy_id@,
            instrument_id: order.instrument_id,
            client_order_id: order.client_order_id,
            account_id: context.account_id@,
            ts_event: report.ts_event(),
            ts_init,
            kind: EventKindView::Filled {
                venue_order_id: venue_id_text(report),
                trade_id: int_text(report.trade_id as int),
                order_side: order.identity.order_side,
                order_type: order.identity.order_type,
                last_qty,
                last_px,
                currency: commission_code(report),
                currency_precision: precision,
                liquidity_side: if report.is_maker {
                    LiquiditySide::Maker
                } else {
                    LiquiditySide::Taker
                },
                commission_raw,
                commission_currency: commission_code(report),
                commission_precision: precision,
            },
        },
    )
}

/// What a fill makes of its order once the trade is known to be new: the order is announced as
/// accepted if it was not, and filled; it is forgotten when nothing of it is left. Orders and
/// currencies known are told along with what has to be done.
pub open spec fn fill_outcome(
    report: BinanceSpotExecutionReport,
    fields: TradeView,
    context: DispatchContext,
    order: TrackedView,
    before: DispatchView,
    known: Map<Seq<char>, u8>,
    ts_init: UnixNanos,
) -> (DispatchView, Map<Seq<char>, u8>, Seq<ActionView>) {
    let id = order.client_order_id;
    let (state, announced) = acceptance(
        context,
        order,
        before,
        venue_id_text(report),
        ts_init,
        ts_init,
    );
    match fields.unreadable() {
        Some(warning) => (state, known, announced.push(warning)),
        None => {
            let precision = commission_precision(report, known);
            let currencies = currencies_after(report, known);
            match money_raw_of(fields.commission->Ok_0, precision) {
                Err(e) => (
                    state,
                    currencies,
                    announced.push(ActionView::Warning(commission_warning(report, e.text()))),
                ),
                Ok(raw) => {
                    let filled = state.with_filled(id);
                    (
                        if fields.complete() {
                            filled.without_order(id)
                        } else {
                            filled
                        },
                        currencies,
                        announced.push(
                            fill_event(
                                report,
                                context,
                                order,
                                precision,
                                fields.last_qty->Ok_0,
                                fields.last_px->Ok_0,
                                raw,
                                ts_init,
                            ),
                        ) + fields.quantity_warnings(),
                    )
                },
            }
        },
    }
}

/// What a trade report makes of its order: nothing if the trade was seen before.
pub open spec fn trade_outcome(
    report: BinanceSpotExecutionReport,
    context: DispatchContext,
    order: TrackedView,
    before: Outcome,
    ts_init: UnixNanos,
) -> Outcome {
    let seen = seen_after(before.seen, report.trade());
    if before.seen.contains(report.trade()) {
        Outcome { seen, actions: Seq::empty(), ..before }
    } else {
        let (state, currencies, actions) = fill_outcome(
            report,
            trade_fields(report, order),
            context,
            order,
            before.state,
            before.currencies,
            ts_init,
        );
        Outcome { state, seen, currencies, actions }
    }
}

/// What the end of an order makes of it: the order is announced as accepted if it was not, its
/// end is reported, and it is forgotten.
pub open spec fn ended_outcome(
    report: BinanceSpotExecutionReport,
    context: DispatchContext,
    order: TrackedView,
    state: DispatchView,
    ts_init: UnixNanos,
    kind: EventKindView,
) -> (DispatchView, Seq<ActionView>) {
    let (announced, actions) = acceptance(
        context,
        order,
        state,
        venue_id_text(report),
        ts_init,
        ts_init,
    );
    (
        announced.without_order(order.client_order_id),
        actions.push(order_event(context, order, report.ts_event(), ts_init, kind)),
    )
}

/// Why an order was rejected, as it is reported.
pub open spec fn reject_reason(report: BinanceSpotExecutionReport) -> Seq<char> {
    if report.reject_reason@.len() == 0 {
        "Order rejected by venue"@
    } else {
        report.reject_reason@
    }
}

/// Whether an order was rejected because it was post-only and would have crossed.
pub open spec fn rejected_post_only(report: BinanceSpotExecutionReport) -> bool {
    report.time_in_force == BinanceTimeInForce::Gtx || (report.order_type@ == "LIMIT_MAKER"@ && (
    report.reject_reason@.len() == 0 || report.reject_reason@ == "NONE"@))
}

/// What a report about a tracked order makes of it.
pub open spec fn tracked_outcome(
    report: BinanceSpotExecutionReport,
    context: DispatchContext,
    order: TrackedView,
    before: Outcome,
    ts_init: UnixNanos,
) -> Outcome {
    let canceled = EventKindView::Canceled { venue_order_id: Some(venue_id_text(report)) };
    let expired = EventKindView::Expired { venue_order_id: Some(venue_id_text(report)) };
    match report.execution_type {
        BinanceSpotExecutionType::New => {
            let (state, actions) = new_outcome(report, context, order, before.state, ts_init);
            Outcome { state, actions, ..before }
        },
        BinanceSpotExecutionType::Trade => trade_outcome(report, context, order, before, ts_init),
        BinanceSpotExecutionType::Replaced => Outcome { actions: Seq::empty(), ..before },
        BinanceSpotExecutionType::Canceled | BinanceSpotExecutionType::TradePrevention => {
            let (state, actions) = ended_outcome(
                report,
                context,
                order,
                before.state,
                ts_init,
                canceled,
            );
            Outcome { state, actions, ..before }
        },
        BinanceSpotExecutionType::Expired => {
            let kind = if context.treat_expired_as_canceled {
                canceled
            } else {
                expired
            };
            let (state, actions) = ended_outcome(
                report,
                context,
                order,
                before.state,
                ts_init,
                kind,
            );
            Outcome { state, actions, ..before }
        },
        BinanceSpotExecutionType::Rejected => Outcome {
            state: before.state.without_order(order.client_order_id),
            actions: seq![
                order_event(
                    context,
                    order,
                    ts_init,
                    ts_init,
                    EventKindView::Rejected {
                        reason: reject_reason(report),
                        due_post_only: rejected_post_only(report),
                    },
                ),
            ],
            ..before
        },
    }
}

/// What the client remembers, with nothing to do.
pub open spec fn at_rest(
    state: WsDispatchState,
    seen: FifoCache,
    currencies: CurrencyRegistry,
) -> Outcome {
    Outcome {
        state: state@,
        seen: seen@,
        currencies: currencies@,
        actions: Seq::empty(),
    }
}

/// Builds an event of a tracked order.
pub(crate) fn make_order_event(
    context: &DispatchContext,
    order: &TrackedOrder,
    ts_event: UnixNanos,
    ts_init: UnixNanos,
    kind: OrderEventKind,
) -> (action: DispatchAction)
    ensures
        action@ == order_event(*context, order@, ts_event, ts_init, kind@),
{
    DispatchAction::Event(
        OrderEvent {
            trader_id: context.trader_id.clone(),
            strategy_id: order.identity.strategy_id.clone(),
            instrument_id: order.identity.instrument_id.clone(),
            client_order_id: order.client_order_id.clone(),
            account_id: context.account_id.clone(),
            ts_event,
            ts_init,
            kind,
        },
    )
}

/// Announces an order as accepted, unless that was done before.
pub fn ensure_accepted_emitted(
    context: &DispatchContext,
    order: &TrackedOrder,
    venue_order_id: &VenueOrderId,
    state: &mut WsDispatchState,
    ts_event: UnixNanos,
    ts_init: UnixNanos,
) -> (actions: Vec<DispatchAction>)
    ensures
        (final(state)@, actions_view(actions@)) == acceptance(
            *context,
            order@,
            old(state)@,
            venue_order_id@,
            ts_event,
            ts_init,
        ),
{
    broadcast use {lemma_actions_push, lemma_actions_empty};

    let mut actions: Vec<DispatchAction> = Vec::new();
    if !state.has_emitted_accepted(&order.client_order_id) {
        state.insert_accepted(&order.client_order_id);
        let kind = OrderEventKind::Accepted { venue_order_id: venue_order_id.clone() };
        actions.push(make_order_event(context, order, ts_event, ts_init, kind));
        assert(actions_view(actions@) =~= seq![
            order_event(*context, order@, ts_event, ts_init, kind@),
        ]);
    }
    actions
}

} // verus!

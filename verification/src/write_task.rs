//! One write on its way to the venue: its permit is acquired, armed, used and released in that
//! order, and what comes of the write is reported afterwards.

use crate::dispatch_state::{DispatchView, WsDispatchState};
use crate::enums::{OrderSide, OrderType, TimeInForce};
use crate::events::{venue_id_view, EventKindView, EventView, OrderEvent, OrderEventKind};
use crate::execution_write::{
    first_release_refusal, ExecutionWriteContext, ExecutionWriteGateError,
    ExecutionWritePayloadViewV1, GateErrorView, TransportOutcomeClass,
};
use crate::identifiers::{
    AccountId, ClientOrderId, InstrumentId, StrategyId, TraderId, UnixNanos, VenueOrderId,
};
use crate::text::join;
use crate::types::{Price, Quantity};
use crate::venue_error::{
    ambiguous_error, http_post_only_rejection, is_ambiguous_submit_error, is_local_command_failure,
    is_spot_post_only_rejection, is_structured_venue_rejection, local_failure, structured_rejection,
    CommandError,
};
use vstd::prelude::*;

verus! {

/// What the HTTP client is asked to place.
#[derive(Debug)]
pub struct SubmitRequest {
    /// Account of the order.
    pub account_id: AccountId,
    /// Strategy that owns the order.
    pub strategy_id: StrategyId,
    /// Instrument of the order.
    pub instrument_id: InstrumentId,
    /// Order.
    pub client_order_id: ClientOrderId,
    /// Side.
    pub order_side: OrderSide,
    /// Type.
    pub order_type: OrderType,
    /// Quantity.
    pub quantity: Quantity,
    /// How long it stays in force.
    pub time_in_force: TimeInForce,
    /// Limit price, where there is one.
    pub price: Option<Price>,
    /// Trigger price, where there is one.
    pub trigger_price: Option<Price>,
    /// Whether it may only rest.
    pub is_post_only: bool,
    /// Whether its quantity is in the quote currency.
    pub is_quote_quantity: bool,
    /// Quantity shown, where not all of it is.
    pub display_qty: Option<Quantity>,
    /// When the command was taken up.
    pub ts_init: UnixNanos,
}

/// What the HTTP client is asked to cancel.
#[derive(Debug)]
pub struct CancelRequest {
    /// Account of the order.
    pub account_id: AccountId,
    /// Strategy that owns the order.
    pub strategy_id: StrategyId,
    /// Instrument of the order.
    pub instrument_id: InstrumentId,
    /// Order.
    pub client_order_id: ClientOrderId,
    /// Venue order ID, where the command names one.
    pub venue_order_id: Option<VenueOrderId>,
}

/// What the HTTP client is asked to do.
#[derive(Debug)]
pub enum WriteRequest {
    /// Place an order.
    Submit(SubmitRequest),
    /// Cancel an order.
    Cancel(CancelRequest),
}

/// How the HTTP client answered.
#[derive(Debug)]
pub enum WriteAnswer {
    /// The venue accepted, and named the order.
    Accepted(VenueOrderId),
    /// The request failed.
    Failed {
        /// How.
        error: CommandError,
        /// What the failure says.
        text: String,
    },
}

/// How far a write has come.
#[derive(Debug)]
pub enum WritePhase {
    /// Nothing has happened.
    Start,
    /// The permit is being acquired.
    Acquiring,
    /// The permit is being armed.
    Arming,
    /// The request is under way.
    Sending,
    /// The outcome is being recorded in the permit.
    Recording(WriteAnswer),
    /// The write is over.
    Done,
}

/// What the caller tells of a write.
#[derive(Debug)]
pub enum WriteSignal {
    /// The write may begin.
    Begin {
        /// Whether a gate was injected.
        has_gate: bool,
    },
    /// The write gate answered.
    Permit(Result<(), ExecutionWriteGateError>),
    /// The permit was armed with the final request, or refused it.
    Armed(Result<(), ExecutionWriteGateError>),
    /// The HTTP client answered.
    Answer(WriteAnswer),
    /// The outcome is recorded in the permit.
    Recorded {
        /// The time.
        ts_now: UnixNanos,
    },
}

/// What the caller has to do for a write.
#[derive(Debug)]
pub enum WriteAction {
    /// Acquire a permit for the request and its context.
    Acquire,
    /// Arm the permit with the final request.
    Arm,
    /// Send the request.
    Send,
    /// Record the outcome in the permit.
    Record(TransportOutcomeClass),
    /// Release the permit, send the event if there is one, and end with the failure if there is
    /// one.
    Report {
        /// Event to send.
        event: Option<OrderEvent>,
        /// Failure to end with.
        error: Option<CommandError>,
    },
    /// End with a failure; nothing was sent.
    Refuse(ExecutionWriteGateError),
    /// Nothing.
    Ignore,
}

/// What the caller has to do, with its texts as character sequences.
pub enum WriteActionView {
    /// Acquire a permit.
    Acquire,
    /// Arm the permit.
    Arm,
    /// Send the request.
    Send,
    /// Record the outcome.
    Record(TransportOutcomeClass),
    /// Release the permit and report.
    Report { event: Option<EventView>, error: Option<CommandError> },
    /// End with a failure.
    Refuse(GateErrorView),
    /// Nothing.
    Ignore,
}

/// An event that may be absent, with its texts as character sequences.
pub open spec fn event_view(event: Option<OrderEvent>) -> Option<EventView> {
    match event {
        Some(event) => Some(event@),
        None => None,
    }
}

impl View for WriteAction {
    type V = WriteActionView;

    open spec fn view(&self) -> WriteActionView {
        match *self {
            WriteAction::Acquire => WriteActionView::Acquire,
            WriteAction::Arm => WriteActionView::Arm,
            WriteAction::Send => WriteActionView::Send,
            WriteAction::Record(outcome) => WriteActionView::Record(outcome),
            WriteAction::Report { event, error } => WriteActionView::Report {
                event: event_view(event),
                error,
            },
            WriteAction::Refuse(error) => WriteActionView::Refuse(error@),
            WriteAction::Ignore => WriteActionView::Ignore,
        }
    }
}

/// A write and how far it has come.
pub struct WriteView {
    /// The final request as the write gate sees it.
    pub payload: ExecutionWritePayloadViewV1,
    /// The context that goes with it.
    pub context: ExecutionWriteContext,
    /// What the HTTP client is asked to do.
    pub request: WriteRequest,
    /// Trader that the node runs for.
    pub trader_id: TraderId,
    /// How far it has come.
    pub phase: WritePhase,
}

/// One write on its way to the venue.
#[derive(Debug)]
pub struct WriteTask {
    payload: ExecutionWritePayloadViewV1,
    context: ExecutionWriteContext,
    request: WriteRequest,
    trader_id: TraderId,
    phase: WritePhase,
}

impl View for WriteTask {
    type V = WriteView;

    closed spec fn view(&self) -> WriteView {
        WriteView {
            payload: self.payload,
            context: self.context,
            request: self.request,
            trader_id: self.trader_id,
            phase: self.phase,
        }
    }
}

/// Whether a failed write is known not to have taken effect: the venue said so, or the request
/// did not leave.
pub open spec fn definitely_rejected(error: CommandError) -> bool {
    !ambiguous_error(error) && (structured_rejection(error) || local_failure(error))
}

/// How a write came out: definitively rejected if it failed locally or the venue said so, and
/// unknown if the venue did not know or nothing was heard.
pub open spec fn outcome_class(answer: WriteAnswer) -> TransportOutcomeClass {
    match answer {
        WriteAnswer::Accepted(_) => TransportOutcomeClass::AcceptedNonterminal,
        WriteAnswer::Failed { error, .. } => if definitely_rejected(error) {
            TransportOutcomeClass::RejectedDefinitive
        } else {
            TransportOutcomeClass::OutcomeUnknown
        },
    }
}

/// Whether a failure says that a post-only order would have crossed.
pub open spec fn post_only_failure(error: CommandError) -> bool {
    error matches CommandError::Http(e) && http_post_only_rejection(e)
}

/// An event of the order that a submission places.
pub open spec fn submit_event(
    trader_id: TraderId,
    request: SubmitRequest,
    ts_init: UnixNanos,
    kind: EventKindView,
) -> EventView {
    EventView {
        trader_id: trader_id@,
        strategy_id: request.strategy_id@,
        instrument_id: request.instrument_id@,
        client_order_id: request.client_order_id@,
        account_id: request.account_id@,
        ts_event: request.ts_init,
        ts_init,
        kind,
    }
}

/// An event of the order that a cancel is about.
pub open spec fn cancel_event(
    trader_id: TraderId,
    request: CancelRequest,
    ts_now: UnixNanos,
    kind: EventKindView,
) -> EventView {
    EventView {
        trader_id: trader_id@,
        strategy_id: request.strategy_id@,
        instrument_id: request.instrument_id@,
        client_order_id: request.client_order_id@,
        account_id: request.account_id@,
        ts_event: ts_now,
        ts_init: ts_now,
        kind,
    }
}

/// What a submission makes of its order: accepted, rejected and forgotten, or left to
/// reconciliation.
pub open spec fn submit_report(
    trader_id: TraderId,
    request: SubmitRequest,
    answer: WriteAnswer,
    state: DispatchView,
    ts_now: UnixNanos,
) -> (DispatchView, Option<EventView>) {
    let id = request.client_order_id@;
    match answer {
        WriteAnswer::Accepted(venue_order_id) => (
            state.with_accepted(id),
            Some(
                submit_event(
                    trader_id,
                    request,
                    request.ts_init,
                    EventKindView::Accepted { venue_order_id: venue_order_id@ },
                ),
            ),
        ),
        WriteAnswer::Failed { error, text } => if definitely_rejected(error) {
            (
                state.without_order(id),
                Some(
                    submit_event(
                        trader_id,
                        request,
                        ts_now,
                        EventKindView::Rejected {
                            reason: "submit-order-error: "@ + text@,
                            due_post_only: post_only_failure(error),
                        },
                    ),
                ),
            )
        } else {
            (state, None)
        },
    }
}

/// What a cancel makes of its order: canceled and forgotten, or still there, with the rejection
/// reported if the venue made it.
pub open spec fn cancel_report(
    trader_id: TraderId,
    request: CancelRequest,
    answer: WriteAnswer,
    state: DispatchView,
    ts_now: UnixNanos,
) -> (DispatchView, Option<EventView>) {
    match answer {
        WriteAnswer::Accepted(venue_order_id) => (
            state.without_order(request.client_order_id@),
            Some(
                cancel_event(
                    trader_id,
                    request,
                    ts_now,
                    EventKindView::Canceled { venue_order_id: Some(venue_order_id@) },
                ),
            ),
        ),
        WriteAnswer::Failed { error, text } => if structured_rejection(error) {
            (
                state,
                Some(
                    cancel_event(
                        trader_id,
                        request,
                        ts_now,
                        EventKindView::CancelRejected {
                            reason: "cancel-order-error: "@ + text@,
                            venue_order_id: venue_id_view(request.venue_order_id),
                        },
                    ),
                ),
            )
        } else {
            (state, None)
        },
    }
}

/// What a write makes of its order.
pub open spec fn write_report(
    trader_id: TraderId,
    request: WriteRequest,
    answer: WriteAnswer,
    state: DispatchView,
    ts_now: UnixNanos,
) -> (DispatchView, Option<EventView>) {
    match request {
        WriteRequest::Submit(submit) => submit_report(trader_id, submit, answer, state, ts_now),
        WriteRequest::Cancel(cancel) => cancel_report(trader_id, cancel, answer, state, ts_now),
    }
}

/// The failure that an answer ends the write with.
pub open spec fn answer_error(answer: WriteAnswer) -> Option<CommandError> {
    match answer {
        WriteAnswer::Accepted(_) => None,
        WriteAnswer::Failed { error, .. } => Some(error),
    }
}

/// How a signal moves a write on. A signal that the phase does not wait for changes nothing.
pub open spec fn write_step(write: WriteView, state: DispatchView, signal: WriteSignal) -> (
    WritePhase,
    DispatchView,
    WriteActionView,
) {
    match (write.phase, signal) {
        (WritePhase::Start, WriteSignal::Begin { has_gate }) => if !has_gate {
            (WritePhase::Done, state, WriteActionView::Refuse(GateErrorView::MissingGate))
        } else {
            match first_release_refusal(write.payload, write.context) {
                Some(error) => (WritePhase::Done, state, WriteActionView::Refuse(error)),
                None => (WritePhase::Acquiring, state, WriteActionView::Acquire),
            }
        },
        (WritePhase::Acquiring, WriteSignal::Permit(Ok(_))) => (
            WritePhase::Arming,
            state,
            WriteActionView::Arm,
        ),
        (WritePhase::Acquiring, WriteSignal::Permit(Err(error))) => (
            WritePhase::Done,
            state,
            WriteActionView::Refuse(error@),
        ),
        (WritePhase::Arming, WriteSignal::Armed(Ok(_))) => (
            WritePhase::Sending,
            state,
            WriteActionView::Send,
        ),
        (WritePhase::Arming, WriteSignal::Armed(Err(error))) => (
            WritePhase::Done,
            state,
            WriteActionView::Refuse(error@),
        ),
        (WritePhase::Sending, WriteSignal::Answer(answer)) => (
            WritePhase::Recording(answer),
            state,
            WriteActionView::Record(outcome_class(answer)),
        ),
        (WritePhase::Recording(answer), WriteSignal::Recorded { ts_now }) => {
            let (after, event) = write_report(
                write.trader_id,
                write.request,
                answer,
                state,
                ts_now,
            );
            (
                WritePhase::Done,
                after,
                WriteActionView::Report { event, error: answer_error(answer) },
            )
        },
        (phase, _) => (phase, state, WriteActionView::Ignore),
    }
}

fn classify(answer: &WriteAnswer) -> (outcome: TransportOutcomeClass)
    ensures
        outcome == outcome_class(*answer),
{
    match answer {
        WriteAnswer::Accepted(_) => TransportOutcomeClass::AcceptedNonterminal,
        WriteAnswer::Failed { error, .. } => if !is_ambiguous_submit_error(error) && (
        is_structured_venue_rejection(error) || is_local_command_failure(error)) {
            TransportOutcomeClass::RejectedDefinitive
        } else {
            TransportOutcomeClass::OutcomeUnknown
        },
    }
}

fn make_submit_event(
    trader_id: &TraderId,
    request: &SubmitRequest,
    ts_init: UnixNanos,
    kind: OrderEventKind,
) -> (event: OrderEvent)
    ensures
        event@ == submit_event(*trader_id, *request, ts_init, kind@),
{
    OrderEvent {
        trader_id: trader_id.clone(),
        strategy_id: request.strategy_id.clone(),
        instrument_id: request.instrument_id.clone(),
        client_order_id: request.client_order_id.clone(),
        account_id: request.account_id.clone(),
        ts_event: request.ts_init,
        ts_init,
        kind,
    }
}

fn make_cancel_event(
    trader_id: &TraderId,
    request: &CancelRequest,
    ts_now: UnixNanos,
    kind: OrderEventKind,
) -> (event: OrderEvent)
    ensures
        event@ == cancel_event(*trader_id, *request, ts_now, kind@),
{
    OrderEvent {
        trader_id: trader_id.clone(),
        strategy_id: request.strategy_id.clone(),
        instrument_id: request.instrument_id.clone(),
        client_order_id: request.client_order_id.clone(),
        account_id: request.account_id.clone(),
        ts_event: ts_now,
        ts_init: ts_now,
        kind,
    }
}

fn report_submit(
    trader_id: &TraderId,
    request: &SubmitRequest,
    answer: WriteAnswer,
    state: &mut WsDispatchState,
    ts_now: UnixNanos,
) -> (r: (Option<OrderEvent>, Option<CommandError>))
    ensures
        (final(state)@, event_view(r.0)) == submit_report(
            *trader_id,
            *request,
            answer,
            old(state)@,
            ts_now,
        ),
        r.1 == answer_error(answer),
{
    match answer {
        WriteAnswer::Accepted(venue_order_id) => {
            state.insert_accepted(&request.client_order_id);
            let kind = OrderEventKind::Accepted { venue_order_id };
            (Some(make_submit_event(trader_id, request, request.ts_init, kind)), None)
        },
        WriteAnswer::Failed { error, text } => {
            if is_ambiguous_submit_error(&error) {
                return (None, Some(error));
            }
            if is_structured_venue_rejection(&error) || is_local_command_failure(&error) {
                let due_post_only = match &error {
                    CommandError::Http(e) => is_spot_post_only_rejection(e),
                    _ => false,
                };
                state.cleanup_terminal(&request.client_order_id);
                let kind = OrderEventKind::Rejected {
                    reason: join("submit-order-error: ", text.as_str()),
                    due_post_only,
                };
                (Some(make_submit_event(trader_id, request, ts_now, kind)), Some(error))
            } else {
                (None, Some(error))
            }
        },
    }
}

fn report_cancel(
    trader_id: &TraderId,
    request: &CancelRequest,
    answer: WriteAnswer,
    state: &mut WsDispatchState,
    ts_now: UnixNanos,
) -> (r: (Option<OrderEvent>, Option<CommandError>))
    ensures
        (final(state)@, event_view(r.0)) == cancel_report(
            *trader_id,
            *request,
            answer,
            old(state)@,
            ts_now,
        ),
        r.1 == answer_error(answer),
{
    match answer {
        WriteAnswer::Accepted(venue_order_id) => {
            state.cleanup_terminal(&request.client_order_id);
            let kind = OrderEventKind::Canceled { venue_order_id: Some(venue_order_id) };
            (Some(make_cancel_event(trader_id, request, ts_now, kind)), None)
        },
        WriteAnswer::Failed { error, text } => if is_structured_venue_rejection(&error) {
            let kind = OrderEventKind::CancelRejected {
                reason: join("cancel-order-error: ", text.as_str()),
                venue_order_id: request.venue_order_id.clone(),
            };
            (Some(make_cancel_event(trader_id, request, ts_now, kind)), Some(error))
        } else {
            (None, Some(error))
        },
    }
}

impl WriteTask {
    /// A write that has not begun.
    pub fn new(
        payload: ExecutionWritePayloadViewV1,
        context: ExecutionWriteContext,
        request: WriteRequest,
        trader_id: TraderId,
    ) -> (task: Self)
        ensures
            task@ == (WriteView { payload, context, request, trader_id, phase: WritePhase::Start }),
    {
        WriteTask { payload, context, request, trader_id, phase: WritePhase::Start }
    }

    /// The final request as the write gate sees it.
    pub fn payload(&self) -> (payload: &ExecutionWritePayloadViewV1)
        ensures
            *payload == self@.payload,
    {
        &self.payload
    }

    /// The context that goes with the request.
    pub fn context(&self) -> (context: &ExecutionWriteContext)
        ensures
            *context == self@.context,
    {
        &self.context
    }

    /// What the HTTP client is asked to do.
    pub fn request(&self) -> (request: &WriteRequest)
        ensures
            *request == self@.request,
    {
        &self.request
    }

    /// Moves the write on and says what to do next.
    pub fn advance(&mut self, signal: WriteSignal, state: &mut WsDispatchState) -> (action:
        WriteAction)
        ensures
            final(self)@ == (WriteView { phase: final(self)@.phase, ..old(self)@ }),
            (final(self)@.phase, final(state)@, action@) == write_step(
                old(self)@,
                old(state)@,
                signal,
            ),
    {
        let mut phase = WritePhase::Done;
        core::mem::swap(&mut phase, &mut self.phase);
        let (next, action) = match (phase, signal) {
            (WritePhase::Start, WriteSignal::Begin { has_gate }) => if !has_gate {
                (WritePhase::Done, WriteAction::Refuse(ExecutionWriteGateError::MissingGate))
            } else {
                match self.payload.validate_first_release(&self.context) {
                    Err(error) => (WritePhase::Done, WriteAction::Refuse(error)),
                    Ok(_) => (WritePhase::Acquiring, WriteAction::Acquire),
                }
            },
            (WritePhase::Acquiring, WriteSignal::Permit(Ok(_))) => (
                WritePhase::Arming,
                WriteAction::Arm,
            ),
            (WritePhase::Acquiring, WriteSignal::Permit(Err(error))) => (
                WritePhase::Done,
                WriteAction::Refuse(error),
            ),
            (WritePhase::Arming, WriteSignal::Armed(Ok(_))) => (
                WritePhase::Sending,
                WriteAction::Send,
            ),
            (WritePhase::Arming, WriteSignal::Armed(Err(error))) => (
                WritePhase::Done,
                WriteAction::Refuse(error),
            ),
            (WritePhase::Sending, WriteSignal::Answer(answer)) => {
                let outcome = classify(&answer);
                (WritePhase::Recording(answer), WriteAction::Record(outcome))
            },
            (WritePhase::Recording(answer), WriteSignal::Recorded { ts_now }) => {
                let (event, error) = match &self.request {
                    WriteRequest::Submit(request) => report_submit(
                        &self.trader_id,
                        request,
                        answer,
                        state,
                        ts_now,
                    ),
                    WriteRequest::Cancel(request) => report_cancel(
                        &self.trader_id,
                        request,
                        answer,
                        state,
                        ts_now,
                    ),
                };
                (WritePhase::Done, WriteAction::Report { event, error })
            },
            (phase, _) => (phase, WriteAction::Ignore),
        };
        self.phase = next;
        action
    }
}

/// A write after a sequence of signals, the orders under way then, and what had to be done for
/// each signal.
pub open spec fn run(write: WriteView, state: DispatchView, signals: Seq<WriteSignal>) -> (
    WriteView,
    DispatchView,
    Seq<WriteActionView>,
)
    decreases signals.len(),
{
    if signals.len() == 0 {
        (write, state, Seq::empty())
    } else {
        let (before, known, actions) = run(write, state, signals.drop_last());
        let (phase, after, action) = write_step(before, known, signals.last());
        (WriteView { phase, ..before }, after, actions.push(action))
    }
}

/// How many phases lie behind a write.
pub open spec fn progress(phase: WritePhase) -> int {
    match phase {
        WritePhase::Start => 0,
        WritePhase::Acquiring => 1,
        WritePhase::Arming => 2,
        WritePhase::Sending => 3,
        WritePhase::Recording(_) => 4,
        WritePhase::Done => 5,
    }
}

/// Whether a signal is the one that a phase of the given progress was reached by.
pub open spec fn consent(signal: WriteSignal, reached: int) -> bool {
    if reached == 1 {
        signal matches WriteSignal::Begin { has_gate } && has_gate
    } else if reached == 2 {
        signal matches WriteSignal::Permit(Ok(_))
    } else {
        signal matches WriteSignal::Armed(Ok(_))
    }
}

/// Whether a write gate was there, and a permit was given and armed, in that order, as far as
/// `reached`.
pub open spec fn consented(signals: Seq<WriteSignal>, reached: int) -> bool
    decreases reached,
{
    reached <= 0 || exists|i: int|
        0 <= i < signals.len() && consent(#[trigger] signals[i], reached) && consented(
            signals.take(i),
            reached - 1,
        )
}

proof fn lemma_consented_push(signals: Seq<WriteSignal>, longer: Seq<WriteSignal>, reached: int)
    requires
        consented(signals, reached),
        longer.len() > 0,
        longer.drop_last() == signals,
    ensures
        consented(longer, reached),
{
    if reached > 0 {
        let i = choose|i: int|
            0 <= i < signals.len() && consent(#[trigger] signals[i], reached) && consented(
                signals.take(i),
                reached - 1,
            );
        assert(longer[i] == signals[i]);
        assert(longer.take(i) =~= signals.take(i));
    }
}

proof fn lemma_run(write: WriteView, state: DispatchView, signals: Seq<WriteSignal>)
    requires
        write.phase is Start,
    ensures
        ({
            let (after, _, actions) = run(write, state, signals);
            &&& actions.len() == signals.len()
            &&& after == (WriteView { phase: after.phase, ..write })
            &&& 1 <= progress(after.phase) <= 4 ==> first_release_refusal(
                write.payload,
                write.context,
            ) is None
            &&& 1 <= progress(after.phase) <= 3 ==> consented(signals, progress(after.phase))
            &&& progress(after.phase) == 4 ==> consented(signals, 3)
        }),
    decreases signals.len(),
{
    if signals.len() > 0 {
        let earlier = signals.drop_last();
        lemma_run(write, state, earlier);
        let (before, known, _) = run(write, state, earlier);
        let (phase, _, action) = write_step(before, known, signals.last());
        let n = signals.len() - 1;
        assert(signals.take(n) =~= earlier);
        if action is Ignore {
            assert(phase == before.phase);
            if 1 <= progress(phase) <= 3 {
                lemma_consented_push(earlier, signals, progress(phase));
            } else if progress(phase) == 4 {
                lemma_consented_push(earlier, signals, 3);
            }
        } else if progress(phase) == 4 {
            lemma_consented_push(earlier, signals, 3);
        } else if progress(phase) < 4 {
            let reached = progress(phase);
            assert(progress(before.phase) == reached - 1);
            assert(consented(signals.take(n), reached - 1));
            assert(consent(signals[n], reached));
            assert(consented(signals, reached));
        }
    }
}

proof fn lemma_prefix(
    write: WriteView,
    state: DispatchView,
    signals: Seq<WriteSignal>,
    n: int,
)
    requires
        write.phase is Start,
        0 <= n <= signals.len(),
    ensures
        run(write, state, signals).2.len() == signals.len(),
        run(write, state, signals.take(n)).2 == run(write, state, signals).2.take(n),
        progress(run(write, state, signals.take(n)).0.phase) <= progress(
            run(write, state, signals).0.phase,
        ),
    decreases signals.len() - n,
{
    lemma_run(write, state, signals);
    lemma_run(write, state, signals.take(n));
    if n == signals.len() {
        assert(signals.take(n) =~= signals);
        assert(run(write, state, signals).2.take(n) =~= run(write, state, signals).2);
    } else {
        lemma_prefix(write, state, signals, n + 1);
        let longer = signals.take(n + 1);
        lemma_run(write, state, longer);
        assert(longer.drop_last() =~= signals.take(n));
        let all = run(write, state, signals).2;
        let (before, known, actions) = run(write, state, signals.take(n));
        assert(run(write, state, longer).2 == actions.push(
            write_step(before, known, longer.last()).2,
        ));
        assert(actions =~= all.take(n + 1).take(n));
        assert(all.take(n + 1).take(n) =~= all.take(n));
    }
}

/// The action at a position is the step that its signal makes.
proof fn lemma_action_at(
    write: WriteView,
    state: DispatchView,
    signals: Seq<WriteSignal>,
    k: int,
)
    requires
        write.phase is Start,
        0 <= k < signals.len(),
    ensures
        ({
            let (before, known, _) = run(write, state, signals.take(k));
            let (phase, _, action) = write_step(before, known, signals[k]);
            &&& run(write, state, signals).2.len() == signals.len()
            &&& run(write, state, signals).2[k] == action
            &&& run(write, state, signals.take(k + 1)).0.phase == phase
        }),
{
    lemma_run(write, state, signals.take(k));
    lemma_prefix(write, state, signals, k + 1);
    let longer = signals.take(k + 1);
    assert(longer.drop_last() =~= signals.take(k));
    assert(longer.last() == signals[k]);
    assert(run(write, state, longer).2.last() == run(write, state, signals).2[k]);
}

/// Whatever the caller signals, a request is sent only if it is within the first-release policy,
/// a write gate was there, a permit was given after that, and the permit was armed after that.
pub proof fn law_nothing_is_sent_without_an_armed_permit(
    write: WriteView,
    state: DispatchView,
    signals: Seq<WriteSignal>,
    k: int,
)
    requires
        write.phase is Start,
        0 <= k < signals.len(),
        run(write, state, signals).2[k] is Send,
    ensures
        first_release_refusal(write.payload, write.context) is None,
        consented(signals.take(k + 1), 3),
{
    lemma_action_at(write, state, signals, k);
    lemma_run(write, state, signals.take(k + 1));
}

/// Whatever the caller signals, a request is sent at most once, its outcome is recorded at most
/// once and only after it was sent, and what came of it is reported at most once and only after
/// its outcome was recorded.
pub proof fn law_outcome_is_recorded_once_and_first(
    write: WriteView,
    state: DispatchView,
    signals: Seq<WriteSignal>,
    k: int,
    m: int,
)
    requires
        write.phase is Start,
        0 <= k < signals.len(),
        0 <= m < signals.len(),
    ensures
        ({
            let actions = run(write, state, signals).2;
            &&& actions[k] is Send && actions[m] is Send ==> k == m
            &&& actions[k] is Record && actions[m] is Record ==> k == m
            &&& actions[k] is Report && actions[m] is Report ==> k == m
            &&& actions[k] is Record && actions[m] is Report ==> k < m
            &&& actions[k] is Send && actions[m] is Record ==> k < m
        }),
{
    lemma_action_at(write, state, signals, k);
    lemma_action_at(write, state, signals, m);
    if k < m {
        lemma_prefix(write, state, signals.take(m), k + 1);
        assert(signals.take(m).take(k + 1) =~= signals.take(k + 1));
    } else if m < k {
        lemma_prefix(write, state, signals.take(k), m + 1);
        assert(signals.take(k).take(m + 1) =~= signals.take(m + 1));
    }
}

/// A write that is refused sends nothing, and leaves every order as it was.
pub proof fn law_refused_write_changes_nothing(
    write: WriteView,
    state: DispatchView,
    signal: WriteSignal,
)
    ensures
        ({
            let (phase, after, action) = write_step(write, state, signal);
            &&& action is Refuse ==> phase is Done && after == state
            &&& !(action is Report) ==> after == state
        }),
{
}

/// A failed submission is recorded as definitively rejected exactly when its order is rejected
/// and forgotten; otherwise the order stays as it was and nothing is reported of it.
pub proof fn law_rejected_submission_is_forgotten(
    trader_id: TraderId,
    request: SubmitRequest,
    error: CommandError,
    text: String,
    state: DispatchView,
    ts_now: UnixNanos,
)
    ensures
        ({
            let answer = WriteAnswer::Failed { error, text };
            let (after, event) = submit_report(trader_id, request, answer, state, ts_now);
            if outcome_class(answer) == TransportOutcomeClass::RejectedDefinitive {
                &&& event matches Some(e) && e.kind is Rejected
                &&& !after.order_identities.contains_key(request.client_order_id@)
                &&& !ambiguous_error(error)
            } else {
                event is None && after == state
            }
        }),
{
}

/// A cancel that failed leaves its order as it was, and is reported exactly when the venue
/// itself answered with an error.
pub proof fn law_failed_cancel_keeps_the_order(
    trader_id: TraderId,
    request: CancelRequest,
    error: CommandError,
    text: String,
    state: DispatchView,
    ts_now: UnixNanos,
)
    ensures
        ({
            let answer = WriteAnswer::Failed { error, text };
            let (after, event) = cancel_report(trader_id, request, answer, state, ts_now);
            &&& after == state
            &&& event is Some <==> structured_rejection(error)
        }),
{
}

} // verus!

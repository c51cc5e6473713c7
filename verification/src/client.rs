//! The Spot execution client: what it is configured to do, what it knows, and the commands that it
//! takes.

use crate::binance_truth::{PrivateStreamHealth, PrivateStreamState, StreamHealthView};
use crate::commands::{
    cancel_order_internal, cancel_prepared_as, cancel_write_is, submit_order, submitted_as, CancelOrder, ClientScope,
    CommandRefusal, SubmitOrder, Submission,
};
use crate::dispatch::{
    dispatch_ws_trading_message, message_outcome, BinanceSpotWsTradingMessage, ResolvedReport,
};
use crate::dispatch_state::{cache_wf, DispatchView, FifoCache, TradeKey, WsDispatchState};
use crate::execution_write::{ExecutionWriteGateError, ExecutionWriteKind, GateErrorView};
use crate::identifiers::UnixNanos;
use crate::orders::Order;
use crate::private_stream::PrivateStreamHealthHandle;
use crate::reports::{actions_view, ActionView, DispatchAction, DispatchContext, Outcome, ReportTerms};
use crate::types::CurrencyRegistry;
use crate::write_task::{WriteSignal, WriteTask};
use vstd::prelude::*;

verus! {

/// How the client is configured.
#[derive(Clone, Copy, Debug, PartialEq, Eq, Structural)]
pub struct BinanceExecClientConfig {
    /// Whether a WebSocket trading client is used.
    pub use_ws_trading: bool,
    /// Whether the client may not connect without it.
    pub require_ws_trading: bool,
    /// Whether orders are meant to go out over the WebSocket while it is up. Those of the first
    /// release go out as signed HTTP requests whatever this says.
    pub use_ws_order_transport: bool,
    /// Whether an expired order is reported as canceled.
    pub treat_expired_as_canceled: bool,
}

/// What the client is and knows.
#[verifier::ext_equal]
pub struct ClientView {
    /// Who it is.
    pub scope: ClientScope,
    /// How it is configured.
    pub config: BinanceExecClientConfig,
    /// Whether a write gate was injected.
    pub has_gate: bool,
    /// Whether it has started.
    pub started: bool,
    /// Whether it is connected.
    pub connected: bool,
    /// Whether the instruments were loaded.
    pub instruments_initialized: bool,
    /// Orders and requests under way.
    pub state: DispatchView,
    /// Trades seen.
    pub seen: Seq<TradeKey>,
    /// Currencies known.
    pub currencies: Map<Seq<char>, u8>,
    /// Health of the private stream.
    pub health: StreamHealthView,
}

/// Execution client for Binance Spot trading. Order mutations of the first release go out as
/// signed HTTP requests, while the user data stream tells what becomes of the orders.
pub struct BinanceSpotExecutionClient {
    pub(crate) scope: ClientScope,
    pub(crate) config: BinanceExecClientConfig,
    pub(crate) has_gate: bool,
    pub(crate) started: bool,
    pub(crate) connected: bool,
    pub(crate) instruments_initialized: bool,
    pub(crate) state: WsDispatchState,
    pub(crate) seen: FifoCache,
    pub(crate) currencies: CurrencyRegistry,
    pub(crate) health: PrivateStreamHealthHandle,
}

impl View for BinanceSpotExecutionClient {
    type V = ClientView;

    open(crate) spec fn view(&self) -> ClientView {
        ClientView {
            scope: self.scope,
            config: self.config,
            has_gate: self.has_gate,
            started: self.started,
            connected: self.connected,
            instruments_initialized: self.instruments_initialized,
            state: self.state@,
            seen: self.seen@,
            currencies: self.currencies@,
            health: self.health@,
        }
    }
}

impl ClientView {
    /// A client that has not started.
    pub open spec fn initial(
        scope: ClientScope,
        config: BinanceExecClientConfig,
        has_gate: bool,
    ) -> ClientView {
        ClientView {
            scope,
            config,
            has_gate,
            started: false,
            connected: false,
            instruments_initialized: false,
            state: DispatchView::empty(),
            seen: Seq::empty(),
            currencies: Map::empty(),
            health: StreamHealthView::initial(scope.client_id@),
        }
    }

    /// Whether the client remembers no trade twice, and its stream is ready only when it may be.
    pub open spec fn wf(self) -> bool {
        cache_wf(self.seen) && self.health.wf()
    }

    /// The context of the client's events.
    pub open spec fn context(self) -> DispatchContext {
        DispatchContext {
            trader_id: self.scope.trader_id,
            account_id: self.scope.account_id,
            treat_expired_as_canceled: self.config.treat_expired_as_canceled,
        }
    }

    /// What the client remembers, with nothing to do.
    pub open spec fn at_rest(self) -> Outcome {
        Outcome {
            state: self.state,
            seen: self.seen,
            currencies: self.currencies,
            actions: Seq::empty(),
        }
    }

    /// The health of the stream once a message of `generation` has been heard.
    pub open spec fn heard(
        self,
        generation: u64,
        msg: BinanceSpotWsTradingMessage,
        ts_heard: UnixNanos,
    ) -> StreamHealthView {
        let alive = self.health.with_heartbeat(generation, ts_heard);
        if msg is Reconnected {
            alive.ended(
                generation,
                PrivateStreamState::Stale,
                "Spot private WebSocket reconnected; reconciliation required"@,
            )
        } else {
            alive
        }
    }

    /// The client once a message of `generation` has been handled, and what has to be done.
    pub open spec fn told(
        self,
        generation: u64,
        msg: BinanceSpotWsTradingMessage,
        ts_heard: UnixNanos,
        ts_now: UnixNanos,
    ) -> (ClientView, Seq<ActionView>) {
        let outcome = message_outcome(msg, self.context(), self.at_rest(), ts_now);
        (
            ClientView {
                state: outcome.state,
                seen: outcome.seen,
                currencies: outcome.currencies,
                health: self.heard(generation, msg, ts_heard),
                ..self
            },
            outcome.actions,
        )
    }

    /// The client once the stream of `generation` has ended.
    pub open spec fn cut_off(self, generation: u64) -> ClientView {
        ClientView {
            health: self.health.ended(
                generation,
                PrivateStreamState::Failed,
                "Spot private dispatch loop ended"@,
            ),
            ..self
        }
    }

    /// The client once its connection was taken down.
    pub open spec fn taken_down(self) -> ClientView {
        ClientView {
            connected: false,
            health: self.health.ended(
                self.health.generation,
                PrivateStreamState::Stale,
                "Spot execution client disconnected"@,
            ),
            ..self
        }
    }

    /// The client once a currency is known.
    pub open spec fn with_currency(self, code: Seq<char>, precision: u8) -> ClientView {
        ClientView { currencies: self.currencies.insert(code, precision), ..self }
    }

    /// The client once it has started.
    pub open spec fn running(self) -> ClientView {
        ClientView { started: true, ..self }
    }

    /// The signal with which a write of the client begins.
    pub open spec fn opening_signal(self) -> WriteSignal {
        WriteSignal::Begin { has_gate: self.has_gate }
    }

    /// The client once it has stopped.
    pub open spec fn stopped(self) -> ClientView {
        if self.started {
            ClientView { started: false, connected: false, ..self }
        } else {
            self
        }
    }

    /// The client once the orders of the stream of `generation` are reconciled.
    pub open spec fn reconciled(self, generation: u64, ts_now: UnixNanos) -> ClientView {
        ClientView { health: self.health.promoted(generation, ts_now), ..self }
    }
}

impl BinanceSpotExecutionClient {
    fn new_inner(scope: ClientScope, config: BinanceExecClientConfig, has_gate: bool) -> (client:
        Self)
        ensures
            client@ == ClientView::initial(scope, config, has_gate),
            client@.wf(),
    {
        let health = PrivateStreamHealthHandle::new(scope.client_id.clone());
        BinanceSpotExecutionClient {
            scope,
            config,
            has_gate,
            started: false,
            connected: false,
            instruments_initialized: false,
            state: WsDispatchState::new(),
            seen: FifoCache::new(),
            currencies: CurrencyRegistry::new(),
            health,
        }
    }

    /// A client without a write gate: every order write that needs a permit is refused.
    pub fn new(scope: ClientScope, config: BinanceExecClientConfig) -> (client: Self)
        ensures
            client@ == ClientView::initial(scope, config, false),
            client@.wf(),
    {
        BinanceSpotExecutionClient::new_inner(scope, config, false)
    }

    /// A production client with the required final execution-write gate.
    pub fn new_with_write_gate(scope: ClientScope, config: BinanceExecClientConfig) -> (client: Self)
        ensures
            client@ == ClientView::initial(scope, config, true),
            client@.wf(),
    {
        BinanceSpotExecutionClient::new_inner(scope, config, true)
    }

    /// Makes a currency known, so that commissions in it get its precision.
    pub fn register_currency(&mut self, code: &str, precision: u8)
        ensures
            final(self)@ == (ClientView {
                currencies: old(self)@.currencies.insert(code@, precision),
                ..old(self)@
            }),
            final(self)@ == old(self)@.with_currency(code@, precision),
            final(self)@.wf(),
    {
        proof {
            use_type_invariant(&self.seen);
            use_type_invariant(&self.health);
        }
        self.currencies.register(code, precision);
    }

    /// Who the client is.
    pub fn scope(&self) -> (scope: &ClientScope)
        ensures
            *scope == self@.scope,
    {
        &self.scope
    }

    /// How the client is configured.
    pub fn config(&self) -> (config: BinanceExecClientConfig)
        ensures
            config == self@.config,
    {
        self.config
    }

    /// Whether a write gate was injected.
    pub fn has_write_gate(&self) -> (r: bool)
        ensures
            r == self@.has_gate,
    {
        self.has_gate
    }

    /// Orders and requests under way.
    pub fn dispatch_state(&mut self) -> (state: &mut WsDispatchState)
        ensures
            state@ == old(self)@.state,
            final(self)@ == (ClientView { state: final(state)@, ..old(self)@ }),
    {
        &mut self.state
    }

    /// What is known of the orders and requests under way.
    pub fn orders(&self) -> (state: &WsDispatchState)
        ensures
            state@ == self@.state,
    {
        &self.state
    }

    /// Whether the client is connected.
    pub fn is_connected(&self) -> (r: bool)
        ensures
            r == self@.connected,
    {
        self.connected
    }

    /// A copy of the health of the private stream.
    pub fn private_stream_health(&self) -> (health: PrivateStreamHealth)
        ensures
            health@ == self@.health,
    {
        self.health.snapshot()
    }

    /// Promotes the private stream of `generation` to ready once its orders are reconciled, and
    /// says whether it did.
    pub fn mark_private_stream_reconciled(&mut self, generation: u64, ts_now: UnixNanos) -> (promoted:
        bool)
        ensures
            promoted == old(self)@.health.promotable(generation),
            final(self)@ == (ClientView {
                health: old(self)@.health.promoted(generation, ts_now),
                ..old(self)@
            }),
            final(self)@ == old(self)@.reconciled(generation, ts_now),
            final(self)@.wf(),
    {
        proof {
            use_type_invariant(&self.seen);
            use_type_invariant(&self.health);
        }
        self.health.ready(generation, ts_now)
    }

    /// Starts the client, and says whether it had not started before.
    pub fn start(&mut self) -> (first: bool)
        ensures
            first == !old(self)@.started,
            final(self)@ == (ClientView { started: true, ..old(self)@ }),
            final(self)@ == old(self)@.running(),
    {
        let first = !self.started;
        self.started = true;
        first
    }

    /// Stops the client, and says whether there is anything to abort.
    pub fn stop(&mut self) -> (abort: bool)
        ensures
            abort == old(self)@.started,
            final(self)@ == if old(self)@.started {
                ClientView { started: false, connected: false, ..old(self)@ }
            } else {
                old(self)@
            },
            final(self)@ == old(self)@.stopped(),
    {
        if !self.started {
            return false;
        }
        self.started = false;
        self.connected = false;
        true
    }

    /// Records that the connection was taken down.
    pub fn disconnected(&mut self)
        ensures
            final(self)@ == (ClientView {
                connected: false,
                health: old(self)@.health.ended(
                    old(self)@.health.generation,
                    PrivateStreamState::Stale,
                    "Spot execution client disconnected"@,
                ),
                ..old(self)@
            }),
            final(self)@ == old(self)@.taken_down(),
            final(self)@.wf(),
    {
        proof {
            use_type_invariant(&self.seen);
            use_type_invariant(&self.health);
        }
        let generation: u64 = self.health.current_generation();
        self.health.stale(generation, "Spot execution client disconnected");
        self.connected = false;
    }

    /// Whether the trading client is up: it is used, its socket is active and its messages are
    /// dispatched.
    pub fn ws_trading_active(&self, socket_active: bool, dispatch_running: bool) -> (r: bool)
        ensures
            r == (self@.config.use_ws_trading && socket_active && dispatch_running),
    {
        self.config.use_ws_trading && socket_active && dispatch_running
    }

    /// The signal with which a prepared write begins: it says whether there is a write gate to ask.
    pub fn begin_write(&self) -> (signal: WriteSignal)
        ensures
            signal == (WriteSignal::Begin { has_gate: self@.has_gate }),
            signal == self@.opening_signal(),
    {
        WriteSignal::Begin { has_gate: self.has_gate }
    }

    fn dispatch_context(&self) -> (context: DispatchContext)
        ensures
            context == self@.context(),
    {
        DispatchContext {
            trader_id: self.scope.trader_id.clone(),
            account_id: self.scope.account_id.clone(),
            treat_expired_as_canceled: self.config.treat_expired_as_canceled,
        }
    }

    /// What a report for reconciliation of the client is made with.
    pub fn report_terms(&self, resolved: &ResolvedReport, ts_init: UnixNanos) -> (terms: ReportTerms)
        ensures
            terms@ == resolved.terms(self@.context(), ts_init),
    {
        let context = self.dispatch_context();
        resolved.report_terms(&context, ts_init)
    }

    /// Handles a message of the private stream of `generation`.
    pub fn on_stream_message(
        &mut self,
        generation: u64,
        msg: &BinanceSpotWsTradingMessage,
        ts_heard: UnixNanos,
        ts_now: UnixNanos,
    ) -> (actions: Vec<DispatchAction>)
        requires
            msg matches BinanceSpotWsTradingMessage::ExecutionReport(resolved) ==> old(
                self,
            )@.state.order_identities.contains_key(resolved.client_order_id@)
                ==> resolved.report.time_in_range(),
        ensures
            final(self)@.wf(),
            ({
                let outcome = message_outcome(
                    *msg,
                    old(self)@.context(),
                    old(self)@.at_rest(),
                    ts_now,
                );
                &&& actions_view(actions@) == outcome.actions
                &&& final(self)@ == ClientView {
                    state: outcome.state,
                    seen: outcome.seen,
                    currencies: outcome.currencies,
                    health: old(self)@.heard(generation, *msg, ts_heard),
                    ..old(self)@
                }
            }),
            (final(self)@, actions_view(actions@)) == old(self)@.told(
                generation,
                *msg,
                ts_heard,
                ts_now,
            ),
    {
        proof {
            use_type_invariant(&self.seen);
            use_type_invariant(&self.health);
        }
        self.health.heartbeat(generation, ts_heard);
        if let BinanceSpotWsTradingMessage::Reconnected = msg {
            self.health.stale(
                generation,
                "Spot private WebSocket reconnected; reconciliation required",
            );
        }
        let context = self.dispatch_context();
        dispatch_ws_trading_message(
            msg,
            &context,
            &mut self.state,
            &mut self.seen,
            &mut self.currencies,
            ts_now,
        )
    }

    /// Handles the end of the private stream of `generation`.
    pub fn on_stream_end(&mut self, generation: u64)
        ensures
            final(self)@ == (ClientView {
                health: old(self)@.health.ended(
                    generation,
                    PrivateStreamState::Failed,
                    "Spot private dispatch loop ended"@,
                ),
                ..old(self)@
            }),
            final(self)@ == old(self)@.cut_off(generation),
            final(self)@.wf(),
    {
        proof {
            use_type_invariant(&self.seen);
            use_type_invariant(&self.health);
        }
        self.health.fail(generation, "Spot private dispatch loop ended");
    }

    /// Takes up a command to submit an order. `found` is the order that the command names, or what
    /// its lookup said. What goes out is a signed HTTP write that needs a permit, however the client
    /// is configured.
    pub fn submit_order(
        &mut self,
        cmd: &SubmitOrder,
        found: Result<&Order, String>,
        ts_init: UnixNanos,
    ) -> (r: Submission)
        ensures
            final(self)@ == (ClientView { state: final(self)@.state, ..old(self)@ }),
            submitted_as(
                r,
                final(self)@.state,
                old(self)@.state,
                old(self)@.scope,
                *cmd,
                found,
                ts_init,
            ),
    {
        submit_order(&self.scope, cmd, found, &mut self.state, ts_init)
    }

    /// Takes up a command to cancel an order. What goes out is a signed HTTP write that needs a
    /// permit, however the client is configured.
    pub fn cancel_order(&self, cmd: &CancelOrder) -> (r: Result<WriteTask, CommandRefusal>)
        ensures
            cmd.venue_order_id is Some ==> r == Err::<WriteTask, CommandRefusal>(
                CommandRefusal::CancelByVenueOrderId,
            ),
            cmd.venue_order_id is None ==> (r matches Ok(task) && cancel_write_is(
                task@,
                self@.scope,
                *cmd,
            )),
            cancel_prepared_as(r, self@.scope, *cmd),
    {
        cancel_order_internal(&self.scope, cmd)
    }

    /// Denies an order list.
    pub fn submit_order_list(&self) -> (r: Result<(), ExecutionWriteGateError>)
        ensures
            r matches Err(e) && e@ == GateErrorView::Unsupported(ExecutionWriteKind::SubmitList),
    {
        Err(ExecutionWriteGateError::Unsupported(ExecutionWriteKind::SubmitList))
    }

    /// Denies a modification.
    pub fn modify_order(&self) -> (r: Result<(), ExecutionWriteGateError>)
        ensures
            r matches Err(e) && e@ == GateErrorView::Unsupported(ExecutionWriteKind::Modify),
    {
        Err(ExecutionWriteGateError::Unsupported(ExecutionWriteKind::Modify))
    }

    /// Denies a batch of modifications.
    pub fn batch_modify_orders(&self) -> (r: Result<(), ExecutionWriteGateError>)
        ensures
            r matches Err(e) && e@ == GateErrorView::Unsupported(ExecutionWriteKind::BatchModify),
    {
        Err(ExecutionWriteGateError::Unsupported(ExecutionWriteKind::BatchModify))
    }

    /// Denies a cancel of all orders.
    pub fn cancel_all_orders(&self) -> (r: Result<(), ExecutionWriteGateError>)
        ensures
            r matches Err(e) && e@ == GateErrorView::Unsupported(ExecutionWriteKind::CancelAll),
    {
        Err(ExecutionWriteGateError::Unsupported(ExecutionWriteKind::CancelAll))
    }

    /// Denies a batch of cancels.
    pub fn batch_cancel_orders(&self) -> (r: Result<(), ExecutionWriteGateError>)
        ensures
            r matches Err(e) && e@ == GateErrorView::Unsupported(ExecutionWriteKind::BatchCancel),
    {
        Err(ExecutionWriteGateError::Unsupported(ExecutionWriteKind::BatchCancel))
    }

    /// The reports of the account's positions: a Spot account holds none.
    pub fn generate_position_status_reports<P>(&self) -> (reports: Vec<P>)
        ensures
            reports@ == Seq::<P>::empty(),
    {
        Vec::new()
    }
}

/// A disconnected client has no stream that may be promoted, and no earlier stream either.
pub proof fn law_disconnected_stream_is_not_promoted(
    health: StreamHealthView,
    detail: Seq<char>,
    generation: u64,
)
    requires
        generation <= health.generation,
    ensures
        !health.ended(health.generation, PrivateStreamState::Stale, detail).promotable(generation),
{
}

/// A stream that reconnected on its own is no longer ready and cannot be promoted: only a new
/// generation can.
pub proof fn law_silent_reconnection_needs_a_new_generation(
    client: ClientView,
    generation: u64,
    ts_heard: UnixNanos,
)
    requires
        client.health.generation == generation,
    ensures
        ({
            let health = client.heard(
                generation,
                BinanceSpotWsTradingMessage::Reconnected,
                ts_heard,
            );
            &&& health.state == PrivateStreamState::Stale
            &&& !health.promotable(generation)
        }),
{
}

} // verus!

//! What holds of the client as a whole: how it connects, how its stream comes into service and
//! leaves it, and what it asks the venue.

use crate::binance_truth::{
    BinanceModeProof, BinanceTruthReport, ExactOrderQueryResult, OrderStatusReport,
    PrivateStreamHealth, PrivateStreamState, StreamHealthView,
};
use crate::client::{BinanceExecClientConfig, ClientView};
use crate::commands::ClientScope;
use crate::connect::{
    connect_step, generation_after, setup_failure, ConnectAction, ConnectActionView, ConnectPhase,
    ConnectPhaseView, ConnectSignal, ConnectView, SetupResponse,
};
use crate::dispatch::{message_outcome, BinanceSpotWsTradingMessage};
use crate::dispatch_state::{DispatchView, TradeKey};
use crate::enums::OrderStatus;
use crate::identifiers::{AccountId, ClientOrderId, InstrumentId, UnixNanos};
use crate::orders::{CancelOrderView, NewOrderView};
use crate::private_stream::StreamEvent;
use crate::queries::{
    exact_order_of, lookback_start, mass_status_is, open_orders_of, presented, presented_answer,
    presented_report, queried_fills, queried_mass, queried_order, queried_orders, queried_status,
    ExecutionMassStatus, GenerateFillReports, GenerateOrderStatusReport, GenerateOrderStatusReports,
    QueryOrder,
};
use crate::reports::{DispatchContext, Outcome};
use crate::request_fields::{cancel_order_fields, new_order_fields, present};
use crate::truth::{
    truth_step, TruthAction, TruthActionView, TruthErrorView, TruthPhaseView, TruthReportError,
    TruthSignal, TruthView,
};
use crate::write_task::WriteSignal;
use vstd::prelude::*;

verus! {

/// A client that has not started knows nothing and is not connected, and its stream is not up.
pub proof fn law_new_client_knows_nothing(
    scope: ClientScope,
    config: BinanceExecClientConfig,
    has_gate: bool,
)
    ensures
        ({
            let client = ClientView::initial(scope, config, has_gate);
            &&& client.scope == scope
            &&& client.config == config
            &&& client.has_gate == has_gate
            &&& !client.started
            &&& !client.connected
            &&& !client.instruments_initialized
            &&& client.state.order_identities.dom() == Set::<Seq<char>>::empty()
            &&& client.state.pending_requests.dom() == Set::<Seq<char>>::empty()
            &&& client.state.accepted == Set::<Seq<char>>::empty()
            &&& client.state.filled == Set::<Seq<char>>::empty()
            &&& client.seen == Seq::<TradeKey>::empty()
            &&& client.currencies.dom() == Set::<Seq<char>>::empty()
            &&& client.health.client_id == scope.client_id.0@
            &&& client.health.state == PrivateStreamState::Stale
            &&& client.health.generation == 0
            &&& !client.health.authenticated
            &&& !client.health.subscribed
            &&& client.health.last_heartbeat is None
            &&& client.health.detail == Some("not connected"@)
        }),
{
}

/// The events of a client are told for its trader and account, and an expired order as it is
/// configured; and what it remembers is its own.
pub proof fn law_client_speaks_for_itself(client: ClientView)
    ensures
        client.context().trader_id == client.scope.trader_id,
        client.context().account_id == client.scope.account_id,
        client.context().treat_expired_as_canceled == client.config.treat_expired_as_canceled,
        client.at_rest().state == client.state,
        client.at_rest().seen == client.seen,
        client.at_rest().currencies == client.currencies,
        client.at_rest().actions.len() == 0,
{
}

/// What a report makes of the health of a stream. One about another generation than the current
/// one changes nothing; of the current one each changes what it names and nothing else; and only a
/// generation that is reconciling, authenticated and subscribed is promoted.
pub proof fn law_stream_reports(h: StreamHealthView, event: StreamEvent)
    ensures
        h.after(event).client_id == h.client_id,
        match event {
            StreamEvent::Reconnect => {
                let after = h.after(event);
                &&& h.generation < u64::MAX ==> after.generation == h.generation + 1
                &&& h.generation == u64::MAX ==> after.generation == u64::MAX
                &&& after.state == PrivateStreamState::Reconciling
                &&& !after.authenticated
                &&& !after.subscribed
                &&& after.last_heartbeat is None
                &&& after.detail == Some("private stream generation changed"@)
            },
            StreamEvent::Authenticated(generation) => h.after(event) == if generation
                == h.generation {
                StreamHealthView { authenticated: true, ..h }
            } else {
                h
            },
            StreamEvent::Subscribed(generation) => h.after(event) == if generation == h.generation {
                StreamHealthView { subscribed: true, ..h }
            } else {
                h
            },
            StreamEvent::Promote(generation, now) => {
                let due = generation == h.generation && h.state == PrivateStreamState::Reconciling
                    && h.authenticated && h.subscribed;
                &&& h.promotable(generation) <==> due
                &&& h.after(event) == if due {
                    StreamHealthView {
                        state: PrivateStreamState::Ready,
                        last_heartbeat: Some(now),
                        detail: None,
                        ..h
                    }
                } else {
                    h
                }
            },
            StreamEvent::Heartbeat(generation, now) => h.after(event) == if generation
                == h.generation {
                StreamHealthView { last_heartbeat: Some(now), ..h }
            } else {
                h
            },
            StreamEvent::GoneStale(generation, detail) => h.after(event) == if generation
                == h.generation {
                StreamHealthView { state: PrivateStreamState::Stale, detail: Some(detail), ..h }
            } else {
                h
            },
            StreamEvent::GoneDown(generation, detail) => h.after(event) == if generation
                == h.generation {
                StreamHealthView { state: PrivateStreamState::Failed, detail: Some(detail), ..h }
            } else {
                h
            },
        },
{
}

/// The reports that the stream is told of are those spoken of.
pub proof fn law_stream_reports_are_told(
    h: StreamHealthView,
    generation: u64,
    now: UnixNanos,
    detail: Seq<char>,
)
    ensures
        h.reconnecting() == h.after(StreamEvent::Reconnect),
        h.with_authenticated(generation) == h.after(StreamEvent::Authenticated(generation)),
        h.with_subscribed(generation) == h.after(StreamEvent::Subscribed(generation)),
        h.promoted(generation, now) == h.after(StreamEvent::Promote(generation, now)),
        h.with_heartbeat(generation, now) == h.after(StreamEvent::Heartbeat(generation, now)),
        h.ended(generation, PrivateStreamState::Stale, detail) == h.after(
            StreamEvent::GoneStale(generation, detail),
        ),
        h.ended(generation, PrivateStreamState::Failed, detail) == h.after(
            StreamEvent::GoneDown(generation, detail),
        ),
{
}

/// A message of the current generation is a sign of life, and one that the stream reconnected on
/// its own leaves it stale. A message of another generation changes nothing.
pub proof fn law_messages_are_signs_of_life(
    client: ClientView,
    generation: u64,
    message: BinanceSpotWsTradingMessage,
    ts_heard: UnixNanos,
)
    ensures
        ({
            let after = client.heard(generation, message, ts_heard);
            &&& generation != client.health.generation ==> after == client.health
            &&& generation == client.health.generation ==> {
                &&& after.last_heartbeat == Some(ts_heard)
                &&& after.client_id == client.health.client_id
                &&& after.generation == generation
                &&& after.authenticated == client.health.authenticated
                &&& after.subscribed == client.health.subscribed
                &&& message is Reconnected ==> after.state == PrivateStreamState::Stale
                    && after.detail == Some(
                    "Spot private WebSocket reconnected; reconciliation required"@,
                )
                &&& !(message is Reconnected) ==> after.state == client.health.state
                    && after.detail == client.health.detail
            }
        }),
{
}

/// A message changes what the client remembers as the message calls for, and the health of its
/// stream as a sign of life does; it is dispatched in the name of the client, at the time given.
/// Everything else of the client stays.
pub proof fn law_messages_are_dispatched_for_the_client(
    client: ClientView,
    generation: u64,
    message: BinanceSpotWsTradingMessage,
    ts_heard: UnixNanos,
    ts_now: UnixNanos,
)
    ensures
        ({
            let (after, actions) = client.told(generation, message, ts_heard, ts_now);
            let outcome = message_outcome(
                message,
                DispatchContext {
                    trader_id: client.scope.trader_id,
                    account_id: client.scope.account_id,
                    treat_expired_as_canceled: client.config.treat_expired_as_canceled,
                },
                Outcome {
                    state: client.state,
                    seen: client.seen,
                    currencies: client.currencies,
                    actions: Seq::empty(),
                },
                ts_now,
            );
            &&& actions == outcome.actions
            &&& after.state == outcome.state
            &&& after.seen == outcome.seen
            &&& after.currencies == outcome.currencies
            &&& after.health == client.heard(generation, message, ts_heard)
            &&& after.scope == client.scope
            &&& after.config == client.config
            &&& after.has_gate == client.has_gate
            &&& after.started == client.started
            &&& after.connected == client.connected
            &&& after.instruments_initialized == client.instruments_initialized
        }),
{
}

/// A write of a client begins with a write gate exactly if the client has one. A currency that is
/// made known has the digits given, and no other currency changes. Starting a client changes
/// nothing but that it has started.
pub proof fn law_client_enters_service(
    client: ClientView,
    code: Seq<char>,
    precision: u8,
    other: Seq<char>,
)
    ensures
        client.opening_signal() matches WriteSignal::Begin { has_gate } && has_gate
            == client.has_gate,
        client.running() == (ClientView { started: true, ..client }),
        ({
            let after = client.with_currency(code, precision);
            &&& after == (ClientView { currencies: after.currencies, ..client })
            &&& after.currencies.contains_key(code)
            &&& after.currencies[code] == precision
            &&& other != code ==> {
                &&& after.currencies.contains_key(other) == client.currencies.contains_key(other)
                &&& client.currencies.contains_key(other) ==> after.currencies[other]
                    == client.currencies[other]
            }
        }),
{
}

/// What ends the service of a client: the end of its stream fails the stream, taking the connection
/// down leaves it stale and the client disconnected, and stopping a client that has started leaves
/// it disconnected. Nothing else of it changes.
pub proof fn law_client_leaves_service(client: ClientView, generation: u64)
    ensures
        client.cut_off(generation) == (ClientView {
            health: client.health.after(
                StreamEvent::GoneDown(generation, "Spot private dispatch loop ended"@),
            ),
            ..client
        }),
        client.taken_down() == (ClientView {
            connected: false,
            health: client.health.after(
                StreamEvent::GoneStale(
                    client.health.generation,
                    "Spot execution client disconnected"@,
                ),
            ),
            ..client
        }),
        client.started ==> client.stopped() == (ClientView {
            started: false,
            connected: false,
            ..client
        }),
        !client.started ==> client.stopped() == client,
{
}

/// Reconciling the orders of a stream promotes it where it may be, and changes nothing else.
pub proof fn law_reconciled_stream_is_promoted(
    client: ClientView,
    generation: u64,
    ts_now: UnixNanos,
)
    ensures
        client.reconciled(generation, ts_now) == (ClientView {
            health: client.health.after(StreamEvent::Promote(generation, ts_now)),
            ..client
        }),
{
}

/// The generation of a connection is the one that the client's stream gets when it begins, and
/// stays that.
pub proof fn law_connection_keeps_its_generation(
    connect: ConnectView,
    client: ClientView,
    signal: ConnectSignal,
)
    ensures
        connect.phase is Start && signal is Begin && !client.connected ==> {
            &&& generation_after(connect, client, signal) == connect_step(
                connect,
                client,
                signal,
            ).1.health.generation
            &&& client.health.generation < u64::MAX ==> generation_after(connect, client, signal)
                == client.health.generation + 1
        },
        !(connect.phase is Start && signal is Begin && !client.connected) ==> generation_after(
            connect,
            client,
            signal,
        ) == connect.generation,
{
}

/// The health that is handed out is the one spoken of.
pub proof fn law_health_is_kept(health: PrivateStreamHealth)
    ensures
        health@.client_id == health.client_id.0@,
        health@.state == health.state,
        health@.generation == health.generation,
        health@.authenticated == health.authenticated,
        health@.subscribed == health.subscribed,
        health@.last_heartbeat == health.last_heartbeat,
        health.detail is None <==> health@.detail is None,
        health.detail matches Some(text) ==> health@.detail == Some(text@),
{
}

/// A wait for a step of the set-up fails unless the step was taken, and says why.
pub proof fn law_setup_waits(response: SetupResponse, timeout_message: Seq<char>)
    ensures
        setup_failure(response, timeout_message) is None <==> response is Success,
        response matches SetupResponse::Error(text) ==> setup_failure(response, timeout_message)
            == Some(text@),
        response is ChannelClosed ==> setup_failure(response, timeout_message) == Some(
            "WS setup error channel closed"@,
        ),
        response is TimedOut ==> setup_failure(response, timeout_message) == Some(timeout_message),
{
}

/// How a connection begins: a connected client is left alone; one that requires the private
/// WebSocket without using it fails with its new generation; and any other asks for its
/// instruments, or for its account if it has them.
pub proof fn law_connection_begins(connect: ConnectView, client: ClientView)
    requires
        connect.phase is Start,
    ensures
        ({
            let (phase, after, action) = connect_step(connect, client, ConnectSignal::Begin);
            let contradictory = client.config.require_ws_trading && !client.config.use_ws_trading;
            let begun = client.health.after(StreamEvent::Reconnect);
            &&& client.connected ==> phase is Over && after == client && action
                == ConnectActionView::Finish(Ok(()))
            &&& !client.connected ==> {
                &&& after.scope == client.scope
                &&& after.config == client.config
                &&& after.has_gate == client.has_gate
                &&& after.started == client.started
                &&& !after.connected
                &&& after.instruments_initialized == client.instruments_initialized
                &&& after.state == client.state
                &&& after.seen == client.seen
                &&& after.currencies == client.currencies
            }
            &&& !client.connected && contradictory ==> {
                &&& phase is Over
                &&& after.health == begun.after(
                    StreamEvent::GoneDown(
                        begun.generation,
                        "require_ws_trading=true but use_ws_trading=false"@,
                    ),
                )
                &&& action == ConnectActionView::Finish(
                    Err("require_ws_trading=true requires use_ws_trading=true"@),
                )
            }
            &&& !client.connected && !contradictory ==> {
                &&& after.health == begun
                &&& client.instruments_initialized ==> phase is Account && action
                    == (ConnectActionView::RequestAccount { keep_instruments: false })
                &&& !client.instruments_initialized ==> phase is Instruments && action
                    is RequestInstruments
            }
        }),
{
}

/// How a connection goes on until the account is registered: each failure gives it up, saying what
/// failed, and each success leads to the next request. A client that uses no WebSocket is then
/// connected, unless it requires one that is not up.
pub proof fn law_connection_registers_the_account(
    connect: ConnectView,
    client: ClientView,
    signal: ConnectSignal,
)
    ensures
        ({
            let (phase, after, action) = connect_step(connect, client, signal);
            &&& connect.phase is Instruments ==> match signal {
                ConnectSignal::Instruments { received, any } => if received {
                    &&& phase is Account
                    &&& after == (ClientView { instruments_initialized: true, ..client })
                    &&& action == (ConnectActionView::RequestAccount { keep_instruments: any })
                } else {
                    &&& phase is Over
                    &&& after == client
                    &&& action == ConnectActionView::Finish(
                        Err("failed to request Binance Spot instruments"@),
                    )
                },
                _ => phase == connect.phase && after == client && action is Ignore,
            }
            &&& connect.phase is Account ==> match signal {
                ConnectSignal::Account { received } => if received {
                    phase is Registration && after == client && action is AwaitRegistration
                } else {
                    &&& phase is Over
                    &&& after == client
                    &&& action == ConnectActionView::Finish(
                        Err("failed to request Binance account state"@),
                    )
                },
                _ => phase == connect.phase && after == client && action is Ignore,
            }
            &&& connect.phase is Registration ==> match signal {
                ConnectSignal::Registered(Err(text)) => {
                    &&& phase is Over
                    &&& after == client
                    &&& action == ConnectActionView::Finish(Err(text@))
                },
                ConnectSignal::Registered(Ok(_)) => {
                    let ready = !client.config.require_ws_trading || (client.health.authenticated
                        && client.health.subscribed);
                    &&& client.config.use_ws_trading ==> phase is Opening && after == client
                        && action is Open
                    &&& !client.config.use_ws_trading && ready ==> phase is Over && after == (
                    ClientView { connected: true, ..client }) && action
                        == ConnectActionView::Finish(Ok(()))
                    &&& !client.config.use_ws_trading && !ready ==> phase is Over && after == client
                        && action == ConnectActionView::Finish(
                        Err("required Spot private WebSocket is not ready"@),
                    )
                },
                _ => phase == connect.phase && after == client && action is Ignore,
            }
            &&& connect.phase is Start && !(signal is Begin) ==> phase == connect.phase && after
                == client && action is Ignore
            &&& connect.phase is Over ==> phase == connect.phase && after == client && action
                is Ignore
        }),
{
}

/// How the WebSocket is set up: it is opened, logged on, authenticated and subscribed in that
/// order. Trades seen on an earlier one are forgotten once it is open. What fails on the way is
/// said as the health of its generation, and the WebSocket is closed.
pub proof fn law_connection_sets_up_the_socket(
    connect: ConnectView,
    client: ClientView,
    signal: ConnectSignal,
)
    ensures
        ({
            let (phase, after, action) = connect_step(connect, client, signal);
            let g = connect.generation;
            let authenticated = client.health.after(StreamEvent::Authenticated(g));
            &&& connect.phase is Opening ==> match signal {
                ConnectSignal::Opened(Ok(_)) => {
                    &&& phase is Logon
                    &&& after == (ClientView { seen: Seq::empty(), ..client })
                    &&& action is LogOn
                },
                ConnectSignal::Opened(Err(text)) => {
                    let reason = "Failed to connect WS trading API: "@ + text@;
                    &&& phase == (ConnectPhaseView::Closing { reason })
                    &&& after == (ClientView {
                        health: client.health.after(StreamEvent::GoneDown(g, reason)),
                        ..client
                    })
                    &&& action is Close
                },
                _ => phase == connect.phase && after == client && action is Ignore,
            }
            &&& connect.phase is Logon ==> match signal {
                ConnectSignal::LoggedOn(Ok(_)) => phase is Authentication && after == client
                    && action is AwaitAuthentication,
                ConnectSignal::LoggedOn(Err(text)) => {
                    let reason = "WS session logon failed: "@ + text@;
                    &&& phase == (ConnectPhaseView::Closing { reason })
                    &&& after == (ClientView {
                        health: client.health.after(StreamEvent::GoneDown(g, reason)),
                        ..client
                    })
                    &&& action is Close
                },
                _ => phase == connect.phase && after == client && action is Ignore,
            }
            &&& connect.phase is Authentication ==> match signal {
                ConnectSignal::Setup(response) => match setup_failure(
                    response,
                    "WS session authentication timed out"@,
                ) {
                    None => phase is Subscribing && after == client && action is Subscribe,
                    Some(reason) => {
                        &&& phase == (ConnectPhaseView::Closing { reason })
                        &&& after == (ClientView {
                            health: client.health.after(StreamEvent::GoneDown(g, reason)),
                            ..client
                        })
                        &&& action is Close
                    },
                },
                _ => phase == connect.phase && after == client && action is Ignore,
            }
            &&& connect.phase is Subscribing ==> match signal {
                ConnectSignal::Subscribed(Ok(_)) => {
                    &&& phase is Subscription
                    &&& after == (ClientView { health: authenticated, ..client })
                    &&& action is AwaitSubscription
                },
                ConnectSignal::Subscribed(Err(text)) => {
                    let reason = "WS user data subscribe failed: "@ + text@;
                    &&& phase == (ConnectPhaseView::Closing { reason })
                    &&& after == (ClientView {
                        health: authenticated.after(StreamEvent::GoneDown(g, reason)),
                        ..client
                    })
                    &&& action is Close
                },
                _ => phase == connect.phase && after == client && action is Ignore,
            }
        }),
{
}

/// How a connection ends: with the user data subscribed the client is connected; with the WebSocket
/// closed after a failure it is connected too, over HTTP alone, unless it requires the WebSocket.
pub proof fn law_connection_ends(
    connect: ConnectView,
    client: ClientView,
    signal: ConnectSignal,
)
    ensures
        ({
            let (phase, after, action) = connect_step(connect, client, signal);
            let g = connect.generation;
            &&& connect.phase is Subscription ==> match signal {
                ConnectSignal::Setup(response) => match setup_failure(
                    response,
                    "WS user data subscription timed out"@,
                ) {
                    None => {
                        let health = client.health.after(StreamEvent::Subscribed(g));
                        let ready = !client.config.require_ws_trading || (health.authenticated
                            && health.subscribed);
                        &&& phase is Over
                        &&& after == (ClientView {
                            health,
                            connected: client.connected || ready,
                            ..client
                        })
                        &&& action == if ready {
                            ConnectActionView::Finish(Ok(()))
                        } else {
                            ConnectActionView::Finish(
                                Err("required Spot private WebSocket is not ready"@),
                            )
                        }
                    },
                    Some(reason) => {
                        &&& phase == (ConnectPhaseView::Closing { reason })
                        &&& after == (ClientView {
                            health: client.health.after(StreamEvent::GoneDown(g, reason)),
                            ..client
                        })
                        &&& action is Close
                    },
                },
                _ => phase == connect.phase && after == client && action is Ignore,
            }
            &&& connect.phase matches ConnectPhaseView::Closing { reason } ==> if signal is Closed {
                &&& phase is Over
                &&& client.config.require_ws_trading ==> after == client && action
                    == ConnectActionView::Finish(
                    Err("required Spot private WebSocket failed: "@ + reason),
                )
                &&& !client.config.require_ws_trading ==> after == (ClientView {
                    connected: true,
                    ..client
                }) && action == ConnectActionView::Finish(Ok(()))
            } else {
                phase == connect.phase && after == client && action is Ignore
            }
        }),
{
}

/// Phases and actions of a connection are those that are spoken of.
pub proof fn law_connection_is_kept(phase: ConnectPhase, action: ConnectAction)
    ensures
        phase@ == match phase {
            ConnectPhase::Start => ConnectPhaseView::Start,
            ConnectPhase::Instruments => ConnectPhaseView::Instruments,
            ConnectPhase::Account => ConnectPhaseView::Account,
            ConnectPhase::Registration => ConnectPhaseView::Registration,
            ConnectPhase::Opening => ConnectPhaseView::Opening,
            ConnectPhase::Logon => ConnectPhaseView::Logon,
            ConnectPhase::Authentication => ConnectPhaseView::Authentication,
            ConnectPhase::Subscribing => ConnectPhaseView::Subscribing,
            ConnectPhase::Subscription => ConnectPhaseView::Subscription,
            ConnectPhase::Closing { reason } => ConnectPhaseView::Closing { reason: reason@ },
            ConnectPhase::Over => ConnectPhaseView::Over,
        },
        action@ == match action {
            ConnectAction::RequestInstruments => ConnectActionView::RequestInstruments,
            ConnectAction::RequestAccount { keep_instruments } =>
                ConnectActionView::RequestAccount { keep_instruments },
            ConnectAction::AwaitRegistration => ConnectActionView::AwaitRegistration,
            ConnectAction::Open => ConnectActionView::Open,
            ConnectAction::LogOn => ConnectActionView::LogOn,
            ConnectAction::AwaitAuthentication => ConnectActionView::AwaitAuthentication,
            ConnectAction::Subscribe => ConnectActionView::Subscribe,
            ConnectAction::AwaitSubscription => ConnectActionView::AwaitSubscription,
            ConnectAction::Close => ConnectActionView::Close,
            ConnectAction::Finish(Ok(_)) => ConnectActionView::Finish(Ok(())),
            ConnectAction::Finish(Err(text)) => ConnectActionView::Finish(Err(text@)),
            ConnectAction::Ignore => ConnectActionView::Ignore,
        },
{
}

/// How a truth report begins: a request to another client, or about another account, is refused
/// with both names, and otherwise the account is asked for, and then every open order of it.
pub proof fn law_truth_begins<R, P>(
    truth: TruthView<R>,
    state: DispatchView,
    signal: TruthSignal<R>,
    ts_now: UnixNanos,
)
    ensures
        ({
            let (phase, action) = truth_step::<R, P>(truth, state, signal, ts_now);
            let same_client = truth.request.client_id.0@ == truth.client_id.0@;
            let same_account = truth.request.account_id.0@ == truth.account_id.0@;
            &&& truth.phase is Start && signal is Begin ==> {
                &&& !same_client ==> phase is Over && action == TruthActionView::<R, P>::Fail(
                    TruthErrorView::ClientIdMismatch {
                        expected: truth.client_id,
                        actual: truth.request.client_id,
                    },
                )
                &&& same_client && !same_account ==> phase is Over && action == TruthActionView::<
                    R,
                    P,
                >::Fail(
                    TruthErrorView::AccountIdMismatch {
                        expected: truth.account_id,
                        actual: truth.request.account_id,
                    },
                )
                &&& same_client && same_account ==> phase is Account && action is RequestAccount
            }
            &&& truth.phase is Start && !(signal is Begin) ==> phase == truth.phase && action
                is Ignore
            &&& truth.phase is Account ==> match signal {
                TruthSignal::Account(Ok(facts)) => phase == TruthPhaseView::<R>::OpenOrders(facts)
                    && (action matches TruthActionView::RequestOpenOrders(query) && {
                    &&& query.account_id == truth.account_id
                    &&& query.instrument_id is None
                    &&& query.start is None
                    &&& query.end is None
                    &&& query.open_only
                }),
                TruthSignal::Account(Err(text)) => phase is Over && action == TruthActionView::<
                    R,
                    P,
                >::Fail(TruthErrorView::Account(text@)),
                _ => phase == truth.phase && action is Ignore,
            }
            &&& truth.phase is Over ==> phase == truth.phase && action is Ignore
        }),
{
}

/// How a truth report goes on: the named orders are asked for one by one, each only if the client
/// submitted it, on the instrument that it was submitted for. Each answer is kept for its order. A
/// failed query gives the report up. Once all are answered the report is made, of the account, the
/// open orders and the answers of the venue, and without positions.
pub proof fn law_truth_queries_each_order<R, P>(
    truth: TruthView<R>,
    state: DispatchView,
    signal: TruthSignal<R>,
    ts_now: UnixNanos,
)
    requires
        truth.phase is OpenOrders || truth.phase is Exact,
        truth.phase is Exact ==> truth.phase->answered < truth.request.exact_order_ids@.len(),
    ensures
        ({
            let (phase, action) = truth_step::<R, P>(truth, state, signal, ts_now);
            let ids = truth.request.exact_order_ids@;
            let waiting = truth.phase is Exact;
            let facts = match truth.phase {
                TruthPhaseView::OpenOrders(facts) => facts,
                TruthPhaseView::Exact { facts, .. } => facts,
                _ => truth.phase->OpenOrders_0,
            };
            let answer = if waiting {
                signal is Exact && signal->Exact_0 is Ok
            } else {
                signal is OpenOrders && signal->OpenOrders_0 is Ok
            };
            let open_orders = if waiting {
                truth.phase->open_orders
            } else {
                signal->OpenOrders_0->Ok_0
            };
            let n: int = if waiting {
                truth.phase->answered + 1
            } else {
                0
            };
            let found = signal->Exact_0->Ok_0;
            let results = if waiting {
                truth.phase->exact_orders.insert(
                    ids[n - 1].0@,
                    if found is Some {
                        ExactOrderQueryResult::Found(Box::new(found->0))
                    } else {
                        ExactOrderQueryResult::NotFound
                    },
                )
            } else {
                Map::empty()
            };
            &&& answer && n < ids.len() && state.order_identities.contains_key(ids[n].0@) ==> {
                &&& phase matches TruthPhaseView::Exact {
                    facts: f,
                    open_orders: o,
                    exact_orders,
                    answered,
                } && f == facts && o == open_orders && exact_orders == results && answered == n
                &&& action matches TruthActionView::RequestExact(query) && {
                    &&& query.account_id == truth.account_id
                    &&& query.instrument_id == state.order_identities[ids[n].0@].instrument_id
                    &&& query.venue_order_id is None
                    &&& query.client_order_id == Some(ids[n])
                }
            }
            &&& answer && n < ids.len() && !state.order_identities.contains_key(ids[n].0@)
                ==> phase is Over && action == TruthActionView::<R, P>::Fail(
                TruthErrorView::MissingOrderOrigin(ids[n]),
            )
            &&& answer && n >= ids.len() ==> phase is Over && (
            action matches TruthActionView::Report(report) && {
                &&& report.request_id == truth.request.request_id
                &&& report.client_id == truth.client_id
                &&& report.account_id == truth.account_id
                &&& report.mode == (BinanceModeProof::Spot {
                    can_trade: facts.can_trade,
                    account_type: facts.account_type,
                })
                &&& report.balances == facts.balances@
                &&& report.positions.len() == 0
                &&& report.open_orders == open_orders@
                &&& report.exact_orders == results
                &&& report.ts_received == ts_now
            })
            &&& !waiting ==> (signal matches TruthSignal::OpenOrders(Err(text)) ==> phase is Over
                && action == TruthActionView::<R, P>::Fail(TruthErrorView::OpenOrders(text@)))
            &&& waiting ==> (signal matches TruthSignal::Exact(Err(text)) ==> phase is Over
                && action == TruthActionView::<R, P>::Fail(
                TruthErrorView::ExactOrder { client_order_id: ids[n - 1], detail: text@ },
            ))
            &&& (waiting && !(signal is Exact)) || (!waiting && !(signal is OpenOrders)) ==> phase
                == truth.phase && action is Ignore
        }),
{
    assert(truth.request.exact_order_ids.len() == truth.request.exact_order_ids@.len());
    if truth.phase is Exact {
        let m = truth.phase->answered + 1;
        assert(m as usize == m);
    }
}

/// Errors, actions and reports of the truth are those that are spoken of.
pub proof fn law_truth_is_kept<R, P>(
    report: BinanceTruthReport<R, P>,
    error: TruthReportError,
    action: TruthAction<R, P>,
)
    ensures
        report@.request_id == report.request_id,
        report@.client_id == report.client_id,
        report@.account_id == report.account_id,
        report@.mode == report.mode,
        report@.balances == report.balances@,
        report@.positions == report.positions@,
        report@.open_orders == report.open_orders@,
        report@.exact_orders == report.exact_orders@,
        report@.ts_received == report.ts_received,
        error@ == match error {
            TruthReportError::ClientIdMismatch { expected, actual } =>
                TruthErrorView::ClientIdMismatch { expected, actual },
            TruthReportError::AccountIdMismatch { expected, actual } =>
                TruthErrorView::AccountIdMismatch { expected, actual },
            TruthReportError::Account(text) => TruthErrorView::Account(text@),
            TruthReportError::OpenOrders(text) => TruthErrorView::OpenOrders(text@),
            TruthReportError::MissingOrderOrigin(id) => TruthErrorView::MissingOrderOrigin(id),
            TruthReportError::ExactOrder { client_order_id, detail } =>
                TruthErrorView::ExactOrder { client_order_id, detail: detail@ },
        },
        action@ == match action {
            TruthAction::RequestAccount => TruthActionView::RequestAccount,
            TruthAction::RequestOpenOrders(query) => TruthActionView::RequestOpenOrders(query),
            TruthAction::RequestExact(query) => TruthActionView::RequestExact(query),
            TruthAction::Finish(Ok(report)) => TruthActionView::Report(report@),
            TruthAction::Finish(Err(error)) => TruthActionView::Fail(error@),
            TruthAction::Ignore => TruthActionView::Ignore,
        },
{
}

/// An order is presented with the status that the venue reports, but an expired one as canceled
/// where the client is configured so; everything else of its report stays as it is.
pub proof fn law_only_expiry_is_presented_otherwise<D>(
    report: OrderStatusReport<D>,
    status: OrderStatus,
    treat_expired_as_canceled: bool,
)
    ensures
        status == OrderStatus::Expired && treat_expired_as_canceled ==> presented(
            status,
            treat_expired_as_canceled,
        ) == OrderStatus::Canceled,
        status != OrderStatus::Expired || !treat_expired_as_canceled ==> presented(
            status,
            treat_expired_as_canceled,
        ) == status,
        ({
            let shown = presented_report(report, treat_expired_as_canceled);
            &&& shown.order_status == presented(report.order_status, treat_expired_as_canceled)
            &&& shown.account_id == report.account_id
            &&& shown.instrument_id == report.instrument_id
            &&& shown.client_order_id == report.client_order_id
            &&& shown.venue_order_id == report.venue_order_id
            &&& shown.quantity == report.quantity
            &&& shown.filled_qty == report.filled_qty
            &&& shown.price == report.price
            &&& shown.ts_init == report.ts_init
            &&& shown.rest == report.rest
        }),
{
}

/// The answer to a query of one order is presented if there is one.
pub proof fn law_answers_are_presented<D>(
    found: Option<OrderStatusReport<D>>,
    treat_expired_as_canceled: bool,
)
    ensures
        found is None <==> presented_answer(found, treat_expired_as_canceled) is None,
        found matches Some(report) ==> {
            let shown = presented_answer(found, treat_expired_as_canceled)->0;
            &&& report.order_status == OrderStatus::Expired && treat_expired_as_canceled ==> shown
                == (OrderStatusReport { order_status: OrderStatus::Canceled, ..report })
            &&& report.order_status != OrderStatus::Expired || !treat_expired_as_canceled ==> shown
                == report
        },
{
}

/// What the venue is asked: every open order of an account, or one order by its client order ID.
pub proof fn law_queries_ask_for_their_orders(
    account_id: AccountId,
    instrument_id: InstrumentId,
    client_order_id: ClientOrderId,
)
    ensures
        ({
            let all = open_orders_of(account_id);
            let one = exact_order_of(account_id, instrument_id, client_order_id);
            &&& all.account_id == account_id
            &&& all.instrument_id is None
            &&& all.start is None
            &&& all.end is None
            &&& all.open_only
            &&& one.account_id == account_id
            &&& one.instrument_id == instrument_id
            &&& one.venue_order_id is None
            &&& one.client_order_id == Some(client_order_id)
        }),
{
}

/// What a command asks for is what the venue is asked, for the account of the client; without an
/// instrument it is not asked about one order or about fills.
pub proof fn law_commands_are_asked_as_they_are(
    account_id: AccountId,
    order: QueryOrder,
    orders: GenerateOrderStatusReports,
    status: GenerateOrderStatusReport,
    fills: GenerateFillReports,
)
    ensures
        ({
            let query = queried_order(account_id, order);
            &&& query.account_id == account_id
            &&& query.instrument_id == order.instrument_id
            &&& query.venue_order_id == order.venue_order_id
            &&& query.client_order_id == Some(order.client_order_id)
        }),
        ({
            let query = queried_orders(account_id, orders);
            &&& query.account_id == account_id
            &&& query.instrument_id == orders.instrument_id
            &&& query.start == orders.start
            &&& query.end == orders.end
            &&& query.open_only == orders.open_only
        }),
        queried_status(account_id, status) is Some <==> status.instrument_id is Some,
        queried_status(account_id, status) matches Some(query) ==> {
            &&& query.account_id == account_id
            &&& Some(query.instrument_id) == status.instrument_id
            &&& query.venue_order_id == status.venue_order_id
            &&& query.client_order_id == status.client_order_id
        },
        queried_fills(account_id, fills) is Some <==> fills.instrument_id is Some,
        queried_fills(account_id, fills) matches Some(query) ==> {
            &&& query.account_id == account_id
            &&& Some(query.instrument_id) == fills.instrument_id
            &&& query.venue_order_id == fills.venue_order_id
            &&& query.start == fills.start
            &&& query.end == fills.end
        },
{
}

/// A mass status asks for every open order of the account, from as far back as asked.
pub proof fn law_mass_status_asks_for_open_orders(
    account_id: AccountId,
    lookback_mins: Option<u64>,
    ts_now: UnixNanos,
)
    ensures
        ({
            let query = queried_mass(account_id, lookback_mins, ts_now);
            &&& query.account_id == account_id
            &&& query.instrument_id is None
            &&& query.end is None
            &&& query.open_only
            &&& query.start is Some <==> lookback_mins is Some
            &&& lookback_mins matches Some(minutes) ==> query.start == Some(
                lookback_start(ts_now, minutes),
            )
        }),
{
}

/// A mass status is told by the client for its account at the venue, with every report of the venue
/// in its place: an expired order as canceled where the client is configured so, and anything else
/// as it is.
pub proof fn law_mass_status_tells_every_report<D, P>(
    status: ExecutionMassStatus<OrderStatusReport<D>, P>,
    scope: ClientScope,
    found: Seq<OrderStatusReport<D>>,
    positions: Seq<P>,
    treat_expired_as_canceled: bool,
    ts_now: UnixNanos,
    i: int,
)
    requires
        mass_status_is(status, scope, found, positions, treat_expired_as_canceled, ts_now),
        0 <= i < found.len(),
    ensures
        status.client_id == scope.client_id,
        status.account_id == scope.account_id,
        status.venue@ == "BINANCE"@,
        status.ts_init == ts_now,
        status.position_reports@ == positions,
        status.order_reports@.len() == found.len(),
        found[i].order_status == OrderStatus::Expired && treat_expired_as_canceled
            ==> status.order_reports@[i] == (OrderStatusReport {
            order_status: OrderStatus::Canceled,
            ..found[i]
        }),
        found[i].order_status != OrderStatus::Expired || !treat_expired_as_canceled
            ==> status.order_reports@[i] == found[i],
{
}

/// A mass status looks back exactly as many minutes as asked, or to the epoch if that is nearer.
pub proof fn law_lookback_is_exact(now: UnixNanos, minutes: u64)
    ensures
        minutes * 60_000_000_000 <= now.0 ==> lookback_start(now, minutes).0 == now.0 - minutes
            * 60_000_000_000,
        minutes * 60_000_000_000 > now.0 ==> lookback_start(now, minutes).0 == 0,
{
}

/// The names of the fields that are there are those marked so, in their order: adding a field adds
/// its name last if it is there, and nothing otherwise.
pub proof fn law_present_fields(fields: Seq<(Seq<char>, bool)>, name: Seq<char>, there: bool)
    ensures
        present(Seq::empty()) == Seq::<Seq<char>>::empty(),
        there ==> present(fields.push((name, there))) == present(fields).push(name),
        !there ==> present(fields.push((name, there))) == present(fields),
{
    assert(fields.push((name, there)).drop_last() =~= fields);
}

/// A request carries its symbol, and of a placement the side and type; every other field exactly if
/// it holds something, each under its name.
pub proof fn law_requests_carry_what_they_hold(new: NewOrderView, cancel: CancelOrderView)
    ensures
        ({
            let fields = new_order_fields(new);
            &&& fields.len() == 15
            &&& fields[0] == ("symbol"@, true)
            &&& fields[1] == ("side"@, true)
            &&& fields[2] == ("type"@, true)
            &&& fields[3] == ("timeInForce"@, new.time_in_force is Some)
            &&& fields[4] == ("quantity"@, new.quantity is Some)
            &&& fields[5] == ("quoteOrderQty"@, new.quote_order_qty is Some)
            &&& fields[6] == ("price"@, new.price is Some)
            &&& fields[7] == ("newClientOrderId"@, new.new_client_order_id is Some)
            &&& fields[8] == ("stopPrice"@, new.stop_price is Some)
            &&& fields[9] == ("trailingDelta"@, new.trailing_delta is Some)
            &&& fields[10] == ("icebergQty"@, new.iceberg_qty is Some)
            &&& fields[11] == ("newOrderRespType"@, new.new_order_resp_type is Some)
            &&& fields[12] == ("selfTradePreventionMode"@, new.self_trade_prevention_mode is Some)
            &&& fields[13] == ("strategyId"@, new.strategy_id is Some)
            &&& fields[14] == ("strategyType"@, new.strategy_type is Some)
        }),
        ({
            let fields = cancel_order_fields(cancel);
            &&& fields.len() == 4
            &&& fields[0] == ("symbol"@, true)
            &&& fields[1] == ("orderId"@, cancel.order_id is Some)
            &&& fields[2] == ("origClientOrderId"@, cancel.orig_client_order_id is Some)
            &&& fields[3] == ("newClientOrderId"@, cancel.new_client_order_id is Some)
        }),
{
}

} // verus!

//! How the client connects: instruments, account, and the private WebSocket with its fallback to
//! HTTP alone.

use crate::binance_truth::PrivateStreamState;
use crate::client::{BinanceSpotExecutionClient, ClientView};
use crate::dispatch_state::FifoCache;
use crate::text::join;
use vstd::prelude::*;

verus! {

/// How far a connection has come.
#[derive(Debug)]
pub enum ConnectPhase {
    /// Nothing has happened.
    Start,
    /// The instruments are being requested.
    Instruments,
    /// The account state is being requested.
    Account,
    /// The account is being registered.
    Registration,
    /// The WebSocket is being opened.
    Opening,
    /// The session is being logged on.
    Logon,
    /// The session is being authenticated.
    Authentication,
    /// The user data is being requested.
    Subscribing,
    /// The user data is being subscribed.
    Subscription,
    /// The WebSocket is being closed after a failure.
    Closing {
        /// What failed.
        reason: String,
    },
    /// The connection is made or given up.
    Over,
}

/// How far a connection has come, with its text as a character sequence.
pub enum ConnectPhaseView {
    /// Nothing has happened.
    Start,
    /// The instruments are being requested.
    Instruments,
    /// The account state is being requested.
    Account,
    /// The account is being registered.
    Registration,
    /// The WebSocket is being opened.
    Opening,
    /// The session is being logged on.
    Logon,
    /// The session is being authenticated.
    Authentication,
    /// The user data is being requested.
    Subscribing,
    /// The user data is being subscribed.
    Subscription,
    /// The WebSocket is being closed after a failure.
    Closing { reason: Seq<char> },
    /// The connection is made or given up.
    Over,
}

impl View for ConnectPhase {
    type V = ConnectPhaseView;

    open spec fn view(&self) -> ConnectPhaseView {
        match *self {
            ConnectPhase::Start => ConnectPhaseView::Start,
            ConnectPhase::Instruments => ConnectPhaseView::Instruments,
            ConnectPhase::Account => ConnectPhaseView::Account,
            ConnectPhase::Registration => ConnectPhaseView::Registration,
            ConnectPhase::Opening => ConnectPhaseView::Opening,
            ConnectPhase::Logon => ConnectPhaseView::Logon,
            ConnectPhase::Authentication => ConnectPhaseView::Authentication,
            ConnectPhase::Subscribing => ConnectPhaseView::Subscribing,
            ConnectPhase::Subscription => ConnectPhaseView::Subscription,
            ConnectPhase::Closing { reason } => ConnectPhaseView::Closing { reason: reason@ },
            ConnectPhase::Over => ConnectPhaseView::Over,
        }
    }
}

/// How a wait for a step of the set-up ended.
#[derive(Debug)]
pub enum SetupResponse {
    /// The step was taken.
    Success,
    /// The venue or the connection reported an error.
    Error(String),
    /// Nobody is left who could report an error.
    ChannelClosed,
    /// The time was up.
    TimedOut,
}

/// What the caller tells of a connection.
#[derive(Debug)]
pub enum ConnectSignal {
    /// The connection may begin.
    Begin,
    /// The instruments were requested.
    Instruments {
        /// Whether the request succeeded.
        received: bool,
        /// Whether there are any.
        any: bool,
    },
    /// The account state was requested.
    Account {
        /// Whether the request succeeded.
        received: bool,
    },
    /// The account is registered, or what went wrong.
    Registered(Result<(), String>),
    /// The WebSocket is open, or what went wrong.
    Opened(Result<(), String>),
    /// The logon is sent, or what went wrong.
    LoggedOn(Result<(), String>),
    /// The wait for the current step ended.
    Setup(SetupResponse),
    /// The user data is requested, or what went wrong.
    Subscribed(Result<(), String>),
    /// The WebSocket is closed.
    Closed,
}

/// What the caller has to do for a connection.
#[derive(Debug)]
pub enum ConnectAction {
    /// Request the instruments.
    RequestInstruments,
    /// Request the account state.
    RequestAccount {
        /// Whether to keep the instruments received first.
        keep_instruments: bool,
    },
    /// Publish the account state received and wait for the account to be registered.
    AwaitRegistration,
    /// Open the WebSocket.
    Open,
    /// Dispatch the messages of the WebSocket, and log the session on.
    LogOn,
    /// Wait for the session to be authenticated.
    AwaitAuthentication,
    /// Request the user data.
    Subscribe,
    /// Wait for the user data to be subscribed.
    AwaitSubscription,
    /// Abort the dispatch and close the WebSocket.
    Close,
    /// The connection is made, or why not.
    Finish(Result<(), String>),
    /// Nothing.
    Ignore,
}

/// What the caller has to do, with its text as a character sequence.
pub enum ConnectActionView {
    /// Request the instruments.
    RequestInstruments,
    /// Request the account state.
    RequestAccount { keep_instruments: bool },
    /// Publish the account state and wait for the account.
    AwaitRegistration,
    /// Open the WebSocket.
    Open,
    /// Dispatch messages and log on.
    LogOn,
    /// Wait for the session to be authenticated.
    AwaitAuthentication,
    /// Request the user data.
    Subscribe,
    /// Wait for the user data to be subscribed.
    AwaitSubscription,
    /// Abort the dispatch and close the WebSocket.
    Close,
    /// The connection is made, or why not.
    Finish(Result<(), Seq<char>>),
    /// Nothing.
    Ignore,
}

impl View for ConnectAction {
    type V = ConnectActionView;

    open spec fn view(&self) -> ConnectActionView {
        match *self {
            ConnectAction::RequestInstruments => ConnectActionView::RequestInstruments,
            ConnectAction::RequestAccount { keep_instruments } =>
                ConnectActionView::RequestAccount { keep_instruments },
            ConnectAction::AwaitRegistration => ConnectActionView::AwaitRegistration,
            ConnectAction::Open => ConnectActionView::Open,
            ConnectAction::LogOn => ConnectActionView::LogOn,
            ConnectAction::AwaitAuthentication => ConnectActionView::AwaitAuthentication,
            ConnectAction::Subscribe => ConnectActionView::Subscribe,
            ConnectAction::AwaitSubscription => ConnectActionView::AwaitSubscription,
            ConnectAction::Close => ConnectActionView::Close,
            ConnectAction::Finish(Ok(_)) => ConnectActionView::Finish(Ok(())),
            ConnectAction::Finish(Err(text)) => ConnectActionView::Finish(Err(text@)),
            ConnectAction::Ignore => ConnectActionView::Ignore,
        }
    }
}

/// A connection under way.
pub struct ConnectView {
    /// Generation of the private stream that it makes.
    pub generation: u64,
    /// How far it has come.
    pub phase: ConnectPhaseView,
}

/// A connection under way.
#[derive(Debug)]
pub struct ConnectTask {
    generation: u64,
    phase: ConnectPhase,
}

impl View for ConnectTask {
    type V = ConnectView;

    closed spec fn view(&self) -> ConnectView {
        ConnectView { generation: self.generation, phase: self.phase@ }
    }
}

/// Why a step of the set-up failed, if it did.
pub open spec fn setup_failure(response: SetupResponse, timeout_message: Seq<char>) -> Option<
    Seq<char>,
> {
    match response {
        SetupResponse::Success => None,
        SetupResponse::Error(text) => Some(text@),
        SetupResponse::ChannelClosed => Some("WS setup error channel closed"@),
        SetupResponse::TimedOut => Some(timeout_message),
    }
}

/// Why a step of the set-up failed, if it did.
pub fn ws_setup_result(response: SetupResponse, timeout_message: &str) -> (r: Result<(), String>)
    ensures
        match setup_failure(response, timeout_message@) {
            None => r is Ok,
            Some(text) => r matches Err(found) && found@ == text,
        },
{
    match response {
        SetupResponse::Success => Ok(()),
        SetupResponse::Error(text) => Err(text),
        SetupResponse::ChannelClosed => Err("WS setup error channel closed".to_owned()),
        SetupResponse::TimedOut => Err(timeout_message.to_owned()),
    }
}

/// A step of a connection: where it leads, what the client knows then, and what to do.
pub type ConnectStep = (ConnectPhaseView, ClientView, ConnectActionView);

/// The connection is given up.
pub open spec fn given_up(client: ClientView, text: Seq<char>) -> ConnectStep {
    (ConnectPhaseView::Over, client, ConnectActionView::Finish(Err(text)))
}

/// The connection is complete: it is made unless a private WebSocket is required and not up.
pub open spec fn completed(client: ClientView) -> ConnectStep {
    if client.config.require_ws_trading && !(client.health.authenticated
        && client.health.subscribed) {
        given_up(client, "required Spot private WebSocket is not ready"@)
    } else {
        (
            ConnectPhaseView::Over,
            ClientView { connected: true, ..client },
            ConnectActionView::Finish(Ok(())),
        )
    }
}

/// The private WebSocket failed: its generation is marked as failed and it is closed.
pub open spec fn socket_failed(
    client: ClientView,
    generation: u64,
    reason: Seq<char>,
) -> ConnectStep {
    (
        ConnectPhaseView::Closing { reason },
        ClientView {
            health: client.health.ended(generation, PrivateStreamState::Failed, reason),
            ..client
        },
        ConnectActionView::Close,
    )
}

/// How a connection begins.
pub open spec fn connect_begin(client: ClientView) -> ConnectStep {
    let health = client.health.reconnecting();
    let begun = ClientView { health, ..client };
    if client.connected {
        (ConnectPhaseView::Over, client, ConnectActionView::Finish(Ok(())))
    } else if client.config.require_ws_trading && !client.config.use_ws_trading {
        given_up(
            ClientView {
                health: health.ended(
                    health.generation,
                    PrivateStreamState::Failed,
                    "require_ws_trading=true but use_ws_trading=false"@,
                ),
                ..client
            },
            "require_ws_trading=true requires use_ws_trading=true"@,
        )
    } else if client.instruments_initialized {
        (
            ConnectPhaseView::Account,
            begun,
            ConnectActionView::RequestAccount { keep_instruments: false },
        )
    } else {
        (ConnectPhaseView::Instruments, begun, ConnectActionView::RequestInstruments)
    }
}

/// How a signal moves a connection on. A signal that the phase does not wait for changes nothing.
pub open spec fn connect_step(
    connect: ConnectView,
    client: ClientView,
    signal: ConnectSignal,
) -> ConnectStep {
    let generation = connect.generation;
    let authenticated = ClientView {
        health: client.health.with_authenticated(generation),
        ..client
    };
    match (connect.phase, signal) {
        (ConnectPhaseView::Start, ConnectSignal::Begin) => connect_begin(client),
        (ConnectPhaseView::Instruments, ConnectSignal::Instruments { received, any }) => if received {
            (
                ConnectPhaseView::Account,
                ClientView { instruments_initialized: true, ..client },
                ConnectActionView::RequestAccount { keep_instruments: any },
            )
        } else {
            given_up(client, "failed to request Binance Spot instruments"@)
        },
        (ConnectPhaseView::Account, ConnectSignal::Account { received }) => if received {
            (ConnectPhaseView::Registration, client, ConnectActionView::AwaitRegistration)
        } else {
            given_up(client, "failed to request Binance account state"@)
        },
        (ConnectPhaseView::Registration, ConnectSignal::Registered(Err(text))) => given_up(
            client,
            text@,
        ),
        (ConnectPhaseView::Registration, ConnectSignal::Registered(Ok(_))) => if client.config.use_ws_trading {
            (ConnectPhaseView::Opening, client, ConnectActionView::Open)
        } else {
            completed(client)
        },
        (ConnectPhaseView::Opening, ConnectSignal::Opened(Err(text))) => socket_failed(
            client,
            generation,
            "Failed to connect WS trading API: "@ + text@,
        ),
        (ConnectPhaseView::Opening, ConnectSignal::Opened(Ok(_))) => (
            ConnectPhaseView::Logon,
            ClientView { seen: Seq::empty(), ..client },
            ConnectActionView::LogOn,
        ),
        (ConnectPhaseView::Logon, ConnectSignal::LoggedOn(Err(text))) => socket_failed(
            client,
            generation,
            "WS session logon failed: "@ + text@,
        ),
        (ConnectPhaseView::Logon, ConnectSignal::LoggedOn(Ok(_))) => (
            ConnectPhaseView::Authentication,
            client,
            ConnectActionView::AwaitAuthentication,
        ),
        (ConnectPhaseView::Authentication, ConnectSignal::Setup(response)) => match setup_failure(
            response,
            "WS session authentication timed out"@,
        ) {
            Some(reason) => socket_failed(client, generation, reason),
            None => (ConnectPhaseView::Subscribing, client, ConnectActionView::Subscribe),
        },
        (ConnectPhaseView::Subscribing, ConnectSignal::Subscribed(Err(text))) => socket_failed(
            authenticated,
            generation,
            "WS user data subscribe failed: "@ + text@,
        ),
        (ConnectPhaseView::Subscribing, ConnectSignal::Subscribed(Ok(_))) => (
            ConnectPhaseView::Subscription,
            authenticated,
            ConnectActionView::AwaitSubscription,
        ),
        (ConnectPhaseView::Subscription, ConnectSignal::Setup(response)) => match setup_failure(
            response,
            "WS user data subscription timed out"@,
        ) {
            Some(reason) => socket_failed(client, generation, reason),
            None => completed(
                ClientView { health: client.health.with_subscribed(generation), ..client },
            ),
        },
        (ConnectPhaseView::Closing { reason }, ConnectSignal::Closed) => if client.config.require_ws_trading {
            given_up(client, "required Spot private WebSocket failed: "@ + reason)
        } else {
            completed(client)
        },
        (phase, _) => (phase, client, ConnectActionView::Ignore),
    }
}

/// The generation that a connection makes once a signal came: that of the client once it begins.
pub open spec fn generation_after(
    connect: ConnectView,
    client: ClientView,
    signal: ConnectSignal,
) -> u64 {
    if connect.phase is Start && signal is Begin && !client.connected {
        client.health.next_generation()
    } else {
        connect.generation
    }
}

impl BinanceSpotExecutionClient {
    /// Completes a connection.
    fn complete_connect(&mut self) -> (action: ConnectAction)
        ensures
            (ConnectPhaseView::Over, final(self)@, action@) == completed(old(self)@),
    {
        let health = self.health.snapshot();
        if self.config.require_ws_trading && (!health.authenticated || !health.subscribed) {
            return ConnectAction::Finish(
                Err("required Spot private WebSocket is not ready".to_owned()),
            );
        }
        self.connected = true;
        ConnectAction::Finish(Ok(()))
    }

    /// Marks the private stream of `generation` as failed. The client goes on with HTTP alone
    /// once the WebSocket is closed, unless it is required.
    fn enter_http_only_execution_mode(&mut self, generation: u64, reason: String) -> (r: (
        ConnectPhase,
        ConnectAction,
    ))
        ensures
            (r.0@, final(self)@, r.1@) == socket_failed(old(self)@, generation, reason@),
    {
        self.health.fail(generation, reason.as_str());
        (ConnectPhase::Closing { reason }, ConnectAction::Close)
    }
}

impl ConnectTask {
    /// A connection that has not begun.
    pub fn new() -> (task: Self)
        ensures
            task@ == (ConnectView { generation: 0, phase: ConnectPhaseView::Start }),
    {
        ConnectTask { generation: 0, phase: ConnectPhase::Start }
    }

    /// The generation of the private stream that the connection makes.
    pub fn generation(&self) -> (generation: u64)
        ensures
            generation == self@.generation,
    {
        self.generation
    }

    fn begin(&mut self, client: &mut BinanceSpotExecutionClient) -> (r: (
        ConnectPhase,
        ConnectAction,
    ))
        ensures
            (r.0@, final(client)@, r.1@) == connect_begin(old(client)@),
            !old(client)@.connected ==> final(self)@.generation == final(client)@.health.generation,
            old(client)@.connected ==> final(self)@.generation == old(self)@.generation,
    {
        if client.connected {
            return (ConnectPhase::Over, ConnectAction::Finish(Ok(())));
        }
        let generation: u64 = client.health.begin_reconnect();
        self.generation = generation;
        if client.config.require_ws_trading && !client.config.use_ws_trading {
            client.health.fail(generation, "require_ws_trading=true but use_ws_trading=false");
            return (
                ConnectPhase::Over,
                ConnectAction::Finish(
                    Err("require_ws_trading=true requires use_ws_trading=true".to_owned()),
                ),
            );
        }
        if client.instruments_initialized {
            (ConnectPhase::Account, ConnectAction::RequestAccount { keep_instruments: false })
        } else {
            (ConnectPhase::Instruments, ConnectAction::RequestInstruments)
        }
    }

    /// Moves the connection on and says what to do next.
    pub fn advance(
        &mut self,
        signal: ConnectSignal,
        client: &mut BinanceSpotExecutionClient,
    ) -> (action: ConnectAction)
        ensures
            (final(self)@.phase, final(client)@, action@) == connect_step(
                old(self)@,
                old(client)@,
                signal,
            ),
            final(self)@.generation == if old(self)@.phase is Start && signal is Begin && !old(
                client,
            )@.connected {
                final(client)@.health.generation
            } else {
                old(self)@.generation
            },
            final(self)@.generation == generation_after(old(self)@, old(client)@, signal),
            final(client)@.wf(),
    {
        proof {
            use_type_invariant(&client.seen);
            use_type_invariant(&client.health);
            law_connecting_keeps_the_client_valid(self@, client@, signal);
        }
        let mut phase = ConnectPhase::Over;
        core::mem::swap(&mut phase, &mut self.phase);
        let generation: u64 = self.generation;
        let (next, action) = match (phase, signal) {
            (ConnectPhase::Start, ConnectSignal::Begin) => self.begin(client),
            (ConnectPhase::Instruments, ConnectSignal::Instruments { received, any }) => if received {
                client.instruments_initialized = true;
                (ConnectPhase::Account, ConnectAction::RequestAccount { keep_instruments: any })
            } else {
                (
                    ConnectPhase::Over,
                    ConnectAction::Finish(
                        Err("failed to request Binance Spot instruments".to_owned()),
                    ),
                )
            },
            (ConnectPhase::Account, ConnectSignal::Account { received }) => if received {
                (ConnectPhase::Registration, ConnectAction::AwaitRegistration)
            } else {
                (
                    ConnectPhase::Over,
                    ConnectAction::Finish(
                        Err("failed to request Binance account state".to_owned()),
                    ),
                )
            },
            (ConnectPhase::Registration, ConnectSignal::Registered(Err(text))) => (
                ConnectPhase::Over,
                ConnectAction::Finish(Err(text)),
            ),
            (ConnectPhase::Registration, ConnectSignal::Registered(Ok(_))) => if client.config.use_ws_trading {
                (ConnectPhase::Opening, ConnectAction::Open)
            } else {
                (ConnectPhase::Over, client.complete_connect())
            },
            (ConnectPhase::Opening, ConnectSignal::Opened(Err(text))) => {
                let reason = join("Failed to connect WS trading API: ", text.as_str());
                client.enter_http_only_execution_mode(generation, reason)
            },
            (ConnectPhase::Opening, ConnectSignal::Opened(Ok(_))) => {
                client.seen = FifoCache::new();
                (ConnectPhase::Logon, ConnectAction::LogOn)
            },
            (ConnectPhase::Logon, ConnectSignal::LoggedOn(Err(text))) => {
                let reason = join("WS session logon failed: ", text.as_str());
                client.enter_http_only_execution_mode(generation, reason)
            },
            (ConnectPhase::Logon, ConnectSignal::LoggedOn(Ok(_))) => (
                ConnectPhase::Authentication,
                ConnectAction::AwaitAuthentication,
            ),
            (ConnectPhase::Authentication, ConnectSignal::Setup(response)) => match ws_setup_result(
                response,
                "WS session authentication timed out",
            ) {
                Err(reason) => client.enter_http_only_execution_mode(generation, reason),
                Ok(_) => (ConnectPhase::Subscribing, ConnectAction::Subscribe),
            },
            (ConnectPhase::Subscribing, ConnectSignal::Subscribed(Err(text))) => {
                client.health.authenticated(generation);
                let reason = join("WS user data subscribe failed: ", text.as_str());
                client.enter_http_only_execution_mode(generation, reason)
            },
            (ConnectPhase::Subscribing, ConnectSignal::Subscribed(Ok(_))) => {
                client.health.authenticated(generation);
                (ConnectPhase::Subscription, ConnectAction::AwaitSubscription)
            },
            (ConnectPhase::Subscription, ConnectSignal::Setup(response)) => match ws_setup_result(
                response,
                "WS user data subscription timed out",
            ) {
                Err(reason) => client.enter_http_only_execution_mode(generation, reason),
                Ok(_) => {
                    client.health.subscribed(generation);
                    (ConnectPhase::Over, client.complete_connect())
                },
            },
            (ConnectPhase::Closing { reason }, ConnectSignal::Closed) => if client.config.require_ws_trading {
                (
                    ConnectPhase::Over,
                    ConnectAction::Finish(
                        Err(join("required Spot private WebSocket failed: ", reason.as_str())),
                    ),
                )
            } else {
                (ConnectPhase::Over, client.complete_connect())
            },
            (phase, _) => (phase, ConnectAction::Ignore),
        };
        self.phase = next;
        action
    }
}

/// A connection keeps the client valid.
pub proof fn law_connecting_keeps_the_client_valid(
    connect: ConnectView,
    client: ClientView,
    signal: ConnectSignal,
)
    ensures
        client.wf() ==> connect_step(connect, client, signal).1.wf(),
{
}

/// A client that requires the private WebSocket connects only with its session authenticated and
/// its user data subscribed.
pub proof fn law_required_socket_is_up_when_connected(
    connect: ConnectView,
    client: ClientView,
    signal: ConnectSignal,
)
    requires
        !client.connected,
        client.config.require_ws_trading,
        connect_step(connect, client, signal).1.connected,
    ensures
        connect_step(connect, client, signal).1.health.authenticated,
        connect_step(connect, client, signal).1.health.subscribed,
        connect_step(connect, client, signal).2 == ConnectActionView::Finish(Ok(())),
{
}

/// A client that does not require the private WebSocket connects without it once it is closed,
/// and one that requires it does not.
pub proof fn law_lost_socket_is_fatal_only_if_required(connect: ConnectView, client: ClientView)
    requires
        connect.phase is Closing,
        !client.connected,
    ensures
        connect_step(connect, client, ConnectSignal::Closed).1.connected
            == !client.config.require_ws_trading,
{
}

/// A failure of the private WebSocket leaves its generation failed, so that it cannot be promoted
/// to ready, and the WebSocket is closed.
pub proof fn law_failed_socket_is_closed_and_never_ready(
    connect: ConnectView,
    client: ClientView,
    signal: ConnectSignal,
)
    requires
        client.health.generation == connect.generation,
        !(connect.phase is Closing),
        connect_step(connect, client, signal).0 is Closing,
    ensures
        ({
            let (phase, after, action) = connect_step(connect, client, signal);
            &&& action is Close
            &&& after.health.state == PrivateStreamState::Failed
            &&& !after.health.promotable(connect.generation)
            &&& !after.connected == !client.connected
        }),
{
}

/// Connecting a connected client changes nothing.
pub proof fn law_connecting_twice_changes_nothing(connect: ConnectView, client: ClientView)
    requires
        connect.phase is Start,
        client.connected,
    ensures
        connect_step(connect, client, ConnectSignal::Begin) == (
            ConnectPhaseView::Over,
            client,
            ConnectActionView::Finish(Ok(())),
        ),
{
}

/// A connection touches no order and no request.
pub proof fn law_connecting_keeps_the_orders(
    connect: ConnectView,
    client: ClientView,
    signal: ConnectSignal,
)
    ensures
        connect_step(connect, client, signal).1.state == client.state,
        connect_step(connect, client, signal).1.config == client.config,
        connect_step(connect, client, signal).1.scope == client.scope,
{
}

/// A connection never makes the private stream ready: that is left to reconciliation.
pub proof fn law_connecting_does_not_make_ready(
    connect: ConnectView,
    client: ClientView,
    signal: ConnectSignal,
)
    ensures
        connect_step(connect, client, signal).1.health.state == PrivateStreamState::Ready
            ==> client.health.state == PrivateStreamState::Ready,
{
}

/// A connection after a sequence of signals, and the client then.
pub open spec fn connect_run(
    connect: ConnectView,
    client: ClientView,
    signals: Seq<ConnectSignal>,
) -> (ConnectView, ClientView)
    decreases signals.len(),
{
    if signals.len() == 0 {
        (connect, client)
    } else {
        let (before, known) = connect_run(connect, client, signals.drop_last());
        let (phase, after, _) = connect_step(before, known, signals.last());
        let generation = if before.phase is Start && signals.last() is Begin && !known.connected {
            after.health.generation
        } else {
            before.generation
        };
        (ConnectView { generation, phase }, after)
    }
}

/// Whether the account was registered.
pub open spec fn account_registered(signals: Seq<ConnectSignal>) -> bool {
    exists|i: int|
        0 <= i < signals.len() && (#[trigger] signals[i] matches ConnectSignal::Registered(Ok(_)))
}

/// Whether a phase comes after the registration of the account.
pub open spec fn past_registration(phase: ConnectPhaseView) -> bool {
    match phase {
        ConnectPhaseView::Start => false,
        ConnectPhaseView::Instruments => false,
        ConnectPhaseView::Account => false,
        ConnectPhaseView::Registration => false,
        ConnectPhaseView::Over => false,
        _ => true,
    }
}

/// A client that was not connected is connected only after its account was registered, whatever
/// happens on the way.
pub proof fn law_connected_only_with_a_registered_account(
    connect: ConnectView,
    client: ClientView,
    signals: Seq<ConnectSignal>,
)
    requires
        connect.phase is Start,
        !client.connected,
    ensures
        ({
            let (after, known) = connect_run(connect, client, signals);
            known.connected || past_registration(after.phase) ==> account_registered(signals)
        }),
    decreases signals.len(),
{
    if signals.len() > 0 {
        let earlier = signals.drop_last();
        law_connected_only_with_a_registered_account(connect, client, earlier);
        if account_registered(earlier) {
            let i = choose|i: int|
                0 <= i < earlier.len() && (#[trigger] earlier[i] matches ConnectSignal::Registered(
                    Ok(_),
                ));
            assert(signals[i] == earlier[i]);
        }
        assert(signals[signals.len() - 1] == signals.last());
    }
}

} // verus!

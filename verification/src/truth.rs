//! How a truth report comes about: every fact in it is an answer of the venue to this very
//! request, and an order that the client did not submit is refused.

use crate::binance_truth::{
    AccountBalance, BinanceModeProof, BinanceTruthReport, ExactOrderQueryResult, ExactOrders,
    ReportRequestId,
};
use crate::dispatch_state::{DispatchView, WsDispatchState};
use crate::identifiers::{AccountId, ClientId, ClientOrderId, UnixNanos};
use crate::queries::{
    exact_order_of, exact_order_query, open_orders_of, open_orders_query, OrderQuery, OrdersQuery,
};
use vstd::prelude::*;

verus! {

/// A request for a truth report.
#[derive(Debug)]
pub struct GenerateBinanceTruthReport {
    /// Request.
    pub request_id: ReportRequestId,
    /// Client that is asked.
    pub client_id: ClientId,
    /// Account that is asked about.
    pub account_id: AccountId,
    /// Orders to query one by one.
    pub exact_order_ids: Vec<ClientOrderId>,
}

/// What the venue says of the account.
#[derive(Debug)]
pub struct AccountFacts {
    /// Whether the account may trade.
    pub can_trade: bool,
    /// Account type that the venue names.
    pub account_type: String,
    /// Balances.
    pub balances: Vec<AccountBalance>,
}

/// Why there is no truth report.
#[derive(Debug)]
pub enum TruthReportError {
    /// The request asks another client.
    ClientIdMismatch {
        /// This client.
        expected: ClientId,
        /// The client asked.
        actual: ClientId,
    },
    /// The request asks about another account.
    AccountIdMismatch {
        /// The account of this client.
        expected: AccountId,
        /// The account asked about.
        actual: AccountId,
    },
    /// The account request failed.
    Account(String),
    /// The request for open orders failed.
    OpenOrders(String),
    /// An order is not one that the client submitted.
    MissingOrderOrigin(ClientOrderId),
    /// The query of an order failed.
    ExactOrder {
        /// Order.
        client_order_id: ClientOrderId,
        /// What went wrong.
        detail: String,
    },
}

/// How far a truth report has come.
#[derive(Debug)]
pub enum TruthPhase<R> {
    /// Nothing has happened.
    Start,
    /// The account is being requested.
    Account,
    /// The open orders are being requested.
    OpenOrders(AccountFacts),
    /// The orders are being queried one by one.
    Exact {
        /// What the venue said of the account.
        facts: AccountFacts,
        /// The open orders.
        open_orders: Vec<R>,
        /// The results so far.
        exact_orders: ExactOrders<R>,
        /// How many orders are answered.
        answered: usize,
    },
    /// The report is made or given up.
    Over,
}

/// How far a truth report has come, with its results as a map.
pub enum TruthPhaseView<R> {
    /// Nothing has happened.
    Start,
    /// The account is being requested.
    Account,
    /// The open orders are being requested.
    OpenOrders(AccountFacts),
    /// The orders are being queried one by one.
    Exact {
        facts: AccountFacts,
        open_orders: Vec<R>,
        exact_orders: Map<Seq<char>, ExactOrderQueryResult<R>>,
        answered: usize,
    },
    /// The report is made or given up.
    Over,
}

impl<R> View for TruthPhase<R> {
    type V = TruthPhaseView<R>;

    open spec fn view(&self) -> TruthPhaseView<R> {
        match *self {
            TruthPhase::Start => TruthPhaseView::Start,
            TruthPhase::Account => TruthPhaseView::Account,
            TruthPhase::OpenOrders(facts) => TruthPhaseView::OpenOrders(facts),
            TruthPhase::Exact { facts, open_orders, exact_orders, answered } =>
                TruthPhaseView::Exact {
                    facts,
                    open_orders,
                    exact_orders: exact_orders@,
                    answered,
                },
            TruthPhase::Over => TruthPhaseView::Over,
        }
    }
}

/// What the caller tells of a truth report.
#[derive(Debug)]
pub enum TruthSignal<R> {
    /// The report may begin.
    Begin,
    /// The account request was answered, or what went wrong.
    Account(Result<AccountFacts, String>),
    /// The request for open orders was answered, or what went wrong.
    OpenOrders(Result<Vec<R>, String>),
    /// The query of the current order was answered, or what went wrong.
    Exact(Result<Option<R>, String>),
}

/// What the caller has to do for a truth report.
#[derive(Debug)]
pub enum TruthAction<R, P> {
    /// Request the account.
    RequestAccount,
    /// Request the open orders.
    RequestOpenOrders(OrdersQuery),
    /// Query one order.
    RequestExact(OrderQuery),
    /// The report, or why there is none.
    Finish(Result<BinanceTruthReport<R, P>, TruthReportError>),
    /// Nothing.
    Ignore,
}

/// A truth report with its results as a map.
pub struct TruthReportView<R, P> {
    /// Request that the report answers.
    pub request_id: ReportRequestId,
    /// Client that answers.
    pub client_id: ClientId,
    /// Account that the report is about.
    pub account_id: AccountId,
    /// Account and product mode.
    pub mode: BinanceModeProof,
    /// Balances of the account.
    pub balances: Seq<AccountBalance>,
    /// Positions of the account.
    pub positions: Seq<P>,
    /// Orders open at the venue.
    pub open_orders: Seq<R>,
    /// Results for the orders that the request named.
    pub exact_orders: Map<Seq<char>, ExactOrderQueryResult<R>>,
    /// When the report was complete.
    pub ts_received: UnixNanos,
}

impl<R, P> View for BinanceTruthReport<R, P> {
    type V = TruthReportView<R, P>;

    open spec fn view(&self) -> TruthReportView<R, P> {
        TruthReportView {
            request_id: self.request_id,
            client_id: self.client_id,
            account_id: self.account_id,
            mode: self.mode,
            balances: self.balances@,
            positions: self.positions@,
            open_orders: self.open_orders@,
            exact_orders: self.exact_orders@,
            ts_received: self.ts_received,
        }
    }
}

/// Why there is no truth report, with its texts as character sequences.
pub enum TruthErrorView {
    /// The request asks another client.
    ClientIdMismatch { expected: ClientId, actual: ClientId },
    /// The request asks about another account.
    AccountIdMismatch { expected: AccountId, actual: AccountId },
    /// The account request failed.
    Account(Seq<char>),
    /// The request for open orders failed.
    OpenOrders(Seq<char>),
    /// An order is not one that the client submitted.
    MissingOrderOrigin(ClientOrderId),
    /// The query of an order failed.
    ExactOrder { client_order_id: ClientOrderId, detail: Seq<char> },
}

impl View for TruthReportError {
    type V = TruthErrorView;

    open spec fn view(&self) -> TruthErrorView {
        match *self {
            TruthReportError::ClientIdMismatch { expected, actual } =>
                TruthErrorView::ClientIdMismatch { expected, actual },
            TruthReportError::AccountIdMismatch { expected, actual } =>
                TruthErrorView::AccountIdMismatch { expected, actual },
            TruthReportError::Account(text) => TruthErrorView::Account(text@),
            TruthReportError::OpenOrders(text) => TruthErrorView::OpenOrders(text@),
            TruthReportError::MissingOrderOrigin(id) => TruthErrorView::MissingOrderOrigin(id),
            TruthReportError::ExactOrder { client_order_id, detail } =>
                TruthErrorView::ExactOrder { client_order_id, detail: detail@ },
        }
    }
}

/// What the caller has to do, with results and texts by their views.
pub enum TruthActionView<R, P> {
    /// Request the account.
    RequestAccount,
    /// Request the open orders.
    RequestOpenOrders(OrdersQuery),
    /// Query one order.
    RequestExact(OrderQuery),
    /// The report.
    Report(TruthReportView<R, P>),
    /// Why there is no report.
    Fail(TruthErrorView),
    /// Nothing.
    Ignore,
}

impl<R, P> View for TruthAction<R, P> {
    type V = TruthActionView<R, P>;

    open spec fn view(&self) -> TruthActionView<R, P> {
        match *self {
            TruthAction::RequestAccount => TruthActionView::RequestAccount,
            TruthAction::RequestOpenOrders(query) => TruthActionView::RequestOpenOrders(query),
            TruthAction::RequestExact(query) => TruthActionView::RequestExact(query),
            TruthAction::Finish(Ok(report)) => TruthActionView::Report(report@),
            TruthAction::Finish(Err(error)) => TruthActionView::Fail(error@),
            TruthAction::Ignore => TruthActionView::Ignore,
        }
    }
}

/// A truth report on its way.
pub struct TruthView<R> {
    /// The client that answers.
    pub client_id: ClientId,
    /// Its account.
    pub account_id: AccountId,
    /// The request.
    pub request: GenerateBinanceTruthReport,
    /// How far it has come.
    pub phase: TruthPhaseView<R>,
}

/// A truth report on its way.
#[derive(Debug)]
pub struct TruthTask<R> {
    client_id: ClientId,
    account_id: AccountId,
    request: GenerateBinanceTruthReport,
    phase: TruthPhase<R>,
}

impl<R> View for TruthTask<R> {
    type V = TruthView<R>;

    closed spec fn view(&self) -> TruthView<R> {
        TruthView {
            client_id: self.client_id,
            account_id: self.account_id,
            request: self.request,
            phase: self.phase@,
        }
    }
}

/// A step of a truth report: where it leads, and what to do.
pub type TruthStep<R, P> = (TruthPhaseView<R>, TruthActionView<R, P>);

/// The result of a query that found an order, or none.
pub open spec fn exact_result<R>(found: Option<R>) -> ExactOrderQueryResult<R> {
    match found {
        Some(report) => ExactOrderQueryResult::Found(Box::new(report)),
        None => ExactOrderQueryResult::NotFound,
    }
}

/// What follows once `answered` orders are answered: the next query, or the report.
pub open spec fn next_query<R, P>(
    truth: TruthView<R>,
    state: DispatchView,
    facts: AccountFacts,
    open_orders: Vec<R>,
    exact_orders: Map<Seq<char>, ExactOrderQueryResult<R>>,
    answered: usize,
    ts_now: UnixNanos,
) -> TruthStep<R, P> {
    let ids = truth.request.exact_order_ids@;
    if answered >= ids.len() {
        (
            TruthPhaseView::Over,
            TruthActionView::Report(
                TruthReportView {
                    request_id: truth.request.request_id,
                    client_id: truth.client_id,
                    account_id: truth.account_id,
                    mode: BinanceModeProof::Spot {
                        can_trade: facts.can_trade,
                        account_type: facts.account_type,
                    },
                    balances: facts.balances@,
                    positions: Seq::empty(),
                    open_orders: open_orders@,
                    exact_orders,
                    ts_received: ts_now,
                },
            ),
        )
    } else {
        let id = ids[answered as int];
        if state.order_identities.contains_key(id@) {
            (
                TruthPhaseView::Exact { facts, open_orders, exact_orders, answered },
                TruthActionView::RequestExact(
                    exact_order_of(
                        truth.account_id,
                        state.order_identities[id@].instrument_id,
                        id,
                    ),
                ),
            )
        } else {
            (TruthPhaseView::Over, TruthActionView::Fail(TruthErrorView::MissingOrderOrigin(id)))
        }
    }
}

/// How a signal moves a truth report on. A signal that the phase does not wait for changes
/// nothing.
pub open spec fn truth_step<R, P>(
    truth: TruthView<R>,
    state: DispatchView,
    signal: TruthSignal<R>,
    ts_now: UnixNanos,
) -> TruthStep<R, P> {
    match (truth.phase, signal) {
        (TruthPhaseView::Start, TruthSignal::Begin) => if truth.request.client_id@
            != truth.client_id@ {
            (
                TruthPhaseView::Over,
                TruthActionView::Fail(
                    TruthErrorView::ClientIdMismatch {
                        expected: truth.client_id,
                        actual: truth.request.client_id,
                    },
                ),
            )
        } else if truth.request.account_id@ != truth.account_id@ {
            (
                TruthPhaseView::Over,
                TruthActionView::Fail(
                    TruthErrorView::AccountIdMismatch {
                        expected: truth.account_id,
                        actual: truth.request.account_id,
                    },
                ),
            )
        } else {
            (TruthPhaseView::Account, TruthActionView::RequestAccount)
        },
        (TruthPhaseView::Account, TruthSignal::Account(Ok(facts))) => (
            TruthPhaseView::OpenOrders(facts),
            TruthActionView::RequestOpenOrders(open_orders_of(truth.account_id)),
        ),
        (TruthPhaseView::Account, TruthSignal::Account(Err(text))) => (
            TruthPhaseView::Over,
            TruthActionView::Fail(TruthErrorView::Account(text@)),
        ),
        (TruthPhaseView::OpenOrders(facts), TruthSignal::OpenOrders(Ok(open_orders))) => next_query(
            truth,
            state,
            facts,
            open_orders,
            Map::empty(),
            0,
            ts_now,
        ),
        (TruthPhaseView::OpenOrders(_), TruthSignal::OpenOrders(Err(text))) => (
            TruthPhaseView::Over,
            TruthActionView::Fail(TruthErrorView::OpenOrders(text@)),
        ),
        (
            TruthPhaseView::Exact { facts, open_orders, exact_orders, answered },
            TruthSignal::Exact(Ok(found)),
        ) => next_query(
            truth,
            state,
            facts,
            open_orders,
            exact_orders.insert(
                truth.request.exact_order_ids@[answered as int]@,
                exact_result(found),
            ),
            (answered + 1) as usize,
            ts_now,
        ),
        (
            TruthPhaseView::Exact { facts, open_orders, exact_orders, answered },
            TruthSignal::Exact(Err(text)),
        ) => (
            TruthPhaseView::Over,
            TruthActionView::Fail(
                TruthErrorView::ExactOrder {
                    client_order_id: truth.request.exact_order_ids@[answered as int],
                    detail: text@,
                },
            ),
        ),
        (phase, _) => (phase, TruthActionView::Ignore),
    }
}

impl<R> TruthView<R> {
    /// Whether `id` is among the first `n` orders of the request.
    pub open spec fn names(self, id: Seq<char>, n: int) -> bool {
        exists|k: int|
            0 <= k < n && k < self.request.exact_order_ids@.len()
                && #[trigger] self.request.exact_order_ids@[k]@ == id
    }

    /// Whether the request asks this client about its account.
    pub open spec fn addressed(self) -> bool {
        &&& self.request.client_id@ == self.client_id@
        &&& self.request.account_id@ == self.account_id@
    }

    /// Whether the venue is asked only for a request to this client about its account, and, while
    /// orders are queried, one is still to be answered and the results so far are those of the
    /// orders before it.
    pub open spec fn wf(self) -> bool {
        &&& self.phase is Account || self.phase is OpenOrders || self.phase is Exact
            ==> self.addressed()
        &&& self.phase matches TruthPhaseView::Exact { exact_orders, answered, .. } ==> {
            &&& answered < self.request.exact_order_ids@.len()
            &&& forall|id: Seq<char>| #[trigger]
                exact_orders.contains_key(id) <==> self.names(id, answered as int)
        }
    }
}

impl<R> TruthTask<R> {
    /// The report on its way is in order.
    #[verifier::type_invariant]
    pub open spec fn valid(self) -> bool {
        self@.wf()
    }

    /// A truth report that a client with this ID and account is asked for.
    pub fn new(
        client_id: ClientId,
        account_id: AccountId,
        request: GenerateBinanceTruthReport,
    ) -> (task: Self)
        ensures
            task@.wf(),
            task@ == (TruthView::<R> {
                client_id,
                account_id,
                request,
                phase: TruthPhaseView::Start,
            }),
    {
        TruthTask { client_id, account_id, request, phase: TruthPhase::Start }
    }

    fn query_next<P>(
        &self,
        state: &WsDispatchState,
        facts: AccountFacts,
        open_orders: Vec<R>,
        exact_orders: ExactOrders<R>,
        answered: usize,
        ts_now: UnixNanos,
    ) -> (r: (TruthPhase<R>, TruthAction<R, P>))
        ensures
            (r.0@, r.1@) == next_query::<R, P>(
                self@,
                state@,
                facts,
                open_orders,
                exact_orders@,
                answered,
                ts_now,
            ),
            r.1 matches TruthAction::Finish(Ok(report)) ==> report.exact_orders.wf(),
    {
        proof {
            use_type_invariant(&exact_orders);
        }
        if answered >= self.request.exact_order_ids.len() {
            let positions: Vec<P> = Vec::new();
            let report = BinanceTruthReport {
                request_id: self.request.request_id,
                client_id: self.client_id.clone(),
                account_id: self.account_id.clone(),
                mode: BinanceModeProof::Spot {
                    can_trade: facts.can_trade,
                    account_type: facts.account_type,
                },
                balances: facts.balances,
                positions,
                open_orders,
                exact_orders,
                ts_received: ts_now,
            };
            return (TruthPhase::Over, TruthAction::Finish(Ok(report)));
        }
        let id = &self.request.exact_order_ids[answered];
        match state.identity(id) {
            Some(identity) => (
                TruthPhase::Exact { facts, open_orders, exact_orders, answered },
                TruthAction::RequestExact(
                    exact_order_query(&self.account_id, identity.instrument_id, id),
                ),
            ),
            None => (
                TruthPhase::Over,
                TruthAction::Finish(Err(TruthReportError::MissingOrderOrigin(id.clone()))),
            ),
        }
    }

    /// Moves the report on and says what to do next.
    pub fn generate_truth_report<P>(
        &mut self,
        signal: TruthSignal<R>,
        state: &WsDispatchState,
        ts_now: UnixNanos,
    ) -> (action: TruthAction<R, P>)
        ensures
            final(self)@.wf(),
            final(self)@ == (TruthView { phase: final(self)@.phase, ..old(self)@ }),
            (final(self)@.phase, action@) == truth_step::<R, P>(
                old(self)@,
                state@,
                signal,
                ts_now,
            ),
            action matches TruthAction::Finish(Ok(report)) ==> report.exact_orders.wf(),
    {
        proof {
            use_type_invariant(&*self);
            lemma_step_keeps_wf::<R, P>(self@, state@, signal, ts_now);
        }
        let count: usize = self.request.exact_order_ids.len();
        let mut phase = TruthPhase::Over;
        core::mem::swap(&mut phase, &mut self.phase);
        let (next, action) = match (phase, signal) {
            (TruthPhase::Start, TruthSignal::Begin) => if self.request.client_id
                != self.client_id {
                (
                    TruthPhase::Over,
                    TruthAction::Finish(
                        Err(
                            TruthReportError::ClientIdMismatch {
                                expected: self.client_id.clone(),
                                actual: self.request.client_id.clone(),
                            },
                        ),
                    ),
                )
            } else if self.request.account_id != self.account_id {
                (
                    TruthPhase::Over,
                    TruthAction::Finish(
                        Err(
                            TruthReportError::AccountIdMismatch {
                                expected: self.account_id.clone(),
                                actual: self.request.account_id.clone(),
                            },
                        ),
                    ),
                )
            } else {
                (TruthPhase::Account, TruthAction::RequestAccount)
            },
            (TruthPhase::Account, TruthSignal::Account(Ok(facts))) => (
                TruthPhase::OpenOrders(facts),
                TruthAction::RequestOpenOrders(open_orders_query(&self.account_id)),
            ),
            (TruthPhase::Account, TruthSignal::Account(Err(text))) => (
                TruthPhase::Over,
                TruthAction::Finish(Err(TruthReportError::Account(text))),
            ),
            (TruthPhase::OpenOrders(facts), TruthSignal::OpenOrders(Ok(open_orders))) =>
                self.query_next(state, facts, open_orders, ExactOrders::new(), 0, ts_now),
            (TruthPhase::OpenOrders(_), TruthSignal::OpenOrders(Err(text))) => (
                TruthPhase::Over,
                TruthAction::Finish(Err(TruthReportError::OpenOrders(text))),
            ),
            (
                TruthPhase::Exact { facts, open_orders, exact_orders, answered },
                TruthSignal::Exact(Ok(found)),
            ) => {
                let result = match found {
                    Some(report) => ExactOrderQueryResult::Found(Box::new(report)),
                    None => ExactOrderQueryResult::NotFound,
                };
                assert(answered < count);
                let mut exact_orders = exact_orders;
                exact_orders.insert(self.request.exact_order_ids[answered].clone(), result);
                self.query_next(state, facts, open_orders, exact_orders, answered + 1, ts_now)
            },
            (TruthPhase::Exact { answered, .. }, TruthSignal::Exact(Err(text))) => (
                TruthPhase::Over,
                TruthAction::Finish(
                    Err(
                        TruthReportError::ExactOrder {
                            client_order_id: self.request.exact_order_ids[answered].clone(),
                            detail: text,
                        },
                    ),
                ),
            ),
            (phase, _) => (phase, TruthAction::Ignore),
        };
        self.phase = next;
        action
    }
}

proof fn lemma_step_keeps_wf<R, P>(
    truth: TruthView<R>,
    state: DispatchView,
    signal: TruthSignal<R>,
    ts_now: UnixNanos,
)
    requires
        truth.wf(),
    ensures
        (TruthView { phase: truth_step::<R, P>(truth, state, signal, ts_now).0, ..truth }).wf(),
        truth_step::<R, P>(truth, state, signal, ts_now).1 matches TruthActionView::Report(report)
            ==> forall|id: Seq<char>| #[trigger]
            report.exact_orders.contains_key(id) <==> truth.names(
                id,
                truth.request.exact_order_ids@.len() as int,
            ),
{
    let ids = truth.request.exact_order_ids@;
    let (phase, action) = truth_step::<R, P>(truth, state, signal, ts_now);
    let after = TruthView { phase, ..truth };
    assert forall|id: Seq<char>, n: int| #[trigger] after.names(id, n) == truth.names(id, n) by {
        if after.names(id, n) {
            let k = choose|k: int|
                0 <= k < n && k < ids.len() && #[trigger] after.request.exact_order_ids@[k]@ == id;
            assert(truth.request.exact_order_ids@[k]@ == id);
        }
        if truth.names(id, n) {
            let k = choose|k: int|
                0 <= k < n && k < ids.len() && #[trigger] truth.request.exact_order_ids@[k]@ == id;
            assert(after.request.exact_order_ids@[k]@ == id);
        }
    }
    if let TruthPhaseView::Exact { exact_orders, answered, .. } = truth.phase {
        let n = answered as int;
        let m = n + 1;
        assert(ids.len() == truth.request.exact_order_ids.len());
        assert(m as usize == m);
        assert forall|id: Seq<char>| #[trigger] truth.names(id, m) <==> truth.names(id, n) || id
            == ids[n]@ by {
            if truth.names(id, m) {
                let k = choose|k: int|
                    0 <= k < m && k < ids.len()
                        && #[trigger] truth.request.exact_order_ids@[k]@ == id;
                if k < n {
                    assert(truth.names(id, n));
                }
            }
            if truth.names(id, n) {
                let k = choose|k: int|
                    0 <= k < n && k < ids.len()
                        && #[trigger] truth.request.exact_order_ids@[k]@ == id;
                assert(truth.names(id, m));
            }
            if id == ids[n]@ {
                assert(truth.request.exact_order_ids@[n]@ == id);
            }
        }
    }
}

/// A request to another client or about another account is refused before anything is asked of
/// the venue.
pub proof fn law_misdirected_request_is_refused<R, P>(
    truth: TruthView<R>,
    state: DispatchView,
    signal: TruthSignal<R>,
    ts_now: UnixNanos,
)
    requires
        truth.phase is Start,
        truth.request.client_id@ != truth.client_id@ || truth.request.account_id@
            != truth.account_id@,
    ensures
        ({
            let (phase, action) = truth_step::<R, P>(truth, state, signal, ts_now);
            &&& action is Fail || action is Ignore
            &&& signal is Begin ==> action is Fail && phase is Over
        }),
{
}

/// The venue is asked for the open orders of this account and nothing narrower, and about an order
/// only if the client submitted it: by its client order ID, on the instrument that it was submitted
/// for.
pub proof fn law_only_own_orders_are_queried<R, P>(
    truth: TruthView<R>,
    state: DispatchView,
    signal: TruthSignal<R>,
    ts_now: UnixNanos,
)
    ensures
        truth_step::<R, P>(truth, state, signal, ts_now).1 matches TruthActionView::RequestOpenOrders(
            query,
        ) ==> query == open_orders_of(truth.account_id),
        truth_step::<R, P>(truth, state, signal, ts_now).1 matches TruthActionView::RequestExact(
            query,
        ) ==> (query.client_order_id matches Some(id) && {
            &&& state.order_identities.contains_key(id@)
            &&& query == exact_order_of(
                truth.account_id,
                state.order_identities[id@].instrument_id,
                id,
            )
        }),
{
}

/// A signal, the orders known when it came, and when that was.
pub struct TruthEvent<R> {
    /// The signal.
    pub signal: TruthSignal<R>,
    /// Orders and requests under way.
    pub state: DispatchView,
    /// When it came.
    pub ts_now: UnixNanos,
}

/// What an event moves a truth report to, and what it calls for.
pub open spec fn truth_event<R, P>(truth: TruthView<R>, event: TruthEvent<R>) -> TruthStep<R, P> {
    truth_step(truth, event.state, event.signal, event.ts_now)
}

/// A truth report after a history of events.
pub open spec fn truth_run<R, P>(truth: TruthView<R>, events: Seq<TruthEvent<R>>) -> TruthView<R>
    decreases events.len(),
{
    if events.len() == 0 {
        truth
    } else {
        let before = truth_run::<R, P>(truth, events.drop_last());
        TruthView { phase: truth_event::<R, P>(before, events.last()).0, ..before }
    }
}

/// What the venue answered to the queries of a truth report.
pub struct VenueAnswers<R> {
    /// What it said of the account.
    pub facts: Option<AccountFacts>,
    /// The open orders that it named.
    pub open_orders: Option<Vec<R>>,
    /// What it said of the orders that it was asked about one by one, in the order of the queries.
    pub exact: Seq<Option<R>>,
}

/// The answers of the venue in a history of events: each is the answer to the query that was waited
/// for when it came.
pub open spec fn venue_answers<R, P>(
    truth: TruthView<R>,
    events: Seq<TruthEvent<R>>,
) -> VenueAnswers<R>
    decreases events.len(),
{
    if events.len() == 0 {
        VenueAnswers { facts: None, open_orders: None, exact: Seq::empty() }
    } else {
        let before = truth_run::<R, P>(truth, events.drop_last());
        let answers = venue_answers::<R, P>(truth, events.drop_last());
        match (before.phase, events.last().signal) {
            (TruthPhaseView::Account, TruthSignal::Account(Ok(facts))) => VenueAnswers {
                facts: Some(facts),
                ..answers
            },
            (TruthPhaseView::OpenOrders(_), TruthSignal::OpenOrders(Ok(open_orders))) =>
                VenueAnswers { open_orders: Some(open_orders), ..answers },
            (TruthPhaseView::Exact { .. }, TruthSignal::Exact(Ok(found))) => VenueAnswers {
                exact: answers.exact.push(found),
                ..answers
            },
            _ => answers,
        }
    }
}

/// The results for the orders `ids` once the first of them got these answers.
pub open spec fn results_of<R>(ids: Seq<ClientOrderId>, answers: Seq<Option<R>>) -> Map<
    Seq<char>,
    ExactOrderQueryResult<R>,
>
    decreases answers.len(),
{
    if answers.len() == 0 {
        Map::empty()
    } else {
        results_of(ids, answers.drop_last()).insert(
            ids[answers.len() - 1]@,
            exact_result(answers.last()),
        )
    }
}

/// Whether the order at `k` is not named again later.
pub open spec fn named_last(ids: Seq<ClientOrderId>, k: int) -> bool {
    &&& 0 <= k < ids.len()
    &&& forall|j: int| k < j < ids.len() ==> #[trigger] ids[j]@ != ids[k]@
}

proof fn lemma_result_at<R>(ids: Seq<ClientOrderId>, answers: Seq<Option<R>>, k: int)
    requires
        0 <= k < answers.len(),
        forall|j: int| k < j < answers.len() ==> #[trigger] ids[j]@ != ids[k]@,
    ensures
        results_of(ids, answers).contains_key(ids[k]@),
        results_of(ids, answers)[ids[k]@] == exact_result(answers[k]),
    decreases answers.len(),
{
    if k < answers.len() - 1 {
        assert(ids[answers.len() - 1]@ != ids[k]@);
        lemma_result_at(ids, answers.drop_last(), k);
    }
}

/// What a truth report on its way holds is what the venue answered.
proof fn lemma_run_holds_answers<R, P>(truth: TruthView<R>, events: Seq<TruthEvent<R>>)
    requires
        truth.phase is Start,
    ensures
        ({
            let after = truth_run::<R, P>(truth, events);
            let answers = venue_answers::<R, P>(truth, events);
            &&& after == TruthView { phase: after.phase, ..truth }
            &&& after.wf()
            &&& match after.phase {
                TruthPhaseView::Start => answers.exact.len() == 0,
                TruthPhaseView::Account => answers.exact.len() == 0,
                TruthPhaseView::OpenOrders(facts) => answers.facts == Some(facts)
                    && answers.exact.len() == 0,
                TruthPhaseView::Exact { facts, open_orders, exact_orders, answered } => {
                    &&& answers.facts == Some(facts)
                    &&& answers.open_orders == Some(open_orders)
                    &&& answers.exact.len() == answered
                    &&& exact_orders == results_of(truth.request.exact_order_ids@, answers.exact)
                },
                TruthPhaseView::Over => true,
            }
        }),
    decreases events.len(),
{
    if events.len() > 0 {
        lemma_run_holds_answers::<R, P>(truth, events.drop_last());
        let before = truth_run::<R, P>(truth, events.drop_last());
        let event = events.last();
        lemma_step_keeps_wf::<R, P>(before, event.state, event.signal, event.ts_now);
        let answers = venue_answers::<R, P>(truth, events);
        if before.phase is Exact && answers.exact.len() > 0 {
            assert(truth.request.exact_order_ids@.len() == truth.request.exact_order_ids.len());
            if event.signal matches TruthSignal::Exact(Ok(found)) {
                let earlier = venue_answers::<R, P>(truth, events.drop_last());
                assert(answers.exact.drop_last() =~= earlier.exact);
            }
        }
    }
}

/// A truth report says what the venue answered to this very request: the request asks this client
/// about its account; account, balances and open orders are those answered; and each order of the
/// request, and no other, has the result that its query was answered with, the last one if the
/// request names it repeatedly.
pub proof fn law_report_is_what_the_venue_answered<R, P>(
    truth: TruthView<R>,
    events: Seq<TruthEvent<R>>,
)
    requires
        truth.phase is Start,
        events.len() > 0,
    ensures
        truth_event::<R, P>(
            truth_run::<R, P>(truth, events.drop_last()),
            events.last(),
        ).1 matches TruthActionView::Report(report) ==> {
            let ids = truth.request.exact_order_ids@;
            let answers = venue_answers::<R, P>(truth, events);
            &&& truth.addressed()
            &&& report.request_id == truth.request.request_id
            &&& report.client_id == truth.client_id
            &&& report.account_id == truth.account_id
            &&& report.positions.len() == 0
            &&& report.ts_received == events.last().ts_now
            &&& answers.facts matches Some(facts) && report.balances == facts.balances@
                && report.mode == (BinanceModeProof::Spot {
                can_trade: facts.can_trade,
                account_type: facts.account_type,
            })
            &&& answers.open_orders matches Some(open_orders) && report.open_orders == open_orders@
            &&& answers.exact.len() == ids.len()
            &&& forall|k: int| #[trigger]
                named_last(ids, k) ==> report.exact_orders.contains_key(ids[k]@)
                    && report.exact_orders[ids[k]@] == exact_result(answers.exact[k])
            &&& forall|id: Seq<char>| #[trigger]
                report.exact_orders.contains_key(id) <==> truth.names(id, ids.len() as int)
        },
{
    let ids = truth.request.exact_order_ids@;
    let before = truth_run::<R, P>(truth, events.drop_last());
    let event = events.last();
    let earlier = venue_answers::<R, P>(truth, events.drop_last());
    let answers = venue_answers::<R, P>(truth, events);
    lemma_run_holds_answers::<R, P>(truth, events.drop_last());
    lemma_step_keeps_wf::<R, P>(before, event.state, event.signal, event.ts_now);
    if let TruthActionView::Report(report) = truth_event::<R, P>(before, event).1 {
        assert(ids.len() == truth.request.exact_order_ids.len());
        if before.phase is Exact {
            assert(answers.exact.drop_last() =~= earlier.exact);
        }
        assert(report.exact_orders =~= results_of(ids, answers.exact));
        assert forall|k: int| #[trigger] named_last(ids, k) implies report.exact_orders.contains_key(
            ids[k]@,
        ) && report.exact_orders[ids[k]@] == exact_result(answers.exact[k]) by {
            lemma_result_at(ids, answers.exact, k);
        }
    }
}

/// The orders of a request are queried in its order: whenever an order is queried, it is the one
/// whose answer is due next, and its answer is waited for.
pub proof fn law_queries_follow_the_request<R, P>(truth: TruthView<R>, events: Seq<TruthEvent<R>>)
    requires
        truth.phase is Start,
        events.len() > 0,
    ensures
        truth_event::<R, P>(
            truth_run::<R, P>(truth, events.drop_last()),
            events.last(),
        ).1 matches TruthActionView::RequestExact(query) ==> {
            let due = venue_answers::<R, P>(truth, events).exact.len() as int;
            &&& truth_run::<R, P>(truth, events).phase is Exact
            &&& due < truth.request.exact_order_ids@.len()
            &&& query.client_order_id == Some(truth.request.exact_order_ids@[due])
        },
{
    lemma_run_holds_answers::<R, P>(truth, events);
    lemma_run_holds_answers::<R, P>(truth, events.drop_last());
}

} // verus!

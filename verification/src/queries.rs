//! Queries of orders and fills: what the venue is asked, and how its answers are presented.

use crate::binance_truth::OrderStatusReport;
use crate::commands::ClientScope;
use crate::dispatch::venue_text;
use crate::enums::OrderStatus;
use crate::identifiers::{
    AccountId, ClientId, ClientOrderId, InstrumentId, UnixNanos, VenueOrderId, NANOS_PER_MINUTE,
};
use vstd::prelude::*;

verus! {

/// The status that is presented for a status: an expired order counts as canceled where the
/// client is configured so.
pub open spec fn presented(status: OrderStatus, treat_expired_as_canceled: bool) -> OrderStatus {
    if treat_expired_as_canceled && status == OrderStatus::Expired {
        OrderStatus::Canceled
    } else {
        status
    }
}

/// The report that is presented for a report.
pub open spec fn presented_report<D>(
    report: OrderStatusReport<D>,
    treat_expired_as_canceled: bool,
) -> OrderStatusReport<D> {
    OrderStatusReport {
        order_status: presented(report.order_status, treat_expired_as_canceled),
        ..report
    }
}

/// Presents a report of an order.
pub fn normalize_spot_order_status_report<D>(
    report: &mut OrderStatusReport<D>,
    treat_expired_as_canceled: bool,
)
    ensures
        *final(report) == presented_report(*old(report), treat_expired_as_canceled),
{
    if treat_expired_as_canceled && report.order_status == OrderStatus::Expired {
        report.order_status = OrderStatus::Canceled;
    }
}

/// Presents a list of reports.
pub fn normalize_spot_order_status_reports<D>(
    reports: &mut Vec<OrderStatusReport<D>>,
    treat_expired_as_canceled: bool,
)
    ensures
        final(reports)@ == old(reports)@.map_values(
            |report: OrderStatusReport<D>| presented_report(report, treat_expired_as_canceled),
        ),
{
    let ghost before = reports@;
    let count: usize = reports.len();
    let mut i: usize = 0;
    while i < count
        invariant
            i <= count,
            count == before.len(),
            reports@.len() == count,
            forall|k: int|
                0 <= k < i ==> #[trigger] reports@[k] == presented_report(
                    before[k],
                    treat_expired_as_canceled,
                ),
            forall|k: int| i <= k < count ==> #[trigger] reports@[k] == before[k],
        decreases count - i,
    {
        normalize_spot_order_status_report(&mut reports[i], treat_expired_as_canceled);
        i = i + 1;
    }
    proof {
        let expected = before.map_values(
            |report: OrderStatusReport<D>| presented_report(report, treat_expired_as_canceled),
        );
        assert(reports@ =~= expected);
    }
}

/// A query of one order.
#[derive(Debug)]
pub struct OrderQuery {
    /// Account of the order.
    pub account_id: AccountId,
    /// Instrument of the order.
    pub instrument_id: InstrumentId,
    /// Venue order ID, where it is known.
    pub venue_order_id: Option<VenueOrderId>,
    /// Client order ID, where it is known.
    pub client_order_id: Option<ClientOrderId>,
}

/// A query of the fills on one instrument.
#[derive(Debug)]
pub struct FillQuery {
    /// Account of the fills.
    pub account_id: AccountId,
    /// Instrument of the fills.
    pub instrument_id: InstrumentId,
    /// Order, where only its fills are asked for.
    pub venue_order_id: Option<VenueOrderId>,
    /// Earliest time, where there is one.
    pub start: Option<UnixNanos>,
    /// Latest time, where there is one.
    pub end: Option<UnixNanos>,
}

/// A query of all orders.
#[derive(Debug)]
pub struct OrdersQuery {
    /// Account of the orders.
    pub account_id: AccountId,
    /// Instrument, where only its orders are asked for.
    pub instrument_id: Option<InstrumentId>,
    /// Earliest time, where there is one.
    pub start: Option<UnixNanos>,
    /// Latest time, where there is one.
    pub end: Option<UnixNanos>,
    /// Whether only open orders are asked for.
    pub open_only: bool,
}

/// A command to report the status of an order.
#[derive(Debug)]
pub struct GenerateOrderStatusReport {
    /// Instrument of the order, where it is known.
    pub instrument_id: Option<InstrumentId>,
    /// Client order ID, where it is known.
    pub client_order_id: Option<ClientOrderId>,
    /// Venue order ID, where it is known.
    pub venue_order_id: Option<VenueOrderId>,
}

/// A command to report fills.
#[derive(Debug)]
pub struct GenerateFillReports {
    /// Instrument of the fills, where it is known.
    pub instrument_id: Option<InstrumentId>,
    /// Order, where only its fills are asked for.
    pub venue_order_id: Option<VenueOrderId>,
    /// Earliest time, where there is one.
    pub start: Option<UnixNanos>,
    /// Latest time, where there is one.
    pub end: Option<UnixNanos>,
}

/// A command to report the status of all orders.
#[derive(Debug)]
pub struct GenerateOrderStatusReports {
    /// Instrument, where only its orders are asked for.
    pub instrument_id: Option<InstrumentId>,
    /// Earliest time, where there is one.
    pub start: Option<UnixNanos>,
    /// Latest time, where there is one.
    pub end: Option<UnixNanos>,
    /// Whether only open orders are asked for.
    pub open_only: bool,
}

/// A command to query an order.
#[derive(Debug)]
pub struct QueryOrder {
    /// Instrument of the order.
    pub instrument_id: InstrumentId,
    /// Order.
    pub client_order_id: ClientOrderId,
    /// Venue order ID, where it is known.
    pub venue_order_id: Option<VenueOrderId>,
}

/// The query that a command to query an order leads to.
pub open spec fn queried_order(account_id: AccountId, cmd: QueryOrder) -> OrderQuery {
    OrderQuery {
        account_id,
        instrument_id: cmd.instrument_id,
        venue_order_id: cmd.venue_order_id,
        client_order_id: Some(cmd.client_order_id),
    }
}

/// The query for the status of all orders that a command asks for.
pub open spec fn queried_orders(
    account_id: AccountId,
    cmd: GenerateOrderStatusReports,
) -> OrdersQuery {
    OrdersQuery {
        account_id,
        instrument_id: cmd.instrument_id,
        start: cmd.start,
        end: cmd.end,
        open_only: cmd.open_only,
    }
}

/// The query for an order status report that a command asks for, if it names an instrument.
pub open spec fn queried_status(
    account_id: AccountId,
    cmd: GenerateOrderStatusReport,
) -> Option<OrderQuery> {
    match cmd.instrument_id {
        None => None,
        Some(instrument_id) => Some(
            OrderQuery {
                account_id,
                instrument_id,
                venue_order_id: cmd.venue_order_id,
                client_order_id: cmd.client_order_id,
            },
        ),
    }
}

/// The query for fill reports that a command asks for, if it names an instrument.
pub open spec fn queried_fills(account_id: AccountId, cmd: GenerateFillReports) -> Option<
    FillQuery,
> {
    match cmd.instrument_id {
        None => None,
        Some(instrument_id) => Some(
            FillQuery {
                account_id,
                instrument_id,
                venue_order_id: cmd.venue_order_id,
                start: cmd.start,
                end: cmd.end,
            },
        ),
    }
}

/// The query of a mass status.
pub open spec fn queried_mass(
    account_id: AccountId,
    lookback_mins: Option<u64>,
    ts_now: UnixNanos,
) -> OrdersQuery {
    OrdersQuery {
        account_id,
        instrument_id: None,
        start: match lookback_mins {
            Some(minutes) => Some(lookback_start(ts_now, minutes)),
            None => None,
        },
        end: None,
        open_only: true,
    }
}

/// The query that a command to query an order leads to.
pub fn query_order(account_id: &AccountId, cmd: &QueryOrder) -> (query: OrderQuery)
    ensures
        query == (OrderQuery {
            account_id: *account_id,
            instrument_id: cmd.instrument_id,
            venue_order_id: cmd.venue_order_id,
            client_order_id: Some(cmd.client_order_id),
        }),
        query == queried_order(*account_id, *cmd),
{
    OrderQuery {
        account_id: account_id.clone(),
        instrument_id: cmd.instrument_id.clone(),
        venue_order_id: cmd.venue_order_id.clone(),
        client_order_id: Some(cmd.client_order_id.clone()),
    }
}

/// The query for every open order of an account.
pub open spec fn open_orders_of(account_id: AccountId) -> OrdersQuery {
    OrdersQuery { account_id, instrument_id: None, start: None, end: None, open_only: true }
}

/// The query for every open order of an account.
pub fn open_orders_query(account_id: &AccountId) -> (query: OrdersQuery)
    ensures
        query == open_orders_of(*account_id),
{
    OrdersQuery {
        account_id: account_id.clone(),
        instrument_id: None,
        start: None,
        end: None,
        open_only: true,
    }
}

/// The query for one order of an account by its client order ID alone.
pub open spec fn exact_order_of(
    account_id: AccountId,
    instrument_id: InstrumentId,
    client_order_id: ClientOrderId,
) -> OrderQuery {
    OrderQuery {
        account_id,
        instrument_id,
        venue_order_id: None,
        client_order_id: Some(client_order_id),
    }
}

/// The query for one order of an account by its client order ID alone.
pub fn exact_order_query(
    account_id: &AccountId,
    instrument_id: InstrumentId,
    client_order_id: &ClientOrderId,
) -> (query: OrderQuery)
    ensures
        query == exact_order_of(*account_id, instrument_id, *client_order_id),
{
    OrderQuery {
        account_id: account_id.clone(),
        instrument_id,
        venue_order_id: None,
        client_order_id: Some(client_order_id.clone()),
    }
}

/// The query for the status of all orders.
pub fn generate_order_status_reports(
    account_id: &AccountId,
    cmd: &GenerateOrderStatusReports,
) -> (query: OrdersQuery)
    ensures
        query == (OrdersQuery {
            account_id: *account_id,
            instrument_id: cmd.instrument_id,
            start: cmd.start,
            end: cmd.end,
            open_only: cmd.open_only,
        }),
        query == queried_orders(*account_id, *cmd),
{
    OrdersQuery {
        account_id: account_id.clone(),
        instrument_id: cmd.instrument_id.clone(),
        start: cmd.start,
        end: cmd.end,
        open_only: cmd.open_only,
    }
}

/// The query for an order status report. Without an instrument the venue cannot be asked.
pub fn generate_order_status_report(
    account_id: &AccountId,
    cmd: &GenerateOrderStatusReport,
) -> (query: Option<OrderQuery>)
    ensures
        query == match cmd.instrument_id {
            None => None,
            Some(instrument_id) => Some(
                OrderQuery {
                    account_id: *account_id,
                    instrument_id,
                    venue_order_id: cmd.venue_order_id,
                    client_order_id: cmd.client_order_id,
                },
            ),
        },
        query == queried_status(*account_id, *cmd),
{
    match &cmd.instrument_id {
        None => None,
        Some(instrument_id) => Some(
            OrderQuery {
                account_id: account_id.clone(),
                instrument_id: instrument_id.clone(),
                venue_order_id: cmd.venue_order_id.clone(),
                client_order_id: cmd.client_order_id.clone(),
            },
        ),
    }
}

/// The query for fill reports. Without an instrument the venue cannot be asked.
pub fn generate_fill_reports(account_id: &AccountId, cmd: &GenerateFillReports) -> (query: Option<
    FillQuery,
>)
    ensures
        query == match cmd.instrument_id {
            None => None,
            Some(instrument_id) => Some(
                FillQuery {
                    account_id: *account_id,
                    instrument_id,
                    venue_order_id: cmd.venue_order_id,
                    start: cmd.start,
                    end: cmd.end,
                },
            ),
        },
        query == queried_fills(*account_id, *cmd),
{
    match &cmd.instrument_id {
        None => None,
        Some(instrument_id) => Some(
            FillQuery {
                account_id: account_id.clone(),
                instrument_id: instrument_id.clone(),
                venue_order_id: cmd.venue_order_id.clone(),
                start: cmd.start,
                end: cmd.end,
            },
        ),
    }
}

/// The report that is presented for the answer to a query of one order.
pub open spec fn presented_answer<D>(
    found: Option<OrderStatusReport<D>>,
    treat_expired_as_canceled: bool,
) -> Option<OrderStatusReport<D>> {
    match found {
        Some(found) => Some(presented_report(found, treat_expired_as_canceled)),
        None => None,
    }
}

/// The report that is presented for the answer to a query of one order.
pub fn present_order_status_report<D>(
    found: Option<OrderStatusReport<D>>,
    treat_expired_as_canceled: bool,
) -> (report: Option<OrderStatusReport<D>>)
    ensures
        report == match found {
            Some(found) => Some(presented_report(found, treat_expired_as_canceled)),
            None => None,
        },
        report == presented_answer(found, treat_expired_as_canceled),
{
    match found {
        Some(found) => {
            let mut report = found;
            normalize_spot_order_status_report(&mut report, treat_expired_as_canceled);
            Some(report)
        },
        None => None,
    }
}

/// The time `minutes` before `now`, but not before the epoch.
pub open spec fn lookback_start(now: UnixNanos, minutes: u64) -> UnixNanos {
    let span = minutes * NANOS_PER_MINUTE;
    if span > now.0 {
        UnixNanos(0)
    } else {
        UnixNanos((now.0 - span) as u64)
    }
}

/// The query of a mass status: all open orders of the account. The venue needs an instrument for
/// orders that are no longer open, so they are not asked for.
pub fn generate_mass_status(
    account_id: &AccountId,
    lookback_mins: Option<u64>,
    ts_now: UnixNanos,
) -> (query: OrdersQuery)
    requires
        lookback_mins matches Some(minutes) ==> minutes * NANOS_PER_MINUTE <= u64::MAX,
    ensures
        query == (OrdersQuery {
            account_id: *account_id,
            instrument_id: None,
            start: match lookback_mins {
                Some(minutes) => Some(lookback_start(ts_now, minutes)),
                None => None,
            },
            end: None,
            open_only: true,
        }),
        query == queried_mass(*account_id, lookback_mins, ts_now),
{
    let start = match lookback_mins {
        Some(minutes) => {
            let span: u64 = minutes * NANOS_PER_MINUTE;
            Some(UnixNanos(ts_now.0.saturating_sub(span)))
        },
        None => None,
    };
    OrdersQuery {
        account_id: account_id.clone(),
        instrument_id: None,
        start,
        end: None,
        open_only: true,
    }
}

/// The mass status of a client: its open orders and positions at a time. `R` is the report of an
/// order and `P` that of a position.
#[derive(Debug)]
pub struct ExecutionMassStatus<R, P> {
    /// Client that reports.
    pub client_id: ClientId,
    /// Account that the status is about.
    pub account_id: AccountId,
    /// Venue of the account.
    pub venue: String,
    /// When the status was asked for.
    pub ts_init: UnixNanos,
    /// Reports of the orders.
    pub order_reports: Vec<R>,
    /// Reports of the positions.
    pub position_reports: Vec<P>,
}

/// Whether `status` is the mass status that the venue's answers make.
pub open spec fn mass_status_is<D, P>(
    status: ExecutionMassStatus<OrderStatusReport<D>, P>,
    scope: ClientScope,
    found: Seq<OrderStatusReport<D>>,
    positions: Seq<P>,
    treat_expired_as_canceled: bool,
    ts_now: UnixNanos,
) -> bool {
    &&& status.client_id == scope.client_id
    &&& status.account_id == scope.account_id
    &&& status.venue@ == venue_text()
    &&& status.ts_init == ts_now
    &&& status.order_reports@.len() == found.len()
    &&& forall|i: int|
        0 <= i < found.len() ==> #[trigger] status.order_reports@[i] == presented_report(
            found[i],
            treat_expired_as_canceled,
        )
    &&& status.position_reports@ == positions
}

/// The mass status that the venue's answers make: the reports of the orders as they are presented,
/// under the client and its account.
pub fn mass_status<D, P>(
    scope: &ClientScope,
    found: Vec<OrderStatusReport<D>>,
    positions: Vec<P>,
    treat_expired_as_canceled: bool,
    ts_now: UnixNanos,
) -> (status: ExecutionMassStatus<OrderStatusReport<D>, P>)
    ensures
        status.client_id == scope.client_id,
        status.account_id == scope.account_id,
        status.venue@ == venue_text(),
        status.ts_init == ts_now,
        status.order_reports@ == found@.map_values(
            |report: OrderStatusReport<D>| presented_report(report, treat_expired_as_canceled),
        ),
        status.position_reports == positions,
        mass_status_is(status, *scope, found@, positions@, treat_expired_as_canceled, ts_now),
{
    let mut order_reports = found;
    normalize_spot_order_status_reports(&mut order_reports, treat_expired_as_canceled);
    ExecutionMassStatus {
        client_id: scope.client_id.clone(),
        account_id: scope.account_id.clone(),
        venue: "BINANCE".to_owned(),
        ts_init: ts_now,
        order_reports,
        position_reports: positions,
    }
}

/// Presenting a report a second time changes nothing, and only expired orders are presented
/// otherwise than they are.
pub proof fn law_presentation_is_stable<D>(report: OrderStatusReport<D>, treat_expired_as_canceled: bool)
    ensures
        ({
            let shown = presented_report(report, treat_expired_as_canceled);
            &&& presented_report(shown, treat_expired_as_canceled) == shown
            &&& report.order_status != OrderStatus::Expired ==> shown == report
            &&& !treat_expired_as_canceled ==> shown == report
            &&& treat_expired_as_canceled ==> shown.order_status != OrderStatus::Expired
        }),
{
}

/// A mass status never looks into the future, nor back further than asked.
pub proof fn law_lookback_is_bounded(now: UnixNanos, minutes: u64)
    ensures
        lookback_start(now, minutes).0 <= now.0,
        now.0 - lookback_start(now, minutes).0 <= minutes * NANOS_PER_MINUTE,
{
}

} // verus!

//! Identity-correlated Binance safety-truth and private-stream reports.

use crate::enums::OrderStatus;
use crate::identifiers::{
    AccountId, ClientId, ClientOrderId, InstrumentId, UnixNanos, VenueOrderId, UUID4,
};
use crate::types::{Money, Price, Quantity};
use vstd::prelude::*;
use vstd::string::*;

verus! {

/// Correlation identity for one strict execution truth request.
pub type ReportRequestId = UUID4;

/// Lifecycle state of an authenticated private execution stream.
#[derive(Clone, Copy, Debug, PartialEq, Eq, Structural)]
pub enum PrivateStreamState {
    /// Connected, and not yet reconciled.
    Reconciling,
    /// In service.
    Ready,
    /// Not up to date.
    Stale,
    /// Out of service.
    Failed,
}

/// Client-scoped health for one private execution stream generation.
#[derive(Debug, PartialEq, Eq)]
pub struct PrivateStreamHealth {
    /// Client that owns the stream.
    pub client_id: ClientId,
    /// Lifecycle state.
    pub state: PrivateStreamState,
    /// Connection generation.
    pub generation: u64,
    /// Whether the session is authenticated.
    pub authenticated: bool,
    /// Whether the user data is subscribed.
    pub subscribed: bool,
    /// When the stream was last heard of.
    pub last_heartbeat: Option<UnixNanos>,
    /// What there is to explain about the state.
    pub detail: Option<String>,
}

/// Stream health with its texts as character sequences.
#[verifier::ext_equal]
pub struct StreamHealthView {
    /// Client that owns the stream.
    pub client_id: Seq<char>,
    /// Lifecycle state.
    pub state: PrivateStreamState,
    /// Connection generation.
    pub generation: u64,
    /// Whether the session is authenticated.
    pub authenticated: bool,
    /// Whether the user data is subscribed.
    pub subscribed: bool,
    /// When the stream was last heard of.
    pub last_heartbeat: Option<UnixNanos>,
    /// What there is to explain about the state.
    pub detail: Option<Seq<char>>,
}

impl View for PrivateStreamHealth {
    type V = StreamHealthView;

    open spec fn view(&self) -> StreamHealthView {
        StreamHealthView {
            client_id: self.client_id@,
            state: self.state,
            generation: self.generation,
            authenticated: self.authenticated,
            subscribed: self.subscribed,
            last_heartbeat: self.last_heartbeat,
            detail: match self.detail {
                Some(d) => Some(d@),
                None => None,
            },
        }
    }
}

impl Clone for PrivateStreamHealth {
    fn clone(&self) -> (copy: Self)
        ensures
            copy == *self,
    {
        PrivateStreamHealth {
            client_id: self.client_id.clone(),
            state: self.state,
            generation: self.generation,
            authenticated: self.authenticated,
            subscribed: self.subscribed,
            last_heartbeat: self.last_heartbeat,
            detail: self.detail.clone(),
        }
    }
}

/// Status of one order as the venue reports it. Whatever the venue says of the order beyond the
/// fields here is in `rest`, and is handed on as it is.
#[derive(Debug, PartialEq, Eq)]
pub struct OrderStatusReport<D> {
    /// Account of the order.
    pub account_id: AccountId,
    /// Instrument of the order.
    pub instrument_id: InstrumentId,
    /// Client order ID, where the venue knows one.
    pub client_order_id: Option<ClientOrderId>,
    /// Venue order ID.
    pub venue_order_id: VenueOrderId,
    /// Status of the order.
    pub order_status: OrderStatus,
    /// Quantity of the order.
    pub quantity: Quantity,
    /// Quantity filled so far.
    pub filled_qty: Quantity,
    /// Limit price, where there is one.
    pub price: Option<Price>,
    /// When the report was made.
    pub ts_init: UnixNanos,
    /// What else the venue says of the order.
    pub rest: D,
}

/// Balance of one currency.
#[derive(Debug, PartialEq, Eq)]
pub struct AccountBalance {
    /// All of it.
    pub total: Money,
    /// The part that is reserved.
    pub locked: Money,
    /// The part that is free.
    pub free: Money,
}

/// One exact-order result, including authoritative venue absence. `R` is the report of an order.
#[derive(Debug, PartialEq, Eq)]
pub enum ExactOrderQueryResult<R> {
    /// The venue knows the order.
    Found(Box<R>),
    /// The venue does not know the order.
    NotFound,
}

/// Account and product-mode facts that must survive adapter conversion.
#[derive(Debug, PartialEq, Eq)]
pub enum BinanceModeProof {
    /// Facts of a Spot account.
    Spot {
        /// Whether the account may trade.
        can_trade: bool,
        /// Account type that the venue names.
        account_type: String,
    },
    /// Facts of a USD-M account.
    UsdM {
        /// Whether the account may trade.
        can_trade: bool,
        /// Whether positions are held per side.
        dual_side_position: bool,
        /// Whether margin is shared between assets.
        multi_assets_margin: bool,
    },
}

/// Whether `a` comes before `b` in the order of their characters.
pub open spec fn precedes(a: Seq<char>, b: Seq<char>) -> bool
    decreases a.len(),
{
    if b.len() == 0 {
        false
    } else if a.len() == 0 {
        true
    } else if a[0] != b[0] {
        a[0] < b[0]
    } else {
        precedes(a.skip(1), b.skip(1))
    }
}

/// Nothing comes before itself.
pub proof fn lemma_precedes_irreflexive(a: Seq<char>)
    ensures
        !precedes(a, a),
    decreases a.len(),
{
    if a.len() > 0 {
        lemma_precedes_irreflexive(a.skip(1));
    }
}

/// Of two different texts one comes before the other.
pub proof fn lemma_precedes_total(a: Seq<char>, b: Seq<char>)
    ensures
        a == b || precedes(a, b) || precedes(b, a),
    decreases a.len(),
{
    if a.len() == 0 && b.len() == 0 {
        assert(a =~= b);
    } else if a.len() > 0 && b.len() > 0 && a[0] == b[0] {
        lemma_precedes_total(a.skip(1), b.skip(1));
        if a.skip(1) == b.skip(1) {
            assert(a =~= seq![a[0]] + a.skip(1));
            assert(b =~= seq![b[0]] + b.skip(1));
        }
    }
}

/// The order of texts is transitive.
pub proof fn lemma_precedes_transitive(a: Seq<char>, b: Seq<char>, c: Seq<char>)
    requires
        precedes(a, b),
        precedes(b, c),
    ensures
        precedes(a, c),
    decreases a.len(),
{
    if a.len() > 0 && a[0] == b[0] && b[0] == c[0] {
        lemma_precedes_transitive(a.skip(1), b.skip(1), c.skip(1));
    }
}

/// Whether `a` comes before `b` in the order of their characters.
fn text_precedes(a: &str, b: &str) -> (r: bool)
    ensures
        r == precedes(a@, b@),
{
    let a_len: usize = a.unicode_len();
    let b_len: usize = b.unicode_len();
    let mut i: usize = 0;
    assert(a@.skip(0) =~= a@);
    assert(b@.skip(0) =~= b@);
    while i < a_len && i < b_len
        invariant
            a_len == a@.len(),
            b_len == b@.len(),
            i <= a_len,
            i <= b_len,
            precedes(a@, b@) == precedes(a@.skip(i as int), b@.skip(i as int)),
        decreases a_len - i,
    {
        let x = a.get_char(i);
        let y = b.get_char(i);
        assert(a@.skip(i as int)[0] == x);
        assert(b@.skip(i as int)[0] == y);
        if x != y {
            return x < y;
        }
        assert(a@.skip(i as int).skip(1) =~= a@.skip(i + 1));
        assert(b@.skip(i as int).skip(1) =~= b@.skip(i + 1));
        i = i + 1;
    }
    i < b_len
}

/// Results of exact-order queries, one per client order ID, in the order of the IDs.
#[derive(Debug)]
pub struct ExactOrders<R> {
    entries: Vec<(ClientOrderId, ExactOrderQueryResult<R>)>,
}

/// Whether the IDs of `entries` ascend strictly.
pub open spec fn ascending<R>(entries: Seq<(ClientOrderId, ExactOrderQueryResult<R>)>) -> bool {
    forall|i: int, j: int|
        0 <= i < j < entries.len() ==> precedes(#[trigger] entries[i].0@, #[trigger] entries[j].0@)
}

/// Whether `entries` holds a result for `id`.
pub open spec fn has_entry<R>(
    entries: Seq<(ClientOrderId, ExactOrderQueryResult<R>)>,
    id: Seq<char>,
) -> bool {
    exists|i: int| 0 <= i < entries.len() && #[trigger] entries[i].0@ == id
}

/// The result that `entries` holds for `id`.
pub open spec fn entry_of<R>(
    entries: Seq<(ClientOrderId, ExactOrderQueryResult<R>)>,
    id: Seq<char>,
) -> ExactOrderQueryResult<R> {
    entries[choose|i: int| 0 <= i < entries.len() && #[trigger] entries[i].0@ == id].1
}

/// The results by client order ID.
pub open spec fn entries_map<R>(
    entries: Seq<(ClientOrderId, ExactOrderQueryResult<R>)>,
) -> Map<Seq<char>, ExactOrderQueryResult<R>> {
    Map::new(|id: Seq<char>| has_entry(entries, id), |id: Seq<char>| entry_of(entries, id))
}

/// In ascending entries an ID occurs once.
proof fn lemma_entry_at<R>(entries: Seq<(ClientOrderId, ExactOrderQueryResult<R>)>, i: int)
    requires
        ascending(entries),
        0 <= i < entries.len(),
    ensures
        has_entry(entries, entries[i].0@),
        entry_of(entries, entries[i].0@) == entries[i].1,
{
    let id = entries[i].0@;
    let k = choose|k: int| 0 <= k < entries.len() && #[trigger] entries[k].0@ == id;
    assert(0 <= k < entries.len() && entries[k].0@ == id);
    lemma_precedes_irreflexive(id);
    if k < i {
        assert(precedes(entries[k].0@, entries[i].0@));
    } else if i < k {
        assert(precedes(entries[i].0@, entries[k].0@));
    }
}

impl<R> View for ExactOrders<R> {
    type V = Map<Seq<char>, ExactOrderQueryResult<R>>;

    closed spec fn view(&self) -> Map<Seq<char>, ExactOrderQueryResult<R>> {
        entries_map(self.entries@)
    }
}

impl<R> ExactOrders<R> {
    /// The entries in order.
    pub closed spec fn listed(&self) -> Seq<(ClientOrderId, ExactOrderQueryResult<R>)> {
        self.entries@
    }

    /// The IDs ascend, so none occurs twice.
    #[verifier::type_invariant]
    pub open spec fn wf(&self) -> bool {
        ascending(self.listed())
    }

    /// No results.
    pub fn new() -> (r: Self)
        ensures
            r.wf(),
            r@ == Map::<Seq<char>, ExactOrderQueryResult<R>>::empty(),
            r.listed() == Seq::<(ClientOrderId, ExactOrderQueryResult<R>)>::empty(),
    {
        let entries: Vec<(ClientOrderId, ExactOrderQueryResult<R>)> = Vec::new();
        assert(entries_map(entries@) =~= Map::<Seq<char>, ExactOrderQueryResult<R>>::empty());
        ExactOrders { entries }
    }

    /// Records the result for an order, replacing an earlier one.
    pub fn insert(&mut self, id: ClientOrderId, result: ExactOrderQueryResult<R>)
        ensures
            final(self).wf(),
            final(self)@ == old(self)@.insert(id@, result),
    {
        proof {
            use_type_invariant(&*self);
        }
        let ghost before = self.entries@;
        let mut entries: Vec<(ClientOrderId, ExactOrderQueryResult<R>)> = Vec::new();
        core::mem::swap(&mut entries, &mut self.entries);
        let len: usize = entries.len();
        let mut at: usize = 0;
        while at < len && text_precedes(entries[at].0.as_str(), id.as_str())
            invariant
                len == entries@.len(),
                entries@ == before,
                at <= len,
                forall|i: int| 0 <= i < at ==> precedes(#[trigger] before[i].0@, id@),
            decreases len - at,
        {
            at = at + 1;
        }
        let ghost key = id@;
        if at < len && entries[at].0 == id {
            entries.set(at, (id, result));
            let ghost after = entries@;
            proof {
                assert forall|i: int, j: int| 0 <= i < j < after.len() implies precedes(
                    #[trigger] after[i].0@,
                    #[trigger] after[j].0@,
                ) by {
                    assert(after[i].0@ == before[i].0@ && after[j].0@ == before[j].0@);
                }
                assert forall|k: Seq<char>| #[trigger]
                    has_entry(after, k) == (k == key || has_entry(before, k)) by {
                    if has_entry(after, k) {
                        let i = choose|i: int| 0 <= i < after.len() && #[trigger] after[i].0@ == k;
                        assert(before[i].0@ == k);
                    }
                    if has_entry(before, k) {
                        let i = choose|i: int| 0 <= i < before.len() && #[trigger] before[i].0@ == k;
                        assert(after[i].0@ == k);
                    }
                    if k == key {
                        assert(after[at as int].0@ == k);
                    }
                }
                assert forall|k: Seq<char>| #[trigger]
                    has_entry(after, k) implies entry_of(after, k) == entries_map(before).insert(
                    key,
                    result,
                )[k] by {
                    let i = choose|i: int| 0 <= i < after.len() && #[trigger] after[i].0@ == k;
                    lemma_entry_at(after, i);
                    lemma_entry_at(before, i);
                    lemma_entry_at(after, at as int);
                    assert(before[i].0@ == k);
                    lemma_precedes_irreflexive(k);
                    if k == key && i != at {
                        if i < at {
                            assert(precedes(after[i].0@, after[at as int].0@));
                        } else {
                            assert(precedes(after[at as int].0@, after[i].0@));
                        }
                    }
                }
                assert(entries_map(after) =~= entries_map(before).insert(key, result));
            }
        } else {
            entries.insert(at, (id, result));
            let ghost after = entries@;
            proof {
                if at < len {
                    lemma_precedes_total(before[at as int].0@, key);
                }
                assert forall|i: int| at <= i < before.len() implies precedes(
                    key,
                    #[trigger] before[i].0@,
                ) by {
                    if i > at {
                        assert(precedes(before[at as int].0@, before[i].0@));
                        lemma_precedes_transitive(key, before[at as int].0@, before[i].0@);
                    }
                }
                assert(after =~= before.insert(at as int, (id, result)));
                assert forall|i: int, j: int| 0 <= i < j < after.len() implies precedes(
                    #[trigger] after[i].0@,
                    #[trigger] after[j].0@,
                ) by {
                    let bi = if i < at {
                        i
                    } else {
                        i - 1
                    };
                    let bj = if j < at {
                        j
                    } else {
                        j - 1
                    };
                    if i == at {
                        assert(after[j] == before[bj]);
                        assert(precedes(key, before[bj].0@));
                    } else if j == at {
                        assert(after[i] == before[bi]);
                        assert(precedes(before[bi].0@, key));
                    } else {
                        assert(after[i] == before[bi] && after[j] == before[bj]);
                        assert(precedes(before[bi].0@, before[bj].0@));
                    }
                }
                assert forall|k: Seq<char>| #[trigger]
                    has_entry(after, k) == (k == key || has_entry(before, k)) by {
                    if has_entry(after, k) {
                        let i = choose|i: int| 0 <= i < after.len() && #[trigger] after[i].0@ == k;
                        if i < at {
                            assert(before[i].0@ == k);
                        } else if i > at {
                            assert(before[i - 1].0@ == k);
                        }
                    }
                    if has_entry(before, k) {
                        let i = choose|i: int| 0 <= i < before.len() && #[trigger] before[i].0@ == k;
                        if i < at {
                            assert(after[i].0@ == k);
                        } else {
                            assert(after[i + 1].0@ == k);
                        }
                    }
                    if k == key {
                        assert(after[at as int].0@ == k);
                    }
                }
                assert forall|k: Seq<char>| #[trigger]
                    has_entry(after, k) implies entry_of(after, k) == entries_map(before).insert(
                    key,
                    result,
                )[k] by {
                    let i = choose|i: int| 0 <= i < after.len() && #[trigger] after[i].0@ == k;
                    lemma_entry_at(after, i);
                    lemma_precedes_irreflexive(k);
                    if i < at {
                        assert(after[i] == before[i]);
                        lemma_entry_at(before, i);
                        assert(precedes(before[i].0@, key));
                    } else if i > at {
                        assert(after[i] == before[i - 1]);
                        lemma_entry_at(before, i - 1);
                        assert(precedes(key, before[i - 1].0@));
                    }
                }
                assert(entries_map(after) =~= entries_map(before).insert(key, result));
            }
        }
        self.entries = entries;
    }

    /// The result for an order.
    pub fn get(&self, id: &ClientOrderId) -> (r: Option<&ExactOrderQueryResult<R>>)
        ensures
            match r {
                Some(result) => self@.contains_key(id@) && *result == self@[id@],
                None => !self@.contains_key(id@),
            },
    {
        proof {
            use_type_invariant(self);
        }
        let len: usize = self.entries.len();
        let mut i: usize = 0;
        while i < len
            invariant
                self.wf(),
                len == self.entries@.len(),
                i <= len,
                forall|k: int| 0 <= k < i ==> (#[trigger] self.entries@[k]).0@ != id@,
            decreases len - i,
        {
            if self.entries[i].0 == *id {
                proof {
                    lemma_entry_at(self.entries@, i as int);
                }
                return Some(&self.entries[i].1);
            }
            i = i + 1;
        }
        None
    }

    /// The results in the order of their IDs.
    pub fn entries(&self) -> (r: &Vec<(ClientOrderId, ExactOrderQueryResult<R>)>)
        ensures
            r@ == self.listed(),
            ascending(r@),
    {
        proof {
            use_type_invariant(self);
        }
        &self.entries
    }
}

/// Complete client-scoped response for one strict truth request. `R` is the report of an order and
/// `P` that of a position.
#[derive(Debug)]
pub struct BinanceTruthReport<R, P> {
    /// Request that the report answers.
    pub request_id: ReportRequestId,
    /// Client that answers.
    pub client_id: ClientId,
    /// Account that the report is about.
    pub account_id: AccountId,
    /// Account and product mode.
    pub mode: BinanceModeProof,
    /// Balances of the account.
    pub balances: Vec<AccountBalance>,
    /// Positions of the account.
    pub positions: Vec<P>,
    /// Orders open at the venue.
    pub open_orders: Vec<R>,
    /// Results for the orders that the request named.
    pub exact_orders: ExactOrders<R>,
    /// When the report was complete.
    pub ts_received: UnixNanos,
}

/// The results listed for an ordered set are the results of its map, each once.
pub proof fn law_exact_orders_are_unique<R>(orders: ExactOrders<R>, i: int, j: int)
    requires
        orders.wf(),
        0 <= i < orders.listed().len(),
        0 <= j < orders.listed().len(),
    ensures
        orders@.contains_key(orders.listed()[i].0@),
        orders@[orders.listed()[i].0@] == orders.listed()[i].1,
        orders.listed()[i].0@ == orders.listed()[j].0@ ==> i == j,
{
    lemma_entry_at(orders.entries@, i);
    lemma_precedes_irreflexive(orders.listed()[i].0@);
    if i < j {
        assert(precedes(orders.listed()[i].0@, orders.listed()[j].0@));
    } else if j < i {
        assert(precedes(orders.listed()[j].0@, orders.listed()[i].0@));
    }
}

} // verus!

//! What the client remembers of the orders and requests that are under way.

use crate::enums::{OrderSide, OrderType};
use crate::identifiers::{ClientOrderId, InstrumentId, StrategyId, VenueOrderId};
use crate::types::{Price, Quantity};
use vstd::hash_map::StringHashMap;
use vstd::hash_set::StringHashSet;
use vstd::prelude::*;

verus! {

/// What the client knows of an order that it submitted.
#[derive(Debug, PartialEq, Eq)]
pub struct OrderIdentity {
    /// Instrument of the order.
    pub instrument_id: InstrumentId,
    /// Strategy that owns the order.
    pub strategy_id: StrategyId,
    /// Side of the order.
    pub order_side: OrderSide,
    /// Type of the order.
    pub order_type: OrderType,
    /// Limit price, where there is one.
    pub price: Option<Price>,
    /// Quantity of the order.
    pub quantity: Quantity,
}

impl Clone for OrderIdentity {
    fn clone(&self) -> (copy: Self)
        ensures
            copy == *self,
    {
        OrderIdentity {
            instrument_id: self.instrument_id.clone(),
            strategy_id: self.strategy_id.clone(),
            order_side: self.order_side,
            order_type: self.order_type,
            price: self.price,
            quantity: self.quantity,
        }
    }
}

/// What a pending WebSocket request asks for.
#[derive(Clone, Copy, Debug, PartialEq, Eq, Structural)]
pub enum PendingOperation {
    /// Place an order.
    Place,
    /// Cancel an order.
    Cancel,
    /// Replace an order.
    Modify,
}

/// A WebSocket request that the venue has not answered yet.
#[derive(Debug, PartialEq, Eq)]
pub struct PendingRequest {
    /// Order that the request is about.
    pub client_order_id: ClientOrderId,
    /// Venue order ID, where the request names one.
    pub venue_order_id: Option<VenueOrderId>,
    /// What the request asks for.
    pub operation: PendingOperation,
}

impl Clone for PendingRequest {
    fn clone(&self) -> (copy: Self)
        ensures
            copy == *self,
    {
        PendingRequest {
            client_order_id: self.client_order_id.clone(),
            venue_order_id: self.venue_order_id.clone(),
            operation: self.operation,
        }
    }
}

/// The contents of a dispatch state.
#[verifier::ext_equal]
pub struct DispatchView {
    /// Orders that the client submitted, by client order ID.
    pub order_identities: Map<Seq<char>, OrderIdentity>,
    /// Requests that are not answered, by request ID.
    pub pending_requests: Map<Seq<char>, PendingRequest>,
    /// Orders that were announced as accepted.
    pub accepted: Set<Seq<char>>,
    /// Orders that have filled, in whole or in part.
    pub filled: Set<Seq<char>>,
}

impl DispatchView {
    /// Nothing is under way.
    pub open spec fn empty() -> DispatchView {
        DispatchView {
            order_identities: Map::empty(),
            pending_requests: Map::empty(),
            accepted: Set::empty(),
            filled: Set::empty(),
        }
    }

    /// The state once an order is registered.
    pub open spec fn registered(self, id: Seq<char>, identity: OrderIdentity) -> DispatchView {
        DispatchView { order_identities: self.order_identities.insert(id, identity), ..self }
    }

    /// The state once a request is sent.
    pub open spec fn requested(self, request_id: Seq<char>, request: PendingRequest) -> DispatchView {
        DispatchView { pending_requests: self.pending_requests.insert(request_id, request), ..self }
    }

    /// The state once a request is answered or given up.
    pub open spec fn answered(self, request_id: Seq<char>) -> DispatchView {
        DispatchView { pending_requests: self.pending_requests.remove(request_id), ..self }
    }

    /// The state once an order is announced as accepted.
    pub open spec fn with_accepted(self, id: Seq<char>) -> DispatchView {
        DispatchView { accepted: self.accepted.insert(id), ..self }
    }

    /// The state once an order has filled.
    pub open spec fn with_filled(self, id: Seq<char>) -> DispatchView {
        DispatchView { filled: self.filled.insert(id), ..self }
    }

    /// The state once an order has come to its end. That it filled stays known, so that a late
    /// report cannot announce it again.
    pub open spec fn without_order(self, id: Seq<char>) -> DispatchView {
        DispatchView {
            order_identities: self.order_identities.remove(id),
            accepted: self.accepted.remove(id),
            ..self
        }
    }
}

/// Orders and requests under way.
pub struct WsDispatchState {
    order_identities: StringHashMap<OrderIdentity>,
    pending_requests: StringHashMap<PendingRequest>,
    accepted: StringHashSet,
    filled: StringHashSet,
}

impl View for WsDispatchState {
    type V = DispatchView;

    closed spec fn view(&self) -> DispatchView {
        DispatchView {
            order_identities: self.order_identities@,
            pending_requests: self.pending_requests@,
            accepted: self.accepted@,
            filled: self.filled@,
        }
    }
}

impl WsDispatchState {
    /// Nothing is under way.
    pub fn new() -> (state: Self)
        ensures
            state@ == DispatchView::empty(),
    {
        WsDispatchState {
            order_identities: StringHashMap::new(),
            pending_requests: StringHashMap::new(),
            accepted: StringHashSet::new(),
            filled: StringHashSet::new(),
        }
    }

    /// Registers an order, so that reports about it are recognised.
    pub fn register_order(&mut self, id: &ClientOrderId, identity: OrderIdentity)
        ensures
            final(self)@ == old(self)@.registered(id@, identity),
    {
        self.order_identities.insert(id.0.clone(), identity);
    }

    /// What is known of an order.
    pub fn identity(&self, id: &ClientOrderId) -> (identity: Option<OrderIdentity>)
        ensures
            match identity {
                Some(found) => self@.order_identities.contains_key(id@) && found
                    == self@.order_identities[id@],
                None => !self@.order_identities.contains_key(id@),
            },
    {
        match self.order_identities.get(id.as_str()) {
            Some(found) => Some(found.clone()),
            None => None,
        }
    }

    /// Remembers a request that is about to be sent.
    pub fn insert_pending(&mut self, request_id: &str, request: PendingRequest)
        ensures
            final(self)@ == old(self)@.requested(request_id@, request),
    {
        self.pending_requests.insert(request_id.to_owned(), request);
    }

    /// Forgets a request and returns it.
    pub fn take_pending(&mut self, request_id: &str) -> (request: Option<PendingRequest>)
        ensures
            final(self)@ == old(self)@.answered(request_id@),
            match request {
                Some(found) => old(self)@.pending_requests.contains_key(request_id@) && found
                    == old(self)@.pending_requests[request_id@],
                None => !old(self)@.pending_requests.contains_key(request_id@),
            },
    {
        let found = match self.pending_requests.get(request_id) {
            Some(request) => Some(request.clone()),
            None => None,
        };
        self.pending_requests.remove(request_id);
        found
    }

    /// Whether a request waits for its answer.
    pub fn has_pending(&self, request_id: &str) -> (r: bool)
        ensures
            r == self@.pending_requests.contains_key(request_id@),
    {
        self.pending_requests.contains_key(request_id)
    }

    /// Whether an order was announced as accepted.
    pub fn has_emitted_accepted(&self, id: &ClientOrderId) -> (r: bool)
        ensures
            r == self@.accepted.contains(id@),
    {
        self.accepted.contains(id.as_str())
    }

    /// Remembers that an order was announced as accepted.
    pub fn insert_accepted(&mut self, id: &ClientOrderId)
        ensures
            final(self)@ == old(self)@.with_accepted(id@),
    {
        self.accepted.insert(id.0.clone());
    }

    /// Whether an order has filled.
    pub fn has_filled(&self, id: &ClientOrderId) -> (r: bool)
        ensures
            r == self@.filled.contains(id@),
    {
        self.filled.contains(id.as_str())
    }

    /// Remembers that an order has filled.
    pub fn insert_filled(&mut self, id: &ClientOrderId)
        ensures
            final(self)@ == old(self)@.with_filled(id@),
    {
        self.filled.insert(id.0.clone());
    }

    /// Forgets an order that has come to its end.
    pub fn cleanup_terminal(&mut self, id: &ClientOrderId)
        ensures
            final(self)@ == old(self)@.without_order(id@),
    {
        self.order_identities.remove(id.as_str());
        self.accepted.remove(id.as_str());
    }
}

/// How many trades are remembered.
pub const SEEN_TRADES: usize = 10_000;

/// A trade: the symbol and the number that the venue gave it.
pub type TradeKey = (Seq<char>, i64);

/// The trades remembered once `key` has been seen: a new one is added, and the oldest gives way
/// when there is no room.
pub open spec fn seen_after(seen: Seq<TradeKey>, key: TradeKey) -> Seq<TradeKey> {
    if seen.contains(key) {
        seen
    } else if seen.len() >= SEEN_TRADES {
        seen.skip(1).push(key)
    } else {
        seen.push(key)
    }
}

/// The trades seen most recently, oldest first.
#[derive(Debug)]
pub struct FifoCache {
    trades: Vec<(String, i64)>,
}

/// The key of a remembered trade.
pub open spec fn trade_key(trade: (String, i64)) -> TradeKey {
    (trade.0@, trade.1)
}

/// The keys of remembered trades.
pub open spec fn trade_keys(trades: Seq<(String, i64)>) -> Seq<TradeKey> {
    trades.map_values(|t: (String, i64)| trade_key(t))
}

impl View for FifoCache {
    type V = Seq<TradeKey>;

    closed spec fn view(&self) -> Seq<TradeKey> {
        trade_keys(self.trades@)
    }
}

/// Whether a cache holds no trade twice and not more than it has room for.
pub open spec fn cache_wf(seen: Seq<TradeKey>) -> bool {
    &&& seen.len() <= SEEN_TRADES
    &&& seen.no_duplicates()
}

impl FifoCache {
    /// The cache holds no trade twice and not more than it has room for.
    #[verifier::type_invariant]
    pub open spec fn valid(self) -> bool {
        cache_wf(self@)
    }

    /// No trade has been seen.
    pub fn new() -> (cache: Self)
        ensures
            cache@ == Seq::<TradeKey>::empty(),
            cache_wf(cache@),
    {
        let trades: Vec<(String, i64)> = Vec::new();
        assert(trade_keys(trades@) =~= Seq::<TradeKey>::empty());
        FifoCache { trades }
    }

    /// Whether a trade is remembered.
    pub fn contains(&self, symbol: &String, trade_id: i64) -> (r: bool)
        ensures
            r == self@.contains((symbol@, trade_id)),
    {
        let ghost key = (symbol@, trade_id);
        let len: usize = self.trades.len();
        let mut i: usize = 0;
        while i < len
            invariant
                len == self.trades@.len(),
                len == self@.len(),
                i <= len,
                key == (symbol@, trade_id),
                forall|k: int| 0 <= k < i ==> #[trigger] self@[k] != key,
            decreases len - i,
        {
            assert(self@[i as int] == trade_key(self.trades@[i as int]));
            if self.trades[i].1 == trade_id && self.trades[i].0 == *symbol {
                assert(self@[i as int] == key);
                return true;
            }
            i = i + 1;
        }
        false
    }

    /// Remembers a trade.
    pub fn add(&mut self, symbol: &String, trade_id: i64)
        ensures
            final(self)@ == seen_after(old(self)@, (symbol@, trade_id)),
            cache_wf(final(self)@),
    {
        proof {
            use_type_invariant(&*self);
        }
        let ghost before = self@;
        let ghost key = (symbol@, trade_id);
        if self.contains(symbol, trade_id) {
            return;
        }
        let mut trades: Vec<(String, i64)> = Vec::new();
        assert(trade_keys(trades@) =~= Seq::<TradeKey>::empty());
        core::mem::swap(&mut trades, &mut self.trades);
        if trades.len() >= SEEN_TRADES {
            trades.remove(0);
        }
        trades.push((symbol.clone(), trade_id));
        proof {
            law_seen_trade_is_remembered(before, key, key);
            assert(trade_keys(trades@) =~= seen_after(before, key));
        }
        self.trades = trades;
    }
}

/// A trade is remembered once it has been seen, and only trades that were there before, or it
/// itself, are remembered.
pub proof fn law_seen_trade_is_remembered(seen: Seq<TradeKey>, key: TradeKey, other: TradeKey)
    requires
        cache_wf(seen),
    ensures
        seen_after(seen, key).contains(key),
        seen_after(seen, key).contains(other) ==> other == key || seen.contains(other),
        seen.len() < SEEN_TRADES && seen.contains(other) ==> seen_after(seen, key).contains(other),
        seen_after(seen_after(seen, key), key) == seen_after(seen, key),
        cache_wf(seen_after(seen, key)),
{
    let after = seen_after(seen, key);
    if !seen.contains(key) {
        let n = after.len() - 1;
        let d: int = if seen.len() >= SEEN_TRADES {
            1
        } else {
            0
        };
        assert(after[n] == key);
        assert forall|i: int| 0 <= i < n implies #[trigger] after[i] == seen[i + d] by {}
        if after.contains(other) && other != key {
            let i = choose|i: int| 0 <= i < after.len() && after[i] == other;
            assert(seen[i + d] == other);
        }
        if seen.len() < SEEN_TRADES && seen.contains(other) {
            let i = choose|i: int| 0 <= i < seen.len() && seen[i] == other;
            assert(after[i] == other);
        }
        assert forall|i: int, j: int| 0 <= i < after.len() && 0 <= j < after.len() && i != j
            implies after[i] != after[j] by {
            if i < n {
                assert(after[i] == seen[i + d]);
            }
            if j < n {
                assert(after[j] == seen[j + d]);
            }
        }
    }
}

} // verus!

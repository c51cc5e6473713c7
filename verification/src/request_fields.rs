//! Which fields an unsigned request carries: a field that holds nothing is left out.

use crate::orders::{CancelOrderParams, CancelOrderView, NewOrderParams, NewOrderView};
use vstd::prelude::*;

verus! {

/// The names of the fields that are there, in order.
pub open spec fn present(fields: Seq<(Seq<char>, bool)>) -> Seq<Seq<char>>
    decreases fields.len(),
{
    if fields.len() == 0 {
        Seq::empty()
    } else {
        let before = present(fields.drop_last());
        if fields.last().1 {
            before.push(fields.last().0)
        } else {
            before
        }
    }
}

/// A list of names as character sequences.
pub open spec fn names_view(names: Seq<&'static str>) -> Seq<Seq<char>> {
    names.map_values(|name: &'static str| name@)
}

/// A list of fields with their names as character sequences.
pub open spec fn fields_view(fields: Seq<(&'static str, bool)>) -> Seq<(Seq<char>, bool)> {
    fields.map_values(|field: (&'static str, bool)| (field.0@, field.1))
}

fn keep_present(fields: &Vec<(&'static str, bool)>) -> (names: Vec<&'static str>)
    ensures
        names_view(names@) == present(fields_view(fields@)),
{
    let mut names: Vec<&'static str> = Vec::new();
    let count: usize = fields.len();
    let mut i: usize = 0;
    proof {
        assert(names_view(names@) =~= Seq::<Seq<char>>::empty());
        assert(fields_view(fields@).take(0) =~= Seq::<(Seq<char>, bool)>::empty());
    }
    while i < count
        invariant
            i <= count,
            count == fields@.len(),
            names_view(names@) == present(fields_view(fields@).take(i as int)),
        decreases count - i,
    {
        let ghost kept = names@;
        let (name, there) = fields[i];
        if there {
            names.push(name);
        }
        proof {
            let next = fields_view(fields@).take(i + 1);
            assert(next.drop_last() =~= fields_view(fields@).take(i as int));
            assert(next.last() == (name@, there));
            if there {
                assert(names_view(names@) =~= names_view(kept).push(name@));
            }
        }
        i = i + 1;
    }
    proof {
        assert(fields_view(fields@).take(count as int) =~= fields_view(fields@));
    }
    names
}

/// The fields of a request that places an order, and whether each is there.
pub open spec fn new_order_fields(p: NewOrderView) -> Seq<(Seq<char>, bool)> {
    seq![
        ("symbol"@, true),
        ("side"@, true),
        ("type"@, true),
        ("timeInForce"@, p.time_in_force is Some),
        ("quantity"@, p.quantity is Some),
        ("quoteOrderQty"@, p.quote_order_qty is Some),
        ("price"@, p.price is Some),
        ("newClientOrderId"@, p.new_client_order_id is Some),
        ("stopPrice"@, p.stop_price is Some),
        ("trailingDelta"@, p.trailing_delta is Some),
        ("icebergQty"@, p.iceberg_qty is Some),
        ("newOrderRespType"@, p.new_order_resp_type is Some),
        ("selfTradePreventionMode"@, p.self_trade_prevention_mode is Some),
        ("strategyId"@, p.strategy_id is Some),
        ("strategyType"@, p.strategy_type is Some),
    ]
}

/// The fields of a request that cancels an order, and whether each is there.
pub open spec fn cancel_order_fields(p: CancelOrderView) -> Seq<(Seq<char>, bool)> {
    seq![
        ("symbol"@, true),
        ("orderId"@, p.order_id is Some),
        ("origClientOrderId"@, p.orig_client_order_id is Some),
        ("newClientOrderId"@, p.new_client_order_id is Some),
    ]
}

impl NewOrderParams {
    /// The names of the fields that the request carries, in order.
    pub fn field_names(&self) -> (names: Vec<&'static str>)
        ensures
            names_view(names@) == present(new_order_fields(self@)),
    {
        let fields: Vec<(&'static str, bool)> = vec![
            ("symbol", true),
            ("side", true),
            ("type", true),
            ("timeInForce", self.time_in_force.is_some()),
            ("quantity", self.quantity.is_some()),
            ("quoteOrderQty", self.quote_order_qty.is_some()),
            ("price", self.price.is_some()),
            ("newClientOrderId", self.new_client_order_id.is_some()),
            ("stopPrice", self.stop_price.is_some()),
            ("trailingDelta", self.trailing_delta.is_some()),
            ("icebergQty", self.iceberg_qty.is_some()),
            ("newOrderRespType", self.new_order_resp_type.is_some()),
            ("selfTradePreventionMode", self.self_trade_prevention_mode.is_some()),
            ("strategyId", self.strategy_id.is_some()),
            ("strategyType", self.strategy_type.is_some()),
        ];
        assert(fields_view(fields@) =~= new_order_fields(self@));
        keep_present(&fields)
    }
}

impl CancelOrderParams {
    /// The names of the fields that the request carries, in order.
    pub fn field_names(&self) -> (names: Vec<&'static str>)
        ensures
            names_view(names@) == present(cancel_order_fields(self@)),
    {
        let fields: Vec<(&'static str, bool)> = vec![
            ("symbol", true),
            ("orderId", self.order_id.is_some()),
            ("origClientOrderId", self.orig_client_order_id.is_some()),
            ("newClientOrderId", self.new_client_order_id.is_some()),
        ];
        assert(fields_view(fields@) =~= cancel_order_fields(self@));
        keep_present(&fields)
    }
}

} // verus!

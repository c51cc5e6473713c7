//! Typed execution anomalies that must cross the engine boundary synchronously.

use crate::identifiers::{AccountId, ClientId, ClientOrderId, InstrumentId, TradeId, UnixNanos};
use crate::text::join;
use vstd::prelude::*;
use vstd::string::*;

verus! {

/// A venue fill rejected because it exceeds the cached order quantity.
#[derive(Clone, Debug, PartialEq, Eq)]
pub struct RejectedOverfillV1 {
    /// Client that received the fill.
    pub client_id: ClientId,
    /// Account of the fill.
    pub account_id: AccountId,
    /// Instrument of the fill.
    pub instrument_id: InstrumentId,
    /// Order that the fill names.
    pub client_order_id: ClientOrderId,
    /// Trade of the fill.
    pub trade_id: TradeId,
    /// Quantity of the order.
    pub order_quantity_raw: u128,
    /// Quantity filled before.
    pub prior_filled_raw: u128,
    /// Quantity of the rejected fill.
    pub rejected_last_quantity_raw: u128,
    /// When the fill was seen.
    pub observed_at: UnixNanos,
}

/// Typed reasons that a fill was not applied to the internal order.
#[derive(Clone, Debug, PartialEq, Eq)]
pub enum FillValidationErrorV1 {
    /// The fill was applied before.
    DuplicateFill,
    /// The fill was applied to the position before.
    DuplicatePositionFill,
    /// No client is known for the order.
    MissingCachedOrigin(ClientOrderId),
    /// The fill exceeds the order.
    RejectedOverfill(Box<RejectedOverfillV1>),
}

impl FillValidationErrorV1 {
    /// What the error says.
    pub open spec fn text(self) -> Seq<char> {
        match self {
            FillValidationErrorV1::DuplicateFill => "duplicate fill"@,
            FillValidationErrorV1::DuplicatePositionFill => "duplicate position fill"@,
            FillValidationErrorV1::MissingCachedOrigin(client_order_id) =>
                "missing cached client origin for "@ + client_order_id@,
            FillValidationErrorV1::RejectedOverfill(event) => "rejected overfill for "@
                + event.client_order_id@ + " from "@ + event.client_id@,
        }
    }

    /// What the error says.
    pub fn message(&self) -> (r: String)
        ensures
            r@ == self.text(),
    {
        match self {
            FillValidationErrorV1::DuplicateFill => "duplicate fill".to_owned(),
            FillValidationErrorV1::DuplicatePositionFill => "duplicate position fill".to_owned(),
            FillValidationErrorV1::MissingCachedOrigin(client_order_id) => join(
                "missing cached client origin for ",
                client_order_id.as_str(),
            ),
            FillValidationErrorV1::RejectedOverfill(event) => {
                let mut s = join("rejected overfill for ", event.client_order_id.as_str());
                s.append(" from ");
                s.append(event.client_id.as_str());
                s
            },
        }
    }
}

/// Synchronous boundary used by applications to latch rejected exposure changes.
pub trait ExecutionAnomalySink {
    /// Latches a rejected overfill.
    fn record_rejected_overfill(&self, event: RejectedOverfillV1);
}

} // verus!

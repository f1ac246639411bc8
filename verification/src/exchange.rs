//! Exchange-neutral records exchanged with adapters such as Binance.

use vstd::prelude::*;

use crate::decimal::Decimal;
use crate::domain::{Quantity, Symbol};
use crate::text::{concat2, concat4};
use crate::time::Timestamp;

verus! {

/// Exchange integration failure.
#[derive(Debug, Clone, PartialEq)]
pub enum ExchangeError {
    /// Request timed out and the final state may be unknown.
    Timeout {
        /// True when the caller must reconcile before retrying.
        outcome_unknown: bool,
    },
    /// Exchange rejected a request.
    Rejected {
        /// Exchange or adapter error code.
        code: String,
        /// Sanitized message.
        message: String,
    },
    /// Transport or protocol failure.
    Transport(String),
    /// Adapter received an invalid state transition.
    InvalidState(String),
}

/// How a `bool` is written.
pub open spec fn bool_text(b: bool) -> Seq<char> {
    if b {
        "true"@
    } else {
        "false"@
    }
}

/// The message of an exchange failure.
pub open spec fn exchange_error_message(e: ExchangeError) -> Seq<char> {
    match e {
        ExchangeError::Timeout { outcome_unknown } => "exchange request timed out; outcome_unknown="@
            + bool_text(outcome_unknown),
        ExchangeError::Rejected { code, message } => "exchange rejected request: "@ + code@
            + ": "@ + message@,
        ExchangeError::Transport(m) => "exchange transport error: "@ + m@,
        ExchangeError::InvalidState(m) => "invalid exchange state: "@ + m@,
    }
}

impl ExchangeError {
    /// The human-readable message.
    pub fn message(&self) -> (s: String)
        ensures
            s@ == exchange_error_message(*self),
    {
        match self {
            ExchangeError::Timeout { outcome_unknown } => {
                if *outcome_unknown {
                    concat2("exchange request timed out; outcome_unknown=", "true")
                } else {
                    concat2("exchange request timed out; outcome_unknown=", "false")
                }
            },
            ExchangeError::Rejected { code, message } => concat4(
                "exchange rejected request: ",
                code.as_str(),
                ": ",
                message.as_str(),
            ),
            ExchangeError::Transport(m) => concat2("exchange transport error: ", m.as_str()),
            ExchangeError::InvalidState(m) => concat2("invalid exchange state: ", m.as_str()),
        }
    }
}

/// Minimal account snapshot used by the first integration milestone.
#[derive(Debug, Clone)]
pub struct AccountSnapshot {
    /// Account equity in the settlement asset.
    pub equity: Decimal,
    /// Gross position notional.
    pub gross_notional: Decimal,
    /// Snapshot time.
    pub observed_at: Timestamp,
}

/// Minimal position snapshot.
#[derive(Debug, Clone)]
pub struct PositionSnapshot {
    /// Contract.
    pub symbol: Symbol,
    /// Signed position quantity.
    pub signed_quantity: Decimal,
    /// Exchange observation time.
    pub observed_at: Timestamp,
}

/// Exchange order acknowledgement.
#[derive(Debug, Clone)]
pub struct OrderAcknowledgement {
    /// Client-generated idempotency key.
    pub client_order_id: String,
    /// Exchange order identifier.
    pub exchange_order_id: String,
    /// Acknowledgement time.
    pub acknowledged_at: Timestamp,
}

/// Open order summary.
#[derive(Debug, Clone)]
pub struct OpenOrder {
    /// Client order identifier.
    pub client_order_id: String,
    /// Exchange order identifier.
    pub exchange_order_id: String,
    /// Contract.
    pub symbol: Symbol,
    /// Remaining quantity.
    pub remaining_quantity: Quantity,
}

} // verus!

//! Binance adapter failures.

use vstd::prelude::*;

use crate::domain::{domain_error_message, DomainError};
use crate::market_data::{market_data_error_message, MarketDataError};
use crate::text::{concat2, concat3, concat4, int_text, u16_to_text};

verus! {

/// What `reqwest::StatusCode`'s `Display` writes for a status code (100 through 999): its
/// number, a space, and its canonical reason.
pub uninterp spec fn status_code_text(status: int) -> Seq<char>;

/// Calls `reqwest::StatusCode::from_u16` and renders the code with its `Display`; `None` for
/// a number outside 100 through 999, which `from_u16` refuses.
#[verifier::external_body]
fn status_text(status: u16) -> (r: Option<String>)
    ensures
        r is Some <==> 100 <= status <= 999,
        r matches Some(t) ==> t@ == status_code_text(status as int),
{
    match reqwest::StatusCode::from_u16(status) {
        Ok(code) => Some(code.to_string()),
        Err(_) => None,
    }
}

/// How a status is written in a message: as a status code where it is one, else as a number.
pub open spec fn status_display(status: u16) -> Seq<char> {
    if 100 <= status <= 999 {
        status_code_text(status as int)
    } else {
        int_text(status as int)
    }
}

/// Binance adapter failure.
#[derive(Debug, Clone, PartialEq)]
pub enum BinanceError {
    /// HTTP client construction or request failure, with the client's message.
    Http(String),
    /// Non-success response with a sanitized body.
    HttpStatus {
        /// HTTP status code.
        status: u16,
        /// Bounded response body.
        body: String,
    },
    /// Required response field was absent or invalid.
    InvalidResponse(String),
    /// Decimal text could not be parsed.
    InvalidDecimal {
        /// Field name.
        field: &'static str,
        /// Invalid text.
        value: String,
    },
    /// Domain validation failed.
    Domain(DomainError),
    /// Market-data validation failed.
    MarketData(MarketDataError),
    /// Request parameters were invalid.
    InvalidRequest(String),
}

/// The message of an adapter failure.
pub open spec fn binance_error_message(e: BinanceError) -> Seq<char> {
    match e {
        BinanceError::Http(m) => "Binance HTTP error: "@ + m@,
        BinanceError::HttpStatus { status, body } => "Binance returned HTTP "@ + status_display(status)
            + ": "@ + body@,
        BinanceError::InvalidResponse(m) => "invalid Binance response: "@ + m@,
        BinanceError::InvalidDecimal { field, value } => "invalid decimal for "@ + field@ + ": "@
            + value@,
        BinanceError::Domain(d) => domain_error_message(d),
        BinanceError::MarketData(d) => market_data_error_message(d),
        BinanceError::InvalidRequest(m) => "invalid Binance request: "@ + m@,
    }
}

/// The error is `InvalidRequest` with the given message.
pub open spec fn invalid_request(e: BinanceError, message: Seq<char>) -> bool {
    e matches BinanceError::InvalidRequest(m) && m@ == message
}

/// The error is `InvalidResponse` with the given message.
pub open spec fn invalid_response(e: BinanceError, message: Seq<char>) -> bool {
    e matches BinanceError::InvalidResponse(m) && m@ == message
}

impl BinanceError {
    /// The human-readable message.
    pub fn message(&self) -> (s: String)
        ensures
            s@ == binance_error_message(*self),
    {
        match self {
            BinanceError::Http(m) => concat2("Binance HTTP error: ", m.as_str()),
            BinanceError::HttpStatus { status, body } => {
                let t = match status_text(*status) {
                    Some(t) => t,
                    None => u16_to_text(*status),
                };
                concat4("Binance returned HTTP ", t.as_str(), ": ", body.as_str())
            },
            BinanceError::InvalidResponse(m) => concat2("invalid Binance response: ", m.as_str()),
            BinanceError::InvalidDecimal { field, value } => {
                let head = concat3("invalid decimal for ", field, ": ");
                concat2(head.as_str(), value.as_str())
            },
            BinanceError::Domain(d) => d.message(),
            BinanceError::MarketData(d) => d.message(),
            BinanceError::InvalidRequest(m) => concat2("invalid Binance request: ", m.as_str()),
        }
    }
}

} // verus!

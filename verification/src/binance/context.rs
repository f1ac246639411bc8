//! Public market context: mark price, book ticker, funding, open interest, 24h statistics.
//!
//! The application decodes each JSON response into the raw records below; these
//! functions validate and normalize them.

use vstd::prelude::*;
use vstd::string::*;

use crate::binance::error::{invalid_response, BinanceError};
use crate::decimal::{decimal_parse, is_pos, mant, Decimal};
use crate::domain::{valid_symbol, DomainError, Price, Symbol};
use crate::text::{concat2, i64_to_text, int_text, owned};
use crate::time::{chrono_millis_representable, Timestamp};

verus! {

/// The text is decimal.
pub open spec fn text_decimal_ok(t: Seq<char>) -> bool {
    decimal_parse(t) is Some
}

/// The decimal a text holds.
pub open spec fn text_decimal(t: Seq<char>) -> (int, int) {
    decimal_parse(t).unwrap()
}

/// The error for a text that is not decimal.
pub open spec fn text_decimal_error(t: Seq<char>, field: Seq<char>, e: BinanceError) -> bool {
    e matches BinanceError::InvalidDecimal { field: f, value: x } && f@ == field && x@ == t
}

/// The text is a positive decimal.
pub open spec fn text_price_ok(t: Seq<char>) -> bool {
    text_decimal_ok(t) && is_pos(text_decimal(t))
}

/// The error for a text that is not a positive decimal.
pub open spec fn text_price_error(t: Seq<char>, field: Seq<char>, e: BinanceError) -> bool {
    if !text_decimal_ok(t) {
        text_decimal_error(t, field, e)
    } else {
        e matches BinanceError::Domain(DomainError::NonPositive { field: f, value }) && f@
            == "price"@ && value@ == text_decimal(t)
    }
}

/// An optional price text is absent or decimal.
pub open spec fn opt_price_ok(o: Option<String>) -> bool {
    match o {
        None => true,
        Some(t) => text_decimal_ok(t@),
    }
}

/// The price an optional text gives: none when absent or not positive.
pub open spec fn opt_price_value(o: Option<String>) -> Option<(int, int)> {
    match o {
        None => None,
        Some(t) => if is_pos(text_decimal(t@)) {
            Some(text_decimal(t@))
        } else {
            None
        },
    }
}

/// The error for an optional price text that is not decimal.
pub open spec fn opt_price_error(o: Option<String>, field: Seq<char>, e: BinanceError) -> bool {
    text_decimal_error(o.unwrap()@, field, e)
}

/// An optional price matches its text.
pub open spec fn opt_price_matches(p: Option<Price>, v: Option<(int, int)>) -> bool {
    match v {
        None => p is None,
        Some(x) => p matches Some(q) && q@ == x,
    }
}

/// An optional price field keeps what the exchange supplied: absent text gives no price,
/// text holding a strictly positive decimal gives exactly that price, and text holding
/// zero or a negative decimal gives no price.
pub open spec fn supplied_price_kept(raw: Option<String>, p: Option<Price>) -> bool {
    match raw {
        None => p is None,
        Some(t) => match decimal_parse(t@) {
            Some(v) => if mant(v) > 0 {
                p matches Some(q) && q@ == v
            } else {
                p is None
            },
            None => true,
        },
    }
}

/// An optional price read through `opt_price_value` keeps what the exchange supplied.
pub proof fn lemma_optional_price_keeps_supplied_value(raw: Option<String>, p: Option<Price>)
    requires
        opt_price_matches(p, opt_price_value(raw)),
    ensures
        supplied_price_kept(raw, p),
{
}

/// A mark-price snapshot keeps the supplied estimated settle price: `Some` of exactly the
/// decimal when the text holds a strictly positive one, `None` when the text is absent
/// or holds zero or a negative decimal.
pub proof fn lemma_mark_price_keeps_settle_price(raw: RawMarkPrice, s: MarkPriceSnapshot)
    requires
        mark_price_matches(raw, s),
    ensures
        match raw.estimated_settle_price {
            None => s.estimated_settle_price is None,
            Some(t) => match decimal_parse(t@) {
                Some(v) => if mant(v) > 0 {
                    s.estimated_settle_price matches Some(q) && q@ == v
                } else {
                    s.estimated_settle_price is None
                },
                None => true,
            },
        },
{
}

/// Every funding-rate record keeps the supplied mark price: `Some` of exactly the decimal
/// when the text holds a strictly positive one, `None` when the text is absent or holds
/// zero or a negative decimal.
pub proof fn lemma_funding_rates_keep_mark_price(
    rows: Seq<RawFundingRate>,
    out: Seq<FundingRateRecord>,
)
    requires
        out.len() == rows.len(),
        forall|i: int| 0 <= i < rows.len() ==> funding_rate_matches(#[trigger] rows[i], out[i]),
    ensures
        forall|i: int|
            0 <= i < rows.len() ==> match (#[trigger] rows[i]).mark_price {
                None => out[i].mark_price is None,
                Some(t) => match decimal_parse(t@) {
                    Some(v) => if mant(v) > 0 {
                        out[i].mark_price matches Some(q) && q@ == v
                    } else {
                        out[i].mark_price is None
                    },
                    None => true,
                },
            },
{
    assert forall|i: int| 0 <= i < rows.len() implies supplied_price_kept(
        #[trigger] rows[i].mark_price,
        out[i].mark_price,
    ) by {
        assert(funding_rate_matches(rows[i], out[i]));
    }
}

/// The error for a timestamp `chrono` cannot represent.
pub open spec fn ms_error(ms: i64, e: BinanceError) -> bool {
    invalid_response(e, "invalid timestamp: "@ + int_text(ms as int))
}

/// The error for an invalid symbol text.
pub open spec fn symbol_error(t: Seq<char>, e: BinanceError) -> bool {
    e matches BinanceError::Domain(DomainError::InvalidIdentifier(x)) && x@ == t
}

fn decimal(raw: &str, field: &'static str) -> (r: Result<Decimal, BinanceError>)
    ensures
        text_decimal_ok(raw@) ==> (r matches Ok(d) && d@ == text_decimal(raw@)),
        !text_decimal_ok(raw@) ==> (r matches Err(e) && text_decimal_error(raw@, field@, e)),
{
    match Decimal::parse(raw) {
        Some(d) => Ok(d),
        None => Err(BinanceError::InvalidDecimal { field, value: owned(raw) }),
    }
}

fn required_price(raw: &str, field: &'static str) -> (r: Result<Price, BinanceError>)
    ensures
        text_price_ok(raw@) ==> (r matches Ok(p) && p@ == text_decimal(raw@)),
        !text_price_ok(raw@) ==> (r matches Err(e) && text_price_error(raw@, field@, e)),
{
    let d = match decimal(raw, field) {
        Ok(d) => d,
        Err(e) => return Err(e),
    };
    match Price::new(d) {
        Ok(p) => Ok(p),
        Err(e) => Err(BinanceError::Domain(e)),
    }
}

fn optional_positive_price(raw: &Option<String>, field: &'static str) -> (r: Result<
    Option<Price>,
    BinanceError,
>)
    ensures
        opt_price_ok(*raw) ==> (r matches Ok(p) && opt_price_matches(p, opt_price_value(*raw))),
        !opt_price_ok(*raw) ==> (r matches Err(e) && opt_price_error(*raw, field@, e)),
        r matches Ok(p) ==> supplied_price_kept(*raw, p),
{
    let text = match raw {
        Some(t) => t,
        None => return Ok(None),
    };
    let value = match decimal(text.as_str(), field) {
        Ok(d) => d,
        Err(e) => return Err(e),
    };
    if !value.is_positive() {
        Ok(None)
    } else {
        match Price::new(value) {
            Ok(p) => Ok(Some(p)),
            Err(e) => Err(BinanceError::Domain(e)),
        }
    }
}

fn timestamp(milliseconds: i64) -> (r: Result<Timestamp, BinanceError>)
    ensures
        chrono_millis_representable(milliseconds as int) ==> (r matches Ok(t) && t@
            == milliseconds as int),
        !chrono_millis_representable(milliseconds as int) ==> (r matches Err(e) && ms_error(
            milliseconds,
            e,
        )),
{
    match Timestamp::from_millis(milliseconds) {
        Some(t) => Ok(t),
        None => {
            let t = i64_to_text(milliseconds);
            Err(BinanceError::InvalidResponse(concat2("invalid timestamp: ", t.as_str())))
        },
    }
}

fn symbol(raw: &str) -> (r: Result<Symbol, BinanceError>)
    ensures
        valid_symbol(raw@) ==> (r matches Ok(s) && s@ == raw@),
        !valid_symbol(raw@) ==> (r matches Err(e) && symbol_error(raw@, e)),
{
    match Symbol::new(raw) {
        Ok(s) => Ok(s),
        Err(e) => Err(BinanceError::Domain(e)),
    }
}

/// A decoded `/fapi/v1/premiumIndex` response.
#[derive(Debug, Clone)]
pub struct RawMarkPrice {
    /// `symbol`.
    pub symbol: String,
    /// `markPrice`.
    pub mark_price: String,
    /// `indexPrice`.
    pub index_price: String,
    /// `estimatedSettlePrice`, when present.
    pub estimated_settle_price: Option<String>,
    /// `lastFundingRate`.
    pub last_funding_rate: String,
    /// `interestRate`.
    pub interest_rate: String,
    /// `nextFundingTime`, in milliseconds.
    pub next_funding_time: i64,
    /// `time`, in milliseconds.
    pub time: i64,
}

/// Current fair-price and funding state for one contract.
#[derive(Debug, Clone, PartialEq)]
pub struct MarkPriceSnapshot {
    /// Contract symbol.
    pub symbol: Symbol,
    /// Exchange mark price.
    pub mark_price: Price,
    /// Underlying index price.
    pub index_price: Price,
    /// Estimated settlement price when supplied and positive.
    pub estimated_settle_price: Option<Price>,
    /// Most recently published funding rate.
    pub last_funding_rate: Decimal,
    /// Interest-rate component.
    pub interest_rate: Decimal,
    /// Next scheduled funding timestamp.
    pub next_funding_time: Timestamp,
    /// Exchange timestamp for this snapshot.
    pub exchange_time: Timestamp,
    /// Local receive timestamp.
    pub received_at: Timestamp,
}

/// Every field of the record is well-formed.
pub open spec fn mark_price_ok(raw: RawMarkPrice) -> bool {
    &&& valid_symbol(raw.symbol@)
    &&& text_price_ok(raw.mark_price@)
    &&& text_price_ok(raw.index_price@)
    &&& opt_price_ok(raw.estimated_settle_price)
    &&& text_decimal_ok(raw.last_funding_rate@)
    &&& text_decimal_ok(raw.interest_rate@)
    &&& chrono_millis_representable(raw.next_funding_time as int)
    &&& chrono_millis_representable(raw.time as int)
}

/// The error reported for the first malformed field of the record.
pub open spec fn mark_price_error(raw: RawMarkPrice, e: BinanceError) -> bool {
    if !valid_symbol(raw.symbol@) {
        symbol_error(raw.symbol@, e)
    } else if !text_price_ok(raw.mark_price@) {
        text_price_error(raw.mark_price@, "premiumIndex.markPrice"@, e)
    } else if !text_price_ok(raw.index_price@) {
        text_price_error(raw.index_price@, "premiumIndex.indexPrice"@, e)
    } else if !opt_price_ok(raw.estimated_settle_price) {
        opt_price_error(raw.estimated_settle_price, "premiumIndex.estimatedSettlePrice"@, e)
    } else if !text_decimal_ok(raw.last_funding_rate@) {
        text_decimal_error(raw.last_funding_rate@, "premiumIndex.lastFundingRate"@, e)
    } else if !text_decimal_ok(raw.interest_rate@) {
        text_decimal_error(raw.interest_rate@, "premiumIndex.interestRate"@, e)
    } else if !chrono_millis_representable(raw.next_funding_time as int) {
        ms_error(raw.next_funding_time, e)
    } else {
        ms_error(raw.time, e)
    }
}

/// The normalized record holds exactly the decoded fields.
pub open spec fn mark_price_matches(raw: RawMarkPrice, s: MarkPriceSnapshot) -> bool {
    &&& s.symbol@ == raw.symbol@
    &&& s.mark_price@ == text_decimal(raw.mark_price@)
    &&& s.index_price@ == text_decimal(raw.index_price@)
    &&& opt_price_matches(s.estimated_settle_price, opt_price_value(raw.estimated_settle_price))
    &&& s.last_funding_rate@ == text_decimal(raw.last_funding_rate@)
    &&& s.interest_rate@ == text_decimal(raw.interest_rate@)
    &&& s.next_funding_time@ == raw.next_funding_time as int
    &&& s.exchange_time@ == raw.time as int
}

/// Validates and normalizes the record.
pub fn parse_mark_price(
    raw: &RawMarkPrice,
    received_at: Timestamp,
) -> (r: Result<MarkPriceSnapshot, BinanceError>)
    ensures
        r is Ok <==> mark_price_ok(*raw),
        r matches Ok(s) ==> mark_price_matches(*raw, s) && s.received_at == received_at,
        r matches Err(e) ==> mark_price_error(*raw, e),
{
    let symbol = match symbol(raw.symbol.as_str()) {
        Ok(v) => v,
        Err(e) => return Err(e),
    };
    let mark_price = match required_price(raw.mark_price.as_str(), "premiumIndex.markPrice") {
        Ok(v) => v,
        Err(e) => return Err(e),
    };
    let index_price = match required_price(raw.index_price.as_str(), "premiumIndex.indexPrice") {
        Ok(v) => v,
        Err(e) => return Err(e),
    };
    let estimated_settle_price = match optional_positive_price(
        &raw.estimated_settle_price,
        "premiumIndex.estimatedSettlePrice",
    ) {
        Ok(v) => v,
        Err(e) => return Err(e),
    };
    let last_funding_rate = match decimal(
        raw.last_funding_rate.as_str(),
        "premiumIndex.lastFundingRate",
    ) {
        Ok(v) => v,
        Err(e) => return Err(e),
    };
    let interest_rate = match decimal(raw.interest_rate.as_str(), "premiumIndex.interestRate") {
        Ok(v) => v,
        Err(e) => return Err(e),
    };
    let next_funding_time = match timestamp(raw.next_funding_time) {
        Ok(v) => v,
        Err(e) => return Err(e),
    };
    let exchange_time = match timestamp(raw.time) {
        Ok(v) => v,
        Err(e) => return Err(e),
    };
    Ok(MarkPriceSnapshot {
        symbol,
        mark_price,
        index_price,
        estimated_settle_price,
        last_funding_rate,
        interest_rate,
        next_funding_time,
        exchange_time,
        received_at,
    })
}

/// A decoded `/fapi/v1/ticker/bookTicker` response.
#[derive(Debug, Clone)]
pub struct RawBookTicker {
    /// `symbol`.
    pub symbol: String,
    /// `bidPrice`.
    pub bid_price: String,
    /// `bidQty`.
    pub bid_qty: String,
    /// `askPrice`.
    pub ask_price: String,
    /// `askQty`.
    pub ask_qty: String,
    /// `time`, in milliseconds, when present.
    pub time: Option<i64>,
    /// `lastUpdateId`, when present.
    pub last_update_id: Option<u64>,
}

/// Best bid and ask for one contract.
#[derive(Debug, Clone, PartialEq)]
pub struct BookTickerSnapshot {
    /// Contract symbol.
    pub symbol: Symbol,
    /// Best bid price.
    pub bid_price: Price,
    /// Best bid quantity.
    pub bid_quantity: Decimal,
    /// Best ask price.
    pub ask_price: Price,
    /// Best ask quantity.
    pub ask_quantity: Decimal,
    /// Optional exchange update identifier.
    pub update_id: Option<u64>,
    /// Optional exchange timestamp.
    pub exchange_time: Option<Timestamp>,
    /// Local receive timestamp.
    pub received_at: Timestamp,
}

/// Every field of the record is well-formed.
pub open spec fn book_ticker_ok(raw: RawBookTicker) -> bool {
    &&& valid_symbol(raw.symbol@)
    &&& text_price_ok(raw.bid_price@)
    &&& text_decimal_ok(raw.bid_qty@)
    &&& text_price_ok(raw.ask_price@)
    &&& text_decimal_ok(raw.ask_qty@)
    &&& (raw.time is None || chrono_millis_representable(raw.time.unwrap() as int))
}

/// The error reported for the first malformed field of the record.
pub open spec fn book_ticker_error(raw: RawBookTicker, e: BinanceError) -> bool {
    if !valid_symbol(raw.symbol@) {
        symbol_error(raw.symbol@, e)
    } else if !text_price_ok(raw.bid_price@) {
        text_price_error(raw.bid_price@, "bookTicker.bidPrice"@, e)
    } else if !text_decimal_ok(raw.bid_qty@) {
        text_decimal_error(raw.bid_qty@, "bookTicker.bidQty"@, e)
    } else if !text_price_ok(raw.ask_price@) {
        text_price_error(raw.ask_price@, "bookTicker.askPrice"@, e)
    } else if !text_decimal_ok(raw.ask_qty@) {
        text_decimal_error(raw.ask_qty@, "bookTicker.askQty"@, e)
    } else {
        ms_error(raw.time.unwrap(), e)
    }
}

/// The normalized record holds exactly the decoded fields.
pub open spec fn book_ticker_matches(raw: RawBookTicker, s: BookTickerSnapshot) -> bool {
    &&& s.symbol@ == raw.symbol@
    &&& s.bid_price@ == text_decimal(raw.bid_price@)
    &&& s.bid_quantity@ == text_decimal(raw.bid_qty@)
    &&& s.ask_price@ == text_decimal(raw.ask_price@)
    &&& s.ask_quantity@ == text_decimal(raw.ask_qty@)
    &&& s.update_id == raw.last_update_id
    &&& match raw.time {
        None => s.exchange_time is None,
        Some(ms) => s.exchange_time matches Some(t) && t@ == ms as int,
    }
}

/// Validates and normalizes the record.
pub fn parse_book_ticker(
    raw: &RawBookTicker,
    received_at: Timestamp,
) -> (r: Result<BookTickerSnapshot, BinanceError>)
    ensures
        r is Ok <==> book_ticker_ok(*raw),
        r matches Ok(s) ==> book_ticker_matches(*raw, s) && s.received_at == received_at,
        r matches Err(e) ==> book_ticker_error(*raw, e),
{
    let symbol = match symbol(raw.symbol.as_str()) {
        Ok(v) => v,
        Err(e) => return Err(e),
    };
    let bid_price = match required_price(raw.bid_price.as_str(), "bookTicker.bidPrice") {
        Ok(v) => v,
        Err(e) => return Err(e),
    };
    let bid_quantity = match decimal(raw.bid_qty.as_str(), "bookTicker.bidQty") {
        Ok(v) => v,
        Err(e) => return Err(e),
    };
    let ask_price = match required_price(raw.ask_price.as_str(), "bookTicker.askPrice") {
        Ok(v) => v,
        Err(e) => return Err(e),
    };
    let ask_quantity = match decimal(raw.ask_qty.as_str(), "bookTicker.askQty") {
        Ok(v) => v,
        Err(e) => return Err(e),
    };
    let update_id = raw.last_update_id;
    let exchange_time = match raw.time {
        None => None,
        Some(ms) => match timestamp(ms) {
            Ok(t) => Some(t),
            Err(e) => return Err(e),
        },
    };
    Ok(BookTickerSnapshot {
        symbol,
        bid_price,
        bid_quantity,
        ask_price,
        ask_quantity,
        update_id,
        exchange_time,
        received_at,
    })
}

/// One decoded `/fapi/v1/fundingRate` entry.
#[derive(Debug, Clone)]
pub struct RawFundingRate {
    /// `symbol`.
    pub symbol: String,
    /// `fundingRate`.
    pub funding_rate: String,
    /// `fundingTime`, in milliseconds.
    pub funding_time: i64,
    /// `markPrice`, when present.
    pub mark_price: Option<String>,
}

/// One historical funding-rate observation.
#[derive(Debug, Clone, PartialEq)]
pub struct FundingRateRecord {
    /// Contract symbol.
    pub symbol: Symbol,
    /// Funding rate, which may be negative.
    pub funding_rate: Decimal,
    /// Funding timestamp.
    pub funding_time: Timestamp,
    /// Mark price associated with the funding event when supplied and positive.
    pub mark_price: Option<Price>,
}

/// Every field of the record is well-formed.
pub open spec fn funding_rate_ok(raw: RawFundingRate) -> bool {
    &&& valid_symbol(raw.symbol@)
    &&& text_decimal_ok(raw.funding_rate@)
    &&& chrono_millis_representable(raw.funding_time as int)
    &&& opt_price_ok(raw.mark_price)
}

/// The error reported for the first malformed field of the record.
pub open spec fn funding_rate_error(raw: RawFundingRate, e: BinanceError) -> bool {
    if !valid_symbol(raw.symbol@) {
        symbol_error(raw.symbol@, e)
    } else if !text_decimal_ok(raw.funding_rate@) {
        text_decimal_error(raw.funding_rate@, "fundingRate.fundingRate"@, e)
    } else if !chrono_millis_representable(raw.funding_time as int) {
        ms_error(raw.funding_time, e)
    } else {
        opt_price_error(raw.mark_price, "fundingRate.markPrice"@, e)
    }
}

/// The normalized record holds exactly the decoded fields.
pub open spec fn funding_rate_matches(raw: RawFundingRate, s: FundingRateRecord) -> bool {
    &&& s.symbol@ == raw.symbol@
    &&& s.funding_rate@ == text_decimal(raw.funding_rate@)
    &&& s.funding_time@ == raw.funding_time as int
    &&& opt_price_matches(s.mark_price, opt_price_value(raw.mark_price))
}

/// Validates and normalizes the record.
pub fn parse_funding_rate(raw: &RawFundingRate) -> (r: Result<FundingRateRecord, BinanceError>)
    ensures
        r is Ok <==> funding_rate_ok(*raw),
        r matches Ok(s) ==> funding_rate_matches(*raw, s),
        r matches Err(e) ==> funding_rate_error(*raw, e),
{
    let symbol = match symbol(raw.symbol.as_str()) {
        Ok(v) => v,
        Err(e) => return Err(e),
    };
    let funding_rate = match decimal(raw.funding_rate.as_str(), "fundingRate.fundingRate") {
        Ok(v) => v,
        Err(e) => return Err(e),
    };
    let funding_time = match timestamp(raw.funding_time) {
        Ok(v) => v,
        Err(e) => return Err(e),
    };
    let mark_price = match optional_positive_price(&raw.mark_price, "fundingRate.markPrice") {
        Ok(v) => v,
        Err(e) => return Err(e),
    };
    Ok(FundingRateRecord { symbol, funding_rate, funding_time, mark_price })
}

/// A decoded `/fapi/v1/openInterest` response.
#[derive(Debug, Clone)]
pub struct RawOpenInterest {
    /// `symbol`.
    pub symbol: String,
    /// `openInterest`.
    pub open_interest: String,
    /// `time`, in milliseconds.
    pub time: i64,
}

/// Current outstanding contract quantity.
#[derive(Debug, Clone, PartialEq)]
pub struct OpenInterestSnapshot {
    /// Contract symbol.
    pub symbol: Symbol,
    /// Outstanding contract quantity.
    pub open_interest: Decimal,
    /// Exchange timestamp.
    pub exchange_time: Timestamp,
    /// Local receive timestamp.
    pub received_at: Timestamp,
}

/// Every field of the record is well-formed.
pub open spec fn open_interest_ok(raw: RawOpenInterest) -> bool {
    &&& valid_symbol(raw.symbol@)
    &&& text_decimal_ok(raw.open_interest@)
    &&& chrono_millis_representable(raw.time as int)
}

/// The error reported for the first malformed field of the record.
pub open spec fn open_interest_error(raw: RawOpenInterest, e: BinanceError) -> bool {
    if !valid_symbol(raw.symbol@) {
        symbol_error(raw.symbol@, e)
    } else if !text_decimal_ok(raw.open_interest@) {
        text_decimal_error(raw.open_interest@, "openInterest.openInterest"@, e)
    } else {
        ms_error(raw.time, e)
    }
}

/// The normalized record holds exactly the decoded fields.
pub open spec fn open_interest_matches(raw: RawOpenInterest, s: OpenInterestSnapshot) -> bool {
    &&& s.symbol@ == raw.symbol@
    &&& s.open_interest@ == text_decimal(raw.open_interest@)
    &&& s.exchange_time@ == raw.time as int
}

/// Validates and normalizes the record.
pub fn parse_open_interest(
    raw: &RawOpenInterest,
    received_at: Timestamp,
) -> (r: Result<OpenInterestSnapshot, BinanceError>)
    ensures
        r is Ok <==> open_interest_ok(*raw),
        r matches Ok(s) ==> open_interest_matches(*raw, s) && s.received_at == received_at,
        r matches Err(e) ==> open_interest_error(*raw, e),
{
    let symbol = match symbol(raw.symbol.as_str()) {
        Ok(v) => v,
        Err(e) => return Err(e),
    };
    let open_interest = match decimal(raw.open_interest.as_str(), "openInterest.openInterest") {
        Ok(v) => v,
        Err(e) => return Err(e),
    };
    let exchange_time = match timestamp(raw.time) {
        Ok(v) => v,
        Err(e) => return Err(e),
    };
    Ok(OpenInterestSnapshot { symbol, open_interest, exchange_time, received_at })
}

/// A decoded `/fapi/v1/ticker/24hr` response.
#[derive(Debug, Clone)]
pub struct RawRollingTicker24h {
    /// `symbol`.
    pub symbol: String,
    /// `priceChange`.
    pub price_change: String,
    /// `priceChangePercent`.
    pub price_change_percent: String,
    /// `weightedAvgPrice`.
    pub weighted_avg_price: String,
    /// `lastPrice`.
    pub last_price: String,
    /// `lastQty`.
    pub last_qty: String,
    /// `openPrice`.
    pub open_price: String,
    /// `highPrice`.
    pub high_price: String,
    /// `lowPrice`.
    pub low_price: String,
    /// `volume`.
    pub volume: String,
    /// `quoteVolume`.
    pub quote_volume: String,
    /// `openTime`, in milliseconds.
    pub open_time: i64,
    /// `closeTime`, in milliseconds.
    pub close_time: i64,
    /// `count`.
    pub count: u64,
}

/// Rolling 24-hour market statistics.
#[derive(Debug, Clone, PartialEq)]
pub struct RollingTicker24h {
    /// Contract symbol.
    pub symbol: Symbol,
    /// Absolute price change.
    pub price_change: Decimal,
    /// Percentage price change.
    pub price_change_percent: Decimal,
    /// Volume-weighted average price.
    pub weighted_average_price: Price,
    /// Last traded price.
    pub last_price: Price,
    /// Last traded quantity.
    pub last_quantity: Decimal,
    /// Window open price.
    pub open_price: Price,
    /// Window high price.
    pub high_price: Price,
    /// Window low price.
    pub low_price: Price,
    /// Base-asset volume.
    pub volume: Decimal,
    /// Quote-asset volume.
    pub quote_volume: Decimal,
    /// Window open timestamp.
    pub open_time: Timestamp,
    /// Window close timestamp.
    pub close_time: Timestamp,
    /// Number of trades in the rolling window.
    pub trade_count: u64,
    /// Local receive timestamp.
    pub received_at: Timestamp,
}

/// Every field of the record is well-formed.
pub open spec fn rolling_ticker_24h_ok(raw: RawRollingTicker24h) -> bool {
    &&& valid_symbol(raw.symbol@)
    &&& text_decimal_ok(raw.price_change@)
    &&& text_decimal_ok(raw.price_change_percent@)
    &&& text_price_ok(raw.weighted_avg_price@)
    &&& text_price_ok(raw.last_price@)
    &&& text_decimal_ok(raw.last_qty@)
    &&& text_price_ok(raw.open_price@)
    &&& text_price_ok(raw.high_price@)
    &&& text_price_ok(raw.low_price@)
    &&& text_decimal_ok(raw.volume@)
    &&& text_decimal_ok(raw.quote_volume@)
    &&& chrono_millis_representable(raw.open_time as int)
    &&& chrono_millis_representable(raw.close_time as int)
}

/// The error reported for the first malformed field of the record.
pub open spec fn rolling_ticker_24h_error(raw: RawRollingTicker24h, e: BinanceError) -> bool {
    if !valid_symbol(raw.symbol@) {
        symbol_error(raw.symbol@, e)
    } else if !text_decimal_ok(raw.price_change@) {
        text_decimal_error(raw.price_change@, "ticker24h.priceChange"@, e)
    } else if !text_decimal_ok(raw.price_change_percent@) {
        text_decimal_error(raw.price_change_percent@, "ticker24h.priceChangePercent"@, e)
    } else if !text_price_ok(raw.weighted_avg_price@) {
        text_price_error(raw.weighted_avg_price@, "ticker24h.weightedAvgPrice"@, e)
    } else if !text_price_ok(raw.last_price@) {
        text_price_error(raw.last_price@, "ticker24h.lastPrice"@, e)
    } else if !text_decimal_ok(raw.last_qty@) {
        text_decimal_error(raw.last_qty@, "ticker24h.lastQty"@, e)
    } else if !text_price_ok(raw.open_price@) {
        text_price_error(raw.open_price@, "ticker24h.openPrice"@, e)
    } else if !text_price_ok(raw.high_price@) {
        text_price_error(raw.high_price@, "ticker24h.highPrice"@, e)
    } else if !text_price_ok(raw.low_price@) {
        text_price_error(raw.low_price@, "ticker24h.lowPrice"@, e)
    } else if !text_decimal_ok(raw.volume@) {
        text_decimal_error(raw.volume@, "ticker24h.volume"@, e)
    } else if !text_decimal_ok(raw.quote_volume@) {
        text_decimal_error(raw.quote_volume@, "ticker24h.quoteVolume"@, e)
    } else if !chrono_millis_representable(raw.open_time as int) {
        ms_error(raw.open_time, e)
    } else {
        ms_error(raw.close_time, e)
    }
}

/// The normalized record holds exactly the decoded fields.
pub open spec fn rolling_ticker_24h_matches(raw: RawRollingTicker24h, s: RollingTicker24h) -> bool {
    &&& s.symbol@ == raw.symbol@
    &&& s.price_change@ == text_decimal(raw.price_change@)
    &&& s.price_change_percent@ == text_decimal(raw.price_change_percent@)
    &&& s.weighted_average_price@ == text_decimal(raw.weighted_avg_price@)
    &&& s.last_price@ == text_decimal(raw.last_price@)
    &&& s.last_quantity@ == text_decimal(raw.last_qty@)
    &&& s.open_price@ == text_decimal(raw.open_price@)
    &&& s.high_price@ == text_decimal(raw.high_price@)
    &&& s.low_price@ == text_decimal(raw.low_price@)
    &&& s.volume@ == text_decimal(raw.volume@)
    &&& s.quote_volume@ == text_decimal(raw.quote_volume@)
    &&& s.open_time@ == raw.open_time as int
    &&& s.close_time@ == raw.close_time as int
    &&& s.trade_count == raw.count
}

/// Validates and normalizes the record.
pub fn parse_rolling_ticker_24h(
    raw: &RawRollingTicker24h,
    received_at: Timestamp,
) -> (r: Result<RollingTicker24h, BinanceError>)
    ensures
        r is Ok <==> rolling_ticker_24h_ok(*raw),
        r matches Ok(s) ==> rolling_ticker_24h_matches(*raw, s) && s.received_at == received_at,
        r matches Err(e) ==> rolling_ticker_24h_error(*raw, e),
{
    let symbol = match symbol(raw.symbol.as_str()) {
        Ok(v) => v,
        Err(e) => return Err(e),
    };
    let price_change = match decimal(raw.price_change.as_str(), "ticker24h.priceChange") {
        Ok(v) => v,
        Err(e) => return Err(e),
    };
    let price_change_percent = match decimal(
        raw.price_change_percent.as_str(),
        "ticker24h.priceChangePercent",
    ) {
        Ok(v) => v,
        Err(e) => return Err(e),
    };
    let weighted_average_price = match required_price(
        raw.weighted_avg_price.as_str(),
        "ticker24h.weightedAvgPrice",
    ) {
        Ok(v) => v,
        Err(e) => return Err(e),
    };
    let last_price = match required_price(raw.last_price.as_str(), "ticker24h.lastPrice") {
        Ok(v) => v,
        Err(e) => return Err(e),
    };
    let last_quantity = match decimal(raw.last_qty.as_str(), "ticker24h.lastQty") {
        Ok(v) => v,
        Err(e) => return Err(e),
    };
    let open_price = match required_price(raw.open_price.as_str(), "ticker24h.openPrice") {
        Ok(v) => v,
        Err(e) => return Err(e),
    };
    let high_price = match required_price(raw.high_price.as_str(), "ticker24h.highPrice") {
        Ok(v) => v,
        Err(e) => return Err(e),
    };
    let low_price = match required_price(raw.low_price.as_str(), "ticker24h.lowPrice") {
        Ok(v) => v,
        Err(e) => return Err(e),
    };
    let volume = match decimal(raw.volume.as_str(), "ticker24h.volume") {
        Ok(v) => v,
        Err(e) => return Err(e),
    };
    let quote_volume = match decimal(raw.quote_volume.as_str(), "ticker24h.quoteVolume") {
        Ok(v) => v,
        Err(e) => return Err(e),
    };
    let open_time = match timestamp(raw.open_time) {
        Ok(v) => v,
        Err(e) => return Err(e),
    };
    let close_time = match timestamp(raw.close_time) {
        Ok(v) => v,
        Err(e) => return Err(e),
    };
    let trade_count = raw.count;
    Ok(RollingTicker24h {
        symbol,
        price_change,
        price_change_percent,
        weighted_average_price,
        last_price,
        last_quantity,
        open_price,
        high_price,
        low_price,
        volume,
        quote_volume,
        open_time,
        close_time,
        trade_count,
        received_at,
    })
}


/// Index of the first malformed funding-rate entry, if any.
pub open spec fn first_bad_funding_rate(rows: Seq<RawFundingRate>) -> Option<int> {
    if exists|i: int| 0 <= i < rows.len() && !funding_rate_ok(#[trigger] rows[i]) {
        Some(
            choose|i: int|
                0 <= i < rows.len() && !funding_rate_ok(#[trigger] rows[i]) && forall|j: int|
                    0 <= j < i ==> funding_rate_ok(#[trigger] rows[j]),
        )
    } else {
        None
    }
}

proof fn lemma_first_bad_funding_rate(rows: Seq<RawFundingRate>, i: int)
    requires
        0 <= i < rows.len(),
        !funding_rate_ok(rows[i]),
        forall|j: int| 0 <= j < i ==> funding_rate_ok(#[trigger] rows[j]),
    ensures
        first_bad_funding_rate(rows) == Some(i),
{
    let c = choose|c: int|
        0 <= c < rows.len() && !funding_rate_ok(#[trigger] rows[c]) && forall|j: int|
            0 <= j < c ==> funding_rate_ok(#[trigger] rows[j]);
    assert(0 <= i < rows.len() && !funding_rate_ok(rows[i]) && forall|j: int|
        0 <= j < i ==> funding_rate_ok(#[trigger] rows[j]));
    if c < i {
        assert(funding_rate_ok(rows[c]));
    }
    if c > i {
        assert(funding_rate_ok(rows[i]));
    }
}

/// Normalizes a decoded `/fapi/v1/fundingRate` response, keeping the API order; the
/// first malformed entry fails the whole response.
pub fn parse_funding_rates(
    rows: &Vec<RawFundingRate>,
) -> (r: Result<Vec<FundingRateRecord>, BinanceError>)
    ensures
        r is Ok <==> first_bad_funding_rate(rows@) is None,
        r matches Ok(out) ==> out@.len() == rows@.len() && forall|i: int|
            0 <= i < rows@.len() ==> funding_rate_matches(#[trigger] rows@[i], out@[i]),
        r matches Err(e) ==> funding_rate_error(
            rows@[first_bad_funding_rate(rows@).unwrap()],
            e,
        ),
{
    let mut out: Vec<FundingRateRecord> = Vec::new();
    let mut i: usize = 0;
    while i < rows.len()
        invariant
            i <= rows@.len(),
            out@.len() == i,
            forall|j: int| 0 <= j < i ==> funding_rate_ok(#[trigger] rows@[j]),
            forall|j: int| 0 <= j < i ==> funding_rate_matches(#[trigger] rows@[j], out@[j]),
        decreases rows@.len() - i,
    {
        match parse_funding_rate(&rows[i]) {
            Ok(record) => out.push(record),
            Err(e) => {
                proof {
                    lemma_first_bad_funding_rate(rows@, i as int);
                }
                return Err(e);
            },
        }
        i = i + 1;
    }
    Ok(out)
}

/// One coherent public-market context snapshot for research and risk filtering.
#[derive(Debug, Clone)]
pub struct MarketContextSnapshot {
    /// Contract symbol shared by all components.
    pub symbol: Symbol,
    /// Fair-price and funding state.
    pub mark_price: MarkPriceSnapshot,
    /// Best bid and ask.
    pub book_ticker: BookTickerSnapshot,
    /// Current open interest.
    pub open_interest: OpenInterestSnapshot,
    /// Rolling 24-hour statistics.
    pub rolling_24h: RollingTicker24h,
    /// Recent funding observations in ascending API order.
    pub recent_funding: Vec<FundingRateRecord>,
    /// Time after all component requests completed.
    pub completed_at: Timestamp,
}

} // verus!

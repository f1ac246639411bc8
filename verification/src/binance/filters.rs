//! Exchange trading rules and price/quantity normalization.

use vstd::prelude::*;

use crate::binance::error::{invalid_request, BinanceError};
use crate::decimal::{
    decimal_difference, decimal_remainder, decimal_text, is_pos, value_lt, Decimal,
};
use crate::text::{concat4, owned};

verus! {

/// `candidate - ((candidate - anchor) % step)` as computed by `rust_decimal`;
/// `None` when a step overflows.
pub open spec fn floored_to_step(
    candidate: (int, int),
    anchor: (int, int),
    step: (int, int),
) -> Option<
    (int, int),
> {
    match decimal_difference(candidate, anchor) {
        Some(offset) => match decimal_remainder(offset, step) {
            Some(excess) => decimal_difference(candidate, excess),
            None => None,
        },
        None => None,
    }
}

/// Computes `candidate - ((candidate - anchor) % step)`.
fn floor_to_step(candidate: &Decimal, anchor: &Decimal, step: &Decimal) -> (r: Option<Decimal>)
    ensures
        match r {
            Some(d) => floored_to_step(candidate@, anchor@, step@) == Some(d@),
            None => floored_to_step(candidate@, anchor@, step@) is None,
        },
{
    let offset = match candidate.checked_sub(anchor) {
        Some(v) => v,
        None => return None,
    };
    let excess = match offset.checked_rem(step) {
        Some(v) => v,
        None => return None,
    };
    candidate.checked_sub(&excess)
}

/// Price bounds and tick size.
#[derive(Debug, Clone, Copy, PartialEq)]
pub struct PriceFilter {
    /// Disabled when zero.
    pub min_price: Decimal,
    /// Disabled when zero.
    pub max_price: Decimal,
    /// Disabled when zero.
    pub tick_size: Decimal,
}

/// The tick grid's anchor: the minimum price when enabled, otherwise zero.
pub open spec fn price_anchor(f: PriceFilter) -> (int, int) {
    if is_pos(f.min_price@) {
        f.min_price@
    } else {
        (0, 0)
    }
}

/// The candidate passes the positivity and minimum checks.
pub open spec fn price_candidate_accepted(f: PriceFilter, c: Decimal) -> bool {
    is_pos(c@) && !(is_pos(f.min_price@) && value_lt(c@, f.min_price@))
}

/// Flooring a price cannot fail with a decimal overflow.
pub open spec fn price_floor_defined(f: PriceFilter, c: Decimal) -> bool {
    price_candidate_accepted(f, c) && is_pos(f.tick_size@) ==> floored_to_step(
        c@,
        price_anchor(f),
        f.tick_size@,
    ) is Some
}

/// The candidate snapped down to the tick grid (unchanged when ticks are disabled).
pub open spec fn price_normalized(f: PriceFilter, c: Decimal) -> (int, int) {
    if is_pos(f.tick_size@) {
        floored_to_step(c@, price_anchor(f), f.tick_size@).unwrap()
    } else {
        c@
    }
}

/// The outcome of flooring a price, as `PriceFilter::floor` returns it.
pub open spec fn price_floor_result(
    f: PriceFilter,
    c: Decimal,
    r: Result<Decimal, BinanceError>,
) -> bool {
    if !is_pos(c@) {
        r matches Err(e) && invalid_request(e, "candidate price must be positive"@)
    } else if is_pos(f.min_price@) && value_lt(c@, f.min_price@) {
        r matches Err(e) && invalid_request(
            e,
            "price "@ + decimal_text(c@) + " is below minimum "@ + decimal_text(f.min_price@),
        )
    } else if is_pos(f.max_price@) && value_lt(f.max_price@, price_normalized(f, c)) {
        r matches Err(e) && invalid_request(
            e,
            "price "@ + decimal_text(price_normalized(f, c)) + " exceeds maximum "@ + decimal_text(
                f.max_price@,
            ),
        )
    } else {
        r matches Ok(d) && d@ == price_normalized(f, c)
    }
}

impl PriceFilter {
    /// Floors a candidate to the nearest valid tick anchored at `min_price`, or returns
    /// `None` when the decimal arithmetic overflows.
    pub fn try_floor(&self, candidate: Decimal) -> (r: Option<Result<Decimal, BinanceError>>)
        ensures
            r is Some <==> price_floor_defined(*self, candidate),
            r matches Some(x) ==> price_floor_result(*self, candidate, x),
    {
        if !candidate.is_positive() {
            return Some(
                Err(BinanceError::InvalidRequest(owned("candidate price must be positive"))),
            );
        }
        if self.min_price.is_positive() && candidate.lt(&self.min_price) {
            let a = candidate.to_text();
            let b = self.min_price.to_text();
            let m = concat4("price ", a.as_str(), " is below minimum ", b.as_str());
            return Some(Err(BinanceError::InvalidRequest(m)));
        }
        let anchor = if self.min_price.is_positive() {
            self.min_price
        } else {
            Decimal::zero()
        };
        let normalized = if self.tick_size.is_positive() {
            match floor_to_step(&candidate, &anchor, &self.tick_size) {
                Some(v) => v,
                None => return None,
            }
        } else {
            candidate
        };
        if self.max_price.is_positive() && self.max_price.lt(&normalized) {
            let a = normalized.to_text();
            let b = self.max_price.to_text();
            let m = concat4("price ", a.as_str(), " exceeds maximum ", b.as_str());
            return Some(Err(BinanceError::InvalidRequest(m)));
        }
        Some(Ok(normalized))
    }

    /// Floors a candidate to the nearest valid tick anchored at `min_price`.
    pub fn floor(&self, candidate: Decimal) -> (r: Result<Decimal, BinanceError>)
        requires
            price_floor_defined(*self, candidate),
        ensures
            price_floor_result(*self, candidate, r),
    {
        self.try_floor(candidate).unwrap()
    }
}

/// Quantity bounds and step size.
#[derive(Debug, Clone, Copy, PartialEq)]
pub struct LotSizeFilter {
    /// Minimum quantity.
    pub min_quantity: Decimal,
    /// Maximum quantity.
    pub max_quantity: Decimal,
    /// Quantity increment.
    pub step_size: Decimal,
}

/// Flooring a quantity cannot fail with a decimal overflow.
pub open spec fn quantity_floor_defined(f: LotSizeFilter, c: Decimal) -> bool {
    !value_lt(c@, f.min_quantity@) && is_pos(f.step_size@) ==> floored_to_step(
        c@,
        f.min_quantity@,
        f.step_size@,
    ) is Some
}

/// The candidate snapped down to the step grid anchored at the minimum quantity.
pub open spec fn quantity_normalized(f: LotSizeFilter, c: Decimal) -> (int, int) {
    if is_pos(f.step_size@) {
        floored_to_step(c@, f.min_quantity@, f.step_size@).unwrap()
    } else {
        c@
    }
}

/// The outcome of flooring a quantity, as `LotSizeFilter::floor` returns it.
pub open spec fn quantity_floor_result(
    f: LotSizeFilter,
    c: Decimal,
    r: Result<Decimal, BinanceError>,
) -> bool {
    if value_lt(c@, f.min_quantity@) {
        r matches Err(e) && invalid_request(
            e,
            "quantity "@ + decimal_text(c@) + " is below minimum "@ + decimal_text(f.min_quantity@),
        )
    } else if value_lt(f.max_quantity@, quantity_normalized(f, c)) {
        r matches Err(e) && invalid_request(
            e,
            "quantity "@ + decimal_text(quantity_normalized(f, c)) + " exceeds maximum "@
                + decimal_text(f.max_quantity@),
        )
    } else {
        r matches Ok(d) && d@ == quantity_normalized(f, c)
    }
}

impl LotSizeFilter {
    /// Floors a candidate to the nearest valid quantity step, or returns `None` when the
    /// decimal arithmetic overflows.
    pub fn try_floor(&self, candidate: Decimal) -> (r: Option<Result<Decimal, BinanceError>>)
        ensures
            r is Some <==> quantity_floor_defined(*self, candidate),
            r matches Some(x) ==> quantity_floor_result(*self, candidate, x),
    {
        if candidate.lt(&self.min_quantity) {
            let a = candidate.to_text();
            let b = self.min_quantity.to_text();
            let m = concat4("quantity ", a.as_str(), " is below minimum ", b.as_str());
            return Some(Err(BinanceError::InvalidRequest(m)));
        }
        let normalized = if self.step_size.is_positive() {
            match floor_to_step(&candidate, &self.min_quantity, &self.step_size) {
                Some(v) => v,
                None => return None,
            }
        } else {
            candidate
        };
        if self.max_quantity.lt(&normalized) {
            let a = normalized.to_text();
            let b = self.max_quantity.to_text();
            let m = concat4("quantity ", a.as_str(), " exceeds maximum ", b.as_str());
            return Some(Err(BinanceError::InvalidRequest(m)));
        }
        Some(Ok(normalized))
    }

    /// Floors a candidate to the nearest valid quantity step.
    pub fn floor(&self, candidate: Decimal) -> (r: Result<Decimal, BinanceError>)
        requires
            quantity_floor_defined(*self, candidate),
        ensures
            quantity_floor_result(*self, candidate, r),
    {
        self.try_floor(candidate).unwrap()
    }
}

/// Price range relative to current mark price.
#[derive(Debug, Clone, Copy, PartialEq)]
pub struct PercentPriceFilter {
    /// Upper multiplier.
    pub multiplier_up: Decimal,
    /// Lower multiplier.
    pub multiplier_down: Decimal,
    /// Decimal precision from exchange metadata.
    pub multiplier_decimal: u32,
}

/// Parsed per-symbol trading rules.
#[derive(Debug, Clone, PartialEq)]
pub struct SymbolRules {
    /// Limit-order price filter.
    pub price: Option<PriceFilter>,
    /// Limit-order quantity filter.
    pub lot_size: Option<LotSizeFilter>,
    /// Market-order quantity filter.
    pub market_lot_size: Option<LotSizeFilter>,
    /// Relative mark-price bounds.
    pub percent_price: Option<PercentPriceFilter>,
    /// Minimum order notional.
    pub min_notional: Option<Decimal>,
    /// Maximum open order count.
    pub max_orders: Option<u64>,
    /// Maximum open algorithm order count.
    pub max_algo_orders: Option<u64>,
    /// Unknown filter names retained for forward compatibility.
    pub unknown_filters: Vec<String>,
}

impl SymbolRules {
    /// Rules with no filter present.
    pub fn empty() -> (r: SymbolRules)
        ensures
            r.price is None,
            r.lot_size is None,
            r.market_lot_size is None,
            r.percent_price is None,
            r.min_notional is None,
            r.max_orders is None,
            r.max_algo_orders is None,
            r.unknown_filters@.len() == 0,
    {
        SymbolRules {
            price: None,
            lot_size: None,
            market_lot_size: None,
            percent_price: None,
            min_notional: None,
            max_orders: None,
            max_algo_orders: None,
            unknown_filters: Vec::new(),
        }
    }
}

impl Default for SymbolRules {
    fn default() -> (r: SymbolRules)
        ensures
            r.price is None,
            r.lot_size is None,
            r.market_lot_size is None,
            r.percent_price is None,
            r.min_notional is None,
            r.max_orders is None,
            r.max_algo_orders is None,
            r.unknown_filters@.len() == 0,
    {
        SymbolRules::empty()
    }
}

/// A floored price is the candidate snapped to the tick grid anchored at the minimum
/// price, never above an enabled maximum, and only produced for positive candidates at or
/// above an enabled minimum.
pub proof fn lemma_floored_price_within_bounds(f: PriceFilter, c: Decimal, p: Decimal)
    requires
        price_floor_result(f, c, Ok(p)),
    ensures
        is_pos(c@),
        is_pos(f.min_price@) ==> !value_lt(c@, f.min_price@),
        is_pos(f.max_price@) ==> !value_lt(f.max_price@, p@),
        p@ == price_normalized(f, c),
        !is_pos(f.tick_size@) ==> p@ == c@,
{
}

/// A floored quantity is the candidate snapped to the step grid anchored at the minimum
/// quantity, never above the maximum, and only produced for candidates at or above the minimum.
pub proof fn lemma_floored_quantity_within_bounds(f: LotSizeFilter, c: Decimal, q: Decimal)
    requires
        quantity_floor_result(f, c, Ok(q)),
    ensures
        !value_lt(c@, f.min_quantity@),
        !value_lt(f.max_quantity@, q@),
        q@ == quantity_normalized(f, c),
        !is_pos(f.step_size@) ==> q@ == c@,
{
}

} // verus!

//! Normalization of `/fapi/v1/exchangeInfo` and `/fapi/v1/klines` responses.
//!
//! The application decodes the JSON text; these functions check and normalize what
//! was decoded and keep the exact payload for auditing.

use vstd::prelude::*;
use vstd::string::*;

use crate::binance::error::{invalid_response, BinanceError};
use crate::binance::filters::{LotSizeFilter, PercentPriceFilter, PriceFilter, SymbolRules};
use crate::binance::models::{
    contract_status_of,
    contract_type_of,
    ContractSpec,
    ContractStatus,
    ContractType,
    ExchangeInfo,
};
use crate::decimal::{decimal_parse, is_pos, value_le, Decimal};
use crate::domain::{valid_symbol, DomainError, Price, Symbol};
use crate::json::{
    decode_json, json_decode, json_get, json_get_str, json_get_u64, json_i64, json_str, JsonValue,
};
use crate::market_data::{Interval, Kline, MarketDataError, RawEvent};
use crate::text::{concat2, concat4, int_text, owned, same_text, usize_to_text};
use crate::time::{chrono_millis_representable, Timestamp};

verus! {

/// `value[key]` is decimal text.
pub open spec fn field_decimal_ok(v: JsonValue, key: Seq<char>) -> bool {
    json_get_str(v, key) is Some && decimal_parse(json_get_str(v, key).unwrap()) is Some
}

/// The decimal that `value[key]` holds.
pub open spec fn field_decimal(v: JsonValue, key: Seq<char>) -> (int, int) {
    decimal_parse(json_get_str(v, key).unwrap()).unwrap()
}

/// The error for a missing or malformed decimal member of a filter.
pub open spec fn field_decimal_error(
    v: JsonValue,
    key: Seq<char>,
    field: Seq<char>,
    e: BinanceError,
) -> bool {
    if json_get_str(v, key) is None {
        invalid_response(e, field + " is missing"@)
    } else {
        e matches BinanceError::InvalidDecimal { field: f, value: x } && f@ == field && x@
            == json_get_str(v, key).unwrap()
    }
}

/// `value[key]` is a non-negative integer within `bound`.
pub open spec fn field_int_ok(v: JsonValue, key: Seq<char>, bound: int) -> bool {
    json_get_u64(v, key) is Some && json_get_u64(v, key).unwrap() <= bound
}

/// The error for a missing or out-of-range integer member of a filter.
pub open spec fn field_int_error(
    v: JsonValue,
    key: Seq<char>,
    field: Seq<char>,
    e: BinanceError,
) -> bool {
    if json_get_u64(v, key) is None {
        invalid_response(e, field + " is missing"@)
    } else {
        invalid_response(e, field + " is out of range"@)
    }
}

fn decimal_field(
    value: &JsonValue,
    key: &str,
    field: &'static str,
) -> (r: Result<Decimal, BinanceError>)
    ensures
        field_decimal_ok(*value, key@) ==> (r matches Ok(d) && d@ == field_decimal(*value, key@)),
        !field_decimal_ok(*value, key@) ==> (r matches Err(e) && field_decimal_error(
            *value,
            key@,
            field@,
            e,
        )),
{
    let raw = match value.get(key) {
        Some(v) => match v.as_str() {
            Some(s) => s,
            None => return Err(BinanceError::InvalidResponse(concat2(field, " is missing"))),
        },
        None => return Err(BinanceError::InvalidResponse(concat2(field, " is missing"))),
    };
    match Decimal::parse(raw) {
        Some(d) => Ok(d),
        None => Err(BinanceError::InvalidDecimal { field, value: owned(raw) }),
    }
}

fn integer_field(value: &JsonValue, key: &str, field: &'static str, bound: u64) -> (r: Result<
    u64,
    BinanceError,
>)
    ensures
        field_int_ok(*value, key@, bound as int) ==> r == Ok::<u64, BinanceError>(
            json_get_u64(*value, key@).unwrap() as u64,
        ),
        !field_int_ok(*value, key@, bound as int) ==> (r matches Err(e) && field_int_error(
            *value,
            key@,
            field@,
            e,
        )),
{
    let raw = match value.get(key) {
        Some(v) => match v.as_u64() {
            Some(n) => n,
            None => return Err(BinanceError::InvalidResponse(concat2(field, " is missing"))),
        },
        None => return Err(BinanceError::InvalidResponse(concat2(field, " is missing"))),
    };
    if raw <= bound {
        Ok(raw)
    } else {
        Err(BinanceError::InvalidResponse(concat2(field, " is out of range")))
    }
}

/// The type name of a filter object.
pub open spec fn filter_type(f: JsonValue) -> Option<Seq<char>> {
    json_get_str(f, "filterType"@)
}

/// The members that a filter of a known type needs are present and well-formed.
pub open spec fn filter_ok(f: JsonValue) -> bool {
    match filter_type(f) {
        None => false,
        Some(t) => if t == "PRICE_FILTER"@ {
            field_decimal_ok(f, "minPrice"@) && field_decimal_ok(f, "maxPrice"@) && field_decimal_ok(
                f,
                "tickSize"@,
            )
        } else if t == "LOT_SIZE"@ || t == "MARKET_LOT_SIZE"@ {
            field_decimal_ok(f, "minQty"@) && field_decimal_ok(f, "maxQty"@) && field_decimal_ok(
                f,
                "stepSize"@,
            )
        } else if t == "PERCENT_PRICE"@ {
            field_decimal_ok(f, "multiplierUp"@) && field_decimal_ok(f, "multiplierDown"@)
                && field_int_ok(f, "multiplierDecimal"@, u32::MAX as int)
        } else if t == "MIN_NOTIONAL"@ {
            field_decimal_ok(f, "notional"@)
        } else if t == "MAX_NUM_ORDERS"@ || t == "MAX_NUM_ALGO_ORDERS"@ {
            field_int_ok(f, "limit"@, u64::MAX as int)
        } else {
            true
        },
    }
}

/// The error reported for a malformed filter: its first missing or malformed member.
pub open spec fn filter_error(f: JsonValue, e: BinanceError) -> bool {
    match filter_type(f) {
        None => invalid_response(e, "filter missing filterType"@),
        Some(t) => if t == "PRICE_FILTER"@ {
            if !field_decimal_ok(f, "minPrice"@) {
                field_decimal_error(f, "minPrice"@, "PRICE_FILTER.minPrice"@, e)
            } else if !field_decimal_ok(f, "maxPrice"@) {
                field_decimal_error(f, "maxPrice"@, "PRICE_FILTER.maxPrice"@, e)
            } else {
                field_decimal_error(f, "tickSize"@, "PRICE_FILTER.tickSize"@, e)
            }
        } else if t == "LOT_SIZE"@ || t == "MARKET_LOT_SIZE"@ {
            let prefix = if t == "LOT_SIZE"@ {
                "LOT_SIZE"@
            } else {
                "MARKET_LOT_SIZE"@
            };
            if !field_decimal_ok(f, "minQty"@) {
                field_decimal_error(f, "minQty"@, prefix, e)
            } else if !field_decimal_ok(f, "maxQty"@) {
                field_decimal_error(f, "maxQty"@, prefix, e)
            } else {
                field_decimal_error(f, "stepSize"@, prefix, e)
            }
        } else if t == "PERCENT_PRICE"@ {
            if !field_decimal_ok(f, "multiplierUp"@) {
                field_decimal_error(f, "multiplierUp"@, "PERCENT_PRICE.multiplierUp"@, e)
            } else if !field_decimal_ok(f, "multiplierDown"@) {
                field_decimal_error(f, "multiplierDown"@, "PERCENT_PRICE.multiplierDown"@, e)
            } else {
                field_int_error(f, "multiplierDecimal"@, "PERCENT_PRICE.multiplierDecimal"@, e)
            }
        } else if t == "MIN_NOTIONAL"@ {
            field_decimal_error(f, "notional"@, "MIN_NOTIONAL.notional"@, e)
        } else if t == "MAX_NUM_ORDERS"@ {
            field_int_error(f, "limit"@, "MAX_NUM_ORDERS.limit"@, e)
        } else {
            field_int_error(f, "limit"@, "MAX_NUM_ALGO_ORDERS.limit"@, e)
        },
    }
}

/// A filter type that the rules model.
pub open spec fn known_filter(t: Seq<char>) -> bool {
    t == "PRICE_FILTER"@ || t == "LOT_SIZE"@ || t == "MARKET_LOT_SIZE"@ || t == "PERCENT_PRICE"@
        || t == "MIN_NOTIONAL"@ || t == "MAX_NUM_ORDERS"@ || t == "MAX_NUM_ALGO_ORDERS"@
}

/// The last filter of a type among the first `n` filters.
pub open spec fn last_filter(fs: Seq<JsonValue>, t: Seq<char>) -> Option<JsonValue>
    decreases fs.len(),
{
    if fs.len() == 0 {
        None
    } else if filter_type(fs.last()) == Some(t) {
        Some(fs.last())
    } else {
        last_filter(fs.drop_last(), t)
    }
}

/// The names of the filters of unknown type, in order.
pub open spec fn unknown_names(fs: Seq<JsonValue>) -> Seq<Seq<char>>
    decreases fs.len(),
{
    if fs.len() == 0 {
        Seq::empty()
    } else {
        let rest = unknown_names(fs.drop_last());
        match filter_type(fs.last()) {
            Some(t) => if known_filter(t) {
                rest
            } else {
                rest.push(t)
            },
            None => rest,
        }
    }
}

/// A price filter holds the members of a `PRICE_FILTER` object.
pub open spec fn price_filter_from(f: JsonValue, p: PriceFilter) -> bool {
    p.min_price@ == field_decimal(f, "minPrice"@) && p.max_price@ == field_decimal(f, "maxPrice"@)
        && p.tick_size@ == field_decimal(f, "tickSize"@)
}

/// A lot-size filter holds the members of a `LOT_SIZE` or `MARKET_LOT_SIZE` object.
pub open spec fn lot_size_from(f: JsonValue, l: LotSizeFilter) -> bool {
    l.min_quantity@ == field_decimal(f, "minQty"@) && l.max_quantity@ == field_decimal(f, "maxQty"@)
        && l.step_size@ == field_decimal(f, "stepSize"@)
}

/// A percent-price filter holds the members of a `PERCENT_PRICE` object.
pub open spec fn percent_price_from(f: JsonValue, p: PercentPriceFilter) -> bool {
    p.multiplier_up@ == field_decimal(f, "multiplierUp"@) && p.multiplier_down@ == field_decimal(
        f,
        "multiplierDown"@,
    ) && p.multiplier_decimal as int == json_get_u64(f, "multiplierDecimal"@).unwrap()
}

/// The rules' price filter comes from the last `PRICE_FILTER`.
pub open spec fn price_rule_from(fs: Seq<JsonValue>, r: SymbolRules) -> bool {
    match last_filter(fs, "PRICE_FILTER"@) {
        Some(f) => r.price matches Some(p) && price_filter_from(f, p),
        None => r.price is None,
    }
}

/// The rules' lot-size filter comes from the last `LOT_SIZE`.
pub open spec fn lot_rule_from(fs: Seq<JsonValue>, r: SymbolRules) -> bool {
    match last_filter(fs, "LOT_SIZE"@) {
        Some(f) => r.lot_size matches Some(l) && lot_size_from(f, l),
        None => r.lot_size is None,
    }
}

/// The rules' market lot-size filter comes from the last `MARKET_LOT_SIZE`.
pub open spec fn market_lot_rule_from(fs: Seq<JsonValue>, r: SymbolRules) -> bool {
    match last_filter(fs, "MARKET_LOT_SIZE"@) {
        Some(f) => r.market_lot_size matches Some(l) && lot_size_from(f, l),
        None => r.market_lot_size is None,
    }
}

/// The rules' percent-price filter comes from the last `PERCENT_PRICE`.
pub open spec fn percent_rule_from(fs: Seq<JsonValue>, r: SymbolRules) -> bool {
    match last_filter(fs, "PERCENT_PRICE"@) {
        Some(f) => r.percent_price matches Some(p) && percent_price_from(f, p),
        None => r.percent_price is None,
    }
}

/// The rules' minimum notional comes from the last `MIN_NOTIONAL`.
pub open spec fn notional_rule_from(fs: Seq<JsonValue>, r: SymbolRules) -> bool {
    match last_filter(fs, "MIN_NOTIONAL"@) {
        Some(f) => r.min_notional matches Some(d) && d@ == field_decimal(f, "notional"@),
        None => r.min_notional is None,
    }
}

/// The rules' order limits come from the last `MAX_NUM_ORDERS` and `MAX_NUM_ALGO_ORDERS`.
pub open spec fn order_limits_from(fs: Seq<JsonValue>, r: SymbolRules) -> bool {
    &&& match last_filter(fs, "MAX_NUM_ORDERS"@) {
        Some(f) => r.max_orders == Some(json_get_u64(f, "limit"@).unwrap() as u64),
        None => r.max_orders is None,
    }
    &&& match last_filter(fs, "MAX_NUM_ALGO_ORDERS"@) {
        Some(f) => r.max_algo_orders == Some(json_get_u64(f, "limit"@).unwrap() as u64),
        None => r.max_algo_orders is None,
    }
}

/// Rules hold, for each modelled type, the last filter of that type, and the names of
/// unknown filters in order.
pub open spec fn rules_from(fs: Seq<JsonValue>, r: SymbolRules) -> bool {
    &&& price_rule_from(fs, r)
    &&& lot_rule_from(fs, r)
    &&& market_lot_rule_from(fs, r)
    &&& percent_rule_from(fs, r)
    &&& notional_rule_from(fs, r)
    &&& order_limits_from(fs, r)
    &&& r.unknown_filters@.map_values(|s: String| s@) == unknown_names(fs)
}

/// Index of the first malformed filter, if any.
pub open spec fn first_bad_filter(fs: Seq<JsonValue>) -> Option<int> {
    if exists|i: int| 0 <= i < fs.len() && !filter_ok(#[trigger] fs[i]) {
        Some(
            choose|i: int|
                0 <= i < fs.len() && !filter_ok(#[trigger] fs[i]) && forall|j: int|
                    0 <= j < i ==> filter_ok(#[trigger] fs[j]),
        )
    } else {
        None
    }
}

fn lot_size(value: &JsonValue, prefix: &'static str) -> (r: Result<LotSizeFilter, BinanceError>)
    ensures
        (field_decimal_ok(*value, "minQty"@) && field_decimal_ok(*value, "maxQty"@)
            && field_decimal_ok(*value, "stepSize"@)) ==> (r matches Ok(l) && lot_size_from(
            *value,
            l,
        )),
        !(field_decimal_ok(*value, "minQty"@) && field_decimal_ok(*value, "maxQty"@)
            && field_decimal_ok(*value, "stepSize"@)) ==> (r matches Err(e) && if !field_decimal_ok(
            *value,
            "minQty"@,
        ) {
            field_decimal_error(*value, "minQty"@, prefix@, e)
        } else if !field_decimal_ok(*value, "maxQty"@) {
            field_decimal_error(*value, "maxQty"@, prefix@, e)
        } else {
            field_decimal_error(*value, "stepSize"@, prefix@, e)
        }),
{
    let min_quantity = match decimal_field(value, "minQty", prefix) {
        Ok(d) => d,
        Err(e) => return Err(e),
    };
    let max_quantity = match decimal_field(value, "maxQty", prefix) {
        Ok(d) => d,
        Err(e) => return Err(e),
    };
    let step_size = match decimal_field(value, "stepSize", prefix) {
        Ok(d) => d,
        Err(e) => return Err(e),
    };
    Ok(LotSizeFilter { min_quantity, max_quantity, step_size })
}

/// Parses exchange filter objects into per-symbol rules, keeping unknown filter names.
#[verifier::rlimit(60)]
pub fn parse_filters(filters: &Vec<JsonValue>) -> (r: Result<SymbolRules, BinanceError>)
    ensures
        r is Ok <==> first_bad_filter(filters@) is None,
        r matches Ok(rules) ==> rules_from(filters@, rules),
        r matches Err(e) ==> filter_error(filters@[first_bad_filter(filters@).unwrap()], e),
{
    let mut rules = SymbolRules::empty();
    let mut i: usize = 0;
    proof {
        assert(rules.unknown_filters@.map_values(|s: String| s@) =~= unknown_names(
            filters@.subrange(0, 0),
        ));
    }
    while i < filters.len()
        invariant
            i <= filters@.len(),
            forall|j: int| 0 <= j < i ==> filter_ok(#[trigger] filters@[j]),
            rules_from(filters@.subrange(0, i as int), rules),
        decreases filters@.len() - i,
    {
        let filter = &filters[i];
        let ghost before = filters@.subrange(0, i as int);
        let ghost after = filters@.subrange(0, i + 1);
        proof {
            assert(after.drop_last() =~= before);
            assert(after.last() == *filter);
        }
        let kind = match filter.get("filterType") {
            Some(v) => match v.as_str() {
                Some(t) => t,
                None => {
                    proof { lemma_first_bad(filters@, i as int); }
                    return Err(BinanceError::InvalidResponse(owned("filter missing filterType")));
                },
            },
            None => {
                proof { lemma_first_bad(filters@, i as int); }
                return Err(BinanceError::InvalidResponse(owned("filter missing filterType")));
            },
        };
        if same_text(kind, "PRICE_FILTER") {
            let min_price = match decimal_field(filter, "minPrice", "PRICE_FILTER.minPrice") {
                Ok(d) => d,
                Err(e) => {
                    proof { lemma_first_bad(filters@, i as int); }
                    return Err(e);
                },
            };
            let max_price = match decimal_field(filter, "maxPrice", "PRICE_FILTER.maxPrice") {
                Ok(d) => d,
                Err(e) => {
                    proof { lemma_first_bad(filters@, i as int); }
                    return Err(e);
                },
            };
            let tick_size = match decimal_field(filter, "tickSize", "PRICE_FILTER.tickSize") {
                Ok(d) => d,
                Err(e) => {
                    proof { lemma_first_bad(filters@, i as int); }
                    return Err(e);
                },
            };
            rules.price = Some(PriceFilter { min_price, max_price, tick_size });
        } else if same_text(kind, "LOT_SIZE") {
            match lot_size(filter, "LOT_SIZE") {
                Ok(l) => rules.lot_size = Some(l),
                Err(e) => {
                    proof { lemma_first_bad(filters@, i as int); }
                    return Err(e);
                },
            }
        } else if same_text(kind, "MARKET_LOT_SIZE") {
            match lot_size(filter, "MARKET_LOT_SIZE") {
                Ok(l) => rules.market_lot_size = Some(l),
                Err(e) => {
                    proof { lemma_first_bad(filters@, i as int); }
                    return Err(e);
                },
            }
        } else if same_text(kind, "PERCENT_PRICE") {
            let multiplier_up = match decimal_field(
                filter,
                "multiplierUp",
                "PERCENT_PRICE.multiplierUp",
            ) {
                Ok(d) => d,
                Err(e) => {
                    proof { lemma_first_bad(filters@, i as int); }
                    return Err(e);
                },
            };
            let multiplier_down = match decimal_field(
                filter,
                "multiplierDown",
                "PERCENT_PRICE.multiplierDown",
            ) {
                Ok(d) => d,
                Err(e) => {
                    proof { lemma_first_bad(filters@, i as int); }
                    return Err(e);
                },
            };
            let multiplier_decimal = match integer_field(
                filter,
                "multiplierDecimal",
                "PERCENT_PRICE.multiplierDecimal",
                4294967295u64,
            ) {
                Ok(n) => n as u32,
                Err(e) => {
                    proof { lemma_first_bad(filters@, i as int); }
                    return Err(e);
                },
            };
            rules.percent_price = Some(
                PercentPriceFilter { multiplier_up, multiplier_down, multiplier_decimal },
            );
        } else if same_text(kind, "MIN_NOTIONAL") {
            match decimal_field(filter, "notional", "MIN_NOTIONAL.notional") {
                Ok(d) => rules.min_notional = Some(d),
                Err(e) => {
                    proof { lemma_first_bad(filters@, i as int); }
                    return Err(e);
                },
            }
        } else if same_text(kind, "MAX_NUM_ORDERS") {
            match integer_field(filter, "limit", "MAX_NUM_ORDERS.limit", 18446744073709551615u64) {
                Ok(n) => rules.max_orders = Some(n),
                Err(e) => {
                    proof { lemma_first_bad(filters@, i as int); }
                    return Err(e);
                },
            }
        } else if same_text(kind, "MAX_NUM_ALGO_ORDERS") {
            match integer_field(filter, "limit", "MAX_NUM_ALGO_ORDERS.limit", 18446744073709551615u64) {
                Ok(n) => rules.max_algo_orders = Some(n),
                Err(e) => {
                    proof { lemma_first_bad(filters@, i as int); }
                    return Err(e);
                },
            }
        } else {
            rules.unknown_filters.push(owned(kind));
            proof {
                assert(rules.unknown_filters@.map_values(|s: String| s@) =~= unknown_names(after));
            }
        }
        proof {
            lemma_filter_names_distinct();
            let t = kind@;
            assert(filter_type(*filter) == Some(t));
            assert(last_filter(after, "PRICE_FILTER"@) == if t == "PRICE_FILTER"@ {
                Some(*filter)
            } else {
                last_filter(before, "PRICE_FILTER"@)
            });
            assert(last_filter(after, "LOT_SIZE"@) == if t == "LOT_SIZE"@ {
                Some(*filter)
            } else {
                last_filter(before, "LOT_SIZE"@)
            });
            assert(last_filter(after, "MARKET_LOT_SIZE"@) == if t == "MARKET_LOT_SIZE"@ {
                Some(*filter)
            } else {
                last_filter(before, "MARKET_LOT_SIZE"@)
            });
            assert(last_filter(after, "PERCENT_PRICE"@) == if t == "PERCENT_PRICE"@ {
                Some(*filter)
            } else {
                last_filter(before, "PERCENT_PRICE"@)
            });
            assert(last_filter(after, "MIN_NOTIONAL"@) == if t == "MIN_NOTIONAL"@ {
                Some(*filter)
            } else {
                last_filter(before, "MIN_NOTIONAL"@)
            });
            assert(last_filter(after, "MAX_NUM_ORDERS"@) == if t == "MAX_NUM_ORDERS"@ {
                Some(*filter)
            } else {
                last_filter(before, "MAX_NUM_ORDERS"@)
            });
            assert(last_filter(after, "MAX_NUM_ALGO_ORDERS"@) == if t == "MAX_NUM_ALGO_ORDERS"@ {
                Some(*filter)
            } else {
                last_filter(before, "MAX_NUM_ALGO_ORDERS"@)
            });
            if known_filter(t) {
                assert(unknown_names(after) == unknown_names(before));
            }
            assert(price_rule_from(after, rules));
            assert(lot_rule_from(after, rules));
            assert(market_lot_rule_from(after, rules));
            assert(percent_rule_from(after, rules));
            assert(notional_rule_from(after, rules));
            assert(order_limits_from(after, rules));
            assert(rules.unknown_filters@.map_values(|s: String| s@) == unknown_names(after));
            assert(rules_from(after, rules));
        }
        i = i + 1;
    }
    proof {
        assert(filters@.subrange(0, filters@.len() as int) =~= filters@);
    }
    Ok(rules)
}

/// The modelled filter type names are pairwise different.
proof fn lemma_filter_names_distinct()
    ensures
        "PRICE_FILTER"@ != "LOT_SIZE"@,
        "PRICE_FILTER"@ != "MARKET_LOT_SIZE"@,
        "PRICE_FILTER"@ != "PERCENT_PRICE"@,
        "PRICE_FILTER"@ != "MIN_NOTIONAL"@,
        "PRICE_FILTER"@ != "MAX_NUM_ORDERS"@,
        "PRICE_FILTER"@ != "MAX_NUM_ALGO_ORDERS"@,
        "LOT_SIZE"@ != "MARKET_LOT_SIZE"@,
        "LOT_SIZE"@ != "PERCENT_PRICE"@,
        "LOT_SIZE"@ != "MIN_NOTIONAL"@,
        "LOT_SIZE"@ != "MAX_NUM_ORDERS"@,
        "LOT_SIZE"@ != "MAX_NUM_ALGO_ORDERS"@,
        "MARKET_LOT_SIZE"@ != "PERCENT_PRICE"@,
        "MARKET_LOT_SIZE"@ != "MIN_NOTIONAL"@,
        "MARKET_LOT_SIZE"@ != "MAX_NUM_ORDERS"@,
        "MARKET_LOT_SIZE"@ != "MAX_NUM_ALGO_ORDERS"@,
        "PERCENT_PRICE"@ != "MIN_NOTIONAL"@,
        "PERCENT_PRICE"@ != "MAX_NUM_ORDERS"@,
        "PERCENT_PRICE"@ != "MAX_NUM_ALGO_ORDERS"@,
        "MIN_NOTIONAL"@ != "MAX_NUM_ORDERS"@,
        "MIN_NOTIONAL"@ != "MAX_NUM_ALGO_ORDERS"@,
        "MAX_NUM_ORDERS"@ != "MAX_NUM_ALGO_ORDERS"@,
{
    reveal_strlit("PRICE_FILTER");
    reveal_strlit("LOT_SIZE");
    reveal_strlit("MARKET_LOT_SIZE");
    reveal_strlit("PERCENT_PRICE");
    reveal_strlit("MIN_NOTIONAL");
    reveal_strlit("MAX_NUM_ORDERS");
    reveal_strlit("MAX_NUM_ALGO_ORDERS");
    assert("PRICE_FILTER"@.len() == 12);
    assert("LOT_SIZE"@.len() == 8);
    assert("MARKET_LOT_SIZE"@.len() == 15);
    assert("PERCENT_PRICE"@.len() == 13);
    assert("MIN_NOTIONAL"@.len() == 12);
    assert("MAX_NUM_ORDERS"@.len() == 14);
    assert("MAX_NUM_ALGO_ORDERS"@.len() == 19);
    assert("PRICE_FILTER"@[0] != "MIN_NOTIONAL"@[0]);
}

/// The first malformed filter is the one at `i` when all before it are well-formed.
proof fn lemma_first_bad(fs: Seq<JsonValue>, i: int)
    requires
        0 <= i < fs.len(),
        !filter_ok(fs[i]),
        forall|j: int| 0 <= j < i ==> filter_ok(#[trigger] fs[j]),
    ensures
        first_bad_filter(fs) == Some(i),
{
    let c = choose|c: int|
        0 <= c < fs.len() && !filter_ok(#[trigger] fs[c]) && forall|j: int|
            0 <= j < c ==> filter_ok(#[trigger] fs[j]);
    assert(0 <= i < fs.len() && !filter_ok(fs[i]) && forall|j: int|
        0 <= j < i ==> filter_ok(#[trigger] fs[j]));
    if c < i {
        assert(filter_ok(fs[c]));
    }
    if c > i {
        assert(filter_ok(fs[i]));
    }
}

/// A cell holds decimal text.
pub open spec fn cell_decimal_ok(v: JsonValue) -> bool {
    json_str(v) is Some && decimal_parse(json_str(v).unwrap()) is Some
}

/// The decimal a cell holds.
pub open spec fn cell_decimal(v: JsonValue) -> (int, int) {
    decimal_parse(json_str(v).unwrap()).unwrap()
}

/// The error for a cell that does not hold decimal text.
pub open spec fn cell_decimal_error(v: JsonValue, field: Seq<char>, e: BinanceError) -> bool {
    if json_str(v) is None {
        invalid_response(e, field + " must be text"@)
    } else {
        e matches BinanceError::InvalidDecimal { field: f, value: x } && f@ == field && x@ == json_str(
            v,
        ).unwrap()
    }
}

/// A cell holds a positive decimal.
pub open spec fn cell_price_ok(v: JsonValue) -> bool {
    cell_decimal_ok(v) && is_pos(cell_decimal(v))
}

/// The error for a cell that does not hold a positive decimal.
pub open spec fn cell_price_error(v: JsonValue, field: Seq<char>, e: BinanceError) -> bool {
    if !cell_decimal_ok(v) {
        cell_decimal_error(v, field, e)
    } else {
        e matches BinanceError::Domain(DomainError::NonPositive { field: f, value }) && f@
            == "price"@ && value@ == cell_decimal(v)
    }
}

/// Every cell of a kline row is well-formed.
pub open spec fn kline_row_ok(row: Seq<JsonValue>) -> bool {
    &&& row.len() >= 11
    &&& json_i64(row[0]) is Some && json_i64(row[6]) is Some
    &&& chrono_millis_representable(json_i64(row[6]).unwrap())
    &&& chrono_millis_representable(json_i64(row[0]).unwrap())
    &&& cell_price_ok(row[1]) && cell_price_ok(row[2]) && cell_price_ok(row[3]) && cell_price_ok(row[4])
    &&& cell_decimal_ok(row[5]) && cell_decimal_ok(row[7])
    &&& json_i64(row[8]) is Some && json_i64(row[8]).unwrap() >= 0
    &&& cell_decimal_ok(row[9]) && cell_decimal_ok(row[10])
}

/// The error reported for the first malformed cell of a kline row.
pub open spec fn kline_row_error(index: int, row: Seq<JsonValue>, e: BinanceError) -> bool {
    if row.len() < 11 {
        invalid_response(
            e,
            "kline row "@ + crate::text::int_text(index) + " has "@ + crate::text::int_text(
                row.len() as int,
            ) + " fields; expected at least 11"@,
        )
    } else if json_i64(row[0]) is None {
        invalid_response(e, "kline.openTime"@ + " must be an integer"@)
    } else if json_i64(row[6]) is None {
        invalid_response(e, "kline.closeTime"@ + " must be an integer"@)
    } else if !chrono_millis_representable(json_i64(row[6]).unwrap()) {
        e == BinanceError::MarketData(
            MarketDataError::InvalidTimestamp(json_i64(row[6]).unwrap() as i64),
        )
    } else if !chrono_millis_representable(json_i64(row[0]).unwrap()) {
        e == BinanceError::MarketData(
            MarketDataError::InvalidTimestamp(json_i64(row[0]).unwrap() as i64),
        )
    } else if !cell_price_ok(row[1]) {
        cell_price_error(row[1], "kline.open"@, e)
    } else if !cell_price_ok(row[2]) {
        cell_price_error(row[2], "kline.high"@, e)
    } else if !cell_price_ok(row[3]) {
        cell_price_error(row[3], "kline.low"@, e)
    } else if !cell_price_ok(row[4]) {
        cell_price_error(row[4], "kline.close"@, e)
    } else if !cell_decimal_ok(row[5]) {
        cell_decimal_error(row[5], "kline.volume"@, e)
    } else if !cell_decimal_ok(row[7]) {
        cell_decimal_error(row[7], "kline.quoteVolume"@, e)
    } else if json_i64(row[8]) is None {
        invalid_response(e, "kline.tradeCount"@ + " must be an integer"@)
    } else if json_i64(row[8]).unwrap() < 0 {
        invalid_response(e, "kline.tradeCount"@ + " is out of range"@)
    } else if !cell_decimal_ok(row[9]) {
        cell_decimal_error(row[9], "kline.takerBuyVolume"@, e)
    } else {
        cell_decimal_error(row[10], "kline.takerBuyQuoteVolume"@, e)
    }
}

/// A candle holds exactly the cells of a kline row; it is closed when its close time
/// precedes the observation time.
pub open spec fn kline_row_matches(
    row: Seq<JsonValue>,
    symbol: Seq<char>,
    interval: Interval,
    observed_at: int,
    k: Kline,
) -> bool {
    &&& k.symbol@ == symbol
    &&& k.interval == interval
    &&& k.open_time@ == json_i64(row[0]).unwrap()
    &&& k.close_time@ == json_i64(row[6]).unwrap()
    &&& k.open@ == cell_decimal(row[1])
    &&& k.high@ == cell_decimal(row[2])
    &&& k.low@ == cell_decimal(row[3])
    &&& k.close@ == cell_decimal(row[4])
    &&& k.volume@ == cell_decimal(row[5])
    &&& k.quote_volume@ == cell_decimal(row[7])
    &&& k.trade_count as int == json_i64(row[8]).unwrap()
    &&& k.taker_buy_volume@ == cell_decimal(row[9])
    &&& k.taker_buy_quote_volume@ == cell_decimal(row[10])
    &&& k.is_closed == (json_i64(row[6]).unwrap() < observed_at)
}

fn cell_i64(value: &JsonValue, field: &'static str) -> (r: Result<i64, BinanceError>)
    ensures
        match json_i64(*value) {
            Some(n) => r == Ok::<i64, BinanceError>(n as i64),
            None => r matches Err(e) && invalid_response(e, field@ + " must be an integer"@),
        },
{
    match value.as_i64() {
        Some(n) => Ok(n),
        None => Err(BinanceError::InvalidResponse(concat2(field, " must be an integer"))),
    }
}

fn cell_decimal_value(value: &JsonValue, field: &'static str) -> (r: Result<Decimal, BinanceError>)
    ensures
        cell_decimal_ok(*value) ==> (r matches Ok(d) && d@ == cell_decimal(*value)),
        !cell_decimal_ok(*value) ==> (r matches Err(e) && cell_decimal_error(*value, field@, e)),
{
    let raw = match value.as_str() {
        Some(s) => s,
        None => return Err(BinanceError::InvalidResponse(concat2(field, " must be text"))),
    };
    match Decimal::parse(raw) {
        Some(d) => Ok(d),
        None => Err(BinanceError::InvalidDecimal { field, value: owned(raw) }),
    }
}

fn cell_price(value: &JsonValue, field: &'static str) -> (r: Result<Price, BinanceError>)
    ensures
        cell_price_ok(*value) ==> (r matches Ok(p) && p@ == cell_decimal(*value)),
        !cell_price_ok(*value) ==> (r matches Err(e) && cell_price_error(*value, field@, e)),
{
    let d = match cell_decimal_value(value, field) {
        Ok(d) => d,
        Err(e) => return Err(e),
    };
    match Price::new(d) {
        Ok(p) => Ok(p),
        Err(e) => Err(BinanceError::Domain(e)),
    }
}

fn cell_time(ms: i64) -> (r: Result<Timestamp, BinanceError>)
    ensures
        chrono_millis_representable(ms as int) ==> (r matches Ok(t) && t@ == ms as int),
        !chrono_millis_representable(ms as int) ==> r == Err::<Timestamp, BinanceError>(
            BinanceError::MarketData(MarketDataError::InvalidTimestamp(ms)),
        ),
{
    match Kline::timestamp(ms) {
        Ok(t) => Ok(t),
        Err(e) => Err(BinanceError::MarketData(e)),
    }
}

/// Normalizes one decoded `/fapi/v1/klines` row (at position `index`).
pub fn parse_kline_row(
    index: usize,
    row: &Vec<JsonValue>,
    symbol: &Symbol,
    interval: Interval,
    observed_at: Timestamp,
) -> (r: Result<Kline, BinanceError>)
    ensures
        r is Ok <==> kline_row_ok(row@),
        r matches Ok(k) ==> kline_row_matches(row@, symbol@, interval, observed_at@, k),
        r matches Ok(k) ==> json_str(row@[2]) matches Some(h) && decimal_parse(h) == Some(k.high@),
        r matches Ok(k) ==> json_str(row@[3]) matches Some(l) && decimal_parse(l) == Some(k.low@),
        r matches Err(e) ==> kline_row_error(index as int, row@, e),
{
    if row.len() < 11 {
        let a = usize_to_text(index);
        let b = usize_to_text(row.len());
        let m = concat4("kline row ", a.as_str(), " has ", b.as_str());
        let m = concat2(m.as_str(), " fields; expected at least 11");
        return Err(BinanceError::InvalidResponse(m));
    }
    let open_ms = match cell_i64(&row[0], "kline.openTime") {
        Ok(n) => n,
        Err(e) => return Err(e),
    };
    let close_ms = match cell_i64(&row[6], "kline.closeTime") {
        Ok(n) => n,
        Err(e) => return Err(e),
    };
    let close_time = match cell_time(close_ms) {
        Ok(t) => t,
        Err(e) => return Err(e),
    };
    let open_time = match cell_time(open_ms) {
        Ok(t) => t,
        Err(e) => return Err(e),
    };
    let open = match cell_price(&row[1], "kline.open") {
        Ok(p) => p,
        Err(e) => return Err(e),
    };
    let high = match cell_price(&row[2], "kline.high") {
        Ok(p) => p,
        Err(e) => return Err(e),
    };
    let low = match cell_price(&row[3], "kline.low") {
        Ok(p) => p,
        Err(e) => return Err(e),
    };
    let close = match cell_price(&row[4], "kline.close") {
        Ok(p) => p,
        Err(e) => return Err(e),
    };
    let volume = match cell_decimal_value(&row[5], "kline.volume") {
        Ok(d) => d,
        Err(e) => return Err(e),
    };
    let quote_volume = match cell_decimal_value(&row[7], "kline.quoteVolume") {
        Ok(d) => d,
        Err(e) => return Err(e),
    };
    let count = match cell_i64(&row[8], "kline.tradeCount") {
        Ok(n) => n,
        Err(e) => return Err(e),
    };
    if count < 0 {
        return Err(BinanceError::InvalidResponse(concat2("kline.tradeCount", " is out of range")));
    }
    let taker_buy_volume = match cell_decimal_value(&row[9], "kline.takerBuyVolume") {
        Ok(d) => d,
        Err(e) => return Err(e),
    };
    let taker_buy_quote_volume = match cell_decimal_value(&row[10], "kline.takerBuyQuoteVolume") {
        Ok(d) => d,
        Err(e) => return Err(e),
    };
    let is_closed = close_time.before(&observed_at);
    Ok(
        Kline {
            symbol: symbol.duplicate(),
            interval,
            open_time,
            close_time,
            open,
            high,
            low,
            close,
            volume,
            quote_volume,
            trade_count: count as u64,
            taker_buy_volume,
            taker_buy_quote_volume,
            is_closed,
        },
    )
}

/// The cells of a decoded kline row (none when the value is not an array).
pub open spec fn row_cells(v: JsonValue) -> Seq<JsonValue> {
    match v {
        JsonValue::Array(cells) => cells@,
        _ => Seq::empty(),
    }
}

/// The rows of a decoded `/fapi/v1/klines` response: present exactly when the document
/// is an array of arrays.
pub open spec fn kline_rows(root: JsonValue) -> Option<Seq<Seq<JsonValue>>> {
    match root {
        JsonValue::Array(items) => if forall|i: int|
            0 <= i < items@.len() ==> #[trigger] items@[i] is Array {
            Some(Seq::new(items@.len(), |i: int| row_cells(items@[i])))
        } else {
            None
        },
        _ => None,
    }
}

/// Index of the first malformed kline row, if any.
pub open spec fn first_bad_row(rows: Seq<Seq<JsonValue>>) -> Option<int> {
    if exists|i: int| 0 <= i < rows.len() && !kline_row_ok(#[trigger] rows[i]) {
        Some(
            choose|i: int|
                0 <= i < rows.len() && !kline_row_ok(#[trigger] rows[i]) && forall|j: int|
                    0 <= j < i ==> kline_row_ok(#[trigger] rows[j]),
        )
    } else {
        None
    }
}

proof fn lemma_first_bad_row(rows: Seq<Seq<JsonValue>>, i: int)
    requires
        0 <= i < rows.len(),
        !kline_row_ok(rows[i]),
        forall|j: int| 0 <= j < i ==> kline_row_ok(#[trigger] rows[j]),
    ensures
        first_bad_row(rows) == Some(i),
{
    let c = choose|c: int|
        0 <= c < rows.len() && !kline_row_ok(#[trigger] rows[c]) && forall|j: int|
            0 <= j < c ==> kline_row_ok(#[trigger] rows[j]);
    assert(0 <= i < rows.len() && !kline_row_ok(rows[i]) && forall|j: int|
        0 <= j < i ==> kline_row_ok(#[trigger] rows[j]));
    if c < i {
        assert(kline_row_ok(rows[c]));
    }
    if c > i {
        assert(kline_row_ok(rows[i]));
    }
}

/// What a `/fapi/v1/klines` response decoded to `root` gives: an invalid response when
/// it is not an array of rows; otherwise the candles of all rows in order, or the error
/// of the first malformed row.
pub open spec fn kline_rows_result(
    root: JsonValue,
    symbol: Seq<char>,
    interval: Interval,
    observed_at: int,
    r: Result<Vec<Kline>, BinanceError>,
) -> bool {
    match kline_rows(root) {
        None => r matches Err(e) && invalid_response(e, "kline response must be an array of rows"@),
        Some(rows) => {
            &&& r is Ok <==> first_bad_row(rows) is None
            &&& r matches Ok(ks) ==> ks@.len() == rows.len() && forall|i: int|
                0 <= i < rows.len() ==> kline_row_matches(
                    #[trigger] rows[i],
                    symbol,
                    interval,
                    observed_at,
                    ks@[i],
                )
            &&& r matches Err(e) ==> kline_row_error(
                first_bad_row(rows).unwrap(),
                rows[first_bad_row(rows).unwrap()],
                e,
            )
        },
    }
}

/// Binance's kline layout: in every candle of a `/fapi/v1/klines` response, the high is
/// the decimal text of row cell 2 and the low that of row cell 3, the open cell 1 and the
/// close cell 4; so a candle's low is at most its high whenever the exchange's row has its
/// low at most its high.
pub proof fn lemma_rest_candles_follow_kline_layout(
    root: JsonValue,
    symbol: Seq<char>,
    interval: Interval,
    observed_at: int,
    r: Result<Vec<Kline>, BinanceError>,
)
    requires
        kline_rows_result(root, symbol, interval, observed_at, r),
    ensures
        r matches Ok(ks) ==> forall|i: int|
            0 <= i < ks@.len() ==> {
                let row = kline_rows(root).unwrap()[i];
                &&& json_str(row[1]) is Some && decimal_parse(json_str(row[1]).unwrap()) == Some(
                    (#[trigger] ks@[i]).open@,
                )
                &&& json_str(row[2]) is Some && decimal_parse(json_str(row[2]).unwrap()) == Some(
                    ks@[i].high@,
                )
                &&& json_str(row[3]) is Some && decimal_parse(json_str(row[3]).unwrap()) == Some(
                    ks@[i].low@,
                )
                &&& json_str(row[4]) is Some && decimal_parse(json_str(row[4]).unwrap()) == Some(
                    ks@[i].close@,
                )
                &&& value_le(
                    decimal_parse(json_str(row[3]).unwrap()).unwrap(),
                    decimal_parse(json_str(row[2]).unwrap()).unwrap(),
                ) ==> value_le(ks@[i].low@, ks@[i].high@)
            },
{
    if r is Ok {
        let rows = kline_rows(root).unwrap();
        let ks = r->Ok_0;
        assert forall|i: int| 0 <= i < ks@.len() implies {
            let row = kline_rows(root).unwrap()[i];
            &&& json_str(row[1]) is Some && decimal_parse(json_str(row[1]).unwrap()) == Some(
                (#[trigger] ks@[i]).open@,
            )
            &&& json_str(row[2]) is Some && decimal_parse(json_str(row[2]).unwrap()) == Some(
                ks@[i].high@,
            )
            &&& json_str(row[3]) is Some && decimal_parse(json_str(row[3]).unwrap()) == Some(
                ks@[i].low@,
            )
            &&& json_str(row[4]) is Some && decimal_parse(json_str(row[4]).unwrap()) == Some(
                ks@[i].close@,
            )
            &&& value_le(
                decimal_parse(json_str(row[3]).unwrap()).unwrap(),
                decimal_parse(json_str(row[2]).unwrap()).unwrap(),
            ) ==> value_le(ks@[i].low@, ks@[i].high@)
        } by {
            assert(kline_row_matches(rows[i], symbol, interval, observed_at, ks@[i]));
            if !kline_row_ok(rows[i]) {
                assert(exists|j: int| 0 <= j < rows.len() && !kline_row_ok(#[trigger] rows[j]));
            }
        }
    }
}

/// Parses an exact `/fapi/v1/klines` payload: the text is decoded as JSON (a decoding
/// failure is an invalid response carrying the decoder's message), and the document is
/// read as `parse_kline_rows` reads it.
pub fn parse_klines(
    payload: &str,
    symbol: &Symbol,
    interval: Interval,
    observed_at: Timestamp,
) -> (r: Result<Vec<Kline>, BinanceError>)
    ensures
        match json_decode(payload@) {
            Ok(root) => kline_rows_result(root, symbol@, interval, observed_at@, r),
            Err(m) => r matches Err(e) && invalid_response(e, m),
        },
{
    match decode_json(payload) {
        Ok(root) => parse_kline_rows(&root, symbol, interval, observed_at),
        Err(m) => Err(BinanceError::InvalidResponse(m)),
    }
}

/// Normalizes the rows of a decoded `/fapi/v1/klines` response, in order; a document
/// that is not an array of rows, or the first malformed row, fails the whole response.
pub fn parse_kline_rows(
    root: &JsonValue,
    symbol: &Symbol,
    interval: Interval,
    observed_at: Timestamp,
) -> (r: Result<Vec<Kline>, BinanceError>)
    ensures
        kline_rows_result(*root, symbol@, interval, observed_at@, r),
{
    let items = match root {
        JsonValue::Array(items) => items,
        _ => return Err(BinanceError::InvalidResponse(owned("kline response must be an array of rows"))),
    };
    let mut k: usize = 0;
    while k < items.len()
        invariant
            k <= items@.len(),
            *root == JsonValue::Array(*items),
            forall|j: int| 0 <= j < k ==> #[trigger] items@[j] is Array,
        decreases items@.len() - k,
    {
        match &items[k] {
            JsonValue::Array(_) => {},
            _ => {
                assert(!(items@[k as int] is Array));
                return Err(BinanceError::InvalidResponse(owned("kline response must be an array of rows")));
            },
        }
        k = k + 1;
    }
    let ghost rows = Seq::new(items@.len(), |i: int| row_cells(items@[i]));
    assert(kline_rows(*root) == Some(rows));
    let mut out: Vec<Kline> = Vec::new();
    let mut i: usize = 0;
    while i < items.len()
        invariant
            i <= items@.len(),
            rows.len() == items@.len(),
            kline_rows(*root) == Some(rows),
            forall|j: int| 0 <= j < items@.len() ==> #[trigger] items@[j] is Array,
            forall|j: int| 0 <= j < items@.len() ==> #[trigger] rows[j] == row_cells(items@[j]),
            out@.len() == i,
            forall|j: int| 0 <= j < i ==> kline_row_ok(#[trigger] rows[j]),
            forall|j: int|
                0 <= j < i ==> kline_row_matches(
                    #[trigger] rows[j],
                    symbol@,
                    interval,
                    observed_at@,
                    out@[j],
                ),
        decreases items@.len() - i,
    {
        let cells = match &items[i] {
            JsonValue::Array(cells) => cells,
            _ => return Err(BinanceError::InvalidResponse(owned("kline response must be an array of rows"))),
        };
        assert(rows[i as int] == cells@);
        match parse_kline_row(i, cells, symbol, interval, observed_at) {
            Ok(k) => out.push(k),
            Err(e) => {
                proof {
                    lemma_first_bad_row(rows, i as int);
                }
                return Err(e);
            },
        }
        i = i + 1;
    }
    Ok(out)
}

/// A contract entry of `/fapi/v1/exchangeInfo`, as decoded.
#[derive(Debug)]
pub struct RawContract {
    /// `symbol`.
    pub symbol: String,
    /// `contractType`.
    pub contract_type: String,
    /// `status`.
    pub status: String,
    /// `baseAsset`.
    pub base_asset: String,
    /// `quoteAsset`.
    pub quote_asset: String,
    /// `marginAsset`.
    pub margin_asset: String,
    /// `onboardDate`, in milliseconds.
    pub onboard_date: i64,
    /// `filters`.
    pub filters: Vec<JsonValue>,
}

/// A decoded `/fapi/v1/exchangeInfo` response.
#[derive(Debug)]
pub struct RawExchangeInfo {
    /// `serverTime`, in milliseconds.
    pub server_time: i64,
    /// `symbols`.
    pub symbols: Vec<RawContract>,
}

/// A contract entry is well-formed.
pub open spec fn contract_ok(c: RawContract) -> bool {
    &&& valid_symbol(c.symbol@)
    &&& chrono_millis_representable(c.onboard_date as int)
    &&& first_bad_filter(c.filters@) is None
}

/// The error reported for a malformed contract entry.
pub open spec fn contract_error(c: RawContract, e: BinanceError) -> bool {
    if !valid_symbol(c.symbol@) {
        e matches BinanceError::Domain(DomainError::InvalidIdentifier(x)) && x@ == c.symbol@
    } else if !chrono_millis_representable(c.onboard_date as int) {
        e == BinanceError::MarketData(MarketDataError::InvalidTimestamp(c.onboard_date))
    } else {
        filter_error(c.filters@[first_bad_filter(c.filters@).unwrap()], e)
    }
}

/// A contract spec holds exactly a contract entry.
pub open spec fn contract_matches(c: RawContract, s: ContractSpec) -> bool {
    &&& s.symbol@ == c.symbol@
    &&& contract_type_of(c.contract_type@, s.contract_type)
    &&& contract_status_of(c.status@, s.status)
    &&& s.base_asset@ == c.base_asset@
    &&& s.quote_asset@ == c.quote_asset@
    &&& s.margin_asset@ == c.margin_asset@
    &&& s.onboarded_at@ == c.onboard_date as int
    &&& rules_from(c.filters@, s.rules)
}

fn parse_contract(raw: &RawContract) -> (r: Result<ContractSpec, BinanceError>)
    ensures
        r is Ok <==> contract_ok(*raw),
        r matches Ok(s) ==> contract_matches(*raw, s),
        r matches Err(e) ==> contract_error(*raw, e),
{
    let symbol = match Symbol::new(raw.symbol.as_str()) {
        Ok(s) => s,
        Err(e) => return Err(BinanceError::Domain(e)),
    };
    let onboarded_at = match cell_time(raw.onboard_date) {
        Ok(t) => t,
        Err(e) => return Err(e),
    };
    let rules = match parse_filters(&raw.filters) {
        Ok(r) => r,
        Err(e) => return Err(e),
    };
    Ok(
        ContractSpec {
            symbol,
            contract_type: ContractType::from(raw.contract_type.clone()),
            status: ContractStatus::from(raw.status.clone()),
            base_asset: raw.base_asset.clone(),
            quote_asset: raw.quote_asset.clone(),
            margin_asset: raw.margin_asset.clone(),
            onboarded_at,
            rules,
        },
    )
}

/// Index of the first malformed contract entry, if any.
pub open spec fn first_bad_contract(cs: Seq<RawContract>) -> Option<int> {
    if exists|i: int| 0 <= i < cs.len() && !contract_ok(#[trigger] cs[i]) {
        Some(
            choose|i: int|
                0 <= i < cs.len() && !contract_ok(#[trigger] cs[i]) && forall|j: int|
                    0 <= j < i ==> contract_ok(#[trigger] cs[j]),
        )
    } else {
        None
    }
}

proof fn lemma_first_bad_contract(cs: Seq<RawContract>, i: int)
    requires
        0 <= i < cs.len(),
        !contract_ok(cs[i]),
        forall|j: int| 0 <= j < i ==> contract_ok(#[trigger] cs[j]),
    ensures
        first_bad_contract(cs) == Some(i),
{
    let c = choose|c: int|
        0 <= c < cs.len() && !contract_ok(#[trigger] cs[c]) && forall|j: int|
            0 <= j < c ==> contract_ok(#[trigger] cs[j]);
    assert(0 <= i < cs.len() && !contract_ok(cs[i]) && forall|j: int|
        0 <= j < i ==> contract_ok(#[trigger] cs[j]));
    if c < i {
        assert(contract_ok(cs[c]));
    }
    if c > i {
        assert(contract_ok(cs[i]));
    }
}

/// Normalizes a decoded `/fapi/v1/exchangeInfo` response; `payload` is the exact text it
/// was decoded from and is kept, with its hash, for auditing.
pub fn parse_exchange_info(payload: &str, raw: &RawExchangeInfo, received_at: Timestamp) -> (r:
    Result<ExchangeInfo, BinanceError>)
    ensures
        r is Ok <==> (chrono_millis_representable(raw.server_time as int) && first_bad_contract(
            raw.symbols@,
        ) is None),
        !chrono_millis_representable(raw.server_time as int) ==> r == Err::<ExchangeInfo, BinanceError>(
            BinanceError::MarketData(MarketDataError::InvalidTimestamp(raw.server_time)),
        ),
        chrono_millis_representable(raw.server_time as int) && first_bad_contract(raw.symbols@) is Some
            ==> (r matches Err(e) && contract_error(
            raw.symbols@[first_bad_contract(raw.symbols@).unwrap()],
            e,
        )),
        r matches Ok(info) ==> {
            &&& info.server_time@ == raw.server_time as int
            &&& info.contracts@.len() == raw.symbols@.len()
            &&& forall|i: int|
                0 <= i < raw.symbols@.len() ==> contract_matches(
                    #[trigger] raw.symbols@[i],
                    info.contracts@[i],
                )
            &&& info.raw_event.source@ == "binance-usdm"@
            &&& info.raw_event.channel@ == "/fapi/v1/exchangeInfo"@
            &&& info.raw_event.exchange_event_time == Some(info.server_time)
            &&& info.raw_event.received_at == received_at
            &&& info.raw_event.payload@ == payload@
            &&& crate::market_data::raw_event_hash_ok(info.raw_event)
        },
{
    let server_time = match cell_time(raw.server_time) {
        Ok(t) => t,
        Err(e) => return Err(e),
    };
    let mut contracts: Vec<ContractSpec> = Vec::new();
    let mut i: usize = 0;
    while i < raw.symbols.len()
        invariant
            i <= raw.symbols@.len(),
            chrono_millis_representable(raw.server_time as int),
            contracts@.len() == i,
            forall|j: int| 0 <= j < i ==> contract_ok(#[trigger] raw.symbols@[j]),
            forall|j: int|
                0 <= j < i ==> contract_matches(#[trigger] raw.symbols@[j], contracts@[j]),
        decreases raw.symbols@.len() - i,
    {
        match parse_contract(&raw.symbols[i]) {
            Ok(c) => contracts.push(c),
            Err(e) => {
                proof {
                    lemma_first_bad_contract(raw.symbols@, i as int);
                }
                return Err(e);
            },
        }
        i = i + 1;
    }
    let raw_event = RawEvent::new(
        "binance-usdm",
        "/fapi/v1/exchangeInfo",
        Some(server_time),
        received_at,
        payload,
    );
    Ok(ExchangeInfo { server_time, contracts, raw_event })
}

} // verus!

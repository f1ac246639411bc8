//! Strongly typed, exchange-neutral trading domain types.

use vstd::prelude::*;
use vstd::string::*;

use crate::decimal::{decimal_text, is_pos, Decimal};
use crate::text::{concat2, concat3, owned, trim, trimmed};
use crate::time::Timestamp;

verus! {

/// Domain validation failure.
#[derive(Debug, Clone, PartialEq)]
pub enum DomainError {
    /// A text identifier was empty or invalid.
    InvalidIdentifier(String),
    /// A numeric value was not strictly positive.
    NonPositive {
        /// Field name.
        field: &'static str,
        /// Rejected value.
        value: Decimal,
    },
    /// A required limit price was missing.
    MissingLimitPrice,
}

/// The message of a domain error.
pub open spec fn domain_error_message(e: DomainError) -> Seq<char> {
    match e {
        DomainError::InvalidIdentifier(s) => "invalid identifier: "@ + s@,
        DomainError::NonPositive { field, value } => field@ + " must be positive, got "@
            + decimal_text(value@),
        DomainError::MissingLimitPrice => "limit order requires a price"@,
    }
}

impl DomainError {
    /// The human-readable message.
    pub fn message(&self) -> (s: String)
        ensures
            s@ == domain_error_message(*self),
    {
        match self {
            DomainError::InvalidIdentifier(v) => concat2("invalid identifier: ", v.as_str()),
            DomainError::NonPositive { field, value } => {
                let t = value.to_text();
                concat3(field, " must be positive, got ", t.as_str())
            },
            DomainError::MissingLimitPrice => owned("limit order requires a price"),
        }
    }
}

/// A character allowed in a contract symbol.
pub open spec fn symbol_char(c: char) -> bool {
    ('A' <= c && c <= 'Z') || ('0' <= c && c <= '9') || c == '_'
}

/// A valid contract symbol: 1 to 32 characters from `A-Z`, `0-9` and `_`.
pub open spec fn valid_symbol(s: Seq<char>) -> bool {
    &&& 0 < s.len() <= 32
    &&& forall|i: int| 0 <= i < s.len() ==> #[trigger] symbol_char(s[i])
}

/// Binance-style contract symbol, represented independently from the adapter.
#[derive(Debug, PartialEq, Eq, Hash)]
pub struct Symbol(String);

impl View for Symbol {
    type V = Seq<char>;

    closed spec fn view(&self) -> Seq<char> {
        self.0@
    }
}

/// Whether every character of a text is a symbol character.
fn all_symbol_chars(value: &str) -> (ok: bool)
    ensures
        ok == (forall|i: int| 0 <= i < value@.len() ==> #[trigger] symbol_char(value@[i])),
{
    let n = value.unicode_len();
    let mut i: usize = 0;
    while i < n
        invariant
            n == value@.len(),
            i <= n,
            forall|j: int| 0 <= j < i ==> #[trigger] symbol_char(value@[j]),
        decreases n - i,
    {
        let c = value.get_char(i);
        if !(('A' <= c && c <= 'Z') || ('0' <= c && c <= '9') || c == '_') {
            assert(!symbol_char(value@[i as int]));
            return false;
        }
        i = i + 1;
    }
    true
}

impl Symbol {
    #[verifier::type_invariant]
    closed spec fn inv(self) -> bool {
        valid_symbol(self.0@)
    }

    /// Creates a validated symbol.
    pub fn new(value: &str) -> (r: Result<Symbol, DomainError>)
        ensures
            r is Ok <==> valid_symbol(value@),
            r matches Ok(s) ==> s@ == value@,
            r matches Err(e) ==> e == DomainError::InvalidIdentifier(e->InvalidIdentifier_0)
                && e->InvalidIdentifier_0@ == value@,
    {
        let n = value.unicode_len();
        if n > 0 && n <= 32 && all_symbol_chars(value) {
            Ok(Symbol(owned(value)))
        } else {
            Err(DomainError::InvalidIdentifier(owned(value)))
        }
    }

    /// Returns the raw symbol text.
    pub fn as_str(&self) -> (s: &str)
        ensures
            s@ == self@,
            valid_symbol(s@),
    {
        proof {
            use_type_invariant(self);
        }
        self.0.as_str()
    }

    /// Both symbols hold the same text.
    pub(crate) fn same(&self, other: &Symbol) -> (b: bool)
        ensures
            b == (self@ == other@),
    {
        self.0 == other.0
    }

    /// A copy of the symbol.
    pub(crate) fn duplicate(&self) -> (s: Symbol)
        ensures
            s@ == self@,
    {
        proof {
            use_type_invariant(self);
        }
        Symbol(self.0.clone())
    }
}

impl Clone for Symbol {
    fn clone(&self) -> (s: Symbol)
        ensures
            s@ == self@,
    {
        self.duplicate()
    }
}

impl core::str::FromStr for Symbol {
    type Err = DomainError;

    fn from_str(value: &str) -> (r: Result<Symbol, DomainError>)
        ensures
            r is Ok <==> valid_symbol(value@),
            r matches Ok(s) ==> s@ == value@,
            r matches Err(e) ==> e == DomainError::InvalidIdentifier(e->InvalidIdentifier_0)
                && e->InvalidIdentifier_0@ == value@,
    {
        Symbol::new(value)
    }
}

/// Validated positive price.
#[derive(Debug, Clone, Copy, PartialEq)]
pub struct Price(Decimal);

/// Validated positive quantity.
#[derive(Debug, Clone, Copy, PartialEq)]
pub struct Quantity(Decimal);

/// Validated positive notional.
#[derive(Debug, Clone, Copy, PartialEq)]
pub struct Notional(Decimal);

impl View for Price {
    type V = (int, int);

    closed spec fn view(&self) -> (int, int) {
        self.0@
    }
}

impl View for Quantity {
    type V = (int, int);

    closed spec fn view(&self) -> (int, int) {
        self.0@
    }
}

impl View for Notional {
    type V = (int, int);

    closed spec fn view(&self) -> (int, int) {
        self.0@
    }
}

/// The error for a value that is not strictly positive.
pub open spec fn non_positive(field: Seq<char>, value: Decimal, e: DomainError) -> bool {
    e matches DomainError::NonPositive { field: f, value: v } && f@ == field && v@ == value@
}

impl Price {
    #[verifier::type_invariant]
    closed spec fn inv(self) -> bool {
        is_pos(self.0@)
    }

    /// Creates a positive price.
    pub fn new(value: Decimal) -> (r: Result<Price, DomainError>)
        ensures
            r is Ok <==> is_pos(value@),
            r matches Ok(p) ==> p@ == value@,
            r matches Err(e) ==> non_positive("price"@, value, e),
    {
        if value.is_positive() {
            Ok(Price(value))
        } else {
            Err(DomainError::NonPositive { field: "price", value })
        }
    }

    /// Returns the underlying price.
    pub fn value(self) -> (d: Decimal)
        ensures
            d@ == self@,
            is_pos(d@),
    {
        proof {
            use_type_invariant(&self);
        }
        self.0
    }
}

impl Quantity {
    #[verifier::type_invariant]
    closed spec fn inv(self) -> bool {
        is_pos(self.0@)
    }

    /// Creates a positive quantity.
    pub fn new(value: Decimal) -> (r: Result<Quantity, DomainError>)
        ensures
            r is Ok <==> is_pos(value@),
            r matches Ok(p) ==> p@ == value@,
            r matches Err(e) ==> non_positive("quantity"@, value, e),
    {
        if value.is_positive() {
            Ok(Quantity(value))
        } else {
            Err(DomainError::NonPositive { field: "quantity", value })
        }
    }

    /// Returns the underlying quantity.
    pub fn value(self) -> (d: Decimal)
        ensures
            d@ == self@,
            is_pos(d@),
    {
        proof {
            use_type_invariant(&self);
        }
        self.0
    }
}

impl Notional {
    #[verifier::type_invariant]
    closed spec fn inv(self) -> bool {
        is_pos(self.0@)
    }

    /// Creates a positive notional.
    pub fn new(value: Decimal) -> (r: Result<Notional, DomainError>)
        ensures
            r is Ok <==> is_pos(value@),
            r matches Ok(p) ==> p@ == value@,
            r matches Err(e) ==> non_positive("notional"@, value, e),
    {
        if value.is_positive() {
            Ok(Notional(value))
        } else {
            Err(DomainError::NonPositive { field: "notional", value })
        }
    }

    /// Returns the underlying notional.
    pub fn value(self) -> (d: Decimal)
        ensures
            d@ == self@,
            is_pos(d@),
    {
        proof {
            use_type_invariant(&self);
        }
        self.0
    }
}

/// Trade direction.
#[derive(Debug, Clone, Copy, PartialEq, Eq, Structural)]
pub enum Side {
    /// Buy.
    Buy,
    /// Sell.
    Sell,
}

/// Whether an intent opens or reduces exposure.
#[derive(Debug, Clone, Copy, PartialEq, Eq, Structural)]
pub enum PositionEffect {
    /// May create or increase exposure.
    Open,
    /// Must reduce absolute exposure.
    Reduce,
}

/// Exchange-neutral order style.
#[derive(Debug, Clone, Copy, PartialEq, Eq, Structural)]
pub enum OrderStyle {
    /// Market order.
    Market,
    /// Limit order.
    Limit,
}

/// The 128 bits of a version 4 UUID: the version nibble is 4 and the variant bits are
/// those of RFC 4122 (`10`); the other 122 bits are free.
pub open spec fn is_v4_uuid(bits: u128) -> bool {
    bits & 0xF000_C000_0000_0000_0000u128 == 0x4000_8000_0000_0000_0000u128
}

/// Calls `uuid::Uuid::new_v4` and returns its 128 bits. `new_v4` masks random bits and
/// sets the version and variant bits, so those are fixed; the rest are random and
/// nothing more is claimed of them.
#[verifier::external_body]
fn random_uuid() -> (bits: u128)
    ensures
        is_v4_uuid(bits),
{
    uuid::Uuid::new_v4().as_u128()
}

/// Unique strategy identifier (a random UUID).
#[derive(Debug, Clone, Copy, PartialEq, Eq, Hash, Structural)]
pub struct StrategyId(pub u128);

impl StrategyId {
    /// Creates a random strategy identifier (a version 4 UUID).
    pub fn new() -> (id: StrategyId)
        ensures
            is_v4_uuid(id.0),
    {
        StrategyId(random_uuid())
    }
}

/// Unique order-intent identifier (a random UUID).
#[derive(Debug, Clone, Copy, PartialEq, Eq, Hash, Structural)]
pub struct IntentId(pub u128);

impl IntentId {
    /// Creates a random intent identifier (a version 4 UUID).
    pub fn new() -> (id: IntentId)
        ensures
            is_v4_uuid(id.0),
    {
        IntentId(random_uuid())
    }
}

/// A strategy request that has no authority to reach an exchange directly.
#[derive(Debug, Clone, PartialEq)]
pub struct OrderIntent {
    /// Unique intent ID.
    pub id: IntentId,
    /// Strategy that produced the intent.
    pub strategy_id: StrategyId,
    /// Contract symbol.
    pub symbol: Symbol,
    /// Buy or sell.
    pub side: Side,
    /// Open or reduce exposure.
    pub position_effect: PositionEffect,
    /// Market or limit.
    pub style: OrderStyle,
    /// Requested quantity.
    pub quantity: Quantity,
    /// Required for limit orders.
    pub limit_price: Option<Price>,
    /// Stable machine-readable rationale.
    pub reason: String,
    /// Creation timestamp.
    pub created_at: Timestamp,
    /// Optional expiry.
    pub expires_at: Option<Timestamp>,
}

/// The intent passes validation.
pub open spec fn intent_valid(intent: OrderIntent) -> bool {
    &&& !(intent.style == OrderStyle::Limit && intent.limit_price is None)
    &&& trimmed(intent.reason@).len() != 0
}

impl OrderIntent {
    /// Validates cross-field invariants.
    pub fn validate(&self) -> (r: Result<(), DomainError>)
        ensures
            r is Ok <==> intent_valid(*self),
            (self.style == OrderStyle::Limit && self.limit_price is None) ==> r == Err::<
                (),
                DomainError,
            >(DomainError::MissingLimitPrice),
            !(self.style == OrderStyle::Limit && self.limit_price is None) && trimmed(
                self.reason@,
            ).len() == 0 ==> (r matches Err(DomainError::InvalidIdentifier(s)) && s@
                == "empty reason"@),
    {
        if self.style == OrderStyle::Limit && self.limit_price.is_none() {
            return Err(DomainError::MissingLimitPrice);
        }
        let t = trim(self.reason.as_str());
        if t.is_empty() {
            return Err(DomainError::InvalidIdentifier(owned("empty reason")));
        }
        Ok(())
    }
}

/// An intent approved by the risk gate for execution.
#[derive(Debug, Clone, PartialEq)]
pub struct ApprovedOrder {
    /// The validated intent.
    pub intent: OrderIntent,
    /// Time of risk approval.
    pub approved_at: Timestamp,
}

impl ApprovedOrder {
    /// Creates an approved order. Only the risk gate should normally call this.
    pub fn new(intent: OrderIntent, approved_at: Timestamp) -> (o: ApprovedOrder)
        ensures
            o.intent == intent,
            o.approved_at == approved_at,
    {
        ApprovedOrder { intent, approved_at }
    }
}

} // verus!

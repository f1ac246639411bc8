//! Fixed-point decimal values held as a 96-bit mantissa and a power-of-ten scale.
//!
//! The arithmetic itself is performed by `rust_decimal`; this module holds the
//! plain parts of a value, states their meaning, and names what the crate computes.

use vstd::prelude::*;

use crate::text::nat_digits;

verus! {

/// Largest mantissa magnitude a decimal can hold (96 bits).
pub const MAX_MANTISSA: i128 = 0xFFFF_FFFF_FFFF_FFFF_FFFF_FFFFi128;

/// Largest supported number of fractional digits.
pub const MAX_SCALE: u32 = 28;

/// `10^n`.
pub open spec fn pow10(n: nat) -> int
    decreases n,
{
    if n == 0 {
        1
    } else {
        10 * pow10((n - 1) as nat)
    }
}

/// A decimal number `mantissa / 10^scale`.
#[derive(Clone, Copy, Debug)]
pub struct Decimal {
    mantissa: i128,
    scale: u32,
}

impl View for Decimal {
    type V = (int, int);

    /// The pair (mantissa, scale).
    closed spec fn view(&self) -> (int, int) {
        (self.mantissa as int, self.scale as int)
    }
}

/// The mantissa of a decimal given by its parts.
pub open spec fn mant(d: (int, int)) -> int {
    d.0
}

/// The scale of a decimal given by its parts.
pub open spec fn exp(d: (int, int)) -> nat {
    d.1 as nat
}

/// Numeric order on decimals: `a < b` as rational numbers.
pub open spec fn value_lt(a: (int, int), b: (int, int)) -> bool {
    mant(a) * pow10(exp(b)) < mant(b) * pow10(exp(a))
}

/// Numeric equality on decimals (`1.50 == 1.5`).
pub open spec fn value_eq(a: (int, int), b: (int, int)) -> bool {
    mant(a) * pow10(exp(b)) == mant(b) * pow10(exp(a))
}

/// Numeric order on decimals: `a <= b`.
pub open spec fn value_le(a: (int, int), b: (int, int)) -> bool {
    !value_lt(b, a)
}

/// A decimal is strictly positive.
pub open spec fn is_pos(a: (int, int)) -> bool {
    mant(a) > 0
}

/// A decimal is zero.
pub open spec fn is_zero(a: (int, int)) -> bool {
    mant(a) == 0
}

/// A decimal is strictly negative.
pub open spec fn is_neg(a: (int, int)) -> bool {
    mant(a) < 0
}

/// Parts that a decimal can hold.
pub open spec fn parts_valid(d: (int, int)) -> bool {
    &&& 0 <= d.1 <= MAX_SCALE
    &&& -MAX_MANTISSA <= d.0 <= MAX_MANTISSA
}

/// What `rust_decimal` returns for `a.checked_add(b)`, as parts.
pub uninterp spec fn decimal_sum(a: (int, int), b: (int, int)) -> Option<(int, int)>;

/// What `rust_decimal` returns for `a.checked_sub(b)`, as parts.
pub uninterp spec fn decimal_difference(a: (int, int), b: (int, int)) -> Option<(int, int)>;

/// What `rust_decimal` returns for `a.checked_mul(b)`, as parts.
pub uninterp spec fn decimal_product(a: (int, int), b: (int, int)) -> Option<(int, int)>;

/// What `rust_decimal` returns for `a.checked_div(b)`, as parts.
pub uninterp spec fn decimal_quotient(a: (int, int), b: (int, int)) -> Option<(int, int)>;

/// What `rust_decimal` returns for `a.checked_rem(b)`, as parts.
pub uninterp spec fn decimal_remainder(a: (int, int), b: (int, int)) -> Option<(int, int)>;

/// What `rust_decimal`'s `FromStr` gives for a text, as parts.
pub uninterp spec fn decimal_parse(text: Seq<char>) -> Option<(int, int)>;

/// `count` zero digits.
pub open spec fn zeros(count: nat) -> Seq<char> {
    Seq::new(count, |i: int| '0')
}

/// The digits of a mantissa's magnitude (none for zero), padded on the left with zeros to
/// at least `scale` digits.
pub open spec fn padded_digits(magnitude: nat, scale: nat) -> Seq<char> {
    let digits = if magnitude == 0 {
        Seq::<char>::empty()
    } else {
        nat_digits(magnitude)
    };
    if digits.len() < scale {
        zeros((scale - digits.len()) as nat) + digits
    } else {
        digits
    }
}

/// What `rust_decimal`'s `Display` writes for a decimal given by its parts: `-` for a
/// negative mantissa, the whole digits (`0` when there are none), and for a positive
/// scale a `.` followed by exactly `scale` fractional digits.
pub open spec fn decimal_text(d: (int, int)) -> Seq<char> {
    let magnitude = if d.0 < 0 {
        (-d.0) as nat
    } else {
        d.0 as nat
    };
    let scale = d.1 as nat;
    let digits = padded_digits(magnitude, scale);
    let whole = digits.subrange(0, digits.len() - scale);
    let fraction = digits.subrange(digits.len() - scale, digits.len() as int);
    let whole_text = if whole.len() == 0 {
        seq!['0']
    } else {
        whole
    };
    let sign = if d.0 < 0 {
        seq!['-']
    } else {
        Seq::<char>::empty()
    };
    if scale == 0 {
        sign + whole_text
    } else {
        sign + whole_text + seq!['.'] + fraction
    }
}

/// Lifts an optional decimal to its optional parts.
pub open spec fn opt_view(d: Option<Decimal>) -> Option<(int, int)> {
    match d {
        Some(x) => Some(x@),
        None => None,
    }
}

impl Decimal {
    #[verifier::type_invariant]
    closed spec fn inv(self) -> bool {
        &&& self.scale <= MAX_SCALE
        &&& -MAX_MANTISSA <= self.mantissa <= MAX_MANTISSA
    }

    /// `num / 10^scale`.
    pub fn new(num: i64, scale: u32) -> (d: Decimal)
        requires
            scale <= MAX_SCALE,
        ensures
            d@ == (num as int, scale as int),
    {
        Decimal { mantissa: num as i128, scale }
    }

    /// Builds a decimal from a mantissa and scale when they are in range.
    pub fn try_from_parts(mantissa: i128, scale: u32) -> (d: Option<Decimal>)
        ensures
            d is Some <==> parts_valid((mantissa as int, scale as int)),
            d matches Some(x) ==> x@ == (mantissa as int, scale as int),
    {
        if scale <= MAX_SCALE && -MAX_MANTISSA <= mantissa && mantissa <= MAX_MANTISSA {
            Some(Decimal { mantissa, scale })
        } else {
            None
        }
    }

    /// The integer `n`.
    pub fn from_int(n: i64) -> (d: Decimal)
        ensures
            d@ == (n as int, 0int),
    {
        Decimal { mantissa: n as i128, scale: 0 }
    }

    /// Zero.
    pub fn zero() -> (d: Decimal)
        ensures
            d@ == (0int, 0int),
    {
        Decimal { mantissa: 0, scale: 0 }
    }

    /// One.
    pub fn one() -> (d: Decimal)
        ensures
            d@ == (1int, 0int),
    {
        Decimal { mantissa: 1, scale: 0 }
    }

    /// The mantissa.
    pub fn mantissa(&self) -> (m: i128)
        ensures
            m == mant(self@),
    {
        self.mantissa
    }

    /// The number of fractional digits.
    pub fn scale(&self) -> (s: u32)
        ensures
            s == exp(self@),
    {
        proof {
            use_type_invariant(self);
        }
        self.scale
    }

    /// True when the value is strictly greater than zero.
    pub fn is_positive(&self) -> (b: bool)
        ensures
            b == is_pos(self@),
    {
        self.mantissa > 0
    }

    /// True when the value is zero.
    pub fn is_zero(&self) -> (b: bool)
        ensures
            b == is_zero(self@),
    {
        self.mantissa == 0
    }

    /// True when the value is strictly below zero.
    pub fn is_negative(&self) -> (b: bool)
        ensures
            b == is_neg(self@),
    {
        self.mantissa < 0
    }

    /// The value with its sign flipped.
    pub fn negate(&self) -> (d: Decimal)
        ensures
            d@ == (-mant(self@), self@.1),
    {
        proof {
            use_type_invariant(self);
        }
        Decimal { mantissa: -self.mantissa, scale: self.scale }
    }

    /// `self <= other` as numbers.
    pub fn le(&self, other: &Decimal) -> (b: bool)
        ensures
            b == value_le(self@, other@),
    {
        !decimal_lt(other, self)
    }

    /// `self < other` as numbers.
    pub fn lt(&self, other: &Decimal) -> (b: bool)
        ensures
            b == value_lt(self@, other@),
    {
        decimal_lt(self, other)
    }

    /// `self == other` as numbers.
    pub fn num_eq(&self, other: &Decimal) -> (b: bool)
        ensures
            b == value_eq(self@, other@),
    {
        decimal_eq(self, other)
    }

    /// `self + other`, or `None` when the sum overflows.
    pub fn checked_add(&self, other: &Decimal) -> (d: Option<Decimal>)
        ensures
            opt_view(d) == decimal_sum(self@, other@),
    {
        decimal_checked_add(self, other)
    }

    /// `self - other`, or `None` when the difference overflows.
    pub fn checked_sub(&self, other: &Decimal) -> (d: Option<Decimal>)
        ensures
            opt_view(d) == decimal_difference(self@, other@),
    {
        decimal_checked_sub(self, other)
    }

    /// `self * other`, or `None` when the product overflows.
    pub fn checked_mul(&self, other: &Decimal) -> (d: Option<Decimal>)
        ensures
            opt_view(d) == decimal_product(self@, other@),
    {
        decimal_checked_mul(self, other)
    }

    /// `self / other`, or `None` on division by zero or overflow.
    pub fn checked_div(&self, other: &Decimal) -> (d: Option<Decimal>)
        ensures
            opt_view(d) == decimal_quotient(self@, other@),
    {
        decimal_checked_div(self, other)
    }

    /// `self % other`, or `None` on division by zero or overflow.
    pub fn checked_rem(&self, other: &Decimal) -> (d: Option<Decimal>)
        ensures
            opt_view(d) == decimal_remainder(self@, other@),
    {
        decimal_checked_rem(self, other)
    }

    /// Parses decimal text the way `rust_decimal` does.
    pub fn parse(text: &str) -> (d: Option<Decimal>)
        ensures
            opt_view(d) == decimal_parse(text@),
    {
        decimal_from_text(text)
    }

    /// The display text of the value.
    pub fn to_text(&self) -> (s: String)
        ensures
            s@ == decimal_text(self@),
    {
        decimal_display(self)
    }
}

impl PartialEq for Decimal {
    fn eq(&self, other: &Decimal) -> (b: bool) {
        decimal_eq(self, other)
    }
}

impl vstd::std_specs::cmp::PartialEqSpecImpl for Decimal {
    open spec fn obeys_eq_spec() -> bool {
        true
    }

    open spec fn eq_spec(&self, other: &Decimal) -> bool {
        value_eq(self@, other@)
    }
}

/// Calls `<` of `rust_decimal::Decimal`; the crate compares the exact numbers.
#[verifier::external_body]
fn decimal_lt(a: &Decimal, b: &Decimal) -> (r: bool)
    ensures
        r == value_lt(a@, b@),
{
    rust_decimal::Decimal::from_i128_with_scale(a.mantissa, a.scale)
        < rust_decimal::Decimal::from_i128_with_scale(b.mantissa, b.scale)
}

/// Calls `==` of `rust_decimal::Decimal`; the crate compares the exact numbers.
#[verifier::external_body]
fn decimal_eq(a: &Decimal, b: &Decimal) -> (r: bool)
    ensures
        r == value_eq(a@, b@),
{
    rust_decimal::Decimal::from_i128_with_scale(a.mantissa, a.scale)
        == rust_decimal::Decimal::from_i128_with_scale(b.mantissa, b.scale)
}

/// Calls `rust_decimal::Decimal::checked_add`; the result is named, not described.
#[verifier::external_body]
fn decimal_checked_add(a: &Decimal, b: &Decimal) -> (r: Option<Decimal>)
    ensures
        opt_view(r) == decimal_sum(a@, b@),
{
    let x = rust_decimal::Decimal::from_i128_with_scale(a.mantissa, a.scale);
    let y = rust_decimal::Decimal::from_i128_with_scale(b.mantissa, b.scale);
    match x.checked_add(y) {
        Some(d) => Some(Decimal { mantissa: d.mantissa(), scale: d.scale() }),
        None => None,
    }
}

/// Calls `rust_decimal::Decimal::checked_sub`; the result is named, not described.
#[verifier::external_body]
fn decimal_checked_sub(a: &Decimal, b: &Decimal) -> (r: Option<Decimal>)
    ensures
        opt_view(r) == decimal_difference(a@, b@),
{
    let x = rust_decimal::Decimal::from_i128_with_scale(a.mantissa, a.scale);
    let y = rust_decimal::Decimal::from_i128_with_scale(b.mantissa, b.scale);
    match x.checked_sub(y) {
        Some(d) => Some(Decimal { mantissa: d.mantissa(), scale: d.scale() }),
        None => None,
    }
}

/// Calls `rust_decimal::Decimal::checked_mul`; the result is named, not described.
#[verifier::external_body]
fn decimal_checked_mul(a: &Decimal, b: &Decimal) -> (r: Option<Decimal>)
    ensures
        opt_view(r) == decimal_product(a@, b@),
{
    let x = rust_decimal::Decimal::from_i128_with_scale(a.mantissa, a.scale);
    let y = rust_decimal::Decimal::from_i128_with_scale(b.mantissa, b.scale);
    match x.checked_mul(y) {
        Some(d) => Some(Decimal { mantissa: d.mantissa(), scale: d.scale() }),
        None => None,
    }
}

/// Calls `rust_decimal::Decimal::checked_div`; the result is named, not described.
#[verifier::external_body]
fn decimal_checked_div(a: &Decimal, b: &Decimal) -> (r: Option<Decimal>)
    ensures
        opt_view(r) == decimal_quotient(a@, b@),
{
    let x = rust_decimal::Decimal::from_i128_with_scale(a.mantissa, a.scale);
    let y = rust_decimal::Decimal::from_i128_with_scale(b.mantissa, b.scale);
    match x.checked_div(y) {
        Some(d) => Some(Decimal { mantissa: d.mantissa(), scale: d.scale() }),
        None => None,
    }
}

/// Calls `rust_decimal::Decimal::checked_rem`; the result is named, not described.
#[verifier::external_body]
fn decimal_checked_rem(a: &Decimal, b: &Decimal) -> (r: Option<Decimal>)
    ensures
        opt_view(r) == decimal_remainder(a@, b@),
{
    let x = rust_decimal::Decimal::from_i128_with_scale(a.mantissa, a.scale);
    let y = rust_decimal::Decimal::from_i128_with_scale(b.mantissa, b.scale);
    match x.checked_rem(y) {
        Some(d) => Some(Decimal { mantissa: d.mantissa(), scale: d.scale() }),
        None => None,
    }
}

/// Calls `<rust_decimal::Decimal as FromStr>::from_str`; the result is named.
#[verifier::external_body]
fn decimal_from_text(text: &str) -> (r: Option<Decimal>)
    ensures
        opt_view(r) == decimal_parse(text@),
{
    match <rust_decimal::Decimal as core::str::FromStr>::from_str(text) {
        Ok(d) => Some(Decimal { mantissa: d.mantissa(), scale: d.scale() }),
        Err(_) => None,
    }
}

/// Calls `<rust_decimal::Decimal as Display>::fmt`.
#[verifier::external_body]
fn decimal_display(d: &Decimal) -> (r: String)
    ensures
        r@ == decimal_text(d@),
{
    format!("{}", rust_decimal::Decimal::from_i128_with_scale(d.mantissa, d.scale))
}

} // verus!

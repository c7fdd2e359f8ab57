//! Arbitrary-precision decimal amounts.
//!
//! The digits live in a `bigdecimal::BigDecimal`; contracts speak of the real
//! number that it stands for.

use vstd::prelude::*;

verus! {

/// `bigdecimal::BigDecimal`, of which nothing is seen but through the
/// functions below.
#[verifier::external_type_specification]
#[verifier::external_body]
pub struct ExBigDecimal(bigdecimal::BigDecimal);

/// The number that a decimal stands for: its digits times ten to the minus scale.
pub uninterp spec fn decimal_value(d: bigdecimal::BigDecimal) -> real;

/// The scale that a decimal is stored with: the number of its fractional digits.
pub uninterp spec fn decimal_scale(d: bigdecimal::BigDecimal) -> int;

/// What `bigdecimal` reads from a text, where it reads one.
pub uninterp spec fn parsed_decimal(text: Seq<char>) -> Option<bigdecimal::BigDecimal>;

/// The text that `bigdecimal` writes for a decimal.
pub uninterp spec fn decimal_text(d: bigdecimal::BigDecimal) -> Seq<char>;

/// Largest scale, in either direction, that an amount may be stored with.
/// Sums and differences align scales, and the work grows with their distance.
pub const MAX_SCALE: i64 = 4096;

pub open spec fn scale_in_bounds(scale: int) -> bool {
    -(MAX_SCALE as int) <= scale <= MAX_SCALE as int
}

/// `bigdecimal::BigDecimal::from(u64)`: the integer itself, with scale zero.
#[verifier::external_body]
fn big_from_u64(n: u64) -> (r: bigdecimal::BigDecimal)
    ensures
        decimal_value(r) == n as real,
        decimal_scale(r) == 0,
{
    bigdecimal::BigDecimal::from(n)
}

/// `<bigdecimal::BigDecimal as FromStr>::from_str`: the result is a function of
/// the text alone.
#[verifier::external_body]
fn big_parse(text: &str) -> (r: Option<bigdecimal::BigDecimal>)
    ensures
        r == parsed_decimal(text@),
{
    <bigdecimal::BigDecimal as std::str::FromStr>::from_str(text).ok()
}

/// `<bigdecimal::BigDecimal as Display>::fmt`, through `to_string`.
#[verifier::external_body]
fn big_text(d: &bigdecimal::BigDecimal) -> (r: String)
    ensures
        r@ == decimal_text(*d),
{
    d.to_string()
}

/// `bigdecimal::BigDecimal::fractional_digit_count`: the stored scale.
#[verifier::external_body]
fn big_scale(d: &bigdecimal::BigDecimal) -> (r: i64)
    ensures
        r == decimal_scale(*d),
{
    d.fractional_digit_count()
}

/// `<bigdecimal::BigDecimal as Clone>::clone`.
#[verifier::external_body]
fn big_clone(d: &bigdecimal::BigDecimal) -> (r: bigdecimal::BigDecimal)
    ensures
        r == *d,
{
    d.clone()
}

/// `<bigdecimal::BigDecimal as PartialOrd>::lt`: decimals are ordered by the
/// numbers they stand for, whatever their scales, as long as the scales are
/// not so far apart that their distance is beyond counting.
#[verifier::external_body]
fn big_lt(a: &bigdecimal::BigDecimal, b: &bigdecimal::BigDecimal) -> (r: bool)
    requires
        scale_in_bounds(decimal_scale(*a)),
        scale_in_bounds(decimal_scale(*b)),
    ensures
        r == (decimal_value(*a) < decimal_value(*b)),
{
    a < b
}

/// `<&bigdecimal::BigDecimal as Add<&bigdecimal::BigDecimal>>::add`: the sum is
/// exact, and its scale lies between those of the operands.
#[verifier::external_body]
fn big_add(a: &bigdecimal::BigDecimal, b: &bigdecimal::BigDecimal) -> (r: bigdecimal::BigDecimal)
    requires
        scale_in_bounds(decimal_scale(*a)),
        scale_in_bounds(decimal_scale(*b)),
    ensures
        decimal_value(r) == decimal_value(*a) + decimal_value(*b),
        decimal_scale(*a) <= decimal_scale(r) <= decimal_scale(*b) || decimal_scale(*b)
            <= decimal_scale(r) <= decimal_scale(*a),
{
    a + b
}

/// `<&bigdecimal::BigDecimal as Sub<&bigdecimal::BigDecimal>>::sub`: the
/// difference is exact, and its scale lies between those of the operands.
#[verifier::external_body]
fn big_sub(a: &bigdecimal::BigDecimal, b: &bigdecimal::BigDecimal) -> (r: bigdecimal::BigDecimal)
    requires
        scale_in_bounds(decimal_scale(*a)),
        scale_in_bounds(decimal_scale(*b)),
    ensures
        decimal_value(r) == decimal_value(*a) - decimal_value(*b),
        decimal_scale(*a) <= decimal_scale(r) <= decimal_scale(*b) || decimal_scale(*b)
            <= decimal_scale(r) <= decimal_scale(*a),
{
    a - b
}

/// A decimal amount of arbitrary precision.
///
/// Its view is the real number it stands for. Two amounts written with
/// different scales (`1.5` and `1.50`) have the same view.
#[derive(Debug)]
pub struct Decimal {
    inner: bigdecimal::BigDecimal,
}

impl View for Decimal {
    type V = real;

    closed spec fn view(&self) -> real {
        decimal_value(self.inner)
    }
}

impl Decimal {
    #[verifier::type_invariant]
    spec fn scale_bounded(&self) -> bool {
        scale_in_bounds(decimal_scale(self.inner))
    }

    /// What `parse` gives for a text: the decimal read from it, unless its
    /// scale is out of bounds.
    pub closed spec fn spec_parse(text: Seq<char>) -> Option<Decimal> {
        match parsed_decimal(text) {
            Some(d) => if scale_in_bounds(decimal_scale(d)) {
                Some(Decimal { inner: d })
            } else {
                None
            },
            None => None,
        }
    }

    /// The text that `to_text` writes.
    pub closed spec fn spec_text(&self) -> Seq<char> {
        decimal_text(self.inner)
    }

    /// The amount zero.
    pub fn zero() -> (r: Decimal)
        ensures
            r@ == 0real,
    {
        Decimal { inner: big_from_u64(0) }
    }

    /// The whole amount `n`.
    pub fn from_u64(n: u64) -> (r: Decimal)
        ensures
            r@ == n as real,
    {
        Decimal { inner: big_from_u64(n) }
    }

    /// Reads an amount from decimal notation (`"40.00"`, `"-1.5e3"`).
    /// `None` where the text is no decimal or its scale exceeds `MAX_SCALE`.
    pub fn parse(text: &str) -> (r: Option<Decimal>)
        ensures
            r == Self::spec_parse(text@),
    {
        match big_parse(text) {
            Some(d) => {
                let scale = big_scale(&d);
                if -MAX_SCALE <= scale && scale <= MAX_SCALE {
                    Some(Decimal { inner: d })
                } else {
                    None
                }
            },
            None => None,
        }
    }

    /// The amount in decimal notation.
    pub fn to_text(&self) -> (r: String)
        ensures
            r@ == self.spec_text(),
    {
        big_text(&self.inner)
    }

    /// The amount in decimal notation, for keeping: the text is handed out
    /// only after it has been read back as an amount of the same value.
    /// `None` where it does not read back so.
    pub fn to_stored_text(&self) -> (r: Option<String>)
        ensures
            r matches Some(text) ==> text@ == self.spec_text() && Self::spec_parse(text@) is Some
                && Self::spec_parse(text@).unwrap()@ == self@,
            r is None ==> Self::spec_parse(self.spec_text()) is None || Self::spec_parse(
                self.spec_text(),
            ).unwrap()@ != self@,
    {
        let text = self.to_text();
        match Decimal::parse(text.as_str()) {
            Some(back) => if back.same_value(self) {
                Some(text)
            } else {
                None
            },
            None => None,
        }
    }

    /// A second amount with the same digits and scale.
    pub fn duplicate(&self) -> (r: Decimal)
        ensures
            r == *self,
    {
        proof {
            use_type_invariant(self);
        }
        Decimal { inner: big_clone(&self.inner) }
    }

    /// Whether this amount is smaller than `other`.
    pub fn lt(&self, other: &Decimal) -> (r: bool)
        ensures
            r == (self@ < other@),
    {
        proof {
            use_type_invariant(self);
            use_type_invariant(other);
        }
        big_lt(&self.inner, &other.inner)
    }

    /// Whether both amounts stand for the same number.
    pub fn same_value(&self, other: &Decimal) -> (r: bool)
        ensures
            r == (self@ == other@),
    {
        proof {
            use_type_invariant(self);
            use_type_invariant(other);
        }
        !big_lt(&self.inner, &other.inner) && !big_lt(&other.inner, &self.inner)
    }

    /// Whether this amount is greater than zero.
    pub fn is_positive(&self) -> (r: bool)
        ensures
            r == (self@ > 0real),
    {
        proof {
            use_type_invariant(self);
        }
        let zero = big_from_u64(0);
        big_lt(&zero, &self.inner)
    }

    /// Whether this amount is below zero.
    pub fn is_negative(&self) -> (r: bool)
        ensures
            r == (self@ < 0real),
    {
        proof {
            use_type_invariant(self);
        }
        let zero = big_from_u64(0);
        big_lt(&self.inner, &zero)
    }

    /// The exact sum of both amounts.
    pub fn plus(&self, other: &Decimal) -> (r: Decimal)
        ensures
            r@ == self@ + other@,
    {
        proof {
            use_type_invariant(self);
            use_type_invariant(other);
        }
        Decimal { inner: big_add(&self.inner, &other.inner) }
    }

    /// The exact difference of both amounts.
    pub fn minus(&self, other: &Decimal) -> (r: Decimal)
        ensures
            r@ == self@ - other@,
    {
        proof {
            use_type_invariant(self);
            use_type_invariant(other);
        }
        Decimal { inner: big_sub(&self.inner, &other.inner) }
    }
}

} // verus!

//! [`Percentage`] and [`Quantity`] — EN 16931 §6.5.5 and §6.5.4.
//!
//! A percentage is per cent (`19`), not a fraction (`0.19`); a quantity may be
//! negative — Annex A.1.6 credits returned goods on a negative line. Both are
//! unbounded decimals, held here as [`Dec`], and compared by value: `19` and
//! `19.00` are one rate.

use vstd::prelude::*;

use vstd::std_specs::cmp::PartialEqSpecImpl;

use crate::decimal::{
    Dec, dec_checked_div, dec_checked_mul, dec_checked_sub, dec_normalized_text, dec_same,
    decimal_checked_div, decimal_checked_sub, decimal_normalized_text, normalized, same_value,
};

verus! {

/// A percentage — EN 16931-1 §6.5.5 `Percentage. Type`: `19` is nineteen per
/// cent.
#[derive(Debug, Clone, Copy)]
pub struct Percentage(Dec);

/// A counted amount of something — EN 16931-1 §6.5.4 `Quantity. Type`. It may
/// be negative.
#[derive(Debug, Clone, Copy)]
pub struct Quantity(Dec);

impl View for Percentage {
    type V = Dec;

    closed spec fn view(&self) -> Dec {
        self.0
    }
}

impl View for Quantity {
    type V = Dec;

    closed spec fn view(&self) -> Dec {
        self.0
    }
}

impl PartialEq for Percentage {
    /// By value: `19` and `19.00` are one rate.
    fn eq(&self, other: &Percentage) -> (r: bool) {
        proof {
            use_type_invariant(self);
            use_type_invariant(other);
        }
        dec_same(self.0, other.0)
    }
}

impl PartialEqSpecImpl for Percentage {
    open spec fn obeys_eq_spec() -> bool {
        true
    }

    open spec fn eq_spec(&self, other: &Percentage) -> bool {
        same_value(self@, other@)
    }
}

impl Eq for Percentage {

}

impl PartialEq for Quantity {
    /// By value: `10` and `10.0` are one quantity.
    fn eq(&self, other: &Quantity) -> (r: bool) {
        proof {
            use_type_invariant(self);
            use_type_invariant(other);
        }
        dec_same(self.0, other.0)
    }
}

impl PartialEqSpecImpl for Quantity {
    open spec fn obeys_eq_spec() -> bool {
        true
    }

    open spec fn eq_spec(&self, other: &Quantity) -> bool {
        same_value(self@, other@)
    }
}

impl Eq for Quantity {

}

impl Percentage {
    /// The decimal is within what a decimal holds.
    #[verifier::type_invariant]
    spec fn inv(self) -> bool {
        self.0.wf()
    }

    /// The decimal is within what a decimal holds — every percentage's is.
    pub closed spec fn wf(self) -> bool {
        self.0.wf()
    }

    /// Whether two rates are the same number, whatever their scales.
    pub open spec fn same_rate(self, other: Percentage) -> bool {
        same_value(self@, other@)
    }

    /// Two percentages are the same value of the type exactly when they hold
    /// the same decimal.
    pub proof fn lemma_view_eq(a: Percentage, b: Percentage)
        ensures
            (a@ == b@) <==> a == b,
    {
    }

    /// Every percentage holds a well-formed decimal.
    pub fn check_wf(&self) -> (b: bool)
        ensures
            b,
            self.wf(),
            self@.wf(),
    {
        proof {
            use_type_invariant(self);
        }
        true
    }

    /// Zero per cent — the rate every zero-tax category states.
    pub fn zero() -> (p: Percentage)
        ensures
            p.wf(),
            p@.mantissa == 0,
            p@.scale == 0,
    {
        Percentage(Dec::zero())
    }

    /// Wrap a value already expressed as a per-cent figure (`19`, not `0.19`).
    pub fn new(percent: Dec) -> (p: Percentage)
        requires
            percent.wf(),
        ensures
            p@ == percent,
            p.wf(),
    {
        Percentage(percent)
    }

    /// Build from a fraction (`0.19` → 19 %), normalised. `None` on overflow.
    pub fn from_fraction(fraction: Dec) -> (r: Option<Percentage>)
        requires
            fraction.wf(),
        ensures
            match dec_checked_mul_result(fraction) {
                Some(d) => r matches Some(p) && p@ == normalized(d),
                None => r is None,
            },
            r matches Some(p) ==> p.wf(),
    {
        match dec_checked_mul(fraction, Dec::one_hundred()) {
            Some(d) => Some(Percentage(d.normalize())),
            None => None,
        }
    }

    /// The per-cent figure, as written on the invoice.
    pub fn into_decimal(self) -> (d: Dec)
        ensures
            d == self@,
    {
        self.0
    }

    /// The multiplier: `19 %` → `0.19`, by `rust_decimal`'s division.
    pub fn as_fraction(self) -> (r: Option<Dec>)
        requires
            self.wf(),
        ensures
            crate::decimal::dec_parts(r) == decimal_checked_div(
                self@.mantissa as int,
                self@.scale as int,
                100,
                0,
            ),
    {
        dec_checked_div(self.0, Dec::one_hundred())
    }

    /// Whether the rate is exactly zero.
    pub fn is_zero(self) -> (b: bool)
        ensures
            b == (self@.mantissa == 0),
    {
        self.0.is_zero()
    }

    /// Whether the rate is above zero — BR-S-05.
    pub fn is_positive(self) -> (b: bool)
        ensures
            b == (self@.mantissa > 0),
    {
        self.0.is_positive()
    }

    /// Whether the rate is below zero, which no VAT category permits.
    pub fn is_negative(self) -> (b: bool)
        ensures
            b == (self@.mantissa < 0),
    {
        self.0.is_negative()
    }

    /// The value with trailing zeros stripped — `19.00` → `19`.
    pub fn normalized(self) -> (p: Percentage)
        requires
            self.wf(),
        ensures
            p@ == normalized(self@),
            p.wf(),
            p.same_rate(self),
    {
        Percentage(self.0.normalize())
    }

    /// Whether two rates are the same number: `19` and `19.00` are one rate.
    pub fn same(self, other: Percentage) -> (b: bool)
        requires
            self.wf(),
            other.wf(),
        ensures
            b == self.same_rate(other),
    {
        dec_same(self.0, other.0)
    }

    /// Trailing zeros stripped: `19`, `7.5`, `0`. No `%` sign.
    pub fn to_string(&self) -> (r: String)
        requires
            self.wf(),
        ensures
            r@ == decimal_normalized_text(self@.mantissa as int, self@.scale as int),
    {
        dec_normalized_text(self.0)
    }
}

/// What `rust_decimal` computes for `fraction × 100`.
pub open spec fn dec_checked_mul_result(fraction: Dec) -> Option<Dec> {
    match crate::decimal::decimal_checked_mul(
        fraction.mantissa as int,
        fraction.scale as int,
        100,
        0,
    ) {
        Some((m, s)) => Some(Dec { mantissa: m as i128, scale: s as u32 }),
        None => None,
    }
}

impl Quantity {
    /// The decimal is within what a decimal holds.
    #[verifier::type_invariant]
    spec fn inv(self) -> bool {
        self.0.wf()
    }

    /// The decimal is within what a decimal holds — every quantity's is.
    pub closed spec fn wf(self) -> bool {
        self.0.wf()
    }

    /// Every quantity holds a well-formed decimal.
    pub fn check_wf(&self) -> (b: bool)
        ensures
            b,
            self.wf(),
            self@.wf(),
    {
        proof {
            use_type_invariant(self);
        }
        true
    }

    /// Zero.
    pub fn zero() -> (q: Quantity)
        ensures
            q.wf(),
            q@.mantissa == 0,
    {
        Quantity(Dec::zero())
    }

    /// One — the quantity a flat charge states, so `1 × amount` is the amount.
    pub fn one() -> (q: Quantity)
        ensures
            q.wf(),
            q@.mantissa == 1,
            q@.scale == 0,
    {
        Quantity(Dec::new(1, 0))
    }

    /// Wrap a decimal.
    pub fn new(value: Dec) -> (q: Quantity)
        requires
            value.wf(),
        ensures
            q@ == value,
            q.wf(),
    {
        Quantity(value)
    }

    /// The value.
    pub fn into_decimal(self) -> (d: Dec)
        ensures
            d == self@,
    {
        self.0
    }

    /// Whether the quantity is below zero — a return line (Annex A.1.6).
    pub fn is_negative(self) -> (b: bool)
        ensures
            b == (self@.mantissa < 0),
    {
        self.0.is_negative()
    }

    /// Whether the quantity is above zero.
    pub fn is_positive(self) -> (b: bool)
        ensures
            b == (self@.mantissa > 0),
    {
        self.0.is_positive()
    }

    /// Whether the quantity is exactly zero.
    pub fn is_zero(self) -> (b: bool)
        ensures
            b == (self@.mantissa == 0),
    {
        self.0.is_zero()
    }

    /// `0 - self`, by `rust_decimal`'s subtraction; `None` on overflow.
    pub fn checked_neg(self) -> (r: Option<Quantity>)
        requires
            self.wf(),
        ensures
            crate::decimal::dec_parts(
                match r {
                    Some(q) => Some(q@),
                    None => None,
                },
            ) == decimal_checked_sub(0, 0, self@.mantissa as int, self@.scale as int),
            r matches Some(q) ==> q.wf(),
    {
        match dec_checked_sub(Dec::zero(), self.0) {
            Some(d) => Some(Quantity(d)),
            None => None,
        }
    }

    /// Trailing zeros stripped: `-10`, `1234.567`.
    pub fn to_string(&self) -> (r: String)
        requires
            self.wf(),
        ensures
            r@ == decimal_normalized_text(self@.mantissa as int, self@.scale as int),
    {
        dec_normalized_text(self.0)
    }
}

} // verus!

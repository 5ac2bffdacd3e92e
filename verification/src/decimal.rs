//! [`Dec`] — a decimal number as `rust_decimal::Decimal` holds one: a 96-bit
//! mantissa and a power-of-ten scale of at most 28.
//!
//! The arithmetic that `rust_decimal` performs — comparison by value,
//! multiplication, division, rounding, rendering — is called through the
//! trusted items below; the values themselves live in this plain type.

use vstd::prelude::*;

verus! {

/// The largest mantissa magnitude a decimal holds: `2^96 - 1`.
pub const MAX_MANTISSA: i128 = 79228162514264337593543950335i128;

/// The largest scale a decimal holds.
pub const MAX_SCALE: u32 = 28u32;

/// `10^n`.
pub open spec fn pow10(n: nat) -> int
    decreases n,
{
    if n == 0 {
        1
    } else {
        10 * pow10((n - 1) as nat)
    }
}

/// Powers of ten are positive.
pub proof fn lemma_pow10_positive(n: nat)
    ensures
        pow10(n) >= 1,
    decreases n,
{
    if n > 0 {
        lemma_pow10_positive((n - 1) as nat);
    }
}

/// `mantissa × 10^-scale`.
#[derive(Debug, Clone, Copy)]
pub struct Dec {
    /// The signed digits.
    pub mantissa: i128,
    /// How many of the digits are fraction digits.
    pub scale: u32,
}

impl Dec {
    /// Whether the parts are within what a decimal can hold.
    pub open spec fn wf(self) -> bool {
        &&& -MAX_MANTISSA <= self.mantissa <= MAX_MANTISSA
        &&& self.scale <= MAX_SCALE
    }

    /// Whether the parts are within what a decimal can hold.
    pub fn wf_check(&self) -> (b: bool)
        ensures
            b == self.wf(),
    {
        -MAX_MANTISSA <= self.mantissa && self.mantissa <= MAX_MANTISSA && self.scale <= MAX_SCALE
    }

    /// `num × 10^-scale`, as `Decimal::new` builds it.
    pub fn new(num: i64, scale: u32) -> (d: Dec)
        requires
            scale <= MAX_SCALE,
        ensures
            d.wf(),
            d.mantissa == num,
            d.scale == scale,
    {
        Dec { mantissa: num as i128, scale }
    }

    /// Zero.
    pub fn zero() -> (d: Dec)
        ensures
            d.wf(),
            d.mantissa == 0,
            d.scale == 0,
    {
        Dec { mantissa: 0, scale: 0 }
    }

    /// One hundred.
    pub fn one_hundred() -> (d: Dec)
        ensures
            d.wf(),
            d.mantissa == 100,
            d.scale == 0,
    {
        Dec { mantissa: 100, scale: 0 }
    }

    /// Whether the value is exactly zero.
    pub fn is_zero(self) -> (b: bool)
        ensures
            b == (self.mantissa == 0),
    {
        self.mantissa == 0
    }

    /// Whether the value is above zero.
    pub fn is_positive(self) -> (b: bool)
        ensures
            b == (self.mantissa > 0),
    {
        self.mantissa > 0
    }

    /// Whether the value is below zero.
    pub fn is_negative(self) -> (b: bool)
        ensures
            b == (self.mantissa < 0),
    {
        self.mantissa < 0
    }

    /// `|self|`, at the same scale.
    pub fn abs(self) -> (d: Dec)
        requires
            self.wf(),
        ensures
            d.wf(),
            d.scale == self.scale,
            d.mantissa == (if self.mantissa < 0 {
                -self.mantissa
            } else {
                self.mantissa as int
            }),
    {
        if self.mantissa < 0 {
            Dec { mantissa: -self.mantissa, scale: self.scale }
        } else {
            self
        }
    }
}

/// `a` and `b` denote the same number, whatever their scales.
pub open spec fn same_value(a: Dec, b: Dec) -> bool {
    a.mantissa * pow10(b.scale as nat) == b.mantissa * pow10(a.scale as nat)
}

/// `a` denotes a smaller number than `b`.
pub open spec fn less_value(a: Dec, b: Dec) -> bool {
    a.mantissa * pow10(b.scale as nat) < b.mantissa * pow10(a.scale as nat)
}

/// The parts of an optional decimal, for stating results.
pub open spec fn dec_parts(d: Option<Dec>) -> Option<(int, int)> {
    match d {
        Some(v) => Some((v.mantissa as int, v.scale as int)),
        None => None,
    }
}

/// What `rust_decimal`'s `checked_mul` returns for two decimals, by their parts.
pub uninterp spec fn decimal_checked_mul(am: int, ascale: int, bm: int, bscale: int) -> Option<
    (int, int),
>;

/// What `rust_decimal`'s `checked_div` returns for two decimals, by their parts.
pub uninterp spec fn decimal_checked_div(am: int, ascale: int, bm: int, bscale: int) -> Option<
    (int, int),
>;

/// What `rust_decimal`'s `checked_sub` returns for two decimals, by their parts.
pub uninterp spec fn decimal_checked_sub(am: int, ascale: int, bm: int, bscale: int) -> Option<
    (int, int),
>;

/// What `rust_decimal` renders for a decimal after `normalize`, by its
/// parts: the value with its trailing fraction zeros removed.
pub open spec fn decimal_normalized_text(m: int, scale: int) -> Seq<char> {
    let n = normalized(Dec { mantissa: m as i128, scale: scale as u32 });
    decimal_text(n.mantissa as int, n.scale as int)
}


/// A magnitude `mag` with `k` fraction digits rounded to none: half away from
/// zero when `away`, half to even otherwise.
pub open spec fn round_magnitude(mag: int, k: nat, away: bool) -> int {
    let p = pow10(k);
    let q = mag / p;
    let r = mag % p;
    let half = 5 * pow10((k - 1) as nat);
    if away {
        if r >= half {
            q + 1
        } else {
            q
        }
    } else if r > half || (r == half && q % 2 == 1) {
        q + 1
    } else {
        q
    }
}

/// `d` rounded to `dp` fraction digits, as `round_dp_with_strategy` does it.
pub open spec fn rounded(d: Dec, dp: nat, away: bool) -> Dec {
    if d.scale <= dp {
        d
    } else {
        let k = (d.scale - dp) as nat;
        let mag = if d.mantissa < 0 {
            -d.mantissa
        } else {
            d.mantissa as int
        };
        let q = round_magnitude(mag, k, away);
        Dec { mantissa: (if d.mantissa < 0 { -q } else { q }) as i128, scale: dp as u32 }
    }
}

/// `rust_decimal`'s `<` on two decimals: a comparison of the numbers they
/// denote, not of their representations.
#[verifier::external_body]
pub(crate) fn dec_less(a: Dec, b: Dec) -> (r: bool)
    requires
        a.wf(),
        b.wf(),
    ensures
        r == less_value(a, b),
{
    rust_decimal::Decimal::from_i128_with_scale(a.mantissa, a.scale)
        < rust_decimal::Decimal::from_i128_with_scale(b.mantissa, b.scale)
}

/// `rust_decimal`'s `==` on two decimals: `19` equals `19.00`.
#[verifier::external_body]
pub(crate) fn dec_same(a: Dec, b: Dec) -> (r: bool)
    requires
        a.wf(),
        b.wf(),
    ensures
        r == same_value(a, b),
{
    rust_decimal::Decimal::from_i128_with_scale(a.mantissa, a.scale)
        == rust_decimal::Decimal::from_i128_with_scale(b.mantissa, b.scale)
}

/// `rust_decimal::Decimal::checked_mul`.
///
/// Claims: the result is a function of the parts; it is a well-formed
/// decimal; zero times anything is zero; and when the exact product fits in
/// 96 bits at a scale of at most 28, the result is that exact product at the
/// summed scale. What is returned when the product must be rescaled or
/// overflows is not stated here.
#[verifier::external_body]
pub(crate) fn dec_checked_mul(a: Dec, b: Dec) -> (r: Option<Dec>)
    requires
        a.wf(),
        b.wf(),
    ensures
        dec_parts(r) == decimal_checked_mul(
            a.mantissa as int,
            a.scale as int,
            b.mantissa as int,
            b.scale as int,
        ),
        r matches Some(v) ==> v.wf(),
        (a.mantissa == 0 || b.mantissa == 0) ==> r == Some(Dec { mantissa: 0, scale: 0 }),
        (a.mantissa != 0 && b.mantissa != 0 && -MAX_MANTISSA <= a.mantissa * b.mantissa
            <= MAX_MANTISSA && a.scale + b.scale <= MAX_SCALE) ==> r == Some(
            Dec { mantissa: (a.mantissa * b.mantissa) as i128, scale: (a.scale + b.scale) as u32 },
        ),
{
    rust_decimal::Decimal::from_i128_with_scale(a.mantissa, a.scale).checked_mul(
        rust_decimal::Decimal::from_i128_with_scale(b.mantissa, b.scale),
    ).map(|d| Dec { mantissa: d.mantissa(), scale: d.scale() })
}

/// `rust_decimal::Decimal::checked_div`.
///
/// Claims: the result is a function of the parts, a well-formed decimal, and
/// absent when the divisor is zero. The rounding of a quotient that does not
/// terminate within 28 digits is not stated here.
#[verifier::external_body]
pub(crate) fn dec_checked_div(a: Dec, b: Dec) -> (r: Option<Dec>)
    requires
        a.wf(),
        b.wf(),
    ensures
        dec_parts(r) == decimal_checked_div(
            a.mantissa as int,
            a.scale as int,
            b.mantissa as int,
            b.scale as int,
        ),
        r matches Some(v) ==> v.wf(),
        b.mantissa == 0 ==> r is None,
{
    rust_decimal::Decimal::from_i128_with_scale(a.mantissa, a.scale).checked_div(
        rust_decimal::Decimal::from_i128_with_scale(b.mantissa, b.scale),
    ).map(|d| Dec { mantissa: d.mantissa(), scale: d.scale() })
}

/// `rust_decimal::Decimal::checked_sub`.
///
/// Claims: the result is a function of the parts and a well-formed decimal.
/// How the difference of two different scales is aligned and rounded is not
/// stated here.
#[verifier::external_body]
pub(crate) fn dec_checked_sub(a: Dec, b: Dec) -> (r: Option<Dec>)
    requires
        a.wf(),
        b.wf(),
    ensures
        dec_parts(r) == decimal_checked_sub(
            a.mantissa as int,
            a.scale as int,
            b.mantissa as int,
            b.scale as int,
        ),
        r matches Some(v) ==> v.wf(),
{
    rust_decimal::Decimal::from_i128_with_scale(a.mantissa, a.scale).checked_sub(
        rust_decimal::Decimal::from_i128_with_scale(b.mantissa, b.scale),
    ).map(|d| Dec { mantissa: d.mantissa(), scale: d.scale() })
}

/// `rust_decimal::Decimal::round_dp_with_strategy` with
/// `MidpointAwayFromZero`: a decimal with at most `dp` fraction digits is
/// returned as it is; any other is rounded at `dp` digits, a midpoint away
/// from zero — `0.125` to `0.13`, `-0.125` to `-0.13` — and carries scale
/// `dp`.
#[verifier::external_body]
pub(crate) fn dec_round_dp_away(a: Dec, dp: u32) -> (r: Dec)
    requires
        a.wf(),
    ensures
        r.wf(),
        r == rounded(a, dp as nat, true),
{
    let r = rust_decimal::Decimal::from_i128_with_scale(a.mantissa, a.scale).round_dp_with_strategy(
        dp,
        rust_decimal::RoundingStrategy::MidpointAwayFromZero,
    );
    Dec { mantissa: r.mantissa(), scale: r.scale() }
}

/// `Decimal::normalize` followed by `to_string`: the exact value with
/// trailing fraction zeros removed, `19`, `7.5`, `0.28901`.
///
/// Claimed of it: `normalize` strips trailing fraction zeros and gives zero
/// scale `0`; `Display` then writes as [`decimal_text`] says.
#[verifier::external_body]
pub(crate) fn dec_normalized_text(a: Dec) -> (r: String)
    requires
        a.wf(),
    ensures
        r@ == decimal_normalized_text(a.mantissa as int, a.scale as int),
{
    rust_decimal::Decimal::from_i128_with_scale(a.mantissa, a.scale).normalize().to_string()
}

/// What `rust_decimal` renders for a decimal as it stands, by its parts: a
/// minus sign for a negative value, the whole part (`0` when there is none),
/// and, at a positive scale, a point and exactly `scale` fraction digits —
/// `-0.05`, `19.00`, `7`.
pub open spec fn decimal_text(m: int, scale: int) -> Seq<char> {
    let a = if m < 0 {
        -m
    } else {
        m
    };
    let sign = if m < 0 {
        seq!['-']
    } else {
        Seq::empty()
    };
    if scale <= 0 {
        sign + crate::text::decimal_digits(a as nat)
    } else {
        let u = pow10(scale as nat);
        sign + crate::text::decimal_digits((a / u) as nat) + seq!['.'] + crate::text::zero_padded(
            a % u,
            scale,
        )
    }
}

/// `Decimal::to_string`: the exact value at its own scale, `1.234`, `19.00`.
///
/// Claimed of it: with no precision asked for, `Display` writes the sign of
/// a negative value, the whole digits or `0`, and at a positive scale a
/// point and the fraction digits padded to the scale.
#[verifier::external_body]
pub(crate) fn dec_text(a: Dec) -> (r: String)
    requires
        a.wf(),
    ensures
        r@ == decimal_text(a.mantissa as int, a.scale as int),
{
    rust_decimal::Decimal::from_i128_with_scale(a.mantissa, a.scale).to_string()
}

/// `d` with trailing fraction zeros removed — `19.00` becomes `19`.
pub open spec fn normalized(d: Dec) -> Dec
    decreases d.scale,
{
    if d.scale > 0 && d.mantissa % 10 == 0 {
        normalized(Dec { mantissa: (d.mantissa / 10) as i128, scale: (d.scale - 1) as u32 })
    } else {
        d
    }
}

/// Dividing a multiple of ten by ten is exact and keeps the sign.
proof fn lemma_div10(m: int)
    requires
        m % 10 == 0,
    ensures
        m == (m / 10) * 10,
        m < 0 ==> m / 10 < 0,
        m > 0 ==> m / 10 > 0,
        m == 0 ==> m / 10 == 0,
{
    vstd::arithmetic::div_mod::lemma_fundamental_div_mod(m, 10);
}

impl Dec {
    /// `Decimal::normalize`: the same number with trailing fraction zeros
    /// removed.
    pub fn normalize(self) -> (d: Dec)
        requires
            self.wf(),
        ensures
            d == normalized(self),
            d.wf(),
            same_value(d, self),
    {
        let mut m = self.mantissa;
        let mut s = self.scale;
        while s > 0 && m % 10 == 0
            invariant
                -MAX_MANTISSA <= m <= MAX_MANTISSA,
                s <= self.scale <= MAX_SCALE,
                normalized(Dec { mantissa: m, scale: s }) == normalized(self),
                m * pow10((self.scale - s) as nat) == self.mantissa,
            decreases s,
        {
            proof {
                lemma_div10(m as int);
                assert(pow10((self.scale - (s - 1)) as nat) == 10 * pow10((self.scale - s) as nat));
                assert((m / 10) * pow10((self.scale - (s - 1)) as nat) == m * pow10(
                    (self.scale - s) as nat,
                )) by (nonlinear_arith)
                    requires
                        m == (m / 10) * 10,
                        pow10((self.scale - (s - 1)) as nat) == 10 * pow10(
                            (self.scale - s) as nat,
                        ),
                ;
            }
            m = m / 10;
            s = s - 1;
        }
        let d = Dec { mantissa: m, scale: s };
        proof {
            assert(pow10(self.scale as nat) == pow10(s as nat) * pow10((self.scale - s) as nat))
                by {
                lemma_pow10_add(s as nat, (self.scale - s) as nat);
            }
            assert(m * pow10(self.scale as nat) == self.mantissa * pow10(s as nat)) by (nonlinear_arith)
                requires
                    pow10(self.scale as nat) == pow10(s as nat) * pow10((self.scale - s) as nat),
                    m * pow10((self.scale - s) as nat) == self.mantissa,
            ;
        }
        d
    }
}

/// `10^(a + b) == 10^a × 10^b`.
pub proof fn lemma_pow10_add(a: nat, b: nat)
    ensures
        pow10(a + b) == pow10(a) * pow10(b),
    decreases b,
{
    if b > 0 {
        lemma_pow10_add(a, (b - 1) as nat);
        assert(pow10(a + b) == 10 * pow10((a + b - 1) as nat));
        assert(pow10(a) * pow10(b) == pow10(a) * (10 * pow10((b - 1) as nat)));
        assert(pow10(a) * (10 * pow10((b - 1) as nat)) == 10 * (pow10(a) * pow10((b - 1) as nat)))
            by (nonlinear_arith);
    }
}

} // verus!

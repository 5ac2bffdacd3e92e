//! [`InvoiceAmount`] — EN 16931 `Amount. Type`: a monetary amount with at most
//! two fraction digits, held as `i64` minor units.
//!
//! A third decimal cannot be written down in this type, so it is refused at
//! the boundary (parsing, conversion) rather than rounded.

use vstd::prelude::*;

use crate::error::{AmountError, ParseAmountError};
use vstd::std_specs::cmp::PartialEqSpecImpl;

use crate::decimal::{
    Dec, dec_checked_mul, dec_checked_sub, dec_normalized_text, dec_parts, dec_same, dec_text,
    decimal_checked_mul, decimal_checked_sub, decimal_normalized_text, pow10,
};
use crate::text::{decimal_digits, digit_char, push_decimal, string_of, trim_seq, trimmed};

verus! {

/// The number of fraction digits every amount carries.
pub const SCALE: u32 = 2;

/// `10^SCALE`, the multiplier between the stored integer and the value.
pub const UNITS: i64 = 100;

// ── The grammar of an amount ──────────────────────────────────────────────────

/// An ASCII decimal digit.
pub open spec fn is_digit(c: char) -> bool {
    '0' <= c && c <= '9'
}

/// Every character of `s` is an ASCII digit.
pub open spec fn all_digits(s: Seq<char>) -> bool {
    forall|i: int| 0 <= i < s.len() ==> is_digit(#[trigger] s[i])
}

/// The value of one ASCII digit.
pub open spec fn digit_value(c: char) -> int {
    (c as u32) as int - 48
}

/// The value of a run of decimal digits, most significant first.
pub open spec fn digits_value(s: Seq<char>) -> int
    decreases s.len(),
{
    if s.len() == 0 {
        0
    } else {
        digits_value(s.drop_last()) * 10 + digit_value(s.last())
    }
}

/// Whether `c` occurs in `s`.
pub open spec fn has_char(s: Seq<char>, c: char) -> bool {
    exists|i: int| 0 <= i < s.len() && s[i] == c
}

/// The position of the first `c` in `s` (meaningful when `has_char(s, c)`).
pub open spec fn first_index(s: Seq<char>, c: char) -> int {
    choose|i: int| 0 <= i < s.len() && s[i] == c && forall|j: int| 0 <= j < i ==> s[j] != c
}

/// The part of `s` before its first `c`, or all of `s`.
pub open spec fn before_first(s: Seq<char>, c: char) -> Seq<char> {
    if has_char(s, c) {
        s.subrange(0, first_index(s, c))
    } else {
        s
    }
}

/// The part of `s` after its first `c`, or nothing.
pub open spec fn after_first(s: Seq<char>, c: char) -> Seq<char> {
    if has_char(s, c) {
        s.subrange(first_index(s, c) + 1, s.len() as int)
    } else {
        Seq::empty()
    }
}

/// The trimmed text without its sign.
pub open spec fn amount_body(t: Seq<char>) -> Seq<char> {
    if t.len() > 0 && (t[0] == '-' || t[0] == '+') {
        t.drop_first()
    } else {
        t
    }
}

/// Whether the trimmed text carries a minus sign.
pub open spec fn amount_negative(t: Seq<char>) -> bool {
    t.len() > 0 && t[0] == '-'
}

/// The digits before the decimal point.
pub open spec fn amount_int_part(t: Seq<char>) -> Seq<char> {
    before_first(amount_body(t), '.')
}

/// The digits after the decimal point.
pub open spec fn amount_frac_part(t: Seq<char>) -> Seq<char> {
    after_first(amount_body(t), '.')
}

/// Not a decimal number: no digits, an empty integer part, or a non-digit.
pub open spec fn amount_malformed(t: Seq<char>) -> bool {
    ||| amount_body(t).len() == 0
    ||| amount_int_part(t).len() == 0
    ||| !all_digits(amount_int_part(t))
    ||| !all_digits(amount_frac_part(t))
}

/// The fraction digits as minor units, padded on the right: `"5"` is 50.
pub open spec fn frac_units(f: Seq<char>) -> int {
    if f.len() == 0 {
        0
    } else if f.len() == 1 {
        digit_value(f[0]) * 10
    } else {
        digit_value(f[0]) * 10 + digit_value(f[1])
    }
}

/// The magnitude of the amount, in minor units.
pub open spec fn amount_units(t: Seq<char>) -> int {
    digits_value(amount_int_part(t)) * 100 + frac_units(amount_frac_part(t))
}

/// The minor units an accepted text denotes.
pub open spec fn amount_value(t: Seq<char>) -> int {
    if amount_negative(t) {
        -amount_units(t)
    } else {
        amount_units(t)
    }
}

/// Whether `s` parses: non-blank, well formed, two decimals at most, in range.
pub open spec fn amount_text_ok(s: Seq<char>) -> bool {
    let t = trim_seq(s);
    &&& t.len() > 0
    &&& !amount_malformed(t)
    &&& amount_frac_part(t).len() <= 2
    &&& amount_units(t) <= i64::MAX
}

// ── Lemmas about the grammar ──────────────────────────────────────────────────

proof fn lemma_first_index(s: Seq<char>, c: char, i: int)
    requires
        0 <= i < s.len(),
        s[i] == c,
        forall|j: int| 0 <= j < i ==> s[j] != c,
    ensures
        has_char(s, c),
        first_index(s, c) == i,
{
    let k = first_index(s, c);
    assert(0 <= k < s.len() && s[k] == c && forall|j: int| 0 <= j < k ==> s[j] != c);
    if k < i {
        assert(s[k] != c);
    }
    if i < k {
        assert(s[i] != c);
    }
}

proof fn lemma_no_char(s: Seq<char>, c: char)
    requires
        forall|j: int| 0 <= j < s.len() ==> s[j] != c,
    ensures
        !has_char(s, c),
{
}

/// A longer run of digits is worth at least as much as its prefix.
proof fn lemma_digits_value_prefix(s: Seq<char>, k: int)
    requires
        0 <= k <= s.len(),
        all_digits(s),
    ensures
        digits_value(s.subrange(0, k)) <= digits_value(s),
        0 <= digits_value(s.subrange(0, k)),
    decreases s.len(),
{
    if s.len() == 0 {
        assert(s.subrange(0, k) =~= s);
    } else if k == s.len() {
        assert(s.subrange(0, k) =~= s);
        lemma_digits_value_prefix(s.drop_last(), s.len() - 1);
        assert(s.drop_last().subrange(0, s.len() - 1) =~= s.drop_last());
        assert(is_digit(s[s.len() - 1]));
    } else {
        let d = s.drop_last();
        assert(all_digits(d)) by {
            assert forall|i: int| 0 <= i < d.len() implies is_digit(#[trigger] d[i]) by {
                assert(d[i] == s[i]);
            }
        }
        lemma_digits_value_prefix(d, k);
        assert(d.subrange(0, k) =~= s.subrange(0, k));
        lemma_digits_value_prefix(d, d.len() as int);
        assert(d.subrange(0, d.len() as int) =~= d);
        assert(is_digit(s[s.len() - 1]));
    }
}

/// Extending a run of digits by one digit.
proof fn lemma_digits_value_step(s: Seq<char>, k: int)
    requires
        0 <= k < s.len(),
    ensures
        digits_value(s.subrange(0, k + 1)) == digits_value(s.subrange(0, k)) * 10 + digit_value(
            s[k],
        ),
{
    assert(s.subrange(0, k + 1).drop_last() =~= s.subrange(0, k));
}

// ── Parsing helpers ───────────────────────────────────────────────────────────

proof fn lemma_digits_value_nonneg(s: Seq<char>)
    requires
        all_digits(s),
    ensures
        digits_value(s) >= 0,
{
    lemma_digits_value_prefix(s, 0);
    assert(s.subrange(0, 0).len() == 0);
}

/// Where the integer part of `t[start..]` ends and the fraction begins.
#[verifier::rlimit(100)]
#[verifier::spinoff_prover]
fn split_at_point(t: &Vec<char>, start: usize) -> (r: (usize, usize))
    requires
        start < t@.len(),
        start <= 1,
        amount_body(t@) =~= t@.subrange(start as int, t@.len() as int),
    ensures
        start <= r.0 <= r.1 <= t@.len(),
        amount_int_part(t@) =~= t@.subrange(start as int, r.0 as int),
        amount_frac_part(t@) =~= t@.subrange(r.1 as int, t@.len() as int),
{
    let ghost body = amount_body(t@);
    let mut dot = start;
    while dot < t.len() && t[dot] != '.'
        invariant
            start <= dot <= t@.len(),
            forall|j: int| start <= j < dot ==> t@[j] != '.',
        decreases t.len() - dot,
    {
        dot = dot + 1;
    }
    proof {
        if dot < t@.len() {
            lemma_first_index(body, '.', dot - start);
        } else {
            lemma_no_char(body, '.');
        }
    }
    if dot < t.len() {
        (dot, dot + 1)
    } else {
        (dot, dot)
    }
}

/// Whether `t[lo..hi]` is all ASCII digits.
pub(crate) fn digits_only(t: &Vec<char>, lo: usize, hi: usize) -> (b: bool)
    requires
        lo <= hi <= t@.len(),
    ensures
        b == all_digits(t@.subrange(lo as int, hi as int)),
{
    let ghost part = t@.subrange(lo as int, hi as int);
    let mut k = lo;
    while k < hi
        invariant
            lo <= k <= hi <= t@.len(),
            part == t@.subrange(lo as int, hi as int),
            forall|j: int| lo <= j < k ==> is_digit(t@[j]),
        decreases hi - k,
    {
        if !('0' <= t[k] && t[k] <= '9') {
            assert(part[k - lo] == t@[k as int]);
            assert(!is_digit(part[k - lo]));
            return false;
        }
        k = k + 1;
    }
    assert forall|i: int| 0 <= i < part.len() implies is_digit(#[trigger] part[i]) by {
        assert(part[i] == t@[lo + i]);
    }
    true
}

/// The value of the digit run `t[lo..hi]`, or `None` when it exceeds `i64::MAX`.
pub(crate) fn digits_to_i64(t: &Vec<char>, lo: usize, hi: usize) -> (r: Option<i64>)
    requires
        lo <= hi <= t@.len(),
        all_digits(t@.subrange(lo as int, hi as int)),
    ensures
        r matches Some(v) ==> v as int == digits_value(t@.subrange(lo as int, hi as int)),
        r is None ==> digits_value(t@.subrange(lo as int, hi as int)) > i64::MAX,
{
    let ghost ip = t@.subrange(lo as int, hi as int);
    let mut units: i64 = 0;
    let mut k = lo;
    while k < hi
        invariant
            lo <= k <= hi <= t@.len(),
            ip == t@.subrange(lo as int, hi as int),
            all_digits(ip),
            units as int == digits_value(ip.subrange(0, k - lo)),
            units >= 0,
        decreases hi - k,
    {
        proof {
            lemma_digits_value_step(ip, k - lo);
            assert(ip[k - lo] == t@[k as int]);
            assert(is_digit(ip[k - lo]));
        }
        let d = (t[k] as u32 - 48) as i64;
        match units.checked_mul(10) {
            Some(u) => match u.checked_add(d) {
                Some(v) => {
                    units = v;
                },
                None => {
                    proof {
                        lemma_digits_value_prefix(ip, k - lo + 1);
                    }
                    return None;
                },
            },
            None => {
                proof {
                    lemma_digits_value_prefix(ip, k - lo + 1);
                }
                return None;
            },
        }
        k = k + 1;
    }
    assert(ip.subrange(0, hi - lo) =~= ip);
    Some(units)
}

/// The fraction digits `t[from..]` (at most two) as minor units.
fn frac_minor_units(t: &Vec<char>, from: usize) -> (r: i64)
    requires
        from <= t@.len(),
        t@.len() - from <= 2,
        all_digits(t@.subrange(from as int, t@.len() as int)),
    ensures
        r as int == frac_units(t@.subrange(from as int, t@.len() as int)),
        0 <= r < 100,
{
    let ghost fp = t@.subrange(from as int, t@.len() as int);
    let n = t.len() - from;
    let mut frac: i64 = 0;
    if n >= 1 {
        assert(is_digit(fp[0]));
        frac = (t[from] as u32 - 48) as i64 * 10;
    }
    if n == 2 {
        assert(is_digit(fp[1]));
        frac = frac + (t[from + 1] as u32 - 48) as i64;
    }
    frac
}

// ── The type ──────────────────────────────────────────────────────────────────

/// A monetary amount — EN 16931-1 §6.5.2 `Amount. Type`.
///
/// Stored as `i64` minor units, so a third decimal place does not exist. The
/// currency is a separate business term (BT-5), stated once per document.
#[derive(Debug, Clone, Copy, PartialEq, Eq, PartialOrd, Ord, Hash, Default, Structural)]
pub struct InvoiceAmount(i64);

impl View for InvoiceAmount {
    type V = int;

    /// The amount in minor units.
    closed spec fn view(&self) -> int {
        self.0 as int
    }
}

/// Two amounts are equal exactly when their minor units are.
pub proof fn lemma_amount_view_eq(a: InvoiceAmount, b: InvoiceAmount)
    ensures
        (a@ == b@) <==> a == b,
{
}

/// Whether `v` is a representable count of minor units.
pub open spec fn fits_i64(v: int) -> bool {
    i64::MIN <= v <= i64::MAX
}

impl InvoiceAmount {
    /// Zero.
    pub fn zero() -> (r: InvoiceAmount)
        ensures
            r@ == 0,
    {
        InvoiceAmount(0)
    }

    /// The largest representable amount.
    pub fn max_value() -> (r: InvoiceAmount)
        ensures
            r@ == i64::MAX,
    {
        InvoiceAmount(i64::MAX)
    }

    /// The smallest representable amount.
    pub fn min_value() -> (r: InvoiceAmount)
        ensures
            r@ == i64::MIN,
    {
        InvoiceAmount(i64::MIN)
    }

    /// The raw count of minor units. `12.34` → `1234`.
    pub fn to_minor_units(self) -> (r: i64)
        ensures
            r as int == self@,
    {
        self.0
    }

    /// Construct from a raw count of minor units. `1234` → `12.34`.
    pub fn from_minor_units(units: i64) -> (r: InvoiceAmount)
        ensures
            r@ == units as int,
    {
        InvoiceAmount(units)
    }

    /// `self + rhs`, or [`AmountError::Overflow`]; never wraps or saturates.
    pub fn checked_add(self, rhs: InvoiceAmount) -> (r: Result<InvoiceAmount, AmountError>)
        ensures
            fits_i64(self@ + rhs@) ==> (r matches Ok(v) && v@ == self@ + rhs@),
            !fits_i64(self@ + rhs@) ==> r matches Err(AmountError::Overflow),
    {
        match self.0.checked_add(rhs.0) {
            Some(v) => Ok(InvoiceAmount(v)),
            None => Err(AmountError::Overflow),
        }
    }

    /// `self - rhs`, or [`AmountError::Overflow`].
    pub fn checked_sub(self, rhs: InvoiceAmount) -> (r: Result<InvoiceAmount, AmountError>)
        ensures
            fits_i64(self@ - rhs@) ==> (r matches Ok(v) && v@ == self@ - rhs@),
            !fits_i64(self@ - rhs@) ==> r matches Err(AmountError::Overflow),
    {
        match self.0.checked_sub(rhs.0) {
            Some(v) => Ok(InvoiceAmount(v)),
            None => Err(AmountError::Overflow),
        }
    }

    /// `-self`; [`AmountError::Overflow`] for [`InvoiceAmount::MIN`] alone.
    pub fn checked_neg(self) -> (r: Result<InvoiceAmount, AmountError>)
        ensures
            fits_i64(-self@) ==> (r matches Ok(v) && v@ == -self@),
            !fits_i64(-self@) ==> r matches Err(AmountError::Overflow),
    {
        if self.0 == i64::MIN {
            Err(AmountError::Overflow)
        } else {
            Ok(InvoiceAmount(-self.0))
        }
    }

    /// `|self|`; [`AmountError::Overflow`] for [`InvoiceAmount::MIN`] alone.
    pub fn checked_abs(self) -> (r: Result<InvoiceAmount, AmountError>)
        ensures
            self@ == i64::MIN ==> r matches Err(AmountError::Overflow),
            self@ != i64::MIN ==> (r matches Ok(v) && v@ == (if self@ < 0 {
                -self@
            } else {
                self@
            })),
    {
        if self.0 == i64::MIN {
            Err(AmountError::Overflow)
        } else if self.0 < 0 {
            Ok(InvoiceAmount(-self.0))
        } else {
            Ok(self)
        }
    }

    /// Sum without panicking: [`AmountError::Overflow`] as soon as a running
    /// total leaves the range.
    pub fn checked_sum(amounts: &[InvoiceAmount]) -> (r: Result<InvoiceAmount, AmountError>)
        ensures
            sum_fits(amounts@) ==> (r matches Ok(v) && v@ == sum_of(amounts@)),
            !sum_fits(amounts@) ==> r matches Err(AmountError::Overflow),
    {
        let mut acc = InvoiceAmount(0);
        let mut i: usize = 0;
        while i < amounts.len()
            invariant
                i <= amounts@.len(),
                sum_fits(amounts@.subrange(0, i as int)),
                acc@ == sum_of(amounts@.subrange(0, i as int)),
            decreases amounts.len() - i,
        {
            proof {
                assert(amounts@.subrange(0, i + 1).drop_last() =~= amounts@.subrange(0, i as int));
            }
            match acc.checked_add(amounts[i]) {
                Ok(v) => {
                    acc = v;
                },
                Err(e) => {
                    proof {
                        lemma_sum_fits_prefix(amounts@, i + 1);
                    }
                    return Err(e);
                },
            }
            i = i + 1;
        }
        proof {
            assert(amounts@.subrange(0, amounts@.len() as int) =~= amounts@);
        }
        Ok(acc)
    }

    /// Parse an exact decimal string: `"1190.00"`, `"-85.00"`, `"12"`, `"12.5"`.
    ///
    /// Surrounding whitespace is ignored, one leading `+` or `-` is allowed,
    /// and at least one digit must precede the optional point. **Excess
    /// precision is refused, not rounded**: `"0.005"` is an error.
    pub fn parse(s: &str) -> (r: Result<InvoiceAmount, ParseAmountError>)
        ensures
            ({
                let t = trim_seq(s@);
                match r {
                    Ok(a) => amount_text_ok(s@) && a@ == amount_value(t),
                    Err(ParseAmountError::Empty) => t.len() == 0,
                    Err(ParseAmountError::Malformed { input }) => input@ == s@ && t.len() > 0
                        && amount_malformed(t),
                    Err(ParseAmountError::TooManyDecimals { input, max }) => input@ == s@ && max
                        == 2 && t.len() > 0 && !amount_malformed(t) && amount_frac_part(t).len()
                        > 2,
                    Err(ParseAmountError::OutOfRange { input }) => input@ == s@ && t.len() > 0
                        && !amount_malformed(t) && amount_frac_part(t).len() <= 2
                        && amount_units(t) > i64::MAX,
                }
            }),
    {
        let t = trimmed(s);
        let ghost tt = t@;
        if t.len() == 0 {
            return Err(ParseAmountError::Empty);
        }
        let neg = t[0] == '-';
        let start: usize = if t[0] == '-' || t[0] == '+' {
            1
        } else {
            0
        };
        let ghost body = amount_body(tt);
        assert(body =~= tt.subrange(start as int, tt.len() as int));
        if start == t.len() {
            return Err(ParseAmountError::Malformed { input: s.to_owned() });
        }
        let (dot, frac_start) = split_at_point(&t, start);
        let ghost ip = amount_int_part(tt);
        let ghost fp = amount_frac_part(tt);
        if dot == start || !digits_only(&t, start, dot) || !digits_only(&t, frac_start, t.len()) {
            return Err(ParseAmountError::Malformed { input: s.to_owned() });
        }
        if t.len() - frac_start > 2 {
            return Err(ParseAmountError::TooManyDecimals { input: s.to_owned(), max: 2 });
        }
        let frac = frac_minor_units(&t, frac_start);
        proof {
            lemma_digits_value_nonneg(ip);
        }
        let units = match digits_to_i64(&t, start, dot) {
            Some(u) => u,
            None => {
                return Err(ParseAmountError::OutOfRange { input: s.to_owned() });
            },
        };
        let units = match units.checked_mul(100) {
            Some(u) => u,
            None => {
                return Err(ParseAmountError::OutOfRange { input: s.to_owned() });
            },
        };
        let units = match units.checked_add(frac) {
            Some(u) => u,
            None => {
                return Err(ParseAmountError::OutOfRange { input: s.to_owned() });
            },
        };
        Ok(InvoiceAmount(
            if neg {
                -units
            } else {
                units
            },
        ))
    }

    /// Always two decimals, always `.` — the interchange spelling, not a locale:
    /// `1190.00`, `-85.00`, `0.07`.
    pub fn to_string(&self) -> (r: String)
        ensures
            r@ == amount_text(self@),
    {
        let mut out: Vec<char> = Vec::new();
        let abs: u64 = if self.0 < 0 {
            (-(self.0 as i128)) as u64
        } else {
            self.0 as u64
        };
        if self.0 < 0 {
            out.push('-');
        }
        push_decimal(&mut out, abs / 100);
        out.push('.');
        let cents = abs % 100;
        out.push((((cents / 10) as u8) + 48) as char);
        out.push((((cents % 10) as u8) + 48) as char);
        string_of(&out)
    }

    /// Whether this amount is greater than zero.
    pub fn is_positive(self) -> (b: bool)
        ensures
            b == (self@ > 0),
    {
        self.0 > 0
    }

    /// Whether this amount is less than zero.
    pub fn is_negative(self) -> (b: bool)
        ensures
            b == (self@ < 0),
    {
        self.0 < 0
    }

    /// Whether this amount is exactly zero.
    pub fn is_zero(self) -> (b: bool)
        ensures
            b == (self@ == 0),
    {
        self.0 == 0
    }

    /// Whether `self` is less than `other`.
    pub fn less_than(self, other: InvoiceAmount) -> (b: bool)
        ensures
            b == (self@ < other@),
    {
        self.0 < other.0
    }

    /// Whether `self` and `other` are the same amount.
    pub fn same(self, other: InvoiceAmount) -> (b: bool)
        ensures
            b == (self@ == other@),
    {
        self.0 == other.0
    }
}

/// The interchange spelling of `v` minor units: sign, units, point, two digits.
pub open spec fn amount_text(v: int) -> Seq<char> {
    let a = if v < 0 {
        -v
    } else {
        v
    };
    let sign = if v < 0 {
        seq!['-']
    } else {
        Seq::empty()
    };
    sign + decimal_digits((a / 100) as nat) + seq![
        '.',
        digit_char((a % 100) / 10),
        digit_char((a % 100) % 10),
    ]
}

// ── Sums ──────────────────────────────────────────────────────────────────────

/// The exact sum of `s`, in minor units.
pub open spec fn sum_of(s: Seq<InvoiceAmount>) -> int
    decreases s.len(),
{
    if s.len() == 0 {
        0
    } else {
        sum_of(s.drop_last()) + s.last()@
    }
}

/// Whether every running total of `s`, taken left to right, is representable.
pub open spec fn sum_fits(s: Seq<InvoiceAmount>) -> bool
    decreases s.len(),
{
    if s.len() == 0 {
        true
    } else {
        sum_fits(s.drop_last()) && fits_i64(sum_of(s))
    }
}

/// A prefix of a sequence whose running totals fail to fit makes the whole fail.
pub proof fn lemma_sum_fits_prefix(s: Seq<InvoiceAmount>, k: int)
    requires
        0 <= k <= s.len(),
        !sum_fits(s.subrange(0, k)),
    ensures
        !sum_fits(s),
    decreases s.len() - k,
{
    if k == s.len() {
        assert(s.subrange(0, k) =~= s);
    } else {
        assert(s.subrange(0, k + 1).drop_last() =~= s.subrange(0, k));
        lemma_sum_fits_prefix(s, k + 1);
    }
}


// ── Conversions to and from decimals ─────────────────────────────────────────

/// `10^n` for `n <= 28`.
pub fn pow10_exec(n: u32) -> (r: i128)
    requires
        n <= 28,
    ensures
        r == pow10(n as nat),
        r >= 1,
{
    let mut r: i128 = 1;
    let mut i: u32 = 0;
    while i < n
        invariant
            i <= n <= 28,
            r == pow10(i as nat),
            1 <= r <= pow10(i as nat),
        decreases n - i,
    {
        proof {
            lemma_pow10_bound(i as nat);
        }
        r = r * 10;
        i = i + 1;
    }
    r
}

/// `10^n` stays within `i128` for the scales a decimal has.
pub(crate) proof fn lemma_pow10_bound(n: nat)
    requires
        n <= 28,
    ensures
        1 <= pow10(n) <= 10_000_000_000_000_000_000_000_000_000,
{
    crate::decimal::lemma_pow10_add(n, (28 - n) as nat);
    crate::decimal::lemma_pow10_positive(n);
    crate::decimal::lemma_pow10_positive((28 - n) as nat);
    assert(pow10(28) == 10_000_000_000_000_000_000_000_000_000) by {
        reveal_with_fuel(pow10, 30);
    }
    assert(pow10(n) <= pow10(n) * pow10((28 - n) as nat)) by (nonlinear_arith)
        requires
            pow10((28 - n) as nat) >= 1,
            pow10(n) >= 1,
    ;
}

/// Dividing `m` by `u` through its magnitude: the remainder of `|m|` is zero
/// exactly when `u` divides `m`, and then the quotient carries `m`'s sign.
proof fn lemma_exact_division(m: int, u: int, q: int, rem: int)
    requires
        u >= 1,
        q == (if m < 0 { -m } else { m }) / u,
        rem == (if m < 0 { -m } else { m }) % u,
    ensures
        (rem == 0) <==> (m % u == 0),
        rem == 0 ==> m / u == (if m < 0 { -q } else { q }),
{
    let a = if m < 0 { -m } else { m };
    vstd::arithmetic::div_mod::lemma_fundamental_div_mod(a, u);
    vstd::arithmetic::div_mod::lemma_fundamental_div_mod(m, u);
    vstd::arithmetic::div_mod::lemma_mod_bound(a, u);
    vstd::arithmetic::div_mod::lemma_mod_bound(m, u);
    if rem == 0 {
        let s = if m < 0 { -q } else { q };
        assert(m == s * u + 0) by (nonlinear_arith)
            requires
                a == u * q + 0,
                m == (if m < 0 { -a } else { a }),
                s == (if m < 0 { -q } else { q }),
        ;
        vstd::arithmetic::div_mod::lemma_fundamental_div_mod_converse(m, u, s, 0);
    } else if m % u == 0 {
        let k = m / u;
        let t = if m < 0 { -k } else { k };
        assert(a == t * u + 0) by (nonlinear_arith)
            requires
                m == u * k + 0,
                a == (if m < 0 { -m } else { m }),
                t == (if m < 0 { -k } else { k }),
        ;
        vstd::arithmetic::div_mod::lemma_fundamental_div_mod_converse(a, u, t, 0);
    }
}

/// The minor units a decimal comes to, given `scaled`, the decimal multiplied
/// by a hundred: `Ok(units)`, or `Err(overflowed)` — `Err(true)` when a value
/// does not fit, `Err(false)` when a third fraction digit remains.
pub open spec fn scaled_amount(scaled: Option<Dec>) -> Result<int, bool> {
    match scaled {
        None => Err(true),
        Some(p) => if (p.mantissa as int) % pow10(p.scale as nat) != 0 {
            Err(false)
        } else if fits_i64((p.mantissa as int) / pow10(p.scale as nat)) {
            Ok((p.mantissa as int) / pow10(p.scale as nat))
        } else {
            Err(true)
        },
    }
}

impl InvoiceAmount {
    /// The decimal `d` as an amount, given `scaled`, what multiplying `d` by a
    /// hundred gave: an error when that overflowed, when a third fraction digit
    /// remains, or when the minor units do not fit.
    pub fn from_scaled(d: Dec, scaled: Option<Dec>) -> (r: Result<InvoiceAmount, AmountError>)
        requires
            d.wf(),
            scaled matches Some(p) ==> p.wf(),
        ensures
            match scaled_amount(scaled) {
                Ok(v) => r matches Ok(a) && a@ == v,
                Err(true) => r matches Err(AmountError::Overflow),
                Err(false) => r matches Err(AmountError::PrecisionLoss { value, max }) && max == 2
                    && value@ == crate::decimal::decimal_text(d.mantissa as int, d.scale as int),
            },
    {
        match scaled {
            None => Err(AmountError::Overflow),
            Some(p) => {
                let unit = pow10_exec(p.scale);
                let mag: u128 = if p.mantissa < 0 {
                    (-p.mantissa) as u128
                } else {
                    p.mantissa as u128
                };
                let q = mag / (unit as u128);
                let rem = mag % (unit as u128);
                proof {
                    lemma_exact_division(p.mantissa as int, unit as int, q as int, rem as int);
                }
                if rem != 0 {
                    return Err(AmountError::PrecisionLoss { value: dec_text(d), max: 2 });
                }
                if q > 9_223_372_036_854_775_808u128 || (q == 9_223_372_036_854_775_808u128
                    && p.mantissa > 0) {
                    return Err(AmountError::Overflow);
                }
                let units: i128 = if p.mantissa < 0 {
                    -(q as i128)
                } else {
                    q as i128
                };
                Ok(InvoiceAmount(units as i64))
            },
        }
    }

    /// The amount as a decimal with two fraction digits: `1234` minor units is
    /// `12.34`.
    pub fn into_decimal(self) -> (d: Dec)
        ensures
            d.wf(),
            d.mantissa == self@,
            d.scale == 2,
    {
        Dec::new(self.0, 2)
    }

    /// Convert a decimal, refusing rather than rounding a third fraction
    /// digit.
    pub fn from_decimal_exact(d: Dec) -> (r: Result<InvoiceAmount, AmountError>)
        requires
            d.wf(),
        ensures
            match scaled_amount(hundredfold(d)) {
                Ok(v) => r matches Ok(a) && a@ == v,
                Err(true) => r matches Err(AmountError::Overflow),
                Err(false) => r matches Err(AmountError::PrecisionLoss { value, max }) && max == 2
                    && value@ == crate::decimal::decimal_text(d.mantissa as int, d.scale as int),
            },
    {
        let scaled = dec_checked_mul(d, Dec::one_hundred());
        InvoiceAmount::from_scaled(d, scaled)
    }
}

/// What `rust_decimal` computes for `d × 100`.
pub open spec fn hundredfold(d: Dec) -> Option<Dec> {
    match decimal_checked_mul(d.mantissa as int, d.scale as int, 100, 0) {
        Some((m, s)) => Some(Dec { mantissa: m as i128, scale: s as u32 }),
        None => None,
    }
}

// ── Unit price ────────────────────────────────────────────────────────────────

/// A unit price — EN 16931-1 §6.5.3 `Unit Price Amount. Type`.
///
/// Unlike [`InvoiceAmount`], **not** capped at two decimals: energy and
/// metering prices routinely carry four or five.
#[derive(Debug, Clone, Copy)]
pub struct UnitPriceAmount(Dec);

impl View for UnitPriceAmount {
    type V = Dec;

    closed spec fn view(&self) -> Dec {
        self.0
    }
}

impl PartialEq for UnitPriceAmount {
    /// By value: `0.50` and `0.5` are one price.
    fn eq(&self, other: &UnitPriceAmount) -> (r: bool) {
        proof {
            use_type_invariant(self);
            use_type_invariant(other);
        }
        dec_same(self.0, other.0)
    }
}

impl PartialEqSpecImpl for UnitPriceAmount {
    open spec fn obeys_eq_spec() -> bool {
        true
    }

    open spec fn eq_spec(&self, other: &UnitPriceAmount) -> bool {
        crate::decimal::same_value(self@, other@)
    }
}

impl Eq for UnitPriceAmount {

}

impl Default for UnitPriceAmount {
    /// Zero.
    fn default() -> (p: UnitPriceAmount)
        ensures
            p@.mantissa == 0,
            p@.scale == 0,
    {
        UnitPriceAmount(Dec::zero())
    }
}

impl UnitPriceAmount {
    /// The decimal is within what a decimal holds.
    #[verifier::type_invariant]
    spec fn inv(self) -> bool {
        self.0.wf()
    }

    /// The decimal is within what a decimal holds — every price's is.
    pub closed spec fn wf(self) -> bool {
        self.0.wf()
    }

    /// Zero.
    pub fn zero() -> (p: UnitPriceAmount)
        ensures
            p.wf(),
            p@.mantissa == 0,
            p@.scale == 0,
    {
        UnitPriceAmount(Dec::zero())
    }

    /// Wrap a decimal.
    pub fn new(value: Dec) -> (p: UnitPriceAmount)
        requires
            value.wf(),
        ensures
            p@ == value,
            p.wf(),
    {
        UnitPriceAmount(value)
    }

    /// The value.
    pub fn into_decimal(self) -> (d: Dec)
        ensures
            d == self@,
    {
        self.0
    }

    /// Whether the price is below zero, which BR-27 and BR-28 forbid.
    pub fn is_negative(self) -> (b: bool)
        ensures
            b == (self@.mantissa < 0),
    {
        self.0.is_negative()
    }

    /// `self - rhs`, by `rust_decimal`'s subtraction; `None` on overflow.
    pub fn checked_sub(self, rhs: UnitPriceAmount) -> (r: Option<UnitPriceAmount>)
        requires
            self.wf(),
            rhs.wf(),
        ensures
            dec_parts(
                match r {
                    Some(p) => Some(p@),
                    None => None,
                },
            ) == decimal_checked_sub(
                self@.mantissa as int,
                self@.scale as int,
                rhs@.mantissa as int,
                rhs@.scale as int,
            ),
            r matches Some(p) ==> p.wf(),
    {
        match dec_checked_sub(self.0, rhs.0) {
            Some(d) => Some(UnitPriceAmount(d)),
            None => None,
        }
    }

    /// Trailing zeros stripped: `0.28901`.
    pub fn to_string(&self) -> (r: String)
        requires
            self.wf(),
        ensures
            r@ == decimal_normalized_text(self@.mantissa as int, self@.scale as int),
    {
        dec_normalized_text(self.0)
    }
}

} // verus!

//! XRechnung's conditional rules: the `BR-DE-*` rules whose condition depends
//! on the value of another term, the Clean Vehicles Directive variant, and the
//! one Extension rule that reads nothing but the model.
//!
//! The `BR-DE-23/24/25-b` halves ("the other two payment groups must not be
//! transmitted") need no check: `PaymentMeans` is an enum, so the combination
//! cannot be written down. The `-a` halves tie the variant to BT-81's value,
//! which the type cannot see, and are checked here.

use vstd::prelude::*;

use crate::bt::{BtId, Group, Path};
use crate::codes::VatCategory;
use crate::identifier::{Identifier, opt_view};
use crate::invoice::{Invoice, Item, ItemAttribute, PaymentMeans, opt_str_view, uses_category};
use crate::text::{
    chars_of, find_from, find_sub, has_prefix, is_whitespace, is_ws, occurs_at, rfind, rfind_char,
    slice_vec,
    split_once, starts_with, str_eq,
};

verus! {

// ── Characters ────────────────────────────────────────────────────────────────

/// An ASCII decimal digit.
pub open spec fn is_digit(c: char) -> bool {
    '0' <= c <= '9'
}

/// An ASCII letter, either case.
pub open spec fn is_alpha(c: char) -> bool {
    ('A' <= c <= 'Z') || ('a' <= c <= 'z')
}

/// An ASCII letter or digit.
pub open spec fn is_alnum(c: char) -> bool {
    is_digit(c) || is_alpha(c)
}

fn ascii_digit(c: char) -> (b: bool)
    ensures
        b == is_digit(c),
{
    '0' <= c && c <= '9'
}

fn ascii_alpha(c: char) -> (b: bool)
    ensures
        b == is_alpha(c),
{
    ('A' <= c && c <= 'Z') || ('a' <= c && c <= 'z')
}

fn ascii_alnum(c: char) -> (b: bool)
    ensures
        b == is_alnum(c),
{
    ascii_digit(c) || ascii_alpha(c)
}

/// `s` with every Unicode whitespace character removed, order kept.
pub open spec fn without_ws(s: Seq<char>) -> Seq<char>
    decreases s.len(),
{
    if s.len() == 0 {
        s
    } else if is_ws(s.last()) {
        without_ws(s.drop_last())
    } else {
        without_ws(s.drop_last()).push(s.last())
    }
}

/// The characters of `s` without its whitespace.
fn compacted(s: &str) -> (v: Vec<char>)
    ensures
        v@ == without_ws(s@),
{
    let all = chars_of(s);
    let mut v: Vec<char> = Vec::new();
    let mut i: usize = 0;
    while i < all.len()
        invariant
            all@ == s@,
            i <= all@.len(),
            v@ == without_ws(s@.subrange(0, i as int)),
        decreases all.len() - i,
    {
        proof {
            assert(s@.subrange(0, i + 1).drop_last() == s@.subrange(0, i as int));
        }
        if !is_whitespace(all[i]) {
            v.push(all[i]);
        }
        i = i + 1;
    }
    proof {
        assert(s@.subrange(0, s@.len() as int) == s@);
    }
    v
}

// ── IBAN ──────────────────────────────────────────────────────────────────────

/// ISO 13616's value of an IBAN character: a digit is itself, a letter of
/// either case is 10 (`A`) to 35 (`Z`).
pub open spec fn iban_char_value(c: char) -> int {
    if is_digit(c) {
        c as int - '0' as int
    } else if 'a' <= c <= 'z' {
        c as int - 'a' as int + 10
    } else {
        c as int - 'A' as int + 10
    }
}

/// The decimal number ISO 7064 reads from `s`: each character's value
/// written out in full, one digit for a digit, two for a letter.
pub open spec fn iban_number(s: Seq<char>) -> int
    decreases s.len(),
{
    if s.len() == 0 {
        0
    } else {
        let v = iban_char_value(s.last());
        iban_number(s.drop_last()) * (if v >= 10 { 100int } else { 10int }) + v
    }
}

/// An IBAN's shape before the checksum: 5 to 34 ASCII letters and digits, a
/// two-letter country and two check digits.
pub open spec fn iban_shape(c: Seq<char>) -> bool {
    &&& 5 <= c.len() <= 34
    &&& forall|i: int| 0 <= i < c.len() ==> is_alnum(#[trigger] c[i])
    &&& is_alpha(c[0]) && is_alpha(c[1])
    &&& is_digit(c[2]) && is_digit(c[3])
}

/// The IBAN with its first four characters moved to the end.
pub open spec fn iban_rotated(c: Seq<char>) -> Seq<char> {
    c.subrange(4, c.len() as int) + c.subrange(0, 4)
}

/// ISO 13616 / ISO 7064 mod-97-10 on `s` with its whitespace removed: the
/// shape holds and the rotated number leaves 1 modulo 97.
pub open spec fn iban_checksum_ok(s: Seq<char>) -> bool {
    let c = without_ws(s);
    iban_shape(c) && iban_number(iban_rotated(c)) % 97 == 1
}

/// Taking the remainder first does not change the next remainder.
proof fn lemma_mod_step(a: int, m: int, v: int)
    requires
        a >= 0,
        m > 0,
        v >= 0,
    ensures
        (a * m + v) % 97 == ((a % 97) * m + v) % 97,
{
    let q = a / 97;
    let r = a % 97;
    assert(a == 97 * q + r) by (nonlinear_arith)
        requires q == a / 97, r == a % 97;
    assert(a * m + v == 97 * (q * m) + (r * m + v)) by (nonlinear_arith)
        requires a == 97 * q + r;
    assert((97 * (q * m) + (r * m + v)) % 97 == (r * m + v) % 97) by (nonlinear_arith)
        requires q * m >= 0 || q * m < 0;
}

/// Whether `s` passes ISO 13616's mod-97-10 checksum, whitespace ignored.
///
/// The checksum alone, blind to each country's IBAN length: a checksum-valid
/// string of the wrong length for its country passes.
pub fn is_valid_iban_checksum(s: &str) -> (b: bool)
    ensures
        b == iban_checksum_ok(s@),
{
    let c = compacted(s);
    let n = c.len();
    if n < 5 || n > 34 {
        return false;
    }
    let mut i: usize = 0;
    while i < n
        invariant
            n == c@.len(),
            c@ == without_ws(s@),
            i <= n,
            forall|k: int| 0 <= k < i ==> is_alnum(#[trigger] c@[k]),
        decreases n - i,
    {
        if !ascii_alnum(c[i]) {
            assert(!is_alnum(c@[i as int]));
            return false;
        }
        i = i + 1;
    }
    if !ascii_alpha(c[0]) || !ascii_alpha(c[1]) || !ascii_digit(c[2]) || !ascii_digit(c[3]) {
        return false;
    }
    let ghost rot = iban_rotated(c@);
    let mut remainder: u32 = 0;
    let mut j: usize = 0;
    while j < n
        invariant
            n == c@.len(),
            c@ == without_ws(s@),
            5 <= n <= 34,
            rot == iban_rotated(c@),
            rot.len() == n,
            forall|k: int| 0 <= k < n ==> is_alnum(#[trigger] c@[k]),
            j <= n,
            remainder < 97,
            remainder as int == iban_number(rot.subrange(0, j as int)) % 97,
        decreases n - j,
    {
        let ch = if j + 4 < n {
            c[j + 4]
        } else {
            c[j + 4 - n]
        };
        proof {
            assert(ch == rot[j as int]);
            if j + 4 < n {
                assert(is_alnum(c@[j + 4]));
            } else {
                assert(is_alnum(c@[j + 4 - n]));
            }
            assert(rot.subrange(0, j + 1).drop_last() == rot.subrange(0, j as int));
            assert(rot.subrange(0, j + 1).last() == ch);
            assert(iban_number(rot.subrange(0, j as int)) >= 0) by {
                lemma_iban_number_nonneg(rot.subrange(0, j as int));
            }
        }
        let value: u32 = if ascii_digit(ch) {
            (ch as u32) - ('0' as u32)
        } else if 'a' <= ch && ch <= 'z' {
            (ch as u32) - ('a' as u32) + 10
        } else {
            (ch as u32) - ('A' as u32) + 10
        };
        proof {
            assert(value as int == iban_char_value(ch));
            let m: int = if value >= 10 { 100 } else { 10 };
            lemma_mod_step(iban_number(rot.subrange(0, j as int)), m, value as int);
        }
        remainder = if value >= 10 {
            (remainder * 100 + value) % 97
        } else {
            (remainder * 10 + value) % 97
        };
        j = j + 1;
    }
    proof {
        assert(rot.subrange(0, n as int) == rot);
    }
    remainder == 1
}

/// The number read from an IBAN is never negative.
proof fn lemma_iban_number_nonneg(s: Seq<char>)
    requires
        forall|i: int| 0 <= i < s.len() ==> is_alnum(#[trigger] s[i]),
    ensures
        iban_number(s) >= 0,
    decreases s.len(),
{
    if s.len() > 0 {
        lemma_iban_number_nonneg(s.drop_last());
        assert(is_alnum(s[s.len() - 1]));
    }
}


/// What `sepa::validate_iban` decides about `s`: the full ISO 13616 check,
/// with each registered country's length and BBAN structure.
pub uninterp spec fn sepa_iban_accepts(s: Seq<char>) -> bool;

/// Calls `sepa::validate_iban` and reports whether it returned `Ok`.
///
/// Claimed of it: the answer is a function of `s` alone, and an accepted
/// string passes [`iban_checksum_ok`]. The source strips whitespace with
/// `char::is_whitespace`, upper-cases, requires 15 to 34 ASCII letters and
/// digits with a letter pair and a digit pair in front, and accepts only when
/// the rotated mod-97 fold leaves 1.
#[verifier::external_body]
fn sepa_validate_iban(s: &str) -> (b: bool)
    ensures
        b == sepa_iban_accepts(s@),
        b ==> iban_checksum_ok(s@),
{
    sepa::validate_iban(s).is_ok()
}

/// Whether BT-84 or BT-91 holds an IBAN: ISO 13616's full registry check,
/// offline. It cannot tell that the account exists, only that the string is
/// not a typo.
///
/// Strictly stronger than [`is_valid_iban_checksum`]: everything accepted here
/// passes the checksum too, and the registry additionally rejects a string of
/// the wrong length for its country.
pub fn is_valid_iban(s: &str) -> (b: bool)
    ensures
        b == sepa_iban_accepts(s@),
        b ==> iban_checksum_ok(s@),
{
    sepa_validate_iban(s)
}

/// What `sepa::validate_creditor_id` decides about `s`: EPC AT-02, with the
/// country registry and the mod-97 check digits over the national identifier.
pub uninterp spec fn sepa_creditor_id_accepts(s: Seq<char>) -> bool;

/// Calls `sepa::validate_creditor_id` and reports whether it returned `Ok`.
///
/// Claimed of it: the answer is a function of `s` alone. Nothing more is
/// stated.
#[verifier::external_body]
fn sepa_validate_creditor_id(s: &str) -> (b: bool)
    ensures
        b == sepa_creditor_id_accepts(s@),
{
    sepa::validate_creditor_id(s).is_ok()
}

/// Whether BT-90 is a well-formed SEPA Creditor Identifier (EPC AT-02):
/// `CC##ZZZxxxxxxxx`, country, two check digits over the national identifier,
/// a three-character business code, then the identifier.
pub fn is_valid_creditor_identifier(s: &str) -> (b: bool)
    ensures
        b == sepa_creditor_id_accepts(s@),
{
    sepa_validate_creditor_id(s)
}


// ── Shapes of text ────────────────────────────────────────────────────────────

/// Whether every character of `s` is an ASCII digit.
pub open spec fn all_digits(s: Seq<char>) -> bool {
    forall|i: int| 0 <= i < s.len() ==> is_digit(#[trigger] s[i])
}

/// Whether `v[lo..hi]` is all ASCII digits.
fn digits_between(v: &Vec<char>, lo: usize, hi: usize) -> (b: bool)
    requires
        lo <= hi <= v@.len(),
    ensures
        b == all_digits(v@.subrange(lo as int, hi as int)),
{
    let mut i = lo;
    while i < hi
        invariant
            lo <= i <= hi <= v@.len(),
            forall|k: int| lo <= k < i ==> is_digit(#[trigger] v@[k]),
        decreases hi - i,
    {
        if !ascii_digit(v[i]) {
            assert(v@.subrange(lo as int, hi as int)[i - lo] == v@[i as int]);
            return false;
        }
        i = i + 1;
    }
    assert forall|k: int| 0 <= k < hi - lo implies is_digit(
        #[trigger] v@.subrange(lo as int, hi as int)[k],
    ) by {
        assert(v@.subrange(lo as int, hi as int)[k] == v@[lo + k]);
    }
    true
}

/// How many times `c` occurs in `s`.
pub open spec fn count_of(s: Seq<char>, c: char) -> nat
    decreases s.len(),
{
    if s.len() == 0 {
        0
    } else {
        count_of(s.drop_last(), c) + if s.last() == c { 1nat } else { 0nat }
    }
}

/// BR-DE-28's shape test for BT-43: exactly one `@`, at least two characters
/// on either side of it, neither neighbour of the `@` a space or a dot, and no
/// dot at the start or the end.
pub open spec fn plausible_email_text(s: Seq<char>) -> bool {
    count_of(s, '@') == 1 && match find_from(s, seq!['@'], 0) {
        Some(k) => {
            &&& k >= 2
            &&& s.len() - k - 1 >= 2
            &&& s[k - 1] != ' ' && s[k - 1] != '.'
            &&& s[k + 1] != ' ' && s[k + 1] != '.'
            &&& s[0] != '.' && s.last() != '.'
        },
        None => false,
    }
}

/// Whether BT-43 has the shape BR-DE-28 asks for. A shape test, deliberately
/// weaker than an RFC 5322 parse.
pub fn plausible_email(s: &str) -> (b: bool)
    ensures
        b == plausible_email_text(s@),
{
    let v = chars_of(s);
    let n = v.len();
    let mut count: usize = 0;
    let mut i: usize = 0;
    while i < n
        invariant
            n == v@.len(),
            v@ == s@,
            i <= n,
            count <= i,
            count == count_of(v@.subrange(0, i as int), '@'),
        decreases n - i,
    {
        assert(v@.subrange(0, i + 1).drop_last() == v@.subrange(0, i as int));
        if v[i] == '@' {
            count = count + 1;
        }
        i = i + 1;
    }
    assert(v@.subrange(0, n as int) == v@);
    if count != 1 {
        return false;
    }
    let at = vec!['@'];
    assert(at@ == seq!['@']);
    let k = match find_sub(&v, &at) {
        Some(k) => k,
        None => {
            return false;
        },
    };
    proof {
        lemma_find_from_bounds(v@, at@, 0);
    }
    k >= 2 && n - k - 1 >= 2 && v[k - 1] != ' ' && v[k - 1] != '.' && v[k + 1] != ' ' && v[k + 1]
        != '.' && v[0] != '.' && v[n - 1] != '.'
}

/// A position `find_from` returns is an occurrence.
proof fn lemma_find_from_bounds(s: Seq<char>, p: Seq<char>, i: int)
    ensures
        find_from(s, p, i) matches Some(k) ==> occurs_at(s, p, k) && k >= i,
    decreases s.len() + 1 - i,
{
    if !(i < 0 || i + p.len() > s.len()) && !occurs_at(s, p, i) {
        lemma_find_from_bounds(s, p, i + 1);
    }
}

/// `<digits>.<exactly two digits>`, with one leading `-` allowed when
/// `allow_sign`.
pub open spec fn two_dp_text(s: Seq<char>, allow_sign: bool) -> bool {
    let t = if allow_sign && s.len() > 0 && s[0] == '-' {
        s.drop_first()
    } else {
        s
    };
    match split_once(t, seq!['.']) {
        Some((whole, frac)) => whole.len() > 0 && all_digits(whole) && frac.len() == 2
            && all_digits(frac),
        None => false,
    }
}

/// Whether `v[lo..hi]` is `<digits>.<two digits>`, signed when `allow_sign`.
fn is_two_dp(v: &Vec<char>, lo: usize, hi: usize, allow_sign: bool) -> (b: bool)
    requires
        lo <= hi <= v@.len(),
    ensures
        b == two_dp_text(v@.subrange(lo as int, hi as int), allow_sign),
{
    let ghost s = v@.subrange(lo as int, hi as int);
    let start = if allow_sign && lo < hi && v[lo] == '-' {
        lo + 1
    } else {
        lo
    };
    let t = slice_vec(v, start, hi);
    proof {
        if start == lo + 1 {
            assert(t@ == s.drop_first());
        } else {
            assert(t@ == s);
        }
    }
    let dot = vec!['.'];
    assert(dot@ == seq!['.']);
    match find_sub(&t, &dot) {
        None => false,
        Some(k) => {
            proof {
                lemma_find_from_bounds(t@, dot@, 0);
            }
            k > 0 && digits_between(&t, 0, k) && t.len() - k - 1 == 2 && digits_between(
                &t,
                k + 1,
                t.len(),
            )
        },
    }
}

/// XRechnung's Skonto line, `#SKONTO#TAGE=<digits>#PROZENT=<digits>.<2
/// digits>[#BASISBETRAG=[-]<digits>.<2 digits>]#`: the two-decimal amounts
/// are exact, so `PROZENT=3` and `PROZENT=3.0` are both refused.
pub open spec fn skonto_line(line: Seq<char>) -> bool {
    let pre = "#SKONTO#TAGE="@;
    starts_with(line, pre) && match split_once(
        line.subrange(pre.len() as int, line.len() as int),
        "#PROZENT="@,
    ) {
        None => false,
        Some((days, rest)) => {
            &&& days.len() > 0 && all_digits(days)
            &&& rest.len() > 0 && rest.last() == '#'
            &&& match split_once(rest.drop_last(), "#BASISBETRAG="@) {
                Some((pct, base)) => two_dp_text(pct, false) && two_dp_text(base, true),
                None => two_dp_text(rest.drop_last(), false),
            }
        },
    }
}

/// Whether `line` is a well-formed Skonto line.
pub fn is_skonto_line(line: &str) -> (b: bool)
    ensures
        b == skonto_line(line@),
{
    skonto_chars(&chars_of(line))
}

/// Whether the characters `v` form a well-formed Skonto line.
fn skonto_chars(v: &Vec<char>) -> (b: bool)
    ensures
        b == skonto_line(v@),
{
    let pre = chars_of("#SKONTO#TAGE=");
    if !has_prefix(v, &pre) {
        return false;
    }
    let rest = slice_vec(v, pre.len(), v.len());
    let pct_key = chars_of("#PROZENT=");
    let k = match find_sub(&rest, &pct_key) {
        None => {
            return false;
        },
        Some(k) => k,
    };
    proof {
        lemma_find_from_bounds(rest@, pct_key@, 0);
    }
    if k == 0 || !digits_between(&rest, 0, k) {
        return false;
    }
    let after = k + pct_key.len();
    if after >= rest.len() || rest[rest.len() - 1] != '#' {
        return false;
    }
    let body = slice_vec(&rest, after, rest.len() - 1);
    proof {
        assert(rest@.subrange(after as int, rest@.len() as int).drop_last() == body@);
    }
    let base_key = chars_of("#BASISBETRAG=");
    match find_sub(&body, &base_key) {
        Some(j) => {
            proof {
                lemma_find_from_bounds(body@, base_key@, 0);
            }
            is_two_dp(&body, 0, j, false) && is_two_dp(&body, j + base_key.len(), body.len(), true)
        },
        None => {
            assert(body@.subrange(0, body@.len() as int) == body@);
            is_two_dp(&body, 0, body.len(), false)
        },
    }
}

/// A character RFC 3986 allows in a scheme after its first letter.
pub open spec fn scheme_char(c: char) -> bool {
    is_alnum(c) || c == '+' || c == '-' || c == '.'
}

/// BR-TMP-2's test for BT-124: `scheme://rest`, a scheme that starts with a
/// letter and continues with letters, digits, `+`, `-` or `.`, and something
/// after the `://`.
pub open spec fn absolute_url(s: Seq<char>) -> bool {
    match split_once(s, "://"@) {
        Some((scheme, rest)) => {
            &&& scheme.len() > 0 && is_alpha(scheme[0])
            &&& forall|i: int| 0 <= i < scheme.len() ==> scheme_char(#[trigger] scheme[i])
            &&& rest.len() > 0
        },
        None => false,
    }
}

/// Whether `s` is an absolute URL with a plausible scheme.
pub fn is_absolute_url(s: &str) -> (b: bool)
    ensures
        b == absolute_url(s@),
{
    let v = chars_of(s);
    let n = v.len();
    let sep = chars_of("://");
    let k = match find_sub(&v, &sep) {
        None => {
            return false;
        },
        Some(k) => k,
    };
    proof {
        lemma_find_from_bounds(v@, sep@, 0);
        assert(occurs_at(v@, sep@, k as int));
    }
    let ghost scheme = v@.subrange(0, k as int);
    let end = k + sep.len();
    if k == 0 || !ascii_alpha(v[0]) {
        return false;
    }
    let mut i: usize = 0;
    while i < k
        invariant
            k + sep@.len() <= v@.len(),
            end == k + sep@.len(),
            n == v@.len(),
            v@ == s@,
            sep@ == "://"@,
            find_from(v@, sep@, 0) == Some(k as int),
            scheme == v@.subrange(0, k as int),
            i <= k,
            forall|j: int| 0 <= j < i ==> scheme_char(#[trigger] scheme[j]),
        decreases k - i,
    {
        let c = v[i];
        if !(ascii_alnum(c) || c == '+' || c == '-' || c == '.') {
            assert(!scheme_char(scheme[i as int]));
            return false;
        }
        i = i + 1;
    }
    end < n
}


// ── The document's terms, as the rules read them ─────────────────────────────

/// BT-81, when BG-16 carries one.
pub open spec fn means_code_of(inv: Invoice) -> Option<Seq<char>> {
    match inv.payment {
        Some(p) => match p.means_code {
            Some(c) => Some(c@),
            None => None,
        },
        None => None,
    }
}

/// The payment group BG-16 carries: BG-17, BG-18 or BG-19.
pub open spec fn means_of(inv: Invoice) -> Option<PaymentMeans> {
    match inv.payment {
        Some(p) => p.means,
        None => None,
    }
}

/// BT-84: the first credit transfer's account.
pub open spec fn payment_account_of(inv: Invoice) -> Option<Seq<char>> {
    match means_of(inv) {
        Some(PaymentMeans::CreditTransfer(ts)) => if ts@.len() > 0 {
            opt_view(ts@[0].account_identifier)
        } else {
            None
        },
        _ => None,
    }
}

/// BT-81 as text, when present.
fn means_code(inv: &Invoice) -> (r: Option<&str>)
    ensures
        opt_str_view(r) == means_code_of(*inv),
{
    match &inv.payment {
        Some(p) => match &p.means_code {
            Some(c) => Some(c.as_str()),
            None => None,
        },
        None => None,
    }
}

/// Whether BT-81 is one of `codes`.
fn means_code_in(inv: &Invoice, codes: &[&str]) -> (b: bool)
    ensures
        b == (means_code_of(*inv) matches Some(c) && exists|i: int|
            0 <= i < codes@.len() && codes@[i]@ == c),
{
    let code = match means_code(inv) {
        Some(c) => c,
        None => {
            return false;
        },
    };
    let mut i: usize = 0;
    while i < codes.len()
        invariant
            i <= codes@.len(),
            means_code_of(*inv) == Some(code@),
            forall|k: int| 0 <= k < i ==> codes@[k]@ != code@,
        decreases codes.len() - i,
    {
        if str_eq(codes[i], code) {
            return true;
        }
        i = i + 1;
    }
    false
}

/// The UNTDID 4461 codes XRechnung treats as a credit transfer.
pub open spec fn credit_transfer_codes() -> Seq<Seq<char>> {
    seq!["30"@, "58"@]
}

/// …as a card payment.
pub open spec fn card_codes() -> Seq<Seq<char>> {
    seq!["48"@, "54"@, "55"@]
}

/// …as a direct debit.
pub open spec fn direct_debit_codes() -> Seq<Seq<char>> {
    seq!["59"@]
}

/// The text views of a list of codes.
pub open spec fn code_texts(codes: Seq<&str>) -> Seq<Seq<char>> {
    codes.map_values(|c: &str| c@)
}

/// Whether BT-81 names a code of `family`.
pub open spec fn means_in(inv: Invoice, family: Seq<Seq<char>>) -> bool {
    means_code_of(inv) matches Some(c) && family.contains(c)
}

/// A family's codes as exec text.
fn family_codes(which: u8) -> (v: Vec<&'static str>)
    ensures
        which == 0 ==> code_texts(v@) == credit_transfer_codes(),
        which == 1 ==> code_texts(v@) == card_codes(),
        which >= 2 ==> code_texts(v@) == direct_debit_codes(),
{
    let v = if which == 0 {
        vec!["30", "58"]
    } else if which == 1 {
        vec!["48", "54", "55"]
    } else {
        vec!["59"]
    };
    assert(code_texts(v@) =~= if which == 0 {
        credit_transfer_codes()
    } else if which == 1 {
        card_codes()
    } else {
        direct_debit_codes()
    });
    v
}

/// Whether BT-81 names a code of the family `which` (0 transfer, 1 card,
/// 2 direct debit).
fn means_in_family(inv: &Invoice, which: u8) -> (b: bool)
    ensures
        which == 0 ==> b == means_in(*inv, credit_transfer_codes()),
        which == 1 ==> b == means_in(*inv, card_codes()),
        which >= 2 ==> b == means_in(*inv, direct_debit_codes()),
{
    let codes = family_codes(which);
    let b = means_code_in(inv, codes.as_slice());
    proof {
        if let Some(c) = means_code_of(*inv) {
            if b {
                let i = choose|i: int| 0 <= i < codes@.len() && codes@[i]@ == c;
                assert(code_texts(codes@)[i] == c);
            }
            if code_texts(codes@).contains(c) {
                let i = choose|i: int| 0 <= i < code_texts(codes@).len() && code_texts(codes@)[i] == c;
                assert(codes@[i]@ == c);
            }
        }
    }
    b
}

// ── BR-DE-16 ──────────────────────────────────────────────────────────────────

/// Whether the document uses a category that needs a seller identifier:
/// every category but `O` (not subject to VAT) and `B` (split payment, which
/// BR-B-01 confines to Italy).
pub open spec fn needs_seller_id(inv: Invoice) -> bool {
    exists|c: VatCategory|
        c != VatCategory::OutOfScope && c != VatCategory::SplitPayment && #[trigger] uses_category(
            inv,
            c,
        )
}

/// What [`br_de_16`] returns.
pub open spec fn br_de_16_result(inv: Invoice) -> Option<Path> {
    if needs_seller_id(inv) && inv.seller.vat_identifier is None
        && inv.seller.tax_registration is None {
        Some(Path { group: Group::Seller, index: None, term: Some(BtId(31)) })
    } else {
        None
    }
}

/// `BR-DE-16` — with `S`, `Z`, `E`, `AE`, `K`, `G`, `L` or `M` in use, the
/// seller needs a VAT identifier (BT-31) or a tax registration identifier
/// (BT-32). `Some(BG-4/BT-31)` when neither is there.
pub fn br_de_16(inv: &Invoice) -> (r: Option<Path>)
    ensures
        r == br_de_16_result(*inv),
{
    let used = inv.categories_used();
    let mut needs = false;
    let mut i: usize = 0;
    while i < used.len()
        invariant
            i <= used@.len(),
            forall|c: VatCategory| used@.contains(c) <==> uses_category(*inv, c),
            needs <==> exists|k: int|
                0 <= k < i && used@[k] != VatCategory::OutOfScope && used@[k]
                    != VatCategory::SplitPayment,
        decreases used.len() - i,
    {
        let c = used[i];
        if c != VatCategory::OutOfScope && c != VatCategory::SplitPayment {
            needs = true;
        }
        i = i + 1;
    }
    proof {
        if needs {
            let k = choose|k: int|
                0 <= k < used@.len() && used@[k] != VatCategory::OutOfScope && used@[k]
                    != VatCategory::SplitPayment;
            assert(used@.contains(used@[k]));
            assert(uses_category(*inv, used@[k]));
        }
        if needs_seller_id(*inv) {
            let c = choose|c: VatCategory|
                c != VatCategory::OutOfScope && c != VatCategory::SplitPayment && #[trigger] uses_category(
                    *inv,
                    c,
                );
            assert(used@.contains(c));
            let k = choose|k: int| 0 <= k < used@.len() && used@[k] == c;
            assert(needs);
        }
    }
    if needs && inv.seller.vat_identifier.is_none() && inv.seller.tax_registration.is_none() {
        Some(Path::group_term(Group::Seller, BtId(31)))
    } else {
        None
    }
}

// ── BR-DE-23/24/25-a — the group must match BT-81 ─────────────────────────────

/// The BG-16/BT-81 path the payment-means rules report.
pub open spec fn means_path() -> Path {
    Path { group: Group::Payment, index: None, term: Some(BtId(81)) }
}

/// What [`br_de_23_a`] returns.
pub open spec fn br_de_23_a_result(inv: Invoice) -> Option<Path> {
    if means_in(inv, credit_transfer_codes()) && !(means_of(inv) matches Some(
        PaymentMeans::CreditTransfer(_),
    )) {
        Some(means_path())
    } else {
        None
    }
}

/// `BR-DE-23-a` — BT-81 names a credit transfer (30, 58), so BG-17 CREDIT
/// TRANSFER must be the group present. `Some(BG-16/BT-81)` when it is not.
pub fn br_de_23_a(inv: &Invoice) -> (r: Option<Path>)
    ensures
        r == br_de_23_a_result(*inv),
{
    if means_in_family(inv, 0) {
        let ok = match &inv.payment {
            Some(p) => matches!(p.means, Some(PaymentMeans::CreditTransfer(_))),
            None => false,
        };
        if !ok {
            return Some(Path::group_term(Group::Payment, BtId(81)));
        }
    }
    None
}

/// What [`br_de_24_a`] returns.
pub open spec fn br_de_24_a_result(inv: Invoice) -> Option<Path> {
    if means_in(inv, card_codes()) && !(means_of(inv) matches Some(
        PaymentMeans::Card(_),
    )) {
        Some(means_path())
    } else {
        None
    }
}

/// `BR-DE-24-a` — BT-81 names a card payment (48, 54, 55), so BG-18 PAYMENT
/// CARD INFORMATION must be the group present.
pub fn br_de_24_a(inv: &Invoice) -> (r: Option<Path>)
    ensures
        r == br_de_24_a_result(*inv),
{
    if means_in_family(inv, 1) {
        let ok = match &inv.payment {
            Some(p) => matches!(p.means, Some(PaymentMeans::Card(_))),
            None => false,
        };
        if !ok {
            return Some(Path::group_term(Group::Payment, BtId(81)));
        }
    }
    None
}

/// What [`br_de_25_a`] returns.
pub open spec fn br_de_25_a_result(inv: Invoice) -> Option<Path> {
    if means_in(inv, direct_debit_codes()) && !(means_of(inv) matches Some(
        PaymentMeans::DirectDebit(_),
    )) {
        Some(means_path())
    } else {
        None
    }
}

/// `BR-DE-25-a` — BT-81 names a direct debit (59), so BG-19 DIRECT DEBIT must
/// be the group present.
pub fn br_de_25_a(inv: &Invoice) -> (r: Option<Path>)
    ensures
        r == br_de_25_a_result(*inv),
{
    if means_in_family(inv, 2) {
        let ok = match &inv.payment {
            Some(p) => matches!(p.means, Some(PaymentMeans::DirectDebit(_))),
            None => false,
        };
        if !ok {
            return Some(Path::group_term(Group::Payment, BtId(81)));
        }
    }
    None
}


// ── BR-DE-30, BR-DE-31, EN-SEPA-01 — direct debit detail ──────────────────────

/// Whether an optional text is present and not empty.
pub open spec fn filled(s: Option<Seq<char>>) -> bool {
    s matches Some(t) && t.len() > 0
}

/// Whether an optional text is present and not empty.
fn is_filled(s: &Option<String>) -> (b: bool)
    ensures
        b == filled(opt_view(*s)),
{
    match s {
        Some(t) => t.as_str().unicode_len() > 0,
        None => false,
    }
}

/// The BG-16 path carrying `term`.
pub open spec fn payment_path(term: u16) -> Path {
    Path { group: Group::Payment, index: None, term: Some(BtId(term)) }
}

/// What [`br_de_30`] returns.
pub open spec fn br_de_30_result(inv: Invoice) -> Option<Path> {
    if means_of(inv) matches Some(PaymentMeans::DirectDebit(d)) && !filled(
        opt_view(d.creditor_identifier),
    ) {
        Some(payment_path(90))
    } else {
        None
    }
}

/// `BR-DE-30` — with BG-19 DIRECT DEBIT present, the bank assigned creditor
/// identifier (BT-90) must be there. `Some(BG-16/BT-90)` when it is absent or
/// empty.
pub fn br_de_30(inv: &Invoice) -> (r: Option<Path>)
    ensures
        r == br_de_30_result(*inv),
{
    if let Some(p) = &inv.payment {
        if let Some(PaymentMeans::DirectDebit(d)) = &p.means {
            if !is_filled(&d.creditor_identifier) {
                return Some(Path::group_term(Group::Payment, BtId(90)));
            }
        }
    }
    None
}

/// What [`en_sepa_01`] returns.
pub open spec fn en_sepa_01_result(inv: Invoice) -> Option<Path> {
    if means_of(inv) matches Some(PaymentMeans::DirectDebit(d)) && opt_view(
        d.creditor_identifier,
    ) matches Some(id) && id.len() > 0 && !sepa_creditor_id_accepts(id) {
        Some(payment_path(90))
    } else {
        None
    }
}

/// `EN-SEPA-01` — this library's own warning: a BT-90 that is there should be
/// a well-formed SEPA Creditor Identifier. `BR-DE-30` only asks that it be
/// present, and a malformed one is rejected by the creditor's bank long after
/// the invoice was accepted.
pub fn en_sepa_01(inv: &Invoice) -> (r: Option<Path>)
    ensures
        r == en_sepa_01_result(*inv),
{
    if let Some(p) = &inv.payment {
        if let Some(PaymentMeans::DirectDebit(d)) = &p.means {
            if let Some(id) = &d.creditor_identifier {
                if id.as_str().unicode_len() > 0 && !is_valid_creditor_identifier(id.as_str()) {
                    return Some(Path::group_term(Group::Payment, BtId(90)));
                }
            }
        }
    }
    None
}

/// What [`br_de_31`] returns.
pub open spec fn br_de_31_result(inv: Invoice) -> Option<Path> {
    if means_of(inv) matches Some(PaymentMeans::DirectDebit(d)) && !filled(
        opt_view(d.debited_account),
    ) {
        Some(payment_path(91))
    } else {
        None
    }
}

/// `BR-DE-31` — with BG-19 DIRECT DEBIT present, the debited account
/// identifier (BT-91) must be there.
pub fn br_de_31(inv: &Invoice) -> (r: Option<Path>)
    ensures
        r == br_de_31_result(*inv),
{
    if let Some(p) = &inv.payment {
        if let Some(PaymentMeans::DirectDebit(d)) = &p.means {
            if !is_filled(&d.debited_account) {
                return Some(Path::group_term(Group::Payment, BtId(91)));
            }
        }
    }
    None
}

// ── BR-DE-26 — a corrected invoice references the original ────────────────────

/// What [`br_de_26`] returns.
pub open spec fn br_de_26_result(inv: Invoice) -> Option<Path> {
    if (inv.type_code matches Some(c) && c@ == "384"@) && inv.preceding_invoices@.len()
        == 0 {
        Some(Path { group: Group::Document, index: None, term: Some(BtId(25)) })
    } else {
        None
    }
}

/// `BR-DE-26` — a corrected invoice (BT-3 = 384) should reference at least
/// one preceding invoice (BG-3). `Some(BT-25)` when it references none.
pub fn br_de_26(inv: &Invoice) -> (r: Option<Path>)
    ensures
        r == br_de_26_result(*inv),
{
    let corrected = match &inv.type_code {
        Some(c) => str_eq(c.as_str(), "384"),
        None => false,
    };
    if corrected && inv.preceding_invoices.len() == 0 {
        Some(Path::term(BtId(25)))
    } else {
        None
    }
}

// ── BR-DE-19 / BR-DE-20 — IBANs, checked offline ──────────────────────────────

/// What [`br_de_19`] returns.
pub open spec fn br_de_19_result(inv: Invoice) -> Option<Path> {
    if means_code_of(inv) == Some("58"@) && (payment_account_of(inv) matches Some(acc)
        && !sepa_iban_accepts(acc)) {
        Some(payment_path(84))
    } else {
        None
    }
}

/// `BR-DE-19` — with BT-81 = 58 (SEPA credit transfer), the payment account
/// identifier (BT-84) should be a correct IBAN. A warning.
pub fn br_de_19(inv: &Invoice) -> (r: Option<Path>)
    ensures
        r == br_de_19_result(*inv),
{
    let sepa_transfer = match means_code(inv) {
        Some(c) => str_eq(c, "58"),
        None => false,
    };
    if !sepa_transfer {
        return None;
    }
    if let Some(p) = &inv.payment {
        if let Some(acc) = p.account_identifier() {
            if !is_valid_iban(acc) {
                return Some(Path::group_term(Group::Payment, BtId(84)));
            }
        }
    }
    None
}

/// What [`br_de_20`] returns.
pub open spec fn br_de_20_result(inv: Invoice) -> Option<Path> {
    if means_code_of(inv) == Some("59"@) && (means_of(inv) matches Some(
        PaymentMeans::DirectDebit(d),
    ) && opt_view(d.debited_account) matches Some(acc) && !sepa_iban_accepts(acc)) {
        Some(payment_path(91))
    } else {
        None
    }
}

/// `BR-DE-20` — with BT-81 = 59 (SEPA direct debit), the debited account
/// identifier (BT-91) should be a correct IBAN. A warning.
pub fn br_de_20(inv: &Invoice) -> (r: Option<Path>)
    ensures
        r == br_de_20_result(*inv),
{
    let sepa_debit = match means_code(inv) {
        Some(c) => str_eq(c, "59"),
        None => false,
    };
    if !sepa_debit {
        return None;
    }
    if let Some(p) = &inv.payment {
        if let Some(PaymentMeans::DirectDebit(d)) = &p.means {
            if let Some(acc) = &d.debited_account {
                if !is_valid_iban(acc.as_str()) {
                    return Some(Path::group_term(Group::Payment, BtId(91)));
                }
            }
        }
    }
    None
}

// ── BR-DE-27 / BR-DE-28 — contact formats ─────────────────────────────────────

/// How many ASCII digits `s` holds.
pub open spec fn digit_count(s: Seq<char>) -> nat
    decreases s.len(),
{
    if s.len() == 0 {
        0
    } else {
        digit_count(s.drop_last()) + if is_digit(s.last()) { 1nat } else { 0nat }
    }
}

/// The number of ASCII digits in `s`.
fn count_digits(s: &str) -> (n: usize)
    ensures
        n == digit_count(s@),
{
    let v = chars_of(s);
    let mut n: usize = 0;
    let mut i: usize = 0;
    while i < v.len()
        invariant
            v@ == s@,
            i <= v@.len(),
            n <= i,
            n == digit_count(v@.subrange(0, i as int)),
        decreases v.len() - i,
    {
        assert(v@.subrange(0, i + 1).drop_last() == v@.subrange(0, i as int));
        if ascii_digit(v[i]) {
            n = n + 1;
        }
        i = i + 1;
    }
    assert(v@.subrange(0, v@.len() as int) == v@);
    n
}

/// The BG-4 path carrying `term`.
pub open spec fn seller_path(term: u16) -> Path {
    Path { group: Group::Seller, index: None, term: Some(BtId(term)) }
}

/// What [`br_de_27`] returns.
pub open spec fn br_de_27_result(inv: Invoice) -> Option<Path> {
    if opt_view(inv.seller.contact.phone) matches Some(p) && digit_count(p) < 3 {
        Some(seller_path(42))
    } else {
        None
    }
}

/// `BR-DE-27` — the seller's telephone number (BT-42) should hold at least
/// three digits.
pub fn br_de_27(inv: &Invoice) -> (r: Option<Path>)
    ensures
        r == br_de_27_result(*inv),
{
    if let Some(phone) = &inv.seller.contact.phone {
        if count_digits(phone.as_str()) < 3 {
            return Some(Path::group_term(Group::Seller, BtId(42)));
        }
    }
    None
}

/// What [`br_de_28`] returns.
pub open spec fn br_de_28_result(inv: Invoice) -> Option<Path> {
    if opt_view(inv.seller.contact.email) matches Some(e) && !plausible_email_text(e) {
        Some(seller_path(43))
    } else {
        None
    }
}

/// `BR-DE-28` — the seller's email address (BT-43) should have the shape
/// [`plausible_email_text`] describes.
pub fn br_de_28(inv: &Invoice) -> (r: Option<Path>)
    ensures
        r == br_de_28_result(*inv),
{
    if let Some(email) = &inv.seller.contact.email {
        if !plausible_email(email.as_str()) {
            return Some(Path::group_term(Group::Seller, BtId(43)));
        }
    }
    None
}

// ── Presence rules ────────────────────────────────────────────────────────────

/// What [`br_de_2`] returns.
pub open spec fn br_de_2_result(inv: Invoice) -> Option<Path> {
    if inv.seller.contact.name is None && inv.seller.contact.phone is None
        && inv.seller.contact.email is None {
        Some(Path { group: Group::Seller, index: None, term: None })
    } else {
        None
    }
}

/// `BR-DE-2` — the SELLER CONTACT group (BG-6) must be transmitted: at least
/// one of its terms. `Some(BG-4)` when all three are absent.
pub fn br_de_2(inv: &Invoice) -> (r: Option<Path>)
    ensures
        r == br_de_2_result(*inv),
{
    let c = &inv.seller.contact;
    if c.name.is_none() && c.phone.is_none() && c.email.is_none() {
        Some(Path::group(Group::Seller))
    } else {
        None
    }
}

/// The deliver-to address field `which` names: 0 the city, otherwise the
/// post code.
pub open spec fn deliver_to_field(inv: Invoice, which: u8) -> Option<Option<Seq<char>>> {
    match inv.delivery {
        Some(d) => match d.address {
            Some(a) => Some(if which == 0 { opt_view(a.city) } else { opt_view(a.post_code) }),
            None => None,
        },
        None => None,
    }
}

/// Whether a present deliver-to address lacks the field `which`, absent or
/// blank.
fn deliver_to_missing(inv: &Invoice, which: u8) -> (b: bool)
    ensures
        b == (deliver_to_field(*inv, which) matches Some(f) && !(f matches Some(t) && !crate::text::blank(t))),
{
    match &inv.delivery {
        Some(d) => match &d.address {
            Some(a) => {
                let f = if which == 0 {
                    &a.city
                } else {
                    &a.post_code
                };
                match f {
                    Some(t) => crate::text::is_blank_str(t.as_str()),
                    None => true,
                }
            },
            None => false,
        },
        None => false,
    }
}

/// What [`br_de_10`] returns.
pub open spec fn br_de_10_result(inv: Invoice) -> Option<Path> {
    if deliver_to_field(inv, 0) matches Some(f) && !(f matches Some(t)
        && !crate::text::blank(t)) {
        Some(Path { group: Group::Delivery, index: Some(0), term: Some(BtId(77)) })
    } else {
        None
    }
}

/// `BR-DE-10` — a DELIVER TO ADDRESS (BG-15) must carry the city (BT-77).
pub fn br_de_10(inv: &Invoice) -> (r: Option<Path>)
    ensures
        r == br_de_10_result(*inv),
{
    if deliver_to_missing(inv, 0) {
        Some(Path::at_term(Group::Delivery, 0, BtId(77)))
    } else {
        None
    }
}

/// What [`br_de_11`] returns.
pub open spec fn br_de_11_result(inv: Invoice) -> Option<Path> {
    if deliver_to_field(inv, 1) matches Some(f) && !(f matches Some(t)
        && !crate::text::blank(t)) {
        Some(Path { group: Group::Delivery, index: Some(0), term: Some(BtId(78)) })
    } else {
        None
    }
}

/// `BR-DE-11` — a DELIVER TO ADDRESS (BG-15) must carry the post code (BT-78).
pub fn br_de_11(inv: &Invoice) -> (r: Option<Path>)
    ensures
        r == br_de_11_result(*inv),
{
    if deliver_to_missing(inv, 1) {
        Some(Path::at_term(Group::Delivery, 0, BtId(78)))
    } else {
        None
    }
}

/// Whether every line states a line period (BG-26).
pub open spec fn every_line_has_period(inv: Invoice) -> bool {
    inv.lines@.len() > 0 && forall|i: int| 0 <= i < inv.lines@.len() ==> (#[trigger] inv.lines@[i]).period is Some
}

/// What [`br_de_tmp_32`] returns.
pub open spec fn br_de_tmp_32_result(inv: Invoice) -> Option<Path> {
    if !((inv.delivery matches Some(d) && d.date is Some) || inv.invoicing_period is Some
        || every_line_has_period(inv)) {
        Some(Path { group: Group::Document, index: None, term: Some(BtId(72)) })
    } else {
        None
    }
}

/// `BR-DE-TMP-32` — for the delivery or service date, an invoice should carry
/// BT-72, the invoicing period BG-14, or a line period BG-26 on every line.
/// `Some(BT-72)` when it carries none of them. Informational.
pub fn br_de_tmp_32(inv: &Invoice) -> (r: Option<Path>)
    ensures
        r == br_de_tmp_32_result(*inv),
{
    let has_delivery_date = match &inv.delivery {
        Some(d) => d.date.is_some(),
        None => false,
    };
    let has_period = inv.invoicing_period.is_some();
    let mut every = inv.lines.len() > 0;
    let mut i: usize = 0;
    while i < inv.lines.len()
        invariant
            i <= inv.lines@.len(),
            every <==> (inv.lines@.len() > 0 && forall|k: int| 0 <= k < i ==> (#[trigger] inv.lines@[k]).period is Some),
        decreases inv.lines.len() - i,
    {
        if inv.lines[i].period.is_none() {
            every = false;
        }
        i = i + 1;
    }
    if !(has_delivery_date || has_period || every) {
        Some(Path::term(BtId(72)))
    } else {
        None
    }
}


// ── BR-DE-18 — Skonto lines in BT-20 ──────────────────────────────────────────

/// `s` cut at every `\n`: always one piece more than there are newlines.
pub open spec fn text_lines(s: Seq<char>) -> Seq<Seq<char>>
    decreases s.len(),
{
    if s.len() == 0 {
        seq![Seq::<char>::empty()]
    } else {
        let p = text_lines(s.drop_last());
        if s.last() == '\n' {
            p.push(Seq::<char>::empty())
        } else {
            p.update(p.len() - 1, p.last().push(s.last()))
        }
    }
}

proof fn lemma_text_lines_nonempty(s: Seq<char>)
    ensures
        text_lines(s).len() >= 1,
    decreases s.len(),
{
    if s.len() > 0 {
        lemma_text_lines_nonempty(s.drop_last());
    }
}

/// A line of BT-20 that, trimmed, starts like a Skonto line and is not one.
pub open spec fn bad_skonto_line(line: Seq<char>) -> bool {
    let t = crate::text::trim_seq(line);
    t.len() > 0 && t[0] == '#' && !skonto_line(t)
}

/// `s` without its leading spaces, tabs and carriage returns.
pub open spec fn skip_blanks(s: Seq<char>) -> Seq<char>
    decreases s.len(),
{
    if s.len() > 0 && (s[0] == ' ' || s[0] == '\t' || s[0] == '\r') {
        skip_blanks(s.drop_first())
    } else {
        s
    }
}

/// BR-DE-18's verdict on BT-20: some line is a malformed Skonto line, or the
/// text holds a Skonto block and what follows its last `#` does not begin,
/// after spaces, tabs and carriage returns, with a newline.
pub open spec fn skonto_terms_bad(s: Seq<char>) -> bool {
    ||| exists|k: int| 0 <= k < text_lines(s).len() && bad_skonto_line(#[trigger] text_lines(s)[k])
    ||| (rfind_char(s, '#') matches Some(h) && find_from(s, "#SKONTO#"@, 0) is Some && !starts_with(
        skip_blanks(s.subrange(h + 1, s.len() as int)),
        seq!['\n'],
    ))
}

/// Whether a line of BT-20 is a malformed Skonto line.
fn is_bad_skonto_line(line: &Vec<char>) -> (b: bool)
    ensures
        b == bad_skonto_line(line@),
{
    let (lo, hi) = crate::text::trim_bounds(line);
    if lo == hi || line[lo] != '#' {
        return false;
    }
    let t = slice_vec(line, lo, hi);
    !skonto_chars(&t)
}

/// The first position of `v[from..]` that is not a space, tab or carriage
/// return.
fn skip_blanks_from(v: &Vec<char>, from: usize) -> (k: usize)
    requires
        from <= v@.len(),
    ensures
        from <= k <= v@.len(),
        v@.subrange(k as int, v@.len() as int) == skip_blanks(v@.subrange(from as int, v@.len() as int)),
{
    let mut k = from;
    while k < v.len() && (v[k] == ' ' || v[k] == '\t' || v[k] == '\r')
        invariant
            from <= k <= v@.len(),
            skip_blanks(v@.subrange(k as int, v@.len() as int)) == skip_blanks(
                v@.subrange(from as int, v@.len() as int),
            ),
        decreases v.len() - k,
    {
        assert(v@.subrange(k as int, v@.len() as int).drop_first() == v@.subrange(k + 1, v@.len() as int));
        k = k + 1;
    }
    k
}

/// Whether BT-20 breaks BR-DE-18.
fn skonto_terms_are_bad(terms: &str) -> (b: bool)
    ensures
        b == skonto_terms_bad(terms@),
{
    let v = chars_of(terms);
    let n = v.len();
    let mut cur: Vec<char> = Vec::new();
    let mut bad = false;
    let mut i: usize = 0;
    proof {
        assert(v@.subrange(0, 0) == Seq::<char>::empty());
        assert(text_lines(v@.subrange(0, 0)) == seq![Seq::<char>::empty()]);
    }
    while i < n
        invariant
            n == v@.len(),
            i <= n,
            text_lines(v@.subrange(0, i as int)).len() >= 1,
            cur@ == text_lines(v@.subrange(0, i as int)).last(),
            bad <==> exists|k: int|
                0 <= k < text_lines(v@.subrange(0, i as int)).len() - 1 && bad_skonto_line(
                    #[trigger] text_lines(v@.subrange(0, i as int))[k],
                ),
        decreases n - i,
    {
        let ghost before = text_lines(v@.subrange(0, i as int));
        proof {
            assert(v@.subrange(0, i + 1).drop_last() == v@.subrange(0, i as int));
        }
        if v[i] == '\n' {
            if is_bad_skonto_line(&cur) {
                bad = true;
            }
            proof {
                let after = text_lines(v@.subrange(0, i + 1));
                assert(after == before.push(Seq::<char>::empty()));
                assert forall|k: int| 0 <= k < after.len() - 1 implies after[k] == before[k] by {}
                if bad {
                    if !bad_skonto_line(cur@) {
                        let k = choose|k: int|
                            0 <= k < before.len() - 1 && bad_skonto_line(#[trigger] before[k]);
                        assert(after[k] == before[k]);
                    } else {
                        assert(after[before.len() - 1] == cur@);
                    }
                }
            }
            cur = Vec::new();
        } else {
            cur.push(v[i]);
            proof {
                let after = text_lines(v@.subrange(0, i + 1));
                assert(after == before.update(before.len() - 1, before.last().push(v@[i as int])));
                assert forall|k: int| 0 <= k < after.len() - 1 implies after[k] == before[k] by {}
                if bad {
                    let k = choose|k: int|
                        0 <= k < before.len() - 1 && bad_skonto_line(#[trigger] before[k]);
                    assert(after[k] == before[k]);
                }
            }
        }
        i = i + 1;
    }
    proof {
        assert(v@.subrange(0, n as int) == v@);
    }
    let ghost lines = text_lines(v@);
    let last_bad = is_bad_skonto_line(&cur);
    let lines_bad = bad || last_bad;
    proof {
        if last_bad {
            assert(lines[lines.len() - 1] == cur@);
        }
        if exists|k: int| 0 <= k < lines.len() && bad_skonto_line(#[trigger] lines[k]) {
            let k = choose|k: int| 0 <= k < lines.len() && bad_skonto_line(#[trigger] lines[k]);
            if k < lines.len() - 1 {
                assert(bad);
            } else {
                assert(last_bad);
            }
        }
    }
    let key = chars_of("#SKONTO#");
    let tail_bad = match rfind(&v, '#') {
        None => false,
        Some(h) => {
            proof {
                lemma_rfind_bound(v@, '#');
            }
            let has_block = match find_sub(&v, &key) {
                Some(_) => true,
                None => false,
            };
            let k = skip_blanks_from(&v, h + 1);
            has_block && !(k < n && v[k] == '\n')
        },
    };
    proof {
        if let Some(h) = rfind_char(v@, '#') {
            let rest = skip_blanks(v@.subrange(h + 1, v@.len() as int));
            assert(starts_with(rest, seq!['\n']) <==> (rest.len() > 0 && rest[0] == '\n')) by {
                let nl = seq!['\n'];
                assert(nl.len() == 1 && nl[0] == '\n');
                if rest.len() > 0 && rest[0] == '\n' {
                    assert(rest.subrange(0, 1) =~= nl);
                }
                if starts_with(rest, nl) {
                    assert(rest.subrange(0, 1)[0] == rest[0]);
                }
            }
        }
    }
    lines_bad || tail_bad
}

/// A position `rfind_char` returns is in range.
proof fn lemma_rfind_bound(s: Seq<char>, c: char)
    ensures
        rfind_char(s, c) matches Some(h) ==> 0 <= h < s.len(),
    decreases s.len(),
{
    if s.len() > 0 && s.last() != c {
        lemma_rfind_bound(s.drop_last(), c);
    }
}

/// What [`br_de_18`] returns.
pub open spec fn br_de_18_result(inv: Invoice) -> Option<Path> {
    if opt_view(inv.payment_terms) matches Some(t) && skonto_terms_bad(t) {
        Some(Path { group: Group::Document, index: None, term: Some(BtId(20)) })
    } else {
        None
    }
}

/// `BR-DE-18` — Skonto lines in the payment terms (BT-20) must have the form
/// `#SKONTO#TAGE=n#PROZENT=n.nn[#BASISBETRAG=n.nn]#`, and the Skonto block
/// must end with a newline. `Some(BT-20)` when either fails.
pub fn br_de_18(inv: &Invoice) -> (r: Option<Path>)
    ensures
        r == br_de_18_result(*inv),
{
    match &inv.payment_terms {
        Some(t) => if skonto_terms_are_bad(t.as_str()) {
            Some(Path::term(BtId(20)))
        } else {
            None
        },
        None => None,
    }
}


// ── BR-DE-22, BR-TMP-2 — supporting documents ─────────────────────────────────

/// The filename of the `i`-th supporting document's attachment, if it has one.
pub open spec fn attachment_name(inv: Invoice, i: int) -> Option<Seq<char>> {
    match inv.attachments@[i].attachment {
        Some(a) => Some(a@.2),
        None => None,
    }
}

/// Whether the `i`-th attachment repeats the filename of an earlier one.
pub open spec fn repeats_a_name(inv: Invoice, i: int) -> bool {
    attachment_name(inv, i) matches Some(n) && exists|j: int|
        0 <= j < i && #[trigger] attachment_name(inv, j) == Some(n)
}

/// The BG-24 paths `at`, in order, of the first `n` documents for which
/// `flag` holds.
pub open spec fn attachment_paths(n: nat, flags: Seq<bool>, term: u16) -> Seq<Path>
    decreases n,
{
    if n == 0 {
        Seq::empty()
    } else {
        let earlier = attachment_paths((n - 1) as nat, flags, term);
        if flags[n - 1] {
            earlier.push(Path { group: Group::Attachment, index: Some((n - 1) as usize), term: Some(BtId(term)) })
        } else {
            earlier
        }
    }
}

/// For each supporting document, whether it repeats an earlier filename.
pub open spec fn repeated_names(inv: Invoice) -> Seq<bool> {
    Seq::new(inv.attachments@.len(), |i: int| repeats_a_name(inv, i))
}

/// `BR-DE-22` — the filenames of all attached documents must be unique. The
/// finding is raised on each duplicate, the one to rename: BG-24[i]/BT-125.
pub fn br_de_22(inv: &Invoice) -> (r: Vec<Path>)
    ensures
        r@ == attachment_paths(inv.attachments@.len(), repeated_names(*inv), 125),
{
    let n = inv.attachments.len();
    let mut out: Vec<Path> = Vec::new();
    let mut i: usize = 0;
    while i < n
        invariant
            n == inv.attachments@.len(),
            i <= n,
            out@ == attachment_paths(i as nat, repeated_names(*inv), 125),
        decreases n - i,
    {
        let mut dup = false;
        if let Some(a) = &inv.attachments[i].attachment {
            let name = a.filename();
            let mut j: usize = 0;
            while j < i
                invariant
                    i < n == inv.attachments@.len(),
                    j <= i,
                    attachment_name(*inv, i as int) == Some(name@),
                    dup <==> exists|k: int|
                        0 <= k < j && #[trigger] attachment_name(*inv, k) == Some(name@),
                decreases i - j,
            {
                if let Some(b) = &inv.attachments[j].attachment {
                    if str_eq(b.filename(), name) {
                        dup = true;
                    }
                }
                proof {
                    if dup {
                        if attachment_name(*inv, j as int) != Some(name@) {
                            let k = choose|k: int|
                                0 <= k < j && #[trigger] attachment_name(*inv, k) == Some(name@);
                        }
                    }
                }
                j = j + 1;
            }
        }
        assert(repeated_names(*inv)[i as int] == dup);
        if dup {
            out.push(Path::at_term(Group::Attachment, i, BtId(125)));
        }
        i = i + 1;
    }
    out
}

/// For each supporting document, whether it names an external location that
/// is not an absolute URL.
pub open spec fn bad_locations(inv: Invoice) -> Seq<bool> {
    Seq::new(
        inv.attachments@.len(),
        |i: int| opt_view(inv.attachments@[i].uri) matches Some(u) && !absolute_url(u),
    )
}

/// `BR-TMP-2` — an external document location (BT-124) must be an absolute
/// URL with a valid scheme. One BG-24[i]/BT-124 per failing document. A
/// warning.
pub fn br_tmp_2(inv: &Invoice) -> (r: Vec<Path>)
    ensures
        r@ == attachment_paths(inv.attachments@.len(), bad_locations(*inv), 124),
{
    let n = inv.attachments.len();
    let mut out: Vec<Path> = Vec::new();
    let mut i: usize = 0;
    while i < n
        invariant
            n == inv.attachments@.len(),
            i <= n,
            out@ == attachment_paths(i as nat, bad_locations(*inv), 124),
        decreases n - i,
    {
        let bad = match &inv.attachments[i].uri {
            Some(u) => !is_absolute_url(u.as_str()),
            None => false,
        };
        assert(bad_locations(*inv)[i as int] == bad);
        if bad {
            out.push(Path::at_term(Group::Attachment, i, BtId(124)));
        }
        i = i + 1;
    }
    out
}

/// The mime codes the XRechnung Extension admits for BT-125: Peppol's six
/// plus `application/xml`.
pub open spec fn extension_mime_codes() -> Seq<Seq<char>> {
    seq![
        "application/pdf"@,
        "application/vnd.oasis.opendocument.spreadsheet"@,
        "application/vnd.openxmlformats-officedocument.spreadsheetml.sheet"@,
        "application/xml"@,
        "image/jpeg"@,
        "image/png"@,
        "text/csv"@,
    ]
}

/// [`extension_mime_codes`], in order.
pub fn extension_mime_code_list() -> (v: Vec<&'static str>)
    ensures
        code_texts(v@) == extension_mime_codes(),
{
    let v = vec![
        "application/pdf",
        "application/vnd.oasis.opendocument.spreadsheet",
        "application/vnd.openxmlformats-officedocument.spreadsheetml.sheet",
        "application/xml",
        "image/jpeg",
        "image/png",
        "text/csv",
    ];
    assert(code_texts(v@) =~= extension_mime_codes());
    v
}

/// Whether `s` is one of `list`.
fn listed(list: &Vec<&'static str>, s: &str) -> (b: bool)
    ensures
        b == code_texts(list@).contains(s@),
{
    let mut i: usize = 0;
    while i < list.len()
        invariant
            i <= list@.len(),
            forall|k: int| 0 <= k < i ==> list@[k]@ != s@,
        decreases list.len() - i,
    {
        if str_eq(list[i], s) {
            assert(code_texts(list@)[i as int] == s@);
            return true;
        }
        i = i + 1;
    }
    proof {
        if code_texts(list@).contains(s@) {
            let k = choose|k: int| 0 <= k < code_texts(list@).len() && code_texts(list@)[k] == s@;
            assert(list@[k]@ == s@);
        }
    }
    false
}

/// For each supporting document, whether its attachment's mime code is
/// outside the Extension's list.
pub open spec fn foreign_mime_codes(inv: Invoice) -> Seq<bool> {
    Seq::new(
        inv.attachments@.len(),
        |i: int| inv.attachments@[i].attachment matches Some(a) && !extension_mime_codes().contains(a@.1),
    )
}

/// `BR-DEX-01` — under the XRechnung Extension, an attached document's mime
/// code (BT-125) must be one of [`extension_mime_codes`]. One BG-24[i]/BT-125
/// per failing document.
pub fn br_dex_01(inv: &Invoice) -> (r: Vec<Path>)
    ensures
        r@ == attachment_paths(inv.attachments@.len(), foreign_mime_codes(*inv), 125),
{
    let codes = extension_mime_code_list();
    let n = inv.attachments.len();
    let mut out: Vec<Path> = Vec::new();
    let mut i: usize = 0;
    while i < n
        invariant
            n == inv.attachments@.len(),
            code_texts(codes@) == extension_mime_codes(),
            i <= n,
            out@ == attachment_paths(i as nat, foreign_mime_codes(*inv), 125),
        decreases n - i,
    {
        let bad = match &inv.attachments[i].attachment {
            Some(a) => !listed(&codes, a.mime_code()),
            None => false,
        };
        assert(foreign_mime_codes(*inv)[i as int] == bad);
        if bad {
            out.push(Path::at_term(Group::Attachment, i, BtId(125)));
        }
        i = i + 1;
    }
    out
}


// ── The Clean Vehicles Directive variant ──────────────────────────────────────

/// BR-DE-CVD-04: the vehicle categories of Directive 2007/46/EC Annex II.
pub open spec fn vehicle_categories() -> Seq<Seq<char>> {
    seq!["M1"@, "M2"@, "M3"@, "N1"@, "N2"@, "N3"@]
}

/// BR-DE-CVD-05: the values the `cva` item attribute admits.
pub open spec fn cva_values() -> Seq<Seq<char>> {
    seq!["clean"@, "other"@, "zero-emission"@]
}

/// [`vehicle_categories`], in order.
pub fn vehicle_category_list() -> (v: Vec<&'static str>)
    ensures
        code_texts(v@) == vehicle_categories(),
{
    let v = vec!["M1", "M2", "M3", "N1", "N2", "N3"];
    assert(code_texts(v@) =~= vehicle_categories());
    v
}

/// [`cva_values`], in order.
pub fn cva_value_list() -> (v: Vec<&'static str>)
    ensures
        code_texts(v@) == cva_values(),
{
    let v = vec!["clean", "other", "zero-emission"];
    assert(code_texts(v@) =~= cva_values());
    v
}

/// How many of `ids` carry the `CVD` classification scheme.
pub open spec fn cvd_count(ids: Seq<Identifier>) -> nat
    decreases ids.len(),
{
    if ids.len() == 0 {
        0
    } else {
        cvd_count(ids.drop_last()) + if ids.last()@.1 == Some("CVD"@) { 1nat } else { 0nat }
    }
}

/// How many of `ids` carry the `CVD` scheme with a value outside the vehicle
/// categories.
pub open spec fn bad_vehicle_count(ids: Seq<Identifier>) -> nat
    decreases ids.len(),
{
    if ids.len() == 0 {
        0
    } else {
        bad_vehicle_count(ids.drop_last()) + if ids.last()@.1 == Some("CVD"@)
            && !vehicle_categories().contains(ids.last()@.0) {
            1nat
        } else {
            0nat
        }
    }
}

/// How many of `attrs` are named `cva`.
pub open spec fn cva_count(attrs: Seq<ItemAttribute>) -> nat
    decreases attrs.len(),
{
    if attrs.len() == 0 {
        0
    } else {
        cva_count(attrs.drop_last()) + if opt_view(attrs.last().name) == Some("cva"@) {
            1nat
        } else {
            0nat
        }
    }
}

/// How many of `attrs` are named `cva` without one of the admitted values.
pub open spec fn bad_cva_count(attrs: Seq<ItemAttribute>) -> nat
    decreases attrs.len(),
{
    if attrs.len() == 0 {
        0
    } else {
        bad_cva_count(attrs.drop_last()) + if opt_view(attrs.last().name) == Some("cva"@) && !(
        opt_view(attrs.last().value) matches Some(v) && cva_values().contains(v)) {
            1nat
        } else {
            0nat
        }
    }
}

/// Whether an optional text is exactly `lit`.
fn text_is(s: &Option<String>, lit: &str) -> (b: bool)
    ensures
        b == (opt_view(*s) == Some(lit@)),
{
    match s {
        Some(t) => str_eq(t.as_str(), lit),
        None => false,
    }
}

/// Whether an identifier's scheme is exactly `CVD`.
fn scheme_is_cvd(id: &Identifier) -> (b: bool)
    ensures
        b == (id@.1 == Some("CVD"@)),
{
    match id.scheme() {
        Some(s) => str_eq(s, "CVD"),
        None => false,
    }
}

/// `(classifications with scheme CVD, of them outside the vehicle
/// categories)` on one item.
fn count_cvd(item: &Item) -> (r: (usize, usize))
    ensures
        r.0 == cvd_count(item.classification_identifiers@),
        r.1 == bad_vehicle_count(item.classification_identifiers@),
{
    let ids = &item.classification_identifiers;
    let cats = vehicle_category_list();
    let mut all: usize = 0;
    let mut bad: usize = 0;
    let mut i: usize = 0;
    while i < ids.len()
        invariant
            code_texts(cats@) == vehicle_categories(),
            i <= ids@.len(),
            bad <= all <= i,
            all == cvd_count(ids@.subrange(0, i as int)),
            bad == bad_vehicle_count(ids@.subrange(0, i as int)),
        decreases ids.len() - i,
    {
        assert(ids@.subrange(0, i + 1).drop_last() == ids@.subrange(0, i as int));
        if scheme_is_cvd(&ids[i]) {
            all = all + 1;
            if !listed(&cats, ids[i].content()) {
                bad = bad + 1;
            }
        }
        i = i + 1;
    }
    assert(ids@.subrange(0, ids@.len() as int) == ids@);
    (all, bad)
}

/// `(attributes named cva, of them without an admitted value)` on one item.
fn count_cva(item: &Item) -> (r: (usize, usize))
    ensures
        r.0 == cva_count(item.attributes@),
        r.1 == bad_cva_count(item.attributes@),
{
    let attrs = &item.attributes;
    let values = cva_value_list();
    let mut all: usize = 0;
    let mut bad: usize = 0;
    let mut i: usize = 0;
    while i < attrs.len()
        invariant
            code_texts(values@) == cva_values(),
            i <= attrs@.len(),
            bad <= all <= i,
            all == cva_count(attrs@.subrange(0, i as int)),
            bad == bad_cva_count(attrs@.subrange(0, i as int)),
        decreases attrs.len() - i,
    {
        assert(attrs@.subrange(0, i + 1).drop_last() == attrs@.subrange(0, i as int));
        if text_is(&attrs[i].name, "cva") {
            all = all + 1;
            let ok = match &attrs[i].value {
                Some(v) => listed(&values, v.as_str()),
                None => false,
            };
            if !ok {
                bad = bad + 1;
            }
        }
        i = i + 1;
    }
    assert(attrs@.subrange(0, attrs@.len() as int) == attrs@);
    (all, bad)
}

/// The path `BG-25[i]/BT-term`.
pub open spec fn line_path(i: int, term: u16) -> Path {
    Path { group: Group::Line, index: Some(i as usize), term: Some(BtId(term)) }
}

/// Over the first `n` lines, `counts[i]` copies of line `i`'s path, in order.
pub open spec fn line_paths(n: nat, counts: Seq<nat>, term: u16) -> Seq<Path>
    decreases n,
{
    if n == 0 {
        Seq::empty()
    } else {
        line_paths((n - 1) as nat, counts, term) + Seq::new(
            counts[n - 1],
            |k: int| line_path(n - 1, term),
        )
    }
}

/// A reference that is absent or blank.
pub open spec fn no_reference(r: Option<crate::identifier::DocumentReference>) -> bool {
    !(r matches Some(d) && !crate::text::blank(d@))
}

/// What [`br_de_cvd_01`] returns.
pub open spec fn br_de_cvd_01_result(inv: Invoice) -> Option<Path> {
    if no_reference(inv.contract_reference) {
        Some(Path { group: Group::Document, index: None, term: Some(BtId(12)) })
    } else {
        None
    }
}

/// `BR-DE-CVD-01` — the contract reference (BT-12) must be transmitted.
pub fn br_de_cvd_01(inv: &Invoice) -> (r: Option<Path>)
    ensures
        r == br_de_cvd_01_result(*inv),
{
    let missing = match &inv.contract_reference {
        Some(d) => d.is_blank(),
        None => true,
    };
    if missing {
        Some(Path::term(BtId(12)))
    } else {
        None
    }
}

/// What [`br_de_cvd_02`] returns.
pub open spec fn br_de_cvd_02_result(inv: Invoice) -> Option<Path> {
    if no_reference(inv.tender_reference) {
        Some(Path { group: Group::Document, index: None, term: Some(BtId(17)) })
    } else {
        None
    }
}

/// `BR-DE-CVD-02` — the tender or lot reference (BT-17) must be transmitted.
pub fn br_de_cvd_02(inv: &Invoice) -> (r: Option<Path>)
    ensures
        r == br_de_cvd_02_result(*inv),
{
    let missing = match &inv.tender_reference {
        Some(d) => d.is_blank(),
        None => true,
    };
    if missing {
        Some(Path::term(BtId(17)))
    } else {
        None
    }
}

/// Whether line `i` is a vehicle line: a `CVD` classification and a `cva`
/// attribute.
pub open spec fn vehicle_line(inv: Invoice, i: int) -> bool {
    cvd_count(inv.lines@[i].item.classification_identifiers@) > 0 && cva_count(
        inv.lines@[i].item.attributes@,
    ) > 0
}

/// What [`br_de_cvd_03`] returns.
pub open spec fn br_de_cvd_03_result(inv: Invoice) -> Option<Path> {
    if !exists|i: int| 0 <= i < inv.lines@.len() && #[trigger] vehicle_line(inv, i) {
        Some(Path { group: Group::Document, index: None, term: Some(BtId(158)) })
    } else {
        None
    }
}

/// `BR-DE-CVD-03` — at least one invoice line must carry a `CVD`
/// classification (BT-158) and a `cva` attribute (BT-160). `Some(BT-158)`
/// when none does.
pub fn br_de_cvd_03(inv: &Invoice) -> (r: Option<Path>)
    ensures
        r == br_de_cvd_03_result(*inv),
{
    let mut i: usize = 0;
    while i < inv.lines.len()
        invariant
            i <= inv.lines@.len(),
            forall|k: int| 0 <= k < i ==> !#[trigger] vehicle_line(*inv, k),
        decreases inv.lines.len() - i,
    {
        let (cvd, _) = count_cvd(&inv.lines[i].item);
        let (cva, _) = count_cva(&inv.lines[i].item);
        if cvd > 0 && cva > 0 {
            assert(vehicle_line(*inv, i as int));
            return None;
        }
        i = i + 1;
    }
    Some(Path::term(BtId(158)))
}

/// Per line, the classifications `BR-DE-CVD-04` refuses.
pub open spec fn bad_vehicle_counts(inv: Invoice) -> Seq<nat> {
    Seq::new(
        inv.lines@.len(),
        |i: int| bad_vehicle_count(inv.lines@[i].item.classification_identifiers@),
    )
}

/// Per line, the attributes `BR-DE-CVD-05` refuses.
pub open spec fn bad_cva_counts(inv: Invoice) -> Seq<nat> {
    Seq::new(inv.lines@.len(), |i: int| bad_cva_count(inv.lines@[i].item.attributes@))
}

/// Per line, 1 where `BR-DE-CVD-06-a` fails: a `CVD` classification without
/// exactly one `cva` attribute.
pub open spec fn cvd_06_a_counts(inv: Invoice) -> Seq<nat> {
    Seq::new(
        inv.lines@.len(),
        |i: int| if cvd_count(inv.lines@[i].item.classification_identifiers@) > 0 && cva_count(
            inv.lines@[i].item.attributes@,
        ) != 1 {
            1nat
        } else {
            0nat
        },
    )
}

/// Per line, 1 where `BR-DE-CVD-06-b` fails: a `cva` attribute without
/// exactly one `CVD` classification.
pub open spec fn cvd_06_b_counts(inv: Invoice) -> Seq<nat> {
    Seq::new(
        inv.lines@.len(),
        |i: int| if cva_count(inv.lines@[i].item.attributes@) > 0 && cvd_count(
            inv.lines@[i].item.classification_identifiers@,
        ) != 1 {
            1nat
        } else {
            0nat
        },
    )
}

/// Append `count` copies of `BG-25[i]/BT-term`.
fn push_line_paths(out: &mut Vec<Path>, i: usize, term: u16, count: usize)
    ensures
        final(out)@ == old(out)@ + Seq::new(count as nat, |k: int| line_path(i as int, term)),
{
    let ghost start = old(out)@;
    let mut k: usize = 0;
    while k < count
        invariant
            k <= count,
            out@ == start + Seq::new(k as nat, |j: int| line_path(i as int, term)),
        decreases count - k,
    {
        out.push(Path::at_term(Group::Line, i, BtId(term)));
        k = k + 1;
        assert(out@ =~= start + Seq::new(k as nat, |j: int| line_path(i as int, term)));
    }
}

/// The CVD rules that report per line: `which` 4 (`BR-DE-CVD-04`), 5
/// (`BR-DE-CVD-05`), 6 (`BR-DE-CVD-06-a`), otherwise `BR-DE-CVD-06-b`.
fn cvd_line_rule(inv: &Invoice, which: u8) -> (r: Vec<Path>)
    ensures
        which == 4 ==> r@ == line_paths(inv.lines@.len(), bad_vehicle_counts(*inv), 158),
        which == 5 ==> r@ == line_paths(inv.lines@.len(), bad_cva_counts(*inv), 161),
        which == 6 ==> r@ == line_paths(inv.lines@.len(), cvd_06_a_counts(*inv), 160),
        which == 7 ==> r@ == line_paths(inv.lines@.len(), cvd_06_b_counts(*inv), 158),
{
    let ghost counts = if which == 4 {
        bad_vehicle_counts(*inv)
    } else if which == 5 {
        bad_cva_counts(*inv)
    } else if which == 6 {
        cvd_06_a_counts(*inv)
    } else {
        cvd_06_b_counts(*inv)
    };
    let term: u16 = if which == 4 || which == 7 {
        158
    } else if which == 5 {
        161
    } else {
        160
    };
    let n = inv.lines.len();
    let mut out: Vec<Path> = Vec::new();
    let mut i: usize = 0;
    while i < n
        invariant
            n == inv.lines@.len(),
            counts.len() == n,
            counts == (if which == 4 {
                bad_vehicle_counts(*inv)
            } else if which == 5 {
                bad_cva_counts(*inv)
            } else if which == 6 {
                cvd_06_a_counts(*inv)
            } else {
                cvd_06_b_counts(*inv)
            }),
            i <= n,
            out@ == line_paths(i as nat, counts, term),
        decreases n - i,
    {
        let (cvd, bad_vehicle) = count_cvd(&inv.lines[i].item);
        let (cva, bad_cva) = count_cva(&inv.lines[i].item);
        let count: usize = if which == 4 {
            bad_vehicle
        } else if which == 5 {
            bad_cva
        } else if which == 6 {
            if cvd > 0 && cva != 1 { 1 } else { 0 }
        } else {
            if cva > 0 && cvd != 1 { 1 } else { 0 }
        };
        assert(counts[i as int] == count);
        push_line_paths(&mut out, i, term, count);
        i = i + 1;
    }
    out
}

/// `BR-DE-CVD-04` — a `CVD` classification (BT-158) must hold one of the
/// vehicle categories. One BG-25[i]/BT-158 per refused classification.
pub fn br_de_cvd_04(inv: &Invoice) -> (r: Vec<Path>)
    ensures
        r@ == line_paths(inv.lines@.len(), bad_vehicle_counts(*inv), 158),
{
    cvd_line_rule(inv, 4)
}

/// `BR-DE-CVD-05` — a `cva` attribute must have the value `clean`,
/// `zero-emission` or `other` (BT-161). One BG-25[i]/BT-161 per refused
/// attribute.
pub fn br_de_cvd_05(inv: &Invoice) -> (r: Vec<Path>)
    ensures
        r@ == line_paths(inv.lines@.len(), bad_cva_counts(*inv), 161),
{
    cvd_line_rule(inv, 5)
}

/// `BR-DE-CVD-06-a` — a line with a `CVD` classification carries exactly one
/// `cva` attribute. BG-25[i]/BT-160 per failing line.
pub fn br_de_cvd_06_a(inv: &Invoice) -> (r: Vec<Path>)
    ensures
        r@ == line_paths(inv.lines@.len(), cvd_06_a_counts(*inv), 160),
{
    cvd_line_rule(inv, 6)
}

/// `BR-DE-CVD-06-b` — a line with a `cva` attribute carries exactly one `CVD`
/// classification. BG-25[i]/BT-158 per failing line.
pub fn br_de_cvd_06_b(inv: &Invoice) -> (r: Vec<Path>)
    ensures
        r@ == line_paths(inv.lines@.len(), cvd_06_b_counts(*inv), 158),
{
    cvd_line_rule(inv, 7)
}


/// **BR-DE-24-a asks for a card group exactly when BT-81 names a card**: it
/// fails when and only when BT-81 is `48`, `54` or `55` and the payment means
/// group present is not BG-18 PAYMENT CARD INFORMATION; a card code with a
/// card group never yields a finding, and the finding stands at BG-16 / BT-81.
pub proof fn law_br_de_24_a_wants_a_card_group_for_a_card_code(inv: Invoice)
    ensures
        br_de_24_a_result(inv) is Some <==> (inv.payment matches Some(p) && p.means_code matches Some(
            c,
        ) && (c@ == seq!['4', '8'] || c@ == seq!['5', '4'] || c@ == seq!['5', '5'])
            && !(p.means matches Some(PaymentMeans::Card(_)))),
        br_de_24_a_result(inv) is Some ==> br_de_24_a_result(inv) == Some(
            Path { group: Group::Payment, index: None, term: Some(BtId(81)) },
        ),
{
    reveal_strlit("48");
    reveal_strlit("54");
    reveal_strlit("55");
    assert("48"@ =~= seq!['4', '8']);
    assert("54"@ =~= seq!['5', '4']);
    assert("55"@ =~= seq!['5', '5']);
    if let Some(c) = means_code_of(inv) {
        if card_codes().contains(c) {
            let k = choose|k: int| 0 <= k < card_codes().len() && card_codes()[k] == c;
            assert(k == 0 || k == 1 || k == 2);
        }
        if c == seq!['4', '8'] {
            assert(card_codes()[0] == c);
        }
        if c == seq!['5', '4'] {
            assert(card_codes()[1] == c);
        }
        if c == seq!['5', '5'] {
            assert(card_codes()[2] == c);
        }
    }
}


/// **BR-DE-23-a asks for a credit transfer group exactly when BT-81 names a
/// credit transfer**: it fails when and only when BT-81 is `30` or `58` and
/// the payment means group present is not BG-17 CREDIT TRANSFER.
pub proof fn law_br_de_23_a_wants_a_transfer_group_for_a_transfer_code(inv: Invoice)
    ensures
        br_de_23_a_result(inv) is Some <==> (inv.payment matches Some(p) && p.means_code matches Some(
            c,
        ) && (c@ == seq!['3', '0'] || c@ == seq!['5', '8']) && !(p.means matches Some(
            PaymentMeans::CreditTransfer(_),
        ))),
        br_de_23_a_result(inv) is Some ==> br_de_23_a_result(inv) == Some(
            Path { group: Group::Payment, index: None, term: Some(BtId(81)) },
        ),
{
    reveal_strlit("30");
    reveal_strlit("58");
    assert("30"@ =~= seq!['3', '0']);
    assert("58"@ =~= seq!['5', '8']);
    if let Some(c) = means_code_of(inv) {
        if credit_transfer_codes().contains(c) {
            let k = choose|k: int|
                0 <= k < credit_transfer_codes().len() && credit_transfer_codes()[k] == c;
            assert(k == 0 || k == 1);
        }
        if c == seq!['3', '0'] {
            assert(credit_transfer_codes()[0] == c);
        }
        if c == seq!['5', '8'] {
            assert(credit_transfer_codes()[1] == c);
        }
    }
}

/// **BR-DE-25-a asks for a direct debit group exactly when BT-81 names a
/// direct debit**: it fails when and only when BT-81 is `59` and the payment
/// means group present is not BG-19 DIRECT DEBIT.
pub proof fn law_br_de_25_a_wants_a_debit_group_for_a_debit_code(inv: Invoice)
    ensures
        br_de_25_a_result(inv) is Some <==> (inv.payment matches Some(p) && p.means_code matches Some(
            c,
        ) && c@ == seq!['5', '9'] && !(p.means matches Some(PaymentMeans::DirectDebit(_)))),
        br_de_25_a_result(inv) is Some ==> br_de_25_a_result(inv) == Some(
            Path { group: Group::Payment, index: None, term: Some(BtId(81)) },
        ),
{
    reveal_strlit("59");
    assert("59"@ =~= seq!['5', '9']);
    if let Some(c) = means_code_of(inv) {
        if direct_debit_codes().contains(c) {
            let k = choose|k: int| 0 <= k < direct_debit_codes().len() && direct_debit_codes()[k] == c;
            assert(k == 0);
        }
        if c == seq!['5', '9'] {
            assert(direct_debit_codes()[0] == c);
        }
    }
}

} // verus!

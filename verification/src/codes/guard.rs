//! Checking a code **at the point it is written**, not at validation time.
//!
//! A field mapper writing `9958` is looking at their own column at that
//! instant; the finding that reports it arrives later, about an assembled
//! invoice. So: the same lists, guarded, returning a [`CodeError`] that says
//! what to do — the successor of a withdrawn code, the whitespace that made a
//! value fail, or the case-folded spelling.

use vstd::prelude::*;

use crate::amount::{all_digits, digit_value, is_digit};
use crate::codes::{
    contains, lists_text, sorted_texts, texts, vat_category_codes, vat_category_values,
    vat_point_date_codes, vat_point_date_values,
};
use crate::invoice::Code;
use crate::text::{
    chars_of, debug_quoted, debug_text, decimal_digits, digit_char, push_decimal, push_str,
    str_eq, string_of, trim_seq, trimmed, chars_eq,
};

verus! {

// ── Withdrawn codes ───────────────────────────────────────────────────────────

/// A code that **used to be valid** and has since been withdrawn.
#[derive(Debug, Clone, Copy)]
pub struct Withdrawn {
    /// The code that no longer belongs to the list.
    pub code: &'static str,
    /// What it used to mean.
    pub was: &'static str,
    /// The code to use instead, when the authority names one.
    pub use_instead: Option<&'static str>,
    /// The extra sentence worth saying, if any.
    pub note: Option<&'static str>,
}

/// The EAS schemes withdrawn since CEN artefact `validation-1.2.0`, from the
/// OpenPeppol eDEC code-list change log.
pub open spec fn withdrawn_entries() -> Seq<Withdrawn> {
    seq![
        Withdrawn { code: "9901", was: "DK:CPR — Danish Ministry of the Interior and Health", use_instead: Some("0096"), note: None },
        Withdrawn { code: "9902", was: "DK:CVR — the Danish Commerce and Companies Agency", use_instead: Some("0184"), note: None },
        Withdrawn { code: "9904", was: "DK:SE — Danish Ministry of Taxation", use_instead: Some("0198"), note: None },
        Withdrawn { code: "9905", was: "DK:VANS — Danish VANS providers", use_instead: None, note: Some("withdrawn on 2023-11-30 with no successor; use the party's own registry scheme") },
        Withdrawn { code: "9906", was: "IT:VAT — Italian VAT number", use_instead: Some("0211"), note: None },
        Withdrawn { code: "9907", was: "IT:CF — Italian codice fiscale", use_instead: Some("0210"), note: None },
        Withdrawn { code: "9917", was: "IS:KT — Icelandic kennitala", use_instead: Some("0196"), note: None },
        Withdrawn { code: "9921", was: "IT:IPA — Indice delle Pubbliche Amministrazioni", use_instead: Some("0201"), note: None },
        Withdrawn { code: "9954", was: "NL:OINO — Dutch Overheidsidentificatienummer", use_instead: Some("0190"), note: None },
        Withdrawn { code: "9955", was: "SE:VAT — Swedish VAT number", use_instead: Some("0007"), note: None },
        Withdrawn { code: "9956", was: "BE:CBE — Belgian Crossroads Bank for Enterprises", use_instead: Some("0208"), note: None },
        Withdrawn { code: "9958", was: "DE:LID — the Peppol Leitweg-ID scheme", use_instead: Some("0204"), note: Some("the Leitweg-ID itself belongs in BT-10 (buyer reference) under XRechnung's BR-DE-15; 0204 is the scheme for addressing that authority as a Peppol participant") },
    ]
}

/// The withdrawn EAS schemes, in code order.
pub fn withdrawn_table() -> (v: Vec<Withdrawn>)
    ensures
        v@ == withdrawn_entries(),
{
    vec![
        Withdrawn { code: "9901", was: "DK:CPR — Danish Ministry of the Interior and Health", use_instead: Some("0096"), note: None },
        Withdrawn { code: "9902", was: "DK:CVR — the Danish Commerce and Companies Agency", use_instead: Some("0184"), note: None },
        Withdrawn { code: "9904", was: "DK:SE — Danish Ministry of Taxation", use_instead: Some("0198"), note: None },
        Withdrawn { code: "9905", was: "DK:VANS — Danish VANS providers", use_instead: None, note: Some("withdrawn on 2023-11-30 with no successor; use the party's own registry scheme") },
        Withdrawn { code: "9906", was: "IT:VAT — Italian VAT number", use_instead: Some("0211"), note: None },
        Withdrawn { code: "9907", was: "IT:CF — Italian codice fiscale", use_instead: Some("0210"), note: None },
        Withdrawn { code: "9917", was: "IS:KT — Icelandic kennitala", use_instead: Some("0196"), note: None },
        Withdrawn { code: "9921", was: "IT:IPA — Indice delle Pubbliche Amministrazioni", use_instead: Some("0201"), note: None },
        Withdrawn { code: "9954", was: "NL:OINO — Dutch Overheidsidentificatienummer", use_instead: Some("0190"), note: None },
        Withdrawn { code: "9955", was: "SE:VAT — Swedish VAT number", use_instead: Some("0007"), note: None },
        Withdrawn { code: "9956", was: "BE:CBE — Belgian Crossroads Bank for Enterprises", use_instead: Some("0208"), note: None },
        Withdrawn { code: "9958", was: "DE:LID — the Peppol Leitweg-ID scheme", use_instead: Some("0204"), note: Some("the Leitweg-ID itself belongs in BT-10 (buyer reference) under XRechnung's BR-DE-15; 0204 is the scheme for addressing that authority as a Peppol participant") },
    ]
}

/// The first entry of `t` whose code is `code`.
pub open spec fn find_withdrawn(t: Seq<Withdrawn>, code: Seq<char>) -> Option<Withdrawn>
    decreases t.len(),
{
    if t.len() == 0 {
        None
    } else if t[0].code@ == code {
        Some(t[0])
    } else {
        find_withdrawn(t.drop_first(), code)
    }
}

/// The withdrawal record for `code`, if there is one.
pub fn withdrawn(code: &str) -> (r: Option<Withdrawn>)
    ensures
        r == find_withdrawn(withdrawn_entries(), code@),
{
    let t = withdrawn_table();
    let mut i: usize = 0;
    assert(t@.subrange(0, t@.len() as int) =~= t@);
    while i < t.len()
        invariant
            i <= t@.len(),
            t@ == withdrawn_entries(),
            find_withdrawn(t@.subrange(i as int, t@.len() as int), code@) == find_withdrawn(
                withdrawn_entries(),
                code@,
            ),
        decreases t.len() - i,
    {
        let ghost rest = t@.subrange(i as int, t@.len() as int);
        assert(rest.drop_first() =~= t@.subrange(i + 1, t@.len() as int));
        if str_eq(t[i].code, code) {
            return Some(t[i]);
        }
        i = i + 1;
    }
    None
}

// ── The error ─────────────────────────────────────────────────────────────────

/// A value that is not in the code list its business term draws from.
///
/// Carries the rule that *would* have reported it, so the message and a later
/// finding name the same thing.
#[derive(Debug, Clone, PartialEq, Eq)]
pub struct CodeError {
    /// The business terms the list serves — `"BT-34 / BT-49"`.
    pub terms: &'static str,
    /// What the list is — `"the CEF EAS code list"`.
    pub list: &'static str,
    /// The rule that reports this at validation time — `"BR-CL-25"`.
    pub rule: &'static str,
    /// The offered value.
    pub value: String,
    /// What to do instead, when this crate can tell. See [`CodeList::advice`].
    pub hint: Option<String>,
}

/// The text of an optional string.
pub open spec fn opt_text(h: Option<String>) -> Option<Seq<char>> {
    match h {
        Some(s) => Some(s@),
        None => None,
    }
}

/// The sentence a [`CodeError`] reads as.
pub open spec fn code_error_text(e: CodeError) -> Seq<char> {
    debug_text(e.value@) + " is not in "@ + e.list@ + " ("@ + e.terms@ + ", "@ + e.rule@ + ")"@
        + match e.hint {
        Some(h) => " — "@ + h@,
        None => Seq::empty(),
    }
}

impl CodeError {
    /// `"9958" is not in the CEF EAS code list (BT-34 / BT-49, BR-CL-25) — hint`.
    pub fn to_string(&self) -> (r: String)
        ensures
            r@ == code_error_text(*self),
    {
        let mut out: Vec<char> = Vec::new();
        let q = debug_quoted(self.value.as_str());
        push_str(&mut out, q.as_str());
        push_str(&mut out, " is not in ");
        push_str(&mut out, self.list);
        push_str(&mut out, " (");
        push_str(&mut out, self.terms);
        push_str(&mut out, ", ");
        push_str(&mut out, self.rule);
        push_str(&mut out, ")");
        match &self.hint {
            Some(h) => {
                push_str(&mut out, " — ");
                push_str(&mut out, h.as_str());
            },
            None => {},
        }
        let r = string_of(&out);
        assert(r@ =~= code_error_text(*self));
        r
    }
}

// ── Case folding, as `eq_ignore_ascii_case` does it ───────────────────────────

/// The code point of `c` with ASCII upper case folded to lower case.
pub open spec fn ascii_folded(c: char) -> u32 {
    if 0x41 <= (c as u32) <= 0x5A {
        (c as u32 + 32) as u32
    } else {
        c as u32
    }
}

/// `a.eq_ignore_ascii_case(b)`.
pub open spec fn eq_ignore_ascii_case(a: Seq<char>, b: Seq<char>) -> bool {
    a.len() == b.len() && forall|i: int| 0 <= i < a.len() ==> ascii_folded(#[trigger] a[i])
        == ascii_folded(b[i])
}

fn fold_char(c: char) -> (r: u32)
    ensures
        r == ascii_folded(c),
{
    let u = c as u32;
    if 0x41 <= u && u <= 0x5A {
        u + 32
    } else {
        u
    }
}

pub(crate) fn same_ignoring_ascii_case(a: &Vec<char>, b: &Vec<char>) -> (r: bool)
    ensures
        r == eq_ignore_ascii_case(a@, b@),
{
    if a.len() != b.len() {
        return false;
    }
    let mut i: usize = 0;
    while i < a.len()
        invariant
            i <= a@.len() == b@.len(),
            forall|k: int| 0 <= k < i ==> ascii_folded(#[trigger] a@[k]) == ascii_folded(b@[k]),
        decreases a.len() - i,
    {
        if fold_char(a[i]) != fold_char(b[i]) {
            return false;
        }
        i = i + 1;
    }
    true
}

/// The first value of `list` equal to `t` ignoring ASCII case.
pub open spec fn find_case_fold(list: Seq<&'static str>, t: Seq<char>) -> Option<Seq<char>>
    decreases list.len(),
{
    if list.len() == 0 {
        None
    } else if eq_ignore_ascii_case(list[0]@, t) {
        Some(list[0]@)
    } else {
        find_case_fold(list.drop_first(), t)
    }
}

// ── The lists, as guarded values ──────────────────────────────────────────────

/// One code list, together with what it is for.
///
/// Public so a caller can guard a list this module has no named function for.
#[derive(Debug, Clone)]
pub struct CodeList {
    /// The business terms it serves.
    pub terms: &'static str,
    /// A human name for it.
    pub name: &'static str,
    /// The rule that checks it.
    pub rule: &'static str,
    /// The values, sorted.
    pub values: Vec<&'static str>,
    /// Whether the withdrawal table describes this list. Only the EAS list does.
    pub tracks_withdrawals: bool,
}

/// The advice after a withdrawn code: what it was, and what replaces it.
pub open spec fn withdrawn_advice(value: Seq<char>, w: Withdrawn) -> Seq<char> {
    value + " was "@ + w.was@ + ", and has been withdrawn"@ + match w.use_instead {
        Some(r) => "; use "@ + r@ + " instead"@,
        None => Seq::empty(),
    } + match w.note {
        Some(n) => " ("@ + n@ + ")"@,
        None => Seq::empty(),
    }
}

/// The advice for a value that is valid once trimmed.
pub open spec fn whitespace_advice(t: Seq<char>) -> Seq<char> {
    debug_text(t)
        + " is valid — this value has surrounding whitespace, and EN 16931-1 §6.5.8 requires codes \"entered exactly as shown\""@
}

/// The advice for a value that differs from a listed one only in case.
pub open spec fn case_advice(c: Seq<char>) -> Seq<char> {
    "did you mean "@ + debug_text(c) + "? Code lists are case-sensitive"@
}

/// The most useful sentence about `value` against the sorted `values`, or none.
pub open spec fn list_advice(
    values: Seq<&'static str>,
    tracks_withdrawals: bool,
    value: Seq<char>,
) -> Option<Seq<char>> {
    let t = trim_seq(value);
    if lists_text(values, value) {
        None
    } else if tracks_withdrawals && find_withdrawn(withdrawn_entries(), value) is Some {
        Some(withdrawn_advice(value, find_withdrawn(withdrawn_entries(), value)->0))
    } else if t != value && lists_text(values, t) {
        Some(whitespace_advice(t))
    } else {
        match find_case_fold(values, t) {
            Some(c) => Some(case_advice(c)),
            None => None,
        }
    }
}

/// What [`CodeList::check`] returns for `value` against `values`.
pub open spec fn check_outcome(
    values: Seq<&'static str>,
    tracks_withdrawals: bool,
    terms: &'static str,
    name: &'static str,
    rule: &'static str,
    value: Seq<char>,
    r: Result<Code, CodeError>,
) -> bool {
    &&& r is Ok <==> lists_text(values, value)
    &&& r matches Ok(c) ==> c@ == value
    &&& r matches Err(e) ==> {
        &&& e.terms == terms
        &&& e.list == name
        &&& e.rule == rule
        &&& e.value@ == value
        &&& opt_text(e.hint) == list_advice(values, tracks_withdrawals, value)
    }
}

impl CodeList {
    /// The values are strictly ascending, so they can be binary-searched.
    pub open spec fn wf(&self) -> bool {
        sorted_texts(self.values@)
    }

    /// The most useful sentence about `value`, or none.
    pub open spec fn advice_for(&self, value: Seq<char>) -> Option<Seq<char>> {
        list_advice(self.values@, self.tracks_withdrawals, value)
    }

    /// Whether `value` is in the list — a binary search, as [`contains`].
    pub fn accepts(&self, value: &str) -> (b: bool)
        requires
            self.wf(),
        ensures
            b == lists_text(self.values@, value@),
    {
        contains(self.values.as_slice(), value)
    }

    /// Check `value`, returning it as a [`Code`] or saying what is wrong.
    pub fn check(&self, value: &str) -> (r: Result<Code, CodeError>)
        requires
            self.wf(),
        ensures
            check_outcome(
                self.values@,
                self.tracks_withdrawals,
                self.terms,
                self.name,
                self.rule,
                value@,
                r,
            ),
    {
        if self.accepts(value) {
            return Ok(Code::new(value));
        }
        Err(CodeError {
            terms: self.terms,
            list: self.name,
            rule: self.rule,
            value: string_of(&chars_of(value)),
            hint: self.advice(value),
        })
    }

    /// The most useful sentence this crate can produce about a rejected value.
    ///
    /// Three sources, in order of confidence: a **withdrawn** code and its
    /// successor; **whitespace** around an otherwise valid code; and **case**,
    /// `"kwh"` for `KWH`. `None` when none applies — deliberately no edit
    /// distance: `"KWQ"` is one character from both `KWH` and `KWT`.
    pub fn advice(&self, value: &str) -> (r: Option<String>)
        requires
            self.wf(),
        ensures
            opt_text(r) == self.advice_for(value@),
    {
        if self.accepts(value) {
            return None;
        }
        if self.tracks_withdrawals {
            match withdrawn(value) {
                Some(w) => {
                    let mut out: Vec<char> = Vec::new();
                    push_str(&mut out, value);
                    push_str(&mut out, " was ");
                    push_str(&mut out, w.was);
                    push_str(&mut out, ", and has been withdrawn");
                    match w.use_instead {
                        Some(r) => {
                            push_str(&mut out, "; use ");
                            push_str(&mut out, r);
                            push_str(&mut out, " instead");
                        },
                        None => {},
                    }
                    match w.note {
                        Some(n) => {
                            push_str(&mut out, " (");
                            push_str(&mut out, n);
                            push_str(&mut out, ")");
                        },
                        None => {},
                    }
                    let s = string_of(&out);
                    assert(s@ =~= withdrawn_advice(value@, w));
                    return Some(s);
                },
                None => {},
            }
        }
        let v = chars_of(value);
        let t = trimmed(value);
        let ts = string_of(&t);
        if !chars_eq(&t, &v) && self.accepts(ts.as_str()) {
            let q = debug_quoted(ts.as_str());
            let mut out: Vec<char> = Vec::new();
            push_str(&mut out, q.as_str());
            push_str(
                &mut out,
                " is valid — this value has surrounding whitespace, and EN 16931-1 §6.5.8 requires codes \"entered exactly as shown\"",
            );
            let s = string_of(&out);
            assert(s@ =~= whitespace_advice(trim_seq(value@)));
            return Some(s);
        }
        let mut i: usize = 0;
        assert(self.values@.subrange(0, self.values@.len() as int) =~= self.values@);
        while i < self.values.len()
            invariant
                i <= self.values@.len(),
                t@ == trim_seq(value@),
                !lists_text(self.values@, value@),
                !(self.tracks_withdrawals && find_withdrawn(withdrawn_entries(), value@) is Some),
                !(trim_seq(value@) != value@ && lists_text(self.values@, trim_seq(value@))),
                find_case_fold(self.values@.subrange(i as int, self.values@.len() as int), t@)
                    == find_case_fold(self.values@, t@),
            decreases self.values.len() - i,
        {
            let ghost rest = self.values@.subrange(i as int, self.values@.len() as int);
            assert(rest.drop_first() =~= self.values@.subrange(i + 1, self.values@.len() as int));
            let c = self.values[i];
            if same_ignoring_ascii_case(&chars_of(c), &t) {
                let q = debug_quoted(c);
                let mut out: Vec<char> = Vec::new();
                push_str(&mut out, "did you mean ");
                push_str(&mut out, q.as_str());
                push_str(&mut out, "? Code lists are case-sensitive");
                let s = string_of(&out);
                assert(s@ =~= case_advice(c@));
                return Some(s);
            }
            i = i + 1;
        }
        None
    }
}

/// BT-95 / BT-102 / BT-118 / BT-151 — UNCL 5305, checked by `BR-CL-17`.
///
/// Prefer [`crate::codes::VatCategory::from_code`], which returns the
/// semantics rather than a string.
pub fn vat_category_list() -> (l: CodeList)
    ensures
        l.wf(),
        l.values@ == vat_category_values(),
        l.terms == "BT-95 / BT-102 / BT-118 / BT-151",
        l.name == "UNCL 5305",
        l.rule == "BR-CL-17",
        !l.tracks_withdrawals,
{
    CodeList {
        terms: "BT-95 / BT-102 / BT-118 / BT-151",
        name: "UNCL 5305",
        rule: "BR-CL-17",
        values: vat_category_codes(),
        tracks_withdrawals: false,
    }
}

/// BT-8 — UNTDID 2005, the three EN 16931 values, checked by `BR-CL-05`.
pub fn vat_point_date_list() -> (l: CodeList)
    ensures
        l.wf(),
        l.values@ == vat_point_date_values(),
        l.terms == "BT-8",
        l.name == "UNTDID 2005, the three EN 16931 values",
        l.rule == "BR-CL-05",
        !l.tracks_withdrawals,
{
    CodeList {
        terms: "BT-8",
        name: "UNTDID 2005, the three EN 16931 values",
        rule: "BR-CL-05",
        values: vat_point_date_codes(),
        tracks_withdrawals: false,
    }
}

/// Check a VAT category code against UNCL 5305.
pub fn vat_category(value: &str) -> (r: Result<Code, CodeError>)
    ensures
        check_outcome(
            vat_category_values(),
            false,
            "BT-95 / BT-102 / BT-118 / BT-151",
            "UNCL 5305",
            "BR-CL-17",
            value@,
            r,
        ),
{
    vat_category_list().check(value)
}

/// Check a VAT point date code against the three values EN 16931 admits.
pub fn vat_point_date(value: &str) -> (r: Result<Code, CodeError>)
    ensures
        check_outcome(
            vat_point_date_values(),
            false,
            "BT-8",
            "UNTDID 2005, the three EN 16931 values",
            "BR-CL-05",
            value@,
            r,
        ),
{
    vat_point_date_list().check(value)
}

// ── Value shapes, for the schemes that have one ───────────────────────────────

/// The EAS schemes whose **value** this crate can check, not merely the code.
///
/// Deliberately one entry: GS1's GLN, whose format is fixed, published and
/// self-verifying.
pub open spec fn checked_eas_schemes() -> Seq<Seq<char>> {
    seq!["0088"@]
}

/// Whether [`eas_value`] can say anything about a value under `scheme`.
///
/// `eas_value` returning `Ok` means either "verified" or "not verifiable
/// here"; this is how a caller tells them apart.
pub fn eas_value_is_checkable(scheme: &str) -> (b: bool)
    ensures
        b == checked_eas_schemes().contains(scheme@),
{
    let r = str_eq(scheme, "0088");
    assert(checked_eas_schemes()[0] == "0088"@);
    r
}

/// The weighted sum of a GLN's first `n` digits: weights 1 and 3 alternating
/// from the left.
pub open spec fn gln_weighted_sum(s: Seq<char>, n: int) -> int
    decreases n,
{
    if n <= 0 {
        0
    } else {
        gln_weighted_sum(s, n - 1) + digit_value(s[n - 1]) * (if (n - 1) % 2 == 0 {
            1int
        } else {
            3int
        })
    }
}

/// The check digit the first twelve digits of a GLN require.
pub open spec fn gln_expected(s: Seq<char>) -> int {
    (10 - gln_weighted_sum(s, 12) % 10) % 10
}

/// What is wrong with `s` as a GS1 GLN, if anything.
pub open spec fn gln_problem_text(s: Seq<char>) -> Option<Seq<char>> {
    if !(s.len() == 13 && all_digits(s)) {
        Some(
            "a GS1 GLN (scheme 0088) is exactly 13 digits, and this is "@ + decimal_digits(s.len())
                + " character(s). Identifiers that are not GLNs — a BDEW Marktlokations-ID, a customer number — need their own EAS scheme, not 0088"@,
        )
    } else if digit_value(s[12]) != gln_expected(s) {
        Some(
            "the GS1 check digit is wrong: 13 digits, but "@ + s + " ends in "@ + seq![s[12]]
                + " where the first twelve require "@ + seq![digit_char(gln_expected(s))],
        )
    } else {
        None
    }
}

/// What is wrong with `value` as a GS1 GLN, if anything.
///
/// GLN is GS1's 13-digit key and shares GTIN-13's check digit: weights 1 and 3
/// alternating from the left over the first twelve digits, and the check digit
/// is whatever brings the total to a multiple of ten.
fn gln_problem(value: &str) -> (r: Option<String>)
    ensures
        opt_text(r) == gln_problem_text(value@),
{
    let v = chars_of(value);
    let mut shape_ok = v.len() == 13;
    let mut i: usize = 0;
    while i < v.len()
        invariant
            i <= v@.len(),
            v@ == value@,
            shape_ok == (v@.len() == 13 && forall|k: int| 0 <= k < i ==> is_digit(#[trigger] v@[k])),
        decreases v.len() - i,
    {
        if !('0' <= v[i] && v[i] <= '9') {
            shape_ok = false;
        }
        i = i + 1;
    }
    if !shape_ok {
        let mut out: Vec<char> = Vec::new();
        push_str(&mut out, "a GS1 GLN (scheme 0088) is exactly 13 digits, and this is ");
        push_decimal(&mut out, v.len() as u64);
        push_str(
            &mut out,
            " character(s). Identifiers that are not GLNs — a BDEW Marktlokations-ID, a customer number — need their own EAS scheme, not 0088",
        );
        let s = string_of(&out);
        assert(s@ =~= gln_problem_text(value@)->0);
        return Some(s);
    }
    let mut sum: u32 = 0;
    let mut k: usize = 0;
    while k < 12
        invariant
            k <= 12,
            v@ == value@,
            v@.len() == 13,
            all_digits(v@),
            sum == gln_weighted_sum(v@, k as int),
            sum <= 27 * k,
        decreases 12 - k,
    {
        assert(is_digit(v@[k as int]));
        let d = (v[k] as u32) - 48;
        let w: u32 = if k % 2 == 0 { 1 } else { 3 };
        sum = sum + d * w;
        k = k + 1;
    }
    let expected: u32 = (10 - sum % 10) % 10;
    assert(is_digit(v@[12]));
    let last = (v[12] as u32) - 48;
    if last != expected {
        let mut out: Vec<char> = Vec::new();
        push_str(&mut out, "the GS1 check digit is wrong: 13 digits, but ");
        push_str(&mut out, value);
        push_str(&mut out, " ends in ");
        out.push(v[12]);
        push_str(&mut out, " where the first twelve require ");
        push_decimal(&mut out, expected as u64);
        let s = string_of(&out);
        proof {
            reveal_with_fuel(decimal_digits, 2);
        }
        assert(s@ =~= gln_problem_text(value@)->0);
        return Some(s);
    }
    None
}

/// Check an electronic address **value** against its EAS scheme's own format.
///
/// Only GS1's GLN (`0088`) is checked: 13 digits with the GS1 mod-10 check
/// digit. `Ok(())` for every other scheme — ask [`eas_value_is_checkable`]
/// whether that means anything.
pub fn eas_value(scheme: &str, value: &str) -> (r: Result<(), CodeError>)
    ensures
        (scheme@ == "0088"@ && gln_problem_text(value@) is Some) <==> r is Err,
        r matches Err(e) ==> {
            &&& e.terms == "BT-34 / BT-49"
            &&& e.list == "the set of valid GS1 GLNs"
            &&& e.rule == "BR-CL-25"
            &&& e.value@ == value@
            &&& opt_text(e.hint) == gln_problem_text(value@)
        },
{
    let problem = if str_eq(scheme, "0088") {
        gln_problem(value)
    } else {
        None
    };
    match problem {
        None => Ok(()),
        Some(hint) => Err(CodeError {
            terms: "BT-34 / BT-49",
            list: "the set of valid GS1 GLNs",
            rule: "BR-CL-25",
            value: string_of(&chars_of(value)),
            hint: Some(hint),
        }),
    }
}

} // verus!

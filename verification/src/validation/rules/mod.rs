//! The EN 16931 core rules that read the model directly, and the rule
//! families: the VAT category tables and XRechnung's national rules.
//!
//! Three tolerance regimes, not interchangeable: the totals chain
//! (`BR-CO-10` … `BR-CO-16`) is **exact**; the VAT derivation (`BR-CO-17` and
//! the category `-09` rows) allows **±1.00 on absolute values**, which is the
//! CEN artefacts' decision and not in the standard's text.
//!
//! Each check returns where its rule fails: `None` or an empty vector when
//! the document satisfies it.

pub mod category;
pub mod registry;
pub mod xrechnung;

use vstd::prelude::*;

use crate::amount::{InvoiceAmount, fits_i64, sum_fits, sum_of};
use crate::bt::{BtId, Group, Path};
use crate::codes::{VatCategory, category_of_code, lists_text, sorted_texts, texts, vat_category_codes, vat_category_values};
use crate::decimal::{Dec, MAX_MANTISSA};
use category::{
    abs_int, derived_vat, derived_vat_of, group_rate, outside_vat_tolerance, within_vat_tolerance,
    xpath_round, xpath_round_dec,
};
use crate::identifier::opt_view;
use crate::invoice::{Code, DocumentKind, Invoice, VatBreakdown};
use crate::text::{blank, is_blank_str, str_eq, trim_seq};

verus! {

// ── Presence: BR-01 … BR-16 ───────────────────────────────────────────────────

/// A document-level path to `BT-term`.
pub open spec fn term_path(term: u16) -> Path {
    Path { group: Group::Document, index: None, term: Some(BtId(term)) }
}

/// A path to `BT-term` inside `group`.
pub open spec fn group_term_path(group: Group, term: u16) -> Path {
    Path { group, index: None, term: Some(BtId(term)) }
}

/// An optional text that is absent or empty.
pub open spec fn unstated(s: Option<Seq<char>>) -> bool {
    !(s matches Some(t) && t.len() > 0)
}

/// An optional code that is absent or blank.
pub open spec fn no_code(c: Option<Code>) -> bool {
    !(c matches Some(code) && !blank(code@))
}

fn is_unstated(s: &Option<String>) -> (b: bool)
    ensures
        b == unstated(opt_view(*s)),
{
    match s {
        Some(t) => t.as_str().unicode_len() == 0,
        None => true,
    }
}

fn is_no_code(c: &Option<Code>) -> (b: bool)
    ensures
        b == no_code(*c),
{
    match c {
        Some(code) => code.is_blank(),
        None => true,
    }
}

/// What [`br_01`] returns.
pub open spec fn br_01_result(inv: Invoice) -> Option<Path> {
    if unstated(opt_view(inv.specification_id)) { Some(term_path(24)) } else { None }
}

/// `BR-01` — an invoice shall have a specification identifier (BT-24).
pub fn br_01(inv: &Invoice) -> (r: Option<Path>)
    ensures
        r == br_01_result(*inv),
{
    if is_unstated(&inv.specification_id) {
        Some(Path::term(BtId(24)))
    } else {
        None
    }
}

/// What [`br_02`] returns.
pub open spec fn br_02_result(inv: Invoice) -> Option<Path> {
    if unstated(opt_view(inv.number)) { Some(term_path(1)) } else { None }
}

/// `BR-02` — an invoice shall have an invoice number (BT-1).
pub fn br_02(inv: &Invoice) -> (r: Option<Path>)
    ensures
        r == br_02_result(*inv),
{
    if is_unstated(&inv.number) {
        Some(Path::term(BtId(1)))
    } else {
        None
    }
}

/// What [`br_03`] returns.
pub open spec fn br_03_result(inv: Invoice) -> Option<Path> {
    if inv.issue_date is None { Some(term_path(2)) } else { None }
}

/// `BR-03` — an invoice shall have an issue date (BT-2).
pub fn br_03(inv: &Invoice) -> (r: Option<Path>)
    ensures
        r == br_03_result(*inv),
{
    if inv.issue_date.is_none() {
        Some(Path::term(BtId(2)))
    } else {
        None
    }
}

/// What [`br_04`] returns.
pub open spec fn br_04_result(inv: Invoice) -> Option<Path> {
    if no_code(inv.type_code) { Some(term_path(3)) } else { None }
}

/// `BR-04` — an invoice shall have a type code (BT-3).
pub fn br_04(inv: &Invoice) -> (r: Option<Path>)
    ensures
        r == br_04_result(*inv),
{
    if is_no_code(&inv.type_code) {
        Some(Path::term(BtId(3)))
    } else {
        None
    }
}

/// What [`br_05`] returns.
pub open spec fn br_05_result(inv: Invoice) -> Option<Path> {
    if no_code(inv.currency) { Some(term_path(5)) } else { None }
}

/// `BR-05` — an invoice shall have a currency code (BT-5).
pub fn br_05(inv: &Invoice) -> (r: Option<Path>)
    ensures
        r == br_05_result(*inv),
{
    if is_no_code(&inv.currency) {
        Some(Path::term(BtId(5)))
    } else {
        None
    }
}

/// What [`br_06`] returns.
pub open spec fn br_06_result(inv: Invoice) -> Option<Path> {
    if unstated(opt_view(inv.seller.name)) {
        Some(group_term_path(Group::Seller, 27))
    } else {
        None
    }
}

/// `BR-06` — an invoice shall contain the seller name (BT-27).
pub fn br_06(inv: &Invoice) -> (r: Option<Path>)
    ensures
        r == br_06_result(*inv),
{
    if is_unstated(&inv.seller.name) {
        Some(Path::group_term(Group::Seller, BtId(27)))
    } else {
        None
    }
}

/// What [`br_07`] returns.
pub open spec fn br_07_result(inv: Invoice) -> Option<Path> {
    if unstated(opt_view(inv.buyer.name)) {
        Some(group_term_path(Group::Buyer, 44))
    } else {
        None
    }
}

/// `BR-07` — an invoice shall contain the buyer name (BT-44).
pub fn br_07(inv: &Invoice) -> (r: Option<Path>)
    ensures
        r == br_07_result(*inv),
{
    if is_unstated(&inv.buyer.name) {
        Some(Path::group_term(Group::Buyer, BtId(44)))
    } else {
        None
    }
}

/// What [`br_09`] returns.
pub open spec fn br_09_result(inv: Invoice) -> Option<Path> {
    if no_code(inv.seller.address.country) {
        Some(group_term_path(Group::Seller, 40))
    } else {
        None
    }
}

/// `BR-09` — the seller postal address shall contain a country code (BT-40).
pub fn br_09(inv: &Invoice) -> (r: Option<Path>)
    ensures
        r == br_09_result(*inv),
{
    if is_no_code(&inv.seller.address.country) {
        Some(Path::group_term(Group::Seller, BtId(40)))
    } else {
        None
    }
}

/// What [`br_11`] returns.
pub open spec fn br_11_result(inv: Invoice) -> Option<Path> {
    if no_code(inv.buyer.address.country) {
        Some(group_term_path(Group::Buyer, 55))
    } else {
        None
    }
}

/// `BR-11` — the buyer postal address shall contain a country code (BT-55).
pub fn br_11(inv: &Invoice) -> (r: Option<Path>)
    ensures
        r == br_11_result(*inv),
{
    if is_no_code(&inv.buyer.address.country) {
        Some(Path::group_term(Group::Buyer, BtId(55)))
    } else {
        None
    }
}

/// What [`br_16`] returns.
pub open spec fn br_16_result(inv: Invoice) -> Option<Path> {
    if inv.lines@.len() == 0 {
        Some(Path { group: Group::Line, index: None, term: None })
    } else {
        None
    }
}

/// `BR-16` — an invoice shall have at least one invoice line (BG-25).
pub fn br_16(inv: &Invoice) -> (r: Option<Path>)
    ensures
        r == br_16_result(*inv),
{
    if inv.lines.len() == 0 {
        Some(Path::group(Group::Line))
    } else {
        None
    }
}

/// What [`br_co_18`] returns.
pub open spec fn br_co_18_result(inv: Invoice) -> Option<Path> {
    if inv.vat_breakdown@.len() == 0 {
        Some(Path { group: Group::VatBreakdown, index: None, term: None })
    } else {
        None
    }
}

/// `BR-CO-18` — an invoice shall have at least one VAT breakdown (BG-23).
pub fn br_co_18(inv: &Invoice) -> (r: Option<Path>)
    ensures
        r == br_co_18_result(*inv),
{
    if inv.vat_breakdown.len() == 0 {
        Some(Path::group(Group::VatBreakdown))
    } else {
        None
    }
}

// ── Per line and per group ────────────────────────────────────────────────────

/// Over the first `n` occurrences of a repeating group, the paths
/// `group[i]/BT-term` of those `flags` marks, in order.
pub open spec fn flagged_paths(n: nat, flags: Seq<bool>, group: Group, term: u16) -> Seq<Path>
    decreases n,
{
    if n == 0 {
        Seq::empty()
    } else {
        let earlier = flagged_paths((n - 1) as nat, flags, group, term);
        if flags[n - 1] {
            earlier.push(Path { group, index: Some((n - 1) as usize), term: Some(BtId(term)) })
        } else {
            earlier
        }
    }
}

/// Per line, the failure of the line rule `which`: 21 `BR-21`, 23 `BR-23`,
/// 25 `BR-25`, 27 `BR-27`, 28 `BR-28`, 30 `BR-30`, 4 `BR-CO-04`, 18 `BR-CL-18`.
pub open spec fn line_flags(inv: Invoice, which: u8) -> Seq<bool> {
    Seq::new(
        inv.lines@.len(),
        |i: int| {
            let l = inv.lines@[i];
            if which == 21 {
                blank(l.id@)
            } else if which == 23 {
                blank(l.unit_code@)
            } else if which == 25 {
                unstated(opt_view(l.item.name))
            } else if which == 27 {
                l.price.net_price@.mantissa < 0
            } else if which == 28 {
                l.price.gross_price matches Some(p) && p@.mantissa < 0
            } else if which == 30 {
                l.period matches Some(p) && (p.start matches Some(s) && p.end matches Some(e)
                    && !s.not_after(e))
            } else if which == 4 {
                blank(l.vat.category@)
            } else {
                !blank(l.vat.category@) && !lists_text(vat_category_values(), l.vat.category@)
            }
        },
    )
}

/// The term a line rule reports.
pub open spec fn line_rule_term(which: u8) -> u16 {
    if which == 21 {
        126
    } else if which == 23 {
        130
    } else if which == 25 {
        153
    } else if which == 27 {
        146
    } else if which == 28 {
        148
    } else if which == 30 {
        135
    } else {
        151
    }
}

/// Evaluate the line rule `which` over every line.
fn line_rule(inv: &Invoice, which: u8) -> (r: Vec<Path>)
    ensures
        r@ == flagged_paths(inv.lines@.len(), line_flags(*inv, which), Group::Line, line_rule_term(which)),
{
    let term: u16 = if which == 21 {
        126
    } else if which == 23 {
        130
    } else if which == 25 {
        153
    } else if which == 27 {
        146
    } else if which == 28 {
        148
    } else if which == 30 {
        135
    } else {
        151
    };
    let codes = vat_category_codes();
    let n = inv.lines.len();
    let mut out: Vec<Path> = Vec::new();
    let mut i: usize = 0;
    while i < n
        invariant
            n == inv.lines@.len(),
            term == line_rule_term(which),
            codes@ == vat_category_values(),
            sorted_texts(codes@),
            i <= n,
            out@ == flagged_paths(i as nat, line_flags(*inv, which), Group::Line, term),
        decreases n - i,
    {
        let l = &inv.lines[i];
        let bad = if which == 21 {
            is_blank_str(l.id.as_str())
        } else if which == 23 {
            l.unit_code.is_blank()
        } else if which == 25 {
            is_unstated(&l.item.name)
        } else if which == 27 {
            l.price.net_price.is_negative()
        } else if which == 28 {
            match &l.price.gross_price {
                Some(p) => p.is_negative(),
                None => false,
            }
        } else if which == 30 {
            match &l.period {
                Some(p) => p.is_ordered() == Some(false),
                None => false,
            }
        } else if which == 4 {
            l.vat.category.is_blank()
        } else {
            !l.vat.category.is_blank() && !l.vat.category.is_in(codes.as_slice())
        };
        assert(line_flags(*inv, which)[i as int] == bad);
        if bad {
            out.push(Path::at_term(Group::Line, i, BtId(term)));
        }
        i = i + 1;
    }
    out
}


/// `BR-21` — each invoice line shall have a line identifier (BT-126).
pub fn br_21(inv: &Invoice) -> (r: Vec<Path>)
    ensures
        r@ == flagged_paths(inv.lines@.len(), line_flags(*inv, 21), Group::Line, 126),
{
    line_rule(inv, 21)
}

/// `BR-23` — each invoice line shall have a unit of measure code (BT-130).
pub fn br_23(inv: &Invoice) -> (r: Vec<Path>)
    ensures
        r@ == flagged_paths(inv.lines@.len(), line_flags(*inv, 23), Group::Line, 130),
{
    line_rule(inv, 23)
}

/// `BR-25` — each invoice line shall contain the item name (BT-153).
pub fn br_25(inv: &Invoice) -> (r: Vec<Path>)
    ensures
        r@ == flagged_paths(inv.lines@.len(), line_flags(*inv, 25), Group::Line, 153),
{
    line_rule(inv, 25)
}

/// `BR-27` — the item net price (BT-146) shall not be negative.
pub fn br_27(inv: &Invoice) -> (r: Vec<Path>)
    ensures
        r@ == flagged_paths(inv.lines@.len(), line_flags(*inv, 27), Group::Line, 146),
{
    line_rule(inv, 27)
}

/// `BR-28` — the item gross price (BT-148) shall not be negative.
pub fn br_28(inv: &Invoice) -> (r: Vec<Path>)
    ensures
        r@ == flagged_paths(inv.lines@.len(), line_flags(*inv, 28), Group::Line, 148),
{
    line_rule(inv, 28)
}

/// `BR-30` — a line period's end date (BT-135) shall not be before its start
/// date (BT-134) when both are given.
pub fn br_30(inv: &Invoice) -> (r: Vec<Path>)
    ensures
        r@ == flagged_paths(inv.lines@.len(), line_flags(*inv, 30), Group::Line, 135),
{
    line_rule(inv, 30)
}

/// `BR-CO-04` — each invoice line shall carry a VAT category code (BT-151).
pub fn br_co_04(inv: &Invoice) -> (r: Vec<Path>)
    ensures
        r@ == flagged_paths(inv.lines@.len(), line_flags(*inv, 4), Group::Line, 151),
{
    line_rule(inv, 4)
}

/// `BR-CL-18` — a line's VAT category code (BT-151) shall be from UNCL 5305.
pub fn br_cl_18(inv: &Invoice) -> (r: Vec<Path>)
    ensures
        r@ == flagged_paths(inv.lines@.len(), line_flags(*inv, 18), Group::Line, 151),
{
    line_rule(inv, 18)
}

/// Per VAT breakdown group, the failure of the rule `which`: 47 `BR-47`,
/// 48 `BR-48`, otherwise `BR-CL-17`.
pub open spec fn breakdown_flags(inv: Invoice, which: u8) -> Seq<bool> {
    Seq::new(
        inv.vat_breakdown@.len(),
        |i: int| {
            let e = inv.vat_breakdown@[i];
            if which == 47 {
                blank(e.category@)
            } else if which == 48 {
                e.rate is None && category_of_code(e.category@) != Some(VatCategory::OutOfScope)
            } else {
                !blank(e.category@) && !lists_text(vat_category_values(), e.category@)
            }
        },
    )
}

/// Evaluate the breakdown rule `which` over every group.
fn breakdown_rule(inv: &Invoice, which: u8) -> (r: Vec<Path>)
    ensures
        r@ == flagged_paths(
            inv.vat_breakdown@.len(),
            breakdown_flags(*inv, which),
            Group::VatBreakdown,
            if which == 48 { 119 } else { 118 },
        ),
{
    let term: u16 = if which == 48 {
        119
    } else {
        118
    };
    let codes = vat_category_codes();
    let n = inv.vat_breakdown.len();
    let mut out: Vec<Path> = Vec::new();
    let mut i: usize = 0;
    while i < n
        invariant
            n == inv.vat_breakdown@.len(),
            term == (if which == 48 { 119u16 } else { 118u16 }),
            codes@ == vat_category_values(),
            sorted_texts(codes@),
            i <= n,
            out@ == flagged_paths(i as nat, breakdown_flags(*inv, which), Group::VatBreakdown, term),
        decreases n - i,
    {
        let e = &inv.vat_breakdown[i];
        let bad = if which == 47 {
            e.category.is_blank()
        } else if which == 48 {
            e.rate.is_none() && e.semantics() != Some(VatCategory::OutOfScope)
        } else {
            !e.category.is_blank() && !e.category.is_in(codes.as_slice())
        };
        assert(breakdown_flags(*inv, which)[i as int] == bad);
        if bad {
            out.push(Path::at_term(Group::VatBreakdown, i, BtId(term)));
        }
        i = i + 1;
    }
    out
}

/// `BR-47` — each VAT breakdown shall carry a VAT category code (BT-118).
pub fn br_47(inv: &Invoice) -> (r: Vec<Path>)
    ensures
        r@ == flagged_paths(inv.vat_breakdown@.len(), breakdown_flags(*inv, 47), Group::VatBreakdown, 118),
{
    breakdown_rule(inv, 47)
}

/// `BR-48` — each VAT breakdown shall have a rate (BT-119), except when the
/// invoice is not subject to VAT (`O`).
pub fn br_48(inv: &Invoice) -> (r: Vec<Path>)
    ensures
        r@ == flagged_paths(inv.vat_breakdown@.len(), breakdown_flags(*inv, 48), Group::VatBreakdown, 119),
{
    breakdown_rule(inv, 48)
}

/// `BR-CL-17` — a VAT breakdown's category code (BT-118) shall be from
/// UNCL 5305.
pub fn br_cl_17(inv: &Invoice) -> (r: Vec<Path>)
    ensures
        r@ == flagged_paths(inv.vat_breakdown@.len(), breakdown_flags(*inv, 17), Group::VatBreakdown, 118),
{
    breakdown_rule(inv, 17)
}

// ── Periods, due date, currency ───────────────────────────────────────────────

/// What [`br_29`] returns.
pub open spec fn br_29_result(inv: Invoice) -> Option<Path> {
    if inv.invoicing_period matches Some(p) && (p.start matches Some(s) && p.end matches Some(e)
        && !s.not_after(e)) {
        Some(term_path(74))
    } else {
        None
    }
}

/// `BR-29` — the invoicing period's end date (BT-74) shall not be before its
/// start date (BT-73) when both are given.
pub fn br_29(inv: &Invoice) -> (r: Option<Path>)
    ensures
        r == br_29_result(*inv),
{
    let unordered = match &inv.invoicing_period {
        Some(p) => p.is_ordered() == Some(false),
        None => false,
    };
    if unordered {
        Some(Path::term(BtId(74)))
    } else {
        None
    }
}

/// What [`br_co_19`] returns.
pub open spec fn br_co_19_result(inv: Invoice) -> Option<Path> {
    if inv.invoicing_period matches Some(p) && p.start is None && p.end is None {
        Some(term_path(73))
    } else {
        None
    }
}

/// `BR-CO-19` — an invoicing period (BG-14) carries a start date (BT-73), an
/// end date (BT-74), or both.
pub fn br_co_19(inv: &Invoice) -> (r: Option<Path>)
    ensures
        r == br_co_19_result(*inv),
{
    let empty = match &inv.invoicing_period {
        Some(p) => p.start.is_none() && p.end.is_none(),
        None => false,
    };
    if empty {
        Some(Path::term(BtId(73)))
    } else {
        None
    }
}

/// Whether the document is a credit note: read from its kind, not from BT-3,
/// which a credit note may lack altogether.
pub fn is_credit_note(inv: &Invoice) -> (b: bool)
    ensures
        b == (inv.kind == DocumentKind::CreditNote),
{
    match inv.kind {
        DocumentKind::CreditNote => true,
        DocumentKind::Invoice => false,
    }
}

/// What [`br_co_25`] returns.
pub open spec fn br_co_25_result(inv: Invoice) -> Option<Path> {
    if inv.kind != DocumentKind::CreditNote && inv.totals.due@ > 0 && inv.due_date is None
        && unstated(opt_view(inv.payment_terms)) {
        Some(term_path(9))
    } else {
        None
    }
}

/// `BR-CO-25` — with a positive amount due (BT-115), the payment due date
/// (BT-9) or the payment terms (BT-20) shall be present. Invoices only: a
/// credit note states what is owed back. `Some(BT-9)` when both are missing.
pub fn br_co_25(inv: &Invoice) -> (r: Option<Path>)
    ensures
        r == br_co_25_result(*inv),
{
    if is_credit_note(inv) {
        return None;
    }
    if inv.totals.due.is_positive() && inv.due_date.is_none() && is_unstated(&inv.payment_terms) {
        Some(Path::term(BtId(9)))
    } else {
        None
    }
}

/// What [`en_currency_01`] returns.
pub open spec fn en_currency_01_result(inv: Invoice) -> Option<Path> {
    if inv.currency matches Some(c) && c@ == "XXX"@ { Some(term_path(5)) } else { None }
}

/// `EN-CURRENCY-01` — this library's own rule: the invoice currency (BT-5)
/// shall not be `XXX`, ISO 4217's "no currency involved", which `BR-CL-04`
/// accepts as a real code.
pub fn en_currency_01(inv: &Invoice) -> (r: Option<Path>)
    ensures
        r == en_currency_01_result(*inv),
{
    let xxx = match &inv.currency {
        Some(c) => str_eq(c.as_str(), "XXX"),
        None => false,
    };
    if xxx {
        Some(Path::term(BtId(5)))
    } else {
        None
    }
}


// ── The totals chain — exact ──────────────────────────────────────────────────

/// The line net amounts (BT-131), in order.
pub open spec fn net_amounts(inv: Invoice) -> Seq<InvoiceAmount> {
    Seq::new(inv.lines@.len(), |i: int| inv.lines@[i].net_amount)
}

/// The document-level allowance amounts (BT-92), in order.
pub open spec fn allowance_amounts(inv: Invoice) -> Seq<InvoiceAmount> {
    Seq::new(inv.allowances@.len(), |i: int| inv.allowances@[i].amount)
}

/// The document-level charge amounts (BT-99), in order.
pub open spec fn charge_amounts(inv: Invoice) -> Seq<InvoiceAmount> {
    Seq::new(inv.charges@.len(), |i: int| inv.charges@[i].amount)
}

/// The VAT breakdown tax amounts (BT-117), in order.
pub open spec fn tax_amounts(inv: Invoice) -> Seq<InvoiceAmount> {
    Seq::new(inv.vat_breakdown@.len(), |i: int| inv.vat_breakdown@[i].tax_amount)
}

/// An optional amount, absent read as zero.
pub open spec fn or_zero(a: Option<InvoiceAmount>) -> int {
    match a {
        Some(v) => v@,
        None => 0,
    }
}

/// The amounts `which` names: 0 line net, 1 allowances, 2 charges, else tax.
fn gather(inv: &Invoice, which: u8) -> (v: Vec<InvoiceAmount>)
    ensures
        which == 0 ==> v@ == net_amounts(*inv),
        which == 1 ==> v@ == allowance_amounts(*inv),
        which == 2 ==> v@ == charge_amounts(*inv),
        which >= 3 ==> v@ == tax_amounts(*inv),
{
    let n = if which == 0 {
        inv.lines.len()
    } else if which == 1 {
        inv.allowances.len()
    } else if which == 2 {
        inv.charges.len()
    } else {
        inv.vat_breakdown.len()
    };
    let ghost target = if which == 0 {
        net_amounts(*inv)
    } else if which == 1 {
        allowance_amounts(*inv)
    } else if which == 2 {
        charge_amounts(*inv)
    } else {
        tax_amounts(*inv)
    };
    let mut v: Vec<InvoiceAmount> = Vec::new();
    let mut i: usize = 0;
    while i < n
        invariant
            target == (if which == 0 {
                net_amounts(*inv)
            } else if which == 1 {
                allowance_amounts(*inv)
            } else if which == 2 {
                charge_amounts(*inv)
            } else {
                tax_amounts(*inv)
            }),
            n == target.len(),
            i <= n,
            v@ == target.subrange(0, i as int),
        decreases n - i,
    {
        let a = if which == 0 {
            inv.lines[i].net_amount
        } else if which == 1 {
            inv.allowances[i].amount
        } else if which == 2 {
            inv.charges[i].amount
        } else {
            inv.vat_breakdown[i].tax_amount
        };
        v.push(a);
        i = i + 1;
    }
    assert(v@ == target);
    v
}

/// `BR-CO-10` — the sum of line net amounts (BT-106) equals Σ BT-131.
/// `Some((BG-22/BT-106, Σ))` when it does not; nothing when the sum does not
/// fit.
pub fn br_co_10(inv: &Invoice) -> (r: Option<(Path, InvoiceAmount)>)
    ensures
        r is Some <==> (sum_fits(net_amounts(*inv)) && sum_of(net_amounts(*inv))
            != inv.totals.line_total@),
        r matches Some((p, e)) ==> p == group_term_path(Group::Totals, 106) && e@ == sum_of(
            net_amounts(*inv),
        ),
{
    let v = gather(inv, 0);
    match InvoiceAmount::checked_sum(v.as_slice()) {
        Ok(expected) => if !expected.same(inv.totals.line_total) {
            Some((Path::group_term(Group::Totals, BtId(106)), expected))
        } else {
            None
        },
        Err(_) => None,
    }
}

/// `BR-CO-11` — the sum of allowances (BT-107) equals Σ BT-92; BT-107 may be
/// absent only when there are no allowances. `Some((BG-22/BT-107, Σ))` when
/// it fails.
pub fn br_co_11(inv: &Invoice) -> (r: Option<(Path, InvoiceAmount)>)
    ensures
        r is Some <==> (sum_fits(allowance_amounts(*inv)) && match inv.totals.allowance_total {
            Some(t) => t@ != sum_of(allowance_amounts(*inv)),
            None => inv.allowances@.len() > 0,
        }),
        r matches Some((p, e)) ==> p == group_term_path(Group::Totals, 107) && e@ == sum_of(
            allowance_amounts(*inv),
        ),
{
    let v = gather(inv, 1);
    match InvoiceAmount::checked_sum(v.as_slice()) {
        Ok(expected) => {
            let bad = match inv.totals.allowance_total {
                Some(t) => !t.same(expected),
                None => inv.allowances.len() > 0,
            };
            if bad {
                Some((Path::group_term(Group::Totals, BtId(107)), expected))
            } else {
                None
            }
        },
        Err(_) => None,
    }
}

/// `BR-CO-12` — the sum of charges (BT-108) equals Σ BT-99; BT-108 may be
/// absent only when there are no charges.
pub fn br_co_12(inv: &Invoice) -> (r: Option<(Path, InvoiceAmount)>)
    ensures
        r is Some <==> (sum_fits(charge_amounts(*inv)) && match inv.totals.charge_total {
            Some(t) => t@ != sum_of(charge_amounts(*inv)),
            None => inv.charges@.len() > 0,
        }),
        r matches Some((p, e)) ==> p == group_term_path(Group::Totals, 108) && e@ == sum_of(
            charge_amounts(*inv),
        ),
{
    let v = gather(inv, 2);
    match InvoiceAmount::checked_sum(v.as_slice()) {
        Ok(expected) => {
            let bad = match inv.totals.charge_total {
                Some(t) => !t.same(expected),
                None => inv.charges.len() > 0,
            };
            if bad {
                Some((Path::group_term(Group::Totals, BtId(108)), expected))
            } else {
                None
            }
        },
        Err(_) => None,
    }
}

/// `BR-CO-13` — the total without VAT (BT-109) equals BT-106 − BT-107 +
/// BT-108, absent allowance and charge totals read as zero.
pub fn br_co_13(inv: &Invoice) -> (r: Option<(Path, InvoiceAmount)>)
    ensures
        ({
            let t = inv.totals;
            let step = t.line_total@ - or_zero(t.allowance_total);
            let expected = step + or_zero(t.charge_total);
            &&& r is Some <==> (fits_i64(step) && fits_i64(expected) && expected != t.taxable_total@)
            &&& r matches Some((p, e)) ==> p == group_term_path(Group::Totals, 109) && e@ == expected
        }),
{
    let t = &inv.totals;
    let allowances = match t.allowance_total {
        Some(a) => a,
        None => InvoiceAmount::zero(),
    };
    let charges = match t.charge_total {
        Some(c) => c,
        None => InvoiceAmount::zero(),
    };
    match t.line_total.checked_sub(allowances) {
        Ok(step) => match step.checked_add(charges) {
            Ok(expected) => if !expected.same(t.taxable_total) {
                Some((Path::group_term(Group::Totals, BtId(109)), expected))
            } else {
                None
            },
            Err(_) => None,
        },
        Err(_) => None,
    }
}

/// `BR-CO-14` — the total VAT (BT-110) equals Σ BT-117; BT-110 may be
/// absent only when that sum is zero. Exact: the VAT derivation's tolerance
/// does not apply here.
pub fn br_co_14(inv: &Invoice) -> (r: Option<(Path, InvoiceAmount)>)
    ensures
        r is Some <==> (sum_fits(tax_amounts(*inv)) && match inv.totals.vat_total {
            Some(t) => t@ != sum_of(tax_amounts(*inv)),
            None => sum_of(tax_amounts(*inv)) != 0,
        }),
        r matches Some((p, e)) ==> p == group_term_path(Group::Totals, 110) && e@ == sum_of(
            tax_amounts(*inv),
        ),
{
    let v = gather(inv, 3);
    match InvoiceAmount::checked_sum(v.as_slice()) {
        Ok(expected) => {
            let bad = match inv.totals.vat_total {
                Some(t) => !t.same(expected),
                None => !expected.is_zero(),
            };
            if bad {
                Some((Path::group_term(Group::Totals, BtId(110)), expected))
            } else {
                None
            }
        },
        Err(_) => None,
    }
}

/// `BR-CO-15` — the total with VAT (BT-112) equals BT-109 + BT-110, an absent
/// BT-110 read as zero.
pub fn br_co_15(inv: &Invoice) -> (r: Option<(Path, InvoiceAmount)>)
    ensures
        ({
            let t = inv.totals;
            let expected = t.taxable_total@ + or_zero(t.vat_total);
            &&& r is Some <==> (fits_i64(expected) && expected != t.gross_total@)
            &&& r matches Some((p, e)) ==> p == group_term_path(Group::Totals, 112) && e@ == expected
        }),
{
    let t = &inv.totals;
    let vat = match t.vat_total {
        Some(v) => v,
        None => InvoiceAmount::zero(),
    };
    match t.taxable_total.checked_add(vat) {
        Ok(expected) => if !expected.same(t.gross_total) {
            Some((Path::group_term(Group::Totals, BtId(112)), expected))
        } else {
            None
        },
        Err(_) => None,
    }
}

/// `BR-CO-16` — the amount due (BT-115) equals BT-112 − BT-113 + BT-114,
/// absent paid and rounding amounts read as zero.
pub fn br_co_16(inv: &Invoice) -> (r: Option<(Path, InvoiceAmount)>)
    ensures
        ({
            let t = inv.totals;
            let step = t.gross_total@ - or_zero(t.paid);
            let expected = step + or_zero(t.rounding);
            &&& r is Some <==> (fits_i64(step) && fits_i64(expected) && expected != t.due@)
            &&& r matches Some((p, e)) ==> p == group_term_path(Group::Totals, 115) && e@ == expected
        }),
{
    let t = &inv.totals;
    let paid = match t.paid {
        Some(p) => p,
        None => InvoiceAmount::zero(),
    };
    let rounding = match t.rounding {
        Some(v) => v,
        None => InvoiceAmount::zero(),
    };
    match t.gross_total.checked_sub(paid) {
        Ok(step) => match step.checked_add(rounding) {
            Ok(expected) => if !expected.same(t.due) {
                Some((Path::group_term(Group::Totals, BtId(115)), expected))
            } else {
                None
            },
            Err(_) => None,
        },
        Err(_) => None,
    }
}


// ── The VAT derivation — ±1.00 on absolute values ─────────────────────────────

/// `BR-CO-17` on one group: the expected tax when the group fails, `None`
/// when it passes or its product overflows.
///
/// A rate that XPath rounds to zero takes the artefacts' zero-rate branch,
/// where the tax must round to zero, without tolerance; the expected tax is
/// then `0`. Otherwise the tax must be within ±1.00 of the derived VAT, both
/// sides taken absolute, and the expected tax is the derived VAT at two
/// decimals.
pub open spec fn co17_finding(e: VatBreakdown) -> Option<Dec> {
    let rate = group_rate(e);
    if xpath_round(rate.mantissa as int, rate.scale as nat) == 0 {
        if xpath_round(e.tax_amount@, 2) != 0 {
            Some(Dec { mantissa: 0, scale: 0 })
        } else {
            None
        }
    } else {
        match derived_vat(e) {
            Some(x) => if !within_vat_tolerance(e.tax_amount, x) {
                Some(Dec { mantissa: x as i128, scale: 2 })
            } else {
                None
            },
            None => None,
        }
    }
}

/// The `BR-CO-17` findings over the first `n` groups: BG-23[i]/BT-117 with
/// the expected tax.
pub open spec fn co17_results(inv: Invoice, n: nat) -> Seq<(Path, Dec)>
    decreases n,
{
    if n == 0 {
        Seq::empty()
    } else {
        let earlier = co17_results(inv, (n - 1) as nat);
        match co17_finding(inv.vat_breakdown@[n - 1]) {
            Some(x) => earlier.push(
                (
                    Path {
                        group: Group::VatBreakdown,
                        index: Some((n - 1) as usize),
                        term: Some(BtId(117)),
                    },
                    x,
                ),
            ),
            None => earlier,
        }
    }
}

/// `BR-CO-17` — each VAT category tax amount (BT-117) equals BT-116 × BT-119
/// / 100, rounded to two decimals the XPath way, within the artefacts'
/// ±1.00; a group whose product overflows is passed over.
pub fn br_co_17(inv: &Invoice) -> (r: Vec<(Path, Dec)>)
    ensures
        r@ == co17_results(*inv, inv.vat_breakdown@.len()),
{
    let n = inv.vat_breakdown.len();
    let mut out: Vec<(Path, Dec)> = Vec::new();
    let mut i: usize = 0;
    while i < n
        invariant
            n == inv.vat_breakdown@.len(),
            i <= n,
            out@ == co17_results(*inv, i as nat),
        decreases n - i,
    {
        let e = &inv.vat_breakdown[i];
        let rate = match e.rate {
            Some(r) => {
                r.check_wf();
                r.into_decimal()
            },
            None => Dec::zero(),
        };
        let tax = Dec { mantissa: e.tax_amount.to_minor_units() as i128, scale: 2 };
        let finding: Option<Dec> = if xpath_round_dec(rate) == 0 {
            if xpath_round_dec(tax) != 0 {
                Some(Dec::zero())
            } else {
                None
            }
        } else {
            match derived_vat_of(e) {
                Some(x) => if outside_vat_tolerance(e.tax_amount, x) {
                    Some(Dec { mantissa: x, scale: 2 })
                } else {
                    None
                },
                None => None,
            }
        };
        assert(finding == co17_finding(inv.vat_breakdown@[i as int]));
        if let Some(x) = finding {
            out.push((Path::at_term(Group::VatBreakdown, i, BtId(117)), x));
        }
        i = i + 1;
    }
    out
}


// ── The registry, looked up ───────────────────────────────────────────────────

/// ASCII lower case folded to upper case.
pub open spec fn ascii_upper(c: char) -> char {
    if 'a' <= c <= 'z' {
        (((c as u32) - 32) as u8) as char
    } else {
        c
    }
}

/// An ASCII digit.
pub open spec fn id_digit(c: char) -> bool {
    '0' <= c <= '9'
}

/// Whether `s[i]` is a zero that so far leads its run of digits.
pub open spec fn leading_zero(s: Seq<char>, i: int) -> bool
    decreases i,
{
    if i < 0 {
        false
    } else {
        s[i] == '0' && (i == 0 || !id_digit(s[i - 1]) || leading_zero(s, i - 1))
    }
}

/// Whether a rule id drops `s[i]`: a leading zero with another digit after it.
pub open spec fn drops(s: Seq<char>, i: int) -> bool {
    leading_zero(s, i) && i + 1 < s.len() && id_digit(s[i + 1])
}

/// The first `n` characters of `s` with leading zeros of numbers dropped and
/// letters upper-cased.
pub open spec fn folded_prefix(s: Seq<char>, n: nat) -> Seq<char>
    decreases n,
{
    if n == 0 {
        Seq::empty()
    } else {
        folded_prefix(s, (n - 1) as nat) + if drops(s, n - 1) {
            Seq::empty()
        } else {
            seq![ascii_upper(s[n - 1])]
        }
    }
}

/// A rule id's canonical spelling: `br-co-3` and `BR-CO-03` are both
/// `BR-CO-3`, and the standard's `BR-IG-*` and `BR-IP-*` are the artefacts'
/// `BR-AF-*` and `BR-AG-*`.
pub open spec fn canonical_id(s: Seq<char>) -> Seq<char> {
    let c = folded_prefix(s, s.len());
    if crate::text::starts_with(c, "BR-IG-"@) {
        "BR-AF-"@ + c.subrange(6, c.len() as int)
    } else if crate::text::starts_with(c, "BR-IP-"@) {
        "BR-AG-"@ + c.subrange(6, c.len() as int)
    } else {
        c
    }
}

/// The canonical spelling of `s`.
pub fn canonical(s: &str) -> (r: Vec<char>)
    ensures
        r@ == canonical_id(s@),
{
    let v = crate::text::chars_of(s);
    let n = v.len();
    let mut out: Vec<char> = Vec::new();
    let mut lead = false;
    let mut i: usize = 0;
    while i < n
        invariant
            n == v@.len(),
            v@ == s@,
            i <= n,
            out@ == folded_prefix(s@, i as nat),
            i > 0 ==> lead == leading_zero(s@, i - 1),
        decreases n - i,
    {
        let c = v[i];
        let prev_digit = i > 0 && '0' <= v[i - 1] && v[i - 1] <= '9';
        lead = c == '0' && (i == 0 || !prev_digit || lead);
        let next_digit = i + 1 < n && '0' <= v[i + 1] && v[i + 1] <= '9';
        if !(lead && next_digit) {
            let u = if 'a' <= c && c <= 'z' {
                ((c as u32) - 32) as u8 as char
            } else {
                c
            };
            out.push(u);
        }
        i = i + 1;
    }
    let ig = crate::text::chars_of("BR-IG-");
    let ip = crate::text::chars_of("BR-IP-");
    proof {
        reveal_strlit("BR-IG-");
        reveal_strlit("BR-IP-");
        reveal_strlit("BR-AF-");
        reveal_strlit("BR-AG-");
    }
    if crate::text::has_prefix(&out, &ig) || crate::text::has_prefix(&out, &ip) {
        let mut r: Vec<char> = Vec::new();
        let af = crate::text::has_prefix(&out, &ig);
        crate::text::push_str(&mut r, if af { "BR-AF-" } else { "BR-AG-" });
        let rest = crate::text::slice_vec(&out, 6, out.len());
        let mut j: usize = 0;
        let ghost start = r@;
        while j < rest.len()
            invariant
                j <= rest@.len(),
                r@ == start + rest@.subrange(0, j as int),
            decreases rest.len() - j,
        {
            r.push(rest[j]);
            j = j + 1;
        }
        assert(rest@.subrange(0, rest@.len() as int) == rest@);
        r
    } else {
        out
    }
}

/// Whether a rule id answers to `query` in any of its spellings.
pub open spec fn id_matches(id: Seq<char>, query: Seq<char>) -> bool {
    canonical_id(id) == canonical_id(query)
}

/// Every rule this library evaluates: the core set, the category families,
/// and XRechnung's with its CVD variant and the Extension's mime rule.
pub fn all() -> (v: Vec<crate::validation::Rule>)
    ensures
        crate::validation::rule_keys(v@) == registry::registry_keys(),
{
    registry::registry()
}

/// The index of the first key whose id answers to `query`.
pub open spec fn first_match(keys: Seq<registry::RuleKey>, query: Seq<char>, from: int) -> Option<int>
    decreases keys.len() - from,
{
    if from < 0 || from >= keys.len() {
        None
    } else if id_matches(keys[from].0, query) {
        Some(from)
    } else {
        first_match(keys, query, from + 1)
    }
}

/// Look a rule up by any of its spellings — `BR-CO-3`, `BR-CO-03`,
/// `br-co-3`, and the standard's `BR-IG-8` for the artefacts' `BR-AF-08`.
pub fn explain(query: &str) -> (r: Option<crate::validation::Rule>)
    ensures
        match first_match(registry::registry_keys(), query@, 0) {
            Some(k) => r matches Some(x) && crate::validation::rule_key(x) == registry::registry_keys()[k],
            None => r is None,
        },
{
    let mut rules = registry::registry();
    let q = canonical(query);
    let n = rules.len();
    let mut k: usize = 0;
    while k < n
        invariant
            n == rules@.len(),
            crate::validation::rule_keys(rules@) == registry::registry_keys(),
            q@ == canonical_id(query@),
            k <= n,
            first_match(registry::registry_keys(), query@, 0) == first_match(
                registry::registry_keys(),
                query@,
                k as int,
            ),
        decreases n - k,
    {
        let c = canonical(rules[k].id.as_str());
        assert(registry::registry_keys()[k as int].0 == rules@[k as int].id@);
        if crate::text::chars_eq(&c, &q) {
            let r = rules.remove(k);
            return Some(r);
        }
        k = k + 1;
    }
    None
}

/// The rules whose terms include `term`, in registry order.
pub open spec fn keys_touching(keys: Seq<registry::RuleKey>, term: BtId) -> Seq<registry::RuleKey>
    decreases keys.len(),
{
    if keys.len() == 0 {
        Seq::empty()
    } else if keys.last().3.contains(term) {
        keys_touching(keys.drop_last(), term).push(keys.last())
    } else {
        keys_touching(keys.drop_last(), term)
    }
}

/// Every rule that reads `term`.
pub fn touching(term: BtId) -> (v: Vec<crate::validation::Rule>)
    ensures
        crate::validation::rule_keys(v@) == keys_touching(registry::registry_keys(), term),
{
    let mut rules = registry::registry();
    let ghost keys = registry::registry_keys();
    let mut out: Vec<crate::validation::Rule> = Vec::new();
    let mut taken: usize = 0;
    let n = rules.len();
    while rules.len() > 0
        invariant
            taken + rules@.len() == n,
            n == keys.len(),
            keys == registry::registry_keys(),
            crate::validation::rule_keys(rules@) == keys.subrange(taken as int, n as int),
            crate::validation::rule_keys(out@) == keys_touching(keys.subrange(0, taken as int), term),
        decreases rules.len(),
    {
        let ghost old_rules = rules@;
        let r = rules.remove(0);
        let ghost key = keys[taken as int];
        assert(crate::validation::rule_key(r) == key) by {
            assert(keys.subrange(taken as int, n as int)[0] == key);
        }
        let mut found = false;
        let mut j: usize = 0;
        while j < r.terms.len()
            invariant
                j <= r.terms@.len(),
                found <==> exists|i: int| 0 <= i < j && r.terms@[i] == term,
            decreases r.terms.len() - j,
        {
            if r.terms[j] == term {
                found = true;
            }
            j = j + 1;
        }
        assert(found == key.3.contains(term)) by {
            if key.3.contains(term) {
                let i = choose|i: int| 0 <= i < key.3.len() && key.3[i] == term;
                assert(r.terms@[i] == term);
            }
        }
        assert(keys.subrange(0, taken + 1).drop_last() =~= keys.subrange(0, taken as int));
        let ghost before = out@;
        if found {
            out.push(r);
            assert(crate::validation::rule_keys(out@) =~= crate::validation::rule_keys(before).push(key));
        }
        assert forall|i: int| 0 <= i < rules@.len() implies #[trigger] crate::validation::rule_key(rules@[i])
            == keys[taken + 1 + i] by {
            assert(rules@[i] == old_rules[i + 1]);
            assert(crate::validation::rule_keys(old_rules)[i + 1] == keys.subrange(taken as int, n as int)[i + 1]);
        }
        assert(crate::validation::rule_keys(rules@) =~= keys.subrange(taken + 1, n as int));
        taken = taken + 1;
    }
    assert(keys.subrange(0, n as int) =~= keys);
    out
}


/// Whether restriction `k` of profile `p` answers to `query`.
pub open spec fn restriction_matches(profiles: Seq<crate::validation::profile::Profile>, p: int, k: int, query: Seq<char>) -> bool {
    0 <= p < profiles.len() && 0 <= k < profiles[p].restrictions@.len() && id_matches(
        crate::validation::profile::restriction_id(profiles[p].restrictions@[k])@,
        query,
    )
}

/// Look up a profile restriction by its published id — `BR-DE-3` — among
/// `profiles`: `(profile, restriction)` indices of the first, in profile
/// order and then restriction order, whose id answers to `query`.
pub fn explain_restriction(profiles: &Vec<crate::validation::profile::Profile>, query: &str) -> (r: Option<(usize, usize)>)
    ensures
        match r {
            Some((p, k)) => restriction_matches(profiles@, p as int, k as int, query@) && forall|
                p2: int,
                k2: int,
            |
                (p2 < p || (p2 == p && k2 < k)) ==> !#[trigger] restriction_matches(profiles@, p2, k2, query@),
            None => forall|p2: int, k2: int| !#[trigger] restriction_matches(profiles@, p2, k2, query@),
        },
{
    let q = canonical(query);
    let mut p: usize = 0;
    while p < profiles.len()
        invariant
            p <= profiles@.len(),
            q@ == canonical_id(query@),
            forall|p2: int, k2: int| p2 < p ==> !#[trigger] restriction_matches(profiles@, p2, k2, query@),
        decreases profiles.len() - p,
    {
        let rs = &profiles[p].restrictions;
        let mut k: usize = 0;
        while k < rs.len()
            invariant
                p < profiles@.len(),
                rs == profiles@[p as int].restrictions,
                k <= rs@.len(),
                q@ == canonical_id(query@),
                forall|p2: int, k2: int| p2 < p ==> !#[trigger] restriction_matches(profiles@, p2, k2, query@),
                forall|k2: int| k2 < k ==> !#[trigger] restriction_matches(profiles@, p as int, k2, query@),
            decreases rs.len() - k,
        {
            let c = canonical(rs[k].id());
            if crate::text::chars_eq(&c, &q) {
                return Some((p, k));
            }
            k = k + 1;
        }
        p = p + 1;
    }
    None
}


/// Two queries with the same canonical spelling find the same rule, from
/// any position on.
proof fn lemma_first_match_canonical(keys: Seq<registry::RuleKey>, q1: Seq<char>, q2: Seq<char>, from: int)
    requires
        canonical_id(q1) == canonical_id(q2),
    ensures
        first_match(keys, q1, from) == first_match(keys, q2, from),
    decreases keys.len() - from,
{
    if !(from < 0 || from >= keys.len()) {
        lemma_first_match_canonical(keys, q1, q2, from + 1);
    }
}

/// **A lookup answers to the canonical spelling alone**: two queries that
/// spell a rule id the same way once case is folded, numbers are unpadded
/// and the standard's `BR-IG`/`BR-IP` are renamed find the same rule.
pub proof fn law_lookup_depends_only_on_the_canonical_spelling(q1: Seq<char>, q2: Seq<char>)
    requires
        canonical_id(q1) == canonical_id(q2),
    ensures
        first_match(registry::registry_keys(), q1, 0) == first_match(registry::registry_keys(), q2, 0),
{
    lemma_first_match_canonical(registry::registry_keys(), q1, q2, 0);
}

/// Folding case keeps a character's digit-ness and zero-ness.
proof fn lemma_fold_keeps_digits(a: char, b: char)
    requires
        ascii_upper(a) == ascii_upper(b),
    ensures
        id_digit(a) == id_digit(b),
        (a == '0') == (b == '0'),
{
}

/// Strings equal up to ASCII case have the same leading zeros.
proof fn lemma_leading_zero_case(s: Seq<char>, t: Seq<char>, i: int)
    requires
        s.len() == t.len(),
        i < s.len(),
        forall|j: int| 0 <= j < s.len() ==> ascii_upper(#[trigger] s[j]) == ascii_upper(t[j]),
    ensures
        leading_zero(s, i) == leading_zero(t, i),
    decreases i,
{
    if i >= 0 {
        lemma_fold_keeps_digits(s[i], t[i]);
        if i > 0 {
            lemma_fold_keeps_digits(s[i - 1], t[i - 1]);
            lemma_leading_zero_case(s, t, i - 1);
        }
    }
}

/// Strings equal up to ASCII case fold to the same prefix.
proof fn lemma_folded_prefix_case(s: Seq<char>, t: Seq<char>, n: nat)
    requires
        s.len() == t.len(),
        n <= s.len(),
        forall|j: int| 0 <= j < s.len() ==> ascii_upper(#[trigger] s[j]) == ascii_upper(t[j]),
    ensures
        folded_prefix(s, n) == folded_prefix(t, n),
    decreases n,
{
    if n > 0 {
        lemma_folded_prefix_case(s, t, (n - 1) as nat);
        lemma_leading_zero_case(s, t, n - 1);
        if n < s.len() {
            lemma_fold_keeps_digits(s[n as int], t[n as int]);
        }
    }
}

/// **A lookup ignores ASCII case**: `br-co-14` finds what `BR-CO-14` finds.
pub proof fn law_lookup_ignores_case(q1: Seq<char>, q2: Seq<char>)
    requires
        q1.len() == q2.len(),
        forall|i: int| 0 <= i < q1.len() ==> ascii_upper(#[trigger] q1[i]) == ascii_upper(q2[i]),
    ensures
        first_match(registry::registry_keys(), q1, 0) == first_match(registry::registry_keys(), q2, 0),
{
    lemma_folded_prefix_case(q1, q2, q1.len());
    law_lookup_depends_only_on_the_canonical_spelling(q1, q2);
}


/// **BR-06 is decided by the seller name alone**: the rule reports BG-4 /
/// BT-27 exactly when BT-27 is absent or empty, and two invoices whose seller
/// names agree get the same answer, whatever else in them differs — the buyer
/// name (BT-44, BR-07's business) among it.
pub proof fn law_br_06_is_decided_by_the_seller_name(inv: Invoice, other: Invoice)
    ensures
        br_06_result(inv) is Some <==> match inv.seller.name {
            Some(n) => n@.len() == 0,
            None => true,
        },
        br_06_result(inv) is Some ==> br_06_result(inv) == Some(
            Path { group: Group::Seller, index: None, term: Some(BtId(27)) },
        ),
        opt_view(other.seller.name) == opt_view(inv.seller.name) ==> br_06_result(other)
            == br_06_result(inv),
{
}


/// **BR-07 is decided by the buyer name alone**: the rule reports BG-7 /
/// BT-44 exactly when BT-44 is absent or empty, and two invoices whose buyer
/// names agree get the same answer, whatever else in them differs.
pub proof fn law_br_07_is_decided_by_the_buyer_name(inv: Invoice, other: Invoice)
    ensures
        br_07_result(inv) is Some <==> match inv.buyer.name {
            Some(n) => n@.len() == 0,
            None => true,
        },
        br_07_result(inv) is Some ==> br_07_result(inv) == Some(
            Path { group: Group::Buyer, index: None, term: Some(BtId(44)) },
        ),
        opt_view(other.buyer.name) == opt_view(inv.buyer.name) ==> br_07_result(other)
            == br_07_result(inv),
{
}

} // verus!

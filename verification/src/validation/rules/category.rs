//! The nine VAT category families — `BR-S-*`, `BR-Z-*`, `BR-E-*`, `BR-AE-*`,
//! `BR-IC-*`, `BR-G-*`, `BR-O-*`, `BR-AF-*`, `BR-AG-*` — plus `BR-B-*`.
//!
//! EN 16931-1 §6.4.3 writes these as nine parallel tables with the same ten
//! row headings, so the logic lives in one checker per row, parameterised by a
//! [`CategoryProfile`]:
//!
//! | Row | Taxed (`S`, `L`, `M`) | Zero-tax (`Z`, `E`, `AE`, `K`, `G`, `O`) |
//! |---|---|---|
//! | `-01` groups | *at least one* — may repeat per rate | **exactly one** |
//! | `-05/06/07` rate | `S` > 0; `L`/`M` ≥ 0 | `= 0`, except `O`: **absent** |
//! | `-08` base | grouped by **(category, rate)** | grouped by category alone |
//! | `-09` tax | `= base × rate`, ±1.00 | `= 0`, exact |
//! | `-10` reason | **forbidden** | **required** |
//!
//! Each checker returns the places where its row fails.

use vstd::prelude::*;

use crate::amount::{InvoiceAmount, fits_i64, lemma_pow10_bound, pow10_exec, sum_fits, sum_of};
use vstd::arithmetic::div_mod::{lemma_fundamental_div_mod, lemma_mod_bound};
use crate::decimal::{Dec, MAX_MANTISSA, dec_checked_mul, decimal_checked_mul, pow10};
use crate::bt::{BtId, Group, Path};
use crate::codes::{VatCategory, category_forbids_reason, category_of_code, category_requires_reason};
use crate::invoice::{
    Code, DocumentAllowanceCharge, Invoice, InvoiceLine, LineVat, VatBreakdown, uses_category,
};
use crate::text::str_eq;
use crate::numeric::Percentage;

verus! {

/// How many BG-23 groups a category may occupy — the `-01` row.
#[derive(Debug, Clone, Copy, PartialEq, Eq, Structural)]
pub enum Groups {
    /// *"shall contain … at least one"* — the category may appear at several rates.
    AtLeastOne,
    /// *"shall contain … exactly one"* — the category has a single rate, zero.
    ExactlyOne,
}

/// What the `-05` / `-06` / `-07` rows require of a rate.
#[derive(Debug, Clone, Copy, PartialEq, Eq, Structural)]
pub enum RateRule {
    /// `BR-S-05`: *"shall be greater than zero"*.
    Positive,
    /// `BR-Z-05` and friends: *"shall be 0 (zero)"*.
    Zero,
    /// `BR-AF-05` / `BR-AG-05`: *"shall be 0 (zero) or greater than zero"*.
    ZeroOrPositive,
    /// `BR-O-05`: *"shall not contain"* a rate at all — absent, not zero.
    Absent,
}

/// What the `-09` row requires of the tax amount.
#[derive(Debug, Clone, Copy, PartialEq, Eq, Structural)]
pub enum TaxRule {
    /// *"shall equal 0 (zero)"*, exactly.
    Zero,
    /// *"shall equal the taxable amount multiplied by the rate"*, ±1.00.
    Derived,
}

/// One row of §6.4.3 — everything that differs between the nine tables.
#[derive(Debug, Clone, Copy, PartialEq, Eq, Structural)]
pub struct CategoryProfile {
    /// Which category.
    pub category: VatCategory,
    /// `-01`.
    pub groups: Groups,
    /// `-05` / `-06` / `-07`.
    pub rate: RateRule,
    /// `-09`.
    pub tax: TaxRule,
}

/// The nine tables, as data.
pub open spec fn category_profile(c: VatCategory) -> CategoryProfile {
    let (groups, rate, tax) = match c {
        VatCategory::Standard => (Groups::AtLeastOne, RateRule::Positive, TaxRule::Derived),
        VatCategory::CanaryIslands | VatCategory::CeutaMelilla => (
            Groups::AtLeastOne,
            RateRule::ZeroOrPositive,
            TaxRule::Derived,
        ),
        VatCategory::ZeroRated | VatCategory::Exempt | VatCategory::ReverseCharge
        | VatCategory::IntraCommunity | VatCategory::Export => (
            Groups::ExactlyOne,
            RateRule::Zero,
            TaxRule::Zero,
        ),
        VatCategory::OutOfScope => (Groups::ExactlyOne, RateRule::Absent, TaxRule::Zero),
        VatCategory::SplitPayment => (
            Groups::AtLeastOne,
            RateRule::ZeroOrPositive,
            TaxRule::Derived,
        ),
    };
    CategoryProfile { category: c, groups, rate, tax }
}

impl CategoryProfile {
    /// Whether `-08` groups by `(category, rate)` rather than by category alone:
    /// exactly the categories whose `-01` says *"at least one"*.
    pub fn grouped_by_rate(self) -> (b: bool)
        ensures
            b == (self.groups == Groups::AtLeastOne),
    {
        matches!(self.groups, Groups::AtLeastOne)
    }
}

/// The table row for `category`. The reconciler groups BG-23 from this same
/// table, so the two cannot disagree about which rows form one group.
pub fn profile(category: VatCategory) -> (p: CategoryProfile)
    ensures
        p == category_profile(category),
{
    let (groups, rate, tax) = match category {
        VatCategory::Standard => (Groups::AtLeastOne, RateRule::Positive, TaxRule::Derived),
        VatCategory::CanaryIslands | VatCategory::CeutaMelilla => (
            Groups::AtLeastOne,
            RateRule::ZeroOrPositive,
            TaxRule::Derived,
        ),
        VatCategory::ZeroRated | VatCategory::Exempt | VatCategory::ReverseCharge
        | VatCategory::IntraCommunity | VatCategory::Export => (
            Groups::ExactlyOne,
            RateRule::Zero,
            TaxRule::Zero,
        ),
        VatCategory::OutOfScope => (Groups::ExactlyOne, RateRule::Absent, TaxRule::Zero),
        VatCategory::SplitPayment => (
            Groups::AtLeastOne,
            RateRule::ZeroOrPositive,
            TaxRule::Derived,
        ),
    };
    CategoryProfile { category, groups, rate, tax }
}

// ── Rates compared by value ───────────────────────────────────────────────────

/// Two optional rates are the same: both absent, or both present and equal
/// in value.
pub open spec fn same_rate_opt(a: Option<Percentage>, b: Option<Percentage>) -> bool {
    match (a, b) {
        (None, None) => true,
        (Some(x), Some(y)) => x.same_rate(y),
        _ => false,
    }
}

/// Whether two optional rates are the same, by value.
pub fn rates_match(a: Option<Percentage>, b: Option<Percentage>) -> (r: bool)
    ensures
        r == same_rate_opt(a, b),
{
    match (a, b) {
        (None, None) => true,
        (Some(x), Some(y)) => {
            x.check_wf();
            y.check_wf();
            x.same(y)
        },
        _ => false,
    }
}

// ── Which rows belong to a group ──────────────────────────────────────────────

/// Whether a row with VAT `v` is in the group of `category` at `rate`; the
/// rate only counts when the category is grouped by rate.
pub open spec fn in_group(
    v: LineVat,
    category: VatCategory,
    by_rate: bool,
    rate: Option<Percentage>,
) -> bool {
    category_of_code(v.category@) == Some(category) && (!by_rate || same_rate_opt(v.rate, rate))
}

/// The net amounts of the lines in the group, in document order.
pub open spec fn line_amounts(
    lines: Seq<InvoiceLine>,
    category: VatCategory,
    by_rate: bool,
    rate: Option<Percentage>,
) -> Seq<InvoiceAmount>
    decreases lines.len(),
{
    if lines.len() == 0 {
        Seq::empty()
    } else {
        let rest = line_amounts(lines.drop_last(), category, by_rate, rate);
        if in_group(lines.last().vat, category, by_rate, rate) {
            rest.push(lines.last().net_amount)
        } else {
            rest
        }
    }
}

/// The amounts of the allowances or charges in the group, in document order.
pub open spec fn charge_amounts(
    rows: Seq<DocumentAllowanceCharge>,
    category: VatCategory,
    by_rate: bool,
    rate: Option<Percentage>,
) -> Seq<InvoiceAmount>
    decreases rows.len(),
{
    if rows.len() == 0 {
        Seq::empty()
    } else {
        let rest = charge_amounts(rows.drop_last(), category, by_rate, rate);
        if in_group(rows.last().vat, category, by_rate, rate) {
            rest.push(rows.last().amount)
        } else {
            rest
        }
    }
}

/// BT-116 for the group: Σ line net + Σ charges − Σ allowances, summed in
/// document order with every partial sum representable; `None` when one is
/// not.
pub open spec fn group_base(
    inv: Invoice,
    category: VatCategory,
    by_rate: bool,
    rate: Option<Percentage>,
) -> Option<int> {
    let pos = line_amounts(inv.lines@, category, by_rate, rate) + charge_amounts(
        inv.charges@,
        category,
        by_rate,
        rate,
    );
    let neg = charge_amounts(inv.allowances@, category, by_rate, rate);
    if sum_fits(pos) && sum_fits(neg) && fits_i64(sum_of(pos) - sum_of(neg)) {
        Some(sum_of(pos) - sum_of(neg))
    } else {
        None
    }
}

/// Whether a row's VAT puts it in the group.
fn belongs(v: &LineVat, category: VatCategory, by_rate: bool, rate: Option<Percentage>) -> (b:
    bool)
    ensures
        b == in_group(*v, category, by_rate, rate),
{
    v.semantics() == Some(category) && (!by_rate || rates_match(v.rate, rate))
}

/// The group's line net amounts followed by its charge amounts.
fn positive_amounts(
    inv: &Invoice,
    category: VatCategory,
    by_rate: bool,
    rate: Option<Percentage>,
) -> (v: Vec<InvoiceAmount>)
    ensures
        v@ == line_amounts(inv.lines@, category, by_rate, rate) + charge_amounts(
            inv.charges@,
            category,
            by_rate,
            rate,
        ),
{
    let mut v: Vec<InvoiceAmount> = Vec::new();
    let mut i: usize = 0;
    while i < inv.lines.len()
        invariant
            i <= inv.lines@.len(),
            v@ == line_amounts(inv.lines@.subrange(0, i as int), category, by_rate, rate),
        decreases inv.lines.len() - i,
    {
        assert(inv.lines@.subrange(0, i + 1).drop_last() =~= inv.lines@.subrange(0, i as int));
        if belongs(&inv.lines[i].vat, category, by_rate, rate) {
            v.push(inv.lines[i].net_amount);
        }
        i = i + 1;
    }
    assert(inv.lines@.subrange(0, inv.lines@.len() as int) =~= inv.lines@);
    let ghost lines_part = v@;
    let mut k: usize = 0;
    while k < inv.charges.len()
        invariant
            k <= inv.charges@.len(),
            v@ == lines_part + charge_amounts(
                inv.charges@.subrange(0, k as int),
                category,
                by_rate,
                rate,
            ),
        decreases inv.charges.len() - k,
    {
        assert(inv.charges@.subrange(0, k + 1).drop_last() =~= inv.charges@.subrange(0, k as int));
        if belongs(&inv.charges[k].vat, category, by_rate, rate) {
            v.push(inv.charges[k].amount);
            assert(v@ =~= lines_part + charge_amounts(
                inv.charges@.subrange(0, k + 1),
                category,
                by_rate,
                rate,
            ));
        }
        k = k + 1;
    }
    assert(inv.charges@.subrange(0, inv.charges@.len() as int) =~= inv.charges@);
    v
}

/// The group's allowance amounts.
fn allowance_amounts(
    inv: &Invoice,
    category: VatCategory,
    by_rate: bool,
    rate: Option<Percentage>,
) -> (v: Vec<InvoiceAmount>)
    ensures
        v@ == charge_amounts(inv.allowances@, category, by_rate, rate),
{
    let mut v: Vec<InvoiceAmount> = Vec::new();
    let mut k: usize = 0;
    while k < inv.allowances.len()
        invariant
            k <= inv.allowances@.len(),
            v@ == charge_amounts(inv.allowances@.subrange(0, k as int), category, by_rate, rate),
        decreases inv.allowances.len() - k,
    {
        assert(inv.allowances@.subrange(0, k + 1).drop_last() =~= inv.allowances@.subrange(
            0,
            k as int,
        ));
        if belongs(&inv.allowances[k].vat, category, by_rate, rate) {
            v.push(inv.allowances[k].amount);
        }
        k = k + 1;
    }
    assert(inv.allowances@.subrange(0, inv.allowances@.len() as int) =~= inv.allowances@);
    v
}

/// BT-116 for the group of `category` at `rate`, as the `-08` rows define it;
/// `None` when a partial sum does not fit an amount.
pub fn taxable_base(
    inv: &Invoice,
    category: VatCategory,
    by_rate: bool,
    rate: Option<Percentage>,
) -> (r: Option<InvoiceAmount>)
    ensures
        match group_base(*inv, category, by_rate, rate) {
            Some(v) => r matches Some(a) && a@ == v,
            None => r is None,
        },
{
    let pos = positive_amounts(inv, category, by_rate, rate);
    let neg = allowance_amounts(inv, category, by_rate, rate);
    match (InvoiceAmount::checked_sum(pos.as_slice()), InvoiceAmount::checked_sum(neg.as_slice())) {
        (Ok(p), Ok(n)) => match p.checked_sub(n) {
            Ok(v) => Some(v),
            Err(_) => None,
        },
        _ => None,
    }
}


// ── Shared checkers, one per row ──────────────────────────────────────────────

/// Whether a line, allowance or charge of `inv` carries `category`.
pub open spec fn content_uses(inv: Invoice, category: VatCategory) -> bool {
    ||| exists|i: int|
        0 <= i < inv.lines@.len() && category_of_code(#[trigger] inv.lines@[i].vat.category@)
            == Some(category)
    ||| exists|i: int|
        0 <= i < inv.allowances@.len() && category_of_code(
            #[trigger] inv.allowances@[i].vat.category@,
        ) == Some(category)
    ||| exists|i: int|
        0 <= i < inv.charges@.len() && category_of_code(#[trigger] inv.charges@[i].vat.category@)
            == Some(category)
}

/// How many of the first `n` breakdown groups carry `category`.
pub open spec fn groups_of(entries: Seq<VatBreakdown>, category: VatCategory, n: nat) -> nat
    decreases n,
{
    if n == 0 {
        0
    } else {
        groups_of(entries, category, (n - 1) as nat) + if category_of_code(
            entries[n - 1].category@,
        ) == Some(category) {
            1nat
        } else {
            0nat
        }
    }
}

/// Whether the document's lines, allowances or charges carry `category`.
fn used_in_content(inv: &Invoice, category: VatCategory) -> (b: bool)
    ensures
        b == content_uses(*inv, category),
{
    let mut i: usize = 0;
    while i < inv.lines.len()
        invariant
            i <= inv.lines@.len(),
            forall|k: int| 0 <= k < i ==> category_of_code(#[trigger] inv.lines@[k].vat.category@)
                != Some(category),
        decreases inv.lines.len() - i,
    {
        if inv.lines[i].vat.semantics() == Some(category) {
            return true;
        }
        i = i + 1;
    }
    let mut i: usize = 0;
    while i < inv.allowances.len()
        invariant
            i <= inv.allowances@.len(),
            forall|k: int| 0 <= k < i ==> category_of_code(
                #[trigger] inv.allowances@[k].vat.category@,
            ) != Some(category),
        decreases inv.allowances.len() - i,
    {
        if inv.allowances[i].vat.semantics() == Some(category) {
            return true;
        }
        i = i + 1;
    }
    let mut i: usize = 0;
    while i < inv.charges.len()
        invariant
            i <= inv.charges@.len(),
            forall|k: int| 0 <= k < i ==> category_of_code(
                #[trigger] inv.charges@[k].vat.category@,
            ) != Some(category),
        decreases inv.charges.len() - i,
    {
        if inv.charges[i].vat.semantics() == Some(category) {
            return true;
        }
        i = i + 1;
    }
    false
}

/// `-01` — the breakdown must hold the right number of groups for a category
/// the content uses. `Some(count)` — a finding at BG-23 stating how many
/// groups there are — when it does not.
pub fn check_groups(inv: &Invoice, p: CategoryProfile) -> (r: Option<usize>)
    ensures
        !content_uses(*inv, p.category) ==> r is None,
        content_uses(*inv, p.category) ==> {
            let n = groups_of(inv.vat_breakdown@, p.category, inv.vat_breakdown@.len());
            let ok = match p.groups {
                Groups::AtLeastOne => n >= 1,
                Groups::ExactlyOne => n == 1,
            };
            if ok {
                r is None
            } else {
                r == Some(n as usize)
            }
        },
{
    if !used_in_content(inv, p.category) {
        return None;
    }
    let mut count: usize = 0;
    let mut i: usize = 0;
    while i < inv.vat_breakdown.len()
        invariant
            i <= inv.vat_breakdown@.len(),
            count == groups_of(inv.vat_breakdown@, p.category, i as nat),
            count <= i,
        decreases inv.vat_breakdown.len() - i,
    {
        if inv.vat_breakdown[i].semantics() == Some(p.category) {
            count = count + 1;
        }
        i = i + 1;
    }
    let ok = match p.groups {
        Groups::AtLeastOne => count >= 1,
        Groups::ExactlyOne => count == 1,
    };
    if ok {
        None
    } else {
        Some(count)
    }
}

/// Which of a line, an allowance or a charge a rate or identifier rule
/// governs: `-05` / `-02` for the line, `-06` / `-03` for the allowance,
/// `-07` / `-04` for the charge.
#[derive(Debug, Clone, Copy, PartialEq, Eq, Structural)]
pub enum RateContext {
    /// BT-152 on an invoice line.
    Line,
    /// BT-96 on a document level allowance.
    Allowance,
    /// BT-103 on a document level charge.
    Charge,
}

/// Whether `rate` satisfies `rule`.
pub open spec fn rate_ok(rule: RateRule, rate: Option<Percentage>) -> bool {
    match rule {
        RateRule::Positive => rate matches Some(r) && r@.mantissa > 0,
        RateRule::Zero => rate matches Some(r) && r@.mantissa == 0,
        RateRule::ZeroOrPositive => rate matches Some(r) && r@.mantissa >= 0,
        RateRule::Absent => rate is None,
    }
}

/// Whether `rate` satisfies `rule`.
fn rate_satisfies(rule: RateRule, rate: Option<Percentage>) -> (b: bool)
    ensures
        b == rate_ok(rule, rate),
{
    match rule {
        RateRule::Positive => match rate {
            Some(r) => r.is_positive(),
            None => false,
        },
        RateRule::Zero => match rate {
            Some(r) => r.is_zero(),
            None => false,
        },
        RateRule::ZeroOrPositive => match rate {
            Some(r) => !r.is_negative(),
            None => false,
        },
        RateRule::Absent => rate.is_none(),
    }
}

/// The VAT of each element of the context's collection.
pub open spec fn context_vats(inv: Invoice, ctx: RateContext) -> Seq<LineVat> {
    match ctx {
        RateContext::Line => inv.lines@.map_values(|l: InvoiceLine| l.vat),
        RateContext::Allowance => inv.allowances@.map_values(|a: DocumentAllowanceCharge| a.vat),
        RateContext::Charge => inv.charges@.map_values(|c: DocumentAllowanceCharge| c.vat),
    }
}

/// The path of the rate term of element `i` of the context's collection.
pub open spec fn rate_path(ctx: RateContext, i: int) -> Path {
    match ctx {
        RateContext::Line => Path { group: Group::Line, index: Some(i as usize), term: Some(BtId(152)) },
        RateContext::Allowance => Path {
            group: Group::DocumentAllowance,
            index: Some(i as usize),
            term: Some(BtId(96)),
        },
        RateContext::Charge => Path {
            group: Group::DocumentCharge,
            index: Some(i as usize),
            term: Some(BtId(103)),
        },
    }
}

/// The rate findings among the first `n` elements.
pub open spec fn rate_failures(vats: Seq<LineVat>, p: CategoryProfile, ctx: RateContext, n: nat) -> Seq<
    Path,
>
    decreases n,
{
    if n == 0 {
        Seq::empty()
    } else {
        let rest = rate_failures(vats, p, ctx, (n - 1) as nat);
        let v = vats[n - 1];
        if category_of_code(v.category@) == Some(p.category) && !rate_ok(p.rate, v.rate) {
            rest.push(rate_path(ctx, n - 1))
        } else {
            rest
        }
    }
}

/// The VATs of the context's collection.
fn vats_of(inv: &Invoice, ctx: RateContext) -> (v: Vec<LineVat>)
    ensures
        v@ == context_vats(*inv, ctx),
{
    let mut v: Vec<LineVat> = Vec::new();
    let n = match ctx {
        RateContext::Line => inv.lines.len(),
        RateContext::Allowance => inv.allowances.len(),
        RateContext::Charge => inv.charges.len(),
    };
    let mut i: usize = 0;
    while i < n
        invariant
            i <= n,
            n == context_vats(*inv, ctx).len(),
            v@ == context_vats(*inv, ctx).subrange(0, i as int),
        decreases n - i,
    {
        let vat = match ctx {
            RateContext::Line => inv.lines[i].vat.clone(),
            RateContext::Allowance => inv.allowances[i].vat.clone(),
            RateContext::Charge => inv.charges[i].vat.clone(),
        };
        v.push(vat);
        assert(v@ =~= context_vats(*inv, ctx).subrange(0, i + 1));
        i = i + 1;
    }
    assert(context_vats(*inv, ctx).subrange(0, n as int) =~= context_vats(*inv, ctx));
    v
}

/// `-05` / `-06` / `-07` — the rate of every element in the category, in one
/// of the three contexts. Returns the paths of the failing rates.
pub fn check_rate(inv: &Invoice, p: CategoryProfile, ctx: RateContext) -> (r: Vec<Path>)
    ensures
        r@ == rate_failures(context_vats(*inv, ctx), p, ctx, context_vats(*inv, ctx).len()),
{
    let vats = vats_of(inv, ctx);
    let mut out: Vec<Path> = Vec::new();
    let mut i: usize = 0;
    while i < vats.len()
        invariant
            i <= vats@.len(),
            vats@ == context_vats(*inv, ctx),
            out@ == rate_failures(vats@, p, ctx, i as nat),
        decreases vats.len() - i,
    {
        if vats[i].semantics() == Some(p.category) && !rate_satisfies(p.rate, vats[i].rate) {
            let path = match ctx {
                RateContext::Line => Path::at_term(Group::Line, i, BtId(152)),
                RateContext::Allowance => Path::at_term(Group::DocumentAllowance, i, BtId(96)),
                RateContext::Charge => Path::at_term(Group::DocumentCharge, i, BtId(103)),
            };
            out.push(path);
        }
        i = i + 1;
    }
    out
}

/// What the `-02` / `-03` / `-04` rows require of the seller's and buyer's
/// tax identifiers.
#[derive(Debug, Clone, Copy, PartialEq, Eq, Structural)]
pub enum IdentifierRule {
    /// `S`, `Z`, `E`, `AF`, `AG`: BT-31, BT-32 **or** BT-63.
    SellerAny,
    /// `G`: BT-31 **or** BT-63.
    SellerVatOnly,
    /// `AE`: the seller set **and** (BT-48 or BT-47).
    SellerAnyAndBuyer,
    /// `IC`: (BT-31 or BT-63) **and** BT-48.
    SellerVatAndBuyerVat,
    /// `O`: BT-31, BT-63 and BT-48 shall **not** be present at all.
    NoneAllowed,
}

/// The `-02` / `-03` / `-04` requirement for a category.
pub open spec fn category_identifier_rule(c: VatCategory) -> IdentifierRule {
    match c {
        VatCategory::Export => IdentifierRule::SellerVatOnly,
        VatCategory::ReverseCharge => IdentifierRule::SellerAnyAndBuyer,
        VatCategory::IntraCommunity => IdentifierRule::SellerVatAndBuyerVat,
        VatCategory::OutOfScope => IdentifierRule::NoneAllowed,
        _ => IdentifierRule::SellerAny,
    }
}

/// The `-02` / `-03` / `-04` requirement for a category.
fn identifier_rule(category: VatCategory) -> (r: IdentifierRule)
    ensures
        r == category_identifier_rule(category),
{
    match category {
        VatCategory::Export => IdentifierRule::SellerVatOnly,
        VatCategory::ReverseCharge => IdentifierRule::SellerAnyAndBuyer,
        VatCategory::IntraCommunity => IdentifierRule::SellerVatAndBuyerVat,
        VatCategory::OutOfScope => IdentifierRule::NoneAllowed,
        _ => IdentifierRule::SellerAny,
    }
}

/// Whether the identifiers of `inv` satisfy `rule`.
pub open spec fn identifiers_ok(inv: Invoice, rule: IdentifierRule) -> bool {
    let seller_vat = inv.seller.vat_identifier is Some;
    let seller_tax = inv.seller.tax_registration is Some;
    let rep_vat = inv.tax_representative matches Some(r) && r.vat_identifier is Some;
    let buyer_vat = inv.buyer.vat_identifier is Some;
    let buyer_legal = inv.buyer.legal_registration is Some;
    match rule {
        IdentifierRule::SellerAny => seller_vat || seller_tax || rep_vat,
        IdentifierRule::SellerVatOnly => seller_vat || rep_vat,
        IdentifierRule::SellerAnyAndBuyer => (seller_vat || seller_tax || rep_vat) && (buyer_vat
            || buyer_legal),
        IdentifierRule::SellerVatAndBuyerVat => (seller_vat || rep_vat) && buyer_vat,
        IdentifierRule::NoneAllowed => !seller_vat && !rep_vat && !buyer_vat,
    }
}

/// `-02` / `-03` / `-04` — the identifier requirement, when an element of the
/// context is in the category. `Some(BG-4/BT-31)` when it fails.
pub fn check_identifiers(inv: &Invoice, p: CategoryProfile, ctx: RateContext) -> (r: Option<
    Path,
>)
    ensures
        r is Some <==> ((exists|i: int|
            0 <= i < context_vats(*inv, ctx).len() && category_of_code(
                #[trigger] context_vats(*inv, ctx)[i].category@,
            ) == Some(p.category)) && !identifiers_ok(*inv, category_identifier_rule(p.category))),
        r matches Some(path) ==> path == (Path {
            group: Group::Seller,
            index: None,
            term: Some(BtId(31)),
        }),
{
    let vats = vats_of(inv, ctx);
    let mut present = false;
    let mut i: usize = 0;
    while i < vats.len()
        invariant
            i <= vats@.len(),
            vats@ == context_vats(*inv, ctx),
            present == exists|k: int|
                0 <= k < i && category_of_code(#[trigger] vats@[k].category@) == Some(p.category),
        decreases vats.len() - i,
    {
        if vats[i].semantics() == Some(p.category) {
            present = true;
        }
        i = i + 1;
    }
    if !present {
        return None;
    }
    let seller_vat = inv.seller.vat_identifier.is_some();
    let seller_tax = inv.seller.tax_registration.is_some();
    let rep_vat = match &inv.tax_representative {
        Some(r) => r.vat_identifier.is_some(),
        None => false,
    };
    let buyer_vat = inv.buyer.vat_identifier.is_some();
    let buyer_legal = inv.buyer.legal_registration.is_some();
    let ok = match identifier_rule(p.category) {
        IdentifierRule::SellerAny => seller_vat || seller_tax || rep_vat,
        IdentifierRule::SellerVatOnly => seller_vat || rep_vat,
        IdentifierRule::SellerAnyAndBuyer => (seller_vat || seller_tax || rep_vat) && (buyer_vat
            || buyer_legal),
        IdentifierRule::SellerVatAndBuyerVat => (seller_vat || rep_vat) && buyer_vat,
        IdentifierRule::NoneAllowed => !seller_vat && !rep_vat && !buyer_vat,
    };
    if ok {
        None
    } else {
        Some(Path::group_term(Group::Seller, BtId(31)))
    }
}

/// `-10` — the exemption reason findings among the first `n` groups.
pub open spec fn reason_failures(entries: Seq<VatBreakdown>, c: VatCategory, n: nat) -> Seq<Path>
    decreases n,
{
    if n == 0 {
        Seq::empty()
    } else {
        let rest = reason_failures(entries, c, (n - 1) as nat);
        let e = entries[n - 1];
        let has = e.exemption_reason is Some || e.exemption_reason_code is Some;
        if category_of_code(e.category@) == Some(c) && ((category_requires_reason(c) && !has) || (
        category_forbids_reason(c) && has)) {
            rest.push(Path { group: Group::VatBreakdown, index: Some((n - 1) as usize), term: Some(BtId(120)) })
        } else {
            rest
        }
    }
}

/// `-10` — whether an exemption reason is required or forbidden. Returns
/// the BT-120 paths of the groups that get it wrong.
pub fn check_exemption_reason(inv: &Invoice, p: CategoryProfile) -> (r: Vec<Path>)
    ensures
        r@ == reason_failures(inv.vat_breakdown@, p.category, inv.vat_breakdown@.len()),
{
    let mut out: Vec<Path> = Vec::new();
    let mut i: usize = 0;
    while i < inv.vat_breakdown.len()
        invariant
            i <= inv.vat_breakdown@.len(),
            out@ == reason_failures(inv.vat_breakdown@, p.category, i as nat),
        decreases inv.vat_breakdown.len() - i,
    {
        let entry = &inv.vat_breakdown[i];
        if entry.semantics() == Some(p.category) {
            let has = entry.has_exemption_reason();
            let bad = (p.category.requires_exemption_reason() && !has) || (
            p.category.forbids_exemption_reason() && has);
            if bad {
                out.push(Path::at_term(Group::VatBreakdown, i, BtId(120)));
            }
        }
        i = i + 1;
    }
    out
}


/// `|x|`.
pub open spec fn abs_int(x: int) -> int {
    if x < 0 {
        -x
    } else {
        x
    }
}

/// The `-08` scan over the first `n` breakdown groups: the findings so far,
/// each `(group index, expected BT-116)`, and whether the scan stopped at a
/// group whose expected base does not fit an amount.
pub open spec fn taxable_scan(inv: Invoice, p: CategoryProfile, n: nat) -> (Seq<(int, int)>, bool)
    decreases n,
{
    if n == 0 {
        (Seq::empty(), false)
    } else {
        let (found, stopped) = taxable_scan(inv, p, (n - 1) as nat);
        let e = inv.vat_breakdown@[n - 1];
        if stopped || category_of_code(e.category@) != Some(p.category) {
            (found, stopped)
        } else {
            match group_base(inv, p.category, p.groups == Groups::AtLeastOne, e.rate) {
                None => (found, true),
                Some(x) => if abs_int(x - e.taxable_amount@) >= 100 {
                    (found.push((n - 1, x)), false)
                } else {
                    (found, false)
                },
            }
        }
    }
}

/// `-08` — BT-116 equals Σ line net + Σ charges − Σ allowances for the
/// category (and, for the categories that may repeat, the rate), within
/// ±1.00 on absolute values.
///
/// The keystone: the only rule tying the lines to the breakdown. Returns each
/// failing group's BT-116 path with the expected amount. A group whose
/// expected base cannot be summed ends the check.
pub fn check_taxable_amount(inv: &Invoice, p: CategoryProfile) -> (r: Vec<(Path, InvoiceAmount)>)
    ensures
        r@.len() == taxable_scan(*inv, p, inv.vat_breakdown@.len()).0.len(),
        forall|k: int|
            0 <= k < r@.len() ==> {
                let (i, x) = #[trigger] taxable_scan(*inv, p, inv.vat_breakdown@.len()).0[k];
                &&& r@[k].0 == (Path {
                    group: Group::VatBreakdown,
                    index: Some(i as usize),
                    term: Some(BtId(116)),
                })
                &&& r@[k].1@ == x
            },
{
    let by_rate = p.grouped_by_rate();
    let mut out: Vec<(Path, InvoiceAmount)> = Vec::new();
    let mut i: usize = 0;
    while i < inv.vat_breakdown.len()
        invariant
            i <= inv.vat_breakdown@.len(),
            by_rate == (p.groups == Groups::AtLeastOne),
            !taxable_scan(*inv, p, i as nat).1,
            out@.len() == taxable_scan(*inv, p, i as nat).0.len(),
            forall|k: int|
                0 <= k < out@.len() ==> {
                    let (j, x) = #[trigger] taxable_scan(*inv, p, i as nat).0[k];
                    &&& out@[k].0 == (Path {
                        group: Group::VatBreakdown,
                        index: Some(j as usize),
                        term: Some(BtId(116)),
                    })
                    &&& out@[k].1@ == x
                },
        decreases inv.vat_breakdown.len() - i,
    {
        let entry = &inv.vat_breakdown[i];
        if entry.semantics() == Some(p.category) {
            match taxable_base(inv, p.category, by_rate, entry.rate) {
                None => {
                    proof {
                        lemma_scan_stays_stopped(*inv, p, (i + 1) as nat, inv.vat_breakdown@.len());
                    }
                    return out;
                },
                Some(expected) => {
                    let diff: i128 = expected.to_minor_units() as i128
                        - entry.taxable_amount.to_minor_units() as i128;
                    if diff >= 100 || diff <= -100 {
                        out.push((Path::at_term(Group::VatBreakdown, i, BtId(116)), expected));
                    }
                },
            }
        }
        i = i + 1;
    }
    out
}

/// Once the `-08` scan stops, it stays stopped with the same findings.
proof fn lemma_scan_stays_stopped(inv: Invoice, p: CategoryProfile, m: nat, n: nat)
    requires
        m <= n,
        taxable_scan(inv, p, m).1,
    ensures
        taxable_scan(inv, p, n) == taxable_scan(inv, p, m),
    decreases n - m,
{
    if m < n {
        lemma_scan_stays_stopped(inv, p, m + 1, n);
    }
}


// ── The VAT derivation, as the artefacts write it ─────────────────────────────

/// XPath's `fn:round` of `m × 10^-s`: the closest integer, ties going
/// towards **+∞** — `floor(x + 0.5)`, the specification's own definition.
/// Neither banker's rounding nor half away from zero matches it: XPath
/// rounds `2.5` to `3` and `-0.5` to `0`.
pub open spec fn xpath_round(m: int, s: nat) -> int {
    (2 * m + pow10(s)) / (2 * pow10(s))
}

/// A group's rate, zero when it states none.
pub open spec fn group_rate(e: VatBreakdown) -> Dec {
    match e.rate {
        Some(r) => r@,
        None => Dec { mantissa: 0, scale: 0 },
    }
}

/// The artefacts' derived VAT of a group, in hundredths of the currency:
/// `round(|BT-116| × BT-119)`, the product by `rust_decimal`, the rounding
/// XPath's — which is `round(|BT-116| × BT-119 ÷ 100 × 100) ÷ 100` with one
/// fewer division. `None` when the product overflows: the group cannot be
/// judged, and the groups after it still are.
pub open spec fn derived_vat(e: VatBreakdown) -> Option<int> {
    let rate = group_rate(e);
    match decimal_checked_mul(abs_int(e.taxable_amount@), 2, rate.mantissa as int, rate.scale as int) {
        Some((m, s)) => Some(xpath_round(m, s as nat)),
        None => None,
    }
}

/// Whether a stated tax is within the artefacts' ±1.00 of the derived one,
/// both taken absolute. The artefacts write two strict inequalities, so a
/// difference of exactly 1.00 is a finding.
pub open spec fn within_vat_tolerance(stated: InvoiceAmount, expected: int) -> bool {
    abs_int(abs_int(stated@) - expected) < 100
}

/// [`xpath_round`] of a decimal, computed exactly.
pub fn xpath_round_dec(d: Dec) -> (r: i128)
    requires
        d.wf(),
    ensures
        r == xpath_round(d.mantissa as int, d.scale as nat),
        -MAX_MANTISSA <= r <= MAX_MANTISSA,
{
    proof {
        lemma_pow10_bound(d.scale as nat);
    }
    let u: i128 = pow10_exec(d.scale);
    let num: i128 = 2 * d.mantissa + u;
    let den: i128 = 2 * u;
    let ghost q = xpath_round(d.mantissa as int, d.scale as nat);
    proof {
        assert(q == num as int / den as int);
        lemma_fundamental_div_mod(num as int, den as int);
        lemma_mod_bound(num as int, den as int);
        let rem = num as int % den as int;
        assert(num == den * q + rem);
        assert(0 <= rem < den);
        assert(-MAX_MANTISSA <= q <= MAX_MANTISSA) by (nonlinear_arith)
            requires
                num == den * q + rem,
                0 <= rem < den,
                den == 2 * u,
                u >= 1,
                num == 2 * d.mantissa + u,
                -MAX_MANTISSA <= d.mantissa <= MAX_MANTISSA,
        ;
    }
    if num >= 0 {
        let a = num as u128;
        let b = den as u128;
        let r = a / b;
        proof {
            lemma_fundamental_div_mod(a as int, b as int);
            lemma_mod_bound(a as int, b as int);
            lemma_div_unique(num as int, den as int, r as int, (a % b) as int);
        }
        r as i128
    } else {
        let a = (-num) as u128;
        let b = den as u128;
        let r = a / b;
        let m = a % b;
        proof {
            lemma_fundamental_div_mod(a as int, b as int);
            lemma_mod_bound(a as int, b as int);
            assert(a as int == b as int * (r as int) + m as int);
            assert(r as int * b as int <= a as int) by (nonlinear_arith)
                requires
                    a as int == b as int * (r as int) + m as int,
                    0 <= m,
            ;
        }
        if m == 0 {
            proof {
                assert(num as int == den as int * (-(r as int)) + 0) by (nonlinear_arith)
                    requires
                        a as int == b as int * (r as int) + m as int,
                        m == 0,
                        a as int == -(num as int),
                        b as int == den as int,
                ;
                lemma_div_unique(num as int, den as int, -(r as int), 0);
            }
            -(r as i128)
        } else {
            proof {
                assert(num as int == den as int * (-(r as int) - 1) + (den as int - m as int)) by (nonlinear_arith)
                    requires
                        a as int == b as int * (r as int) + m as int,
                        a as int == -(num as int),
                        b as int == den as int,
                ;
                lemma_div_unique(num as int, den as int, -(r as int) - 1, den - m as int);
            }
            -((r + 1) as i128)
        }
    }
}

/// The uniqueness of Euclidean quotient and remainder.
proof fn lemma_div_unique(x: int, d: int, q: int, r: int)
    requires
        d > 0,
        x == d * q + r,
        0 <= r < d,
    ensures
        x / d == q,
{
    lemma_fundamental_div_mod(x, d);
    lemma_mod_bound(x, d);
    let q0 = x / d;
    let r0 = x % d;
    assert(q0 == q) by (nonlinear_arith)
        requires
            x == d * q + r,
            x == d * q0 + r0,
            0 <= r < d,
            0 <= r0 < d,
    ;
}

/// The derived VAT of a group, in hundredths; `None` when the product
/// overflows.
pub fn derived_vat_of(e: &VatBreakdown) -> (r: Option<i128>)
    ensures
        match derived_vat(*e) {
            Some(x) => r == Some(x as i128) && -MAX_MANTISSA <= x <= MAX_MANTISSA,
            None => r is None,
        },
{
    let rate = match e.rate {
        Some(r) => {
            r.check_wf();
            r.into_decimal()
        },
        None => Dec::zero(),
    };
    let t = e.taxable_amount.to_minor_units();
    let base = Dec { mantissa: if t < 0 { -(t as i128) } else { t as i128 }, scale: 2 };
    match dec_checked_mul(base, rate) {
        Some(v) => Some(xpath_round_dec(v)),
        None => None,
    }
}

/// Whether a stated tax is off the derived one by a full currency unit or
/// more, both taken absolute.
pub fn outside_vat_tolerance(stated: InvoiceAmount, expected: i128) -> (b: bool)
    requires
        -MAX_MANTISSA <= expected <= MAX_MANTISSA,
    ensures
        b == !within_vat_tolerance(stated, expected as int),
{
    let s: i128 = stated.to_minor_units() as i128;
    let a: i128 = if s < 0 {
        -s
    } else {
        s
    };
    let d: i128 = a - expected;
    d >= 100 || d <= -100
}

/// The `-09` scan over the first `n` breakdown groups: the indices of the
/// groups of the category that fail. A zero-tax category's group fails when
/// its tax is not exactly zero; a taxed one's when its tax is outside the
/// tolerance of the derived VAT. A group whose product overflows is passed
/// over.
pub open spec fn tax_scan(inv: Invoice, p: CategoryProfile, n: nat) -> Seq<int>
    decreases n,
{
    if n == 0 {
        Seq::empty()
    } else {
        let found = tax_scan(inv, p, (n - 1) as nat);
        let e = inv.vat_breakdown@[n - 1];
        if category_of_code(e.category@) != Some(p.category) {
            found
        } else {
            match p.tax {
                TaxRule::Zero => if e.tax_amount@ != 0 {
                    found.push(n - 1)
                } else {
                    found
                },
                TaxRule::Derived => match derived_vat(e) {
                    None => found,
                    Some(x) => if !within_vat_tolerance(e.tax_amount, x) {
                        found.push(n - 1)
                    } else {
                        found
                    },
                },
            }
        }
    }
}

/// `-09` — the tax amount: exactly zero for the zero-tax categories, and
/// within ±1.00 of the derived VAT, both sides absolute, for the taxed ones.
/// Returns the BT-117 paths of the failing groups.
pub fn check_tax_amount(inv: &Invoice, p: CategoryProfile) -> (r: Vec<Path>)
    ensures
        r@.len() == tax_scan(*inv, p, inv.vat_breakdown@.len()).len(),
        forall|k: int|
            0 <= k < r@.len() ==> r@[k] == (Path {
                group: Group::VatBreakdown,
                index: Some((#[trigger] tax_scan(*inv, p, inv.vat_breakdown@.len())[k]) as usize),
                term: Some(BtId(117)),
            }),
{
    let mut out: Vec<Path> = Vec::new();
    let mut i: usize = 0;
    while i < inv.vat_breakdown.len()
        invariant
            i <= inv.vat_breakdown@.len(),
            out@.len() == tax_scan(*inv, p, i as nat).len(),
            forall|k: int|
                0 <= k < out@.len() ==> out@[k] == (Path {
                    group: Group::VatBreakdown,
                    index: Some((#[trigger] tax_scan(*inv, p, i as nat)[k]) as usize),
                    term: Some(BtId(117)),
                }),
        decreases inv.vat_breakdown.len() - i,
    {
        let entry = &inv.vat_breakdown[i];
        if entry.semantics() == Some(p.category) {
            match p.tax {
                TaxRule::Zero => {
                    if !entry.tax_amount.is_zero() {
                        out.push(Path::at_term(Group::VatBreakdown, i, BtId(117)));
                    }
                },
                TaxRule::Derived => {
                    match derived_vat_of(entry) {
                        None => {},
                        Some(x) => {
                            if outside_vat_tolerance(entry.tax_amount, x) {
                                out.push(Path::at_term(Group::VatBreakdown, i, BtId(117)));
                            }
                        },
                    }
                },
            }
        }
        i = i + 1;
    }
    out
}


// ── `B` and the exclusivity of `O` ────────────────────────────────────────────

/// Whether `c` is present and is exactly the country code `IT`.
pub open spec fn is_italian(c: Option<Code>) -> bool {
    c matches Some(code) && code@ == "IT"@
}

/// `BR-B-01` — a split-payment invoice is a domestic Italian invoice: when
/// the content uses `B`, both the seller's and the buyer's country must be
/// `IT`. `Some(BT-3)` when it is not.
pub fn br_b_01(inv: &Invoice) -> (r: Option<Path>)
    ensures
        r is Some <==> (content_uses(*inv, VatCategory::SplitPayment) && !(is_italian(
            inv.seller.address.country,
        ) && is_italian(inv.buyer.address.country))),
        r matches Some(p) ==> p == (Path { group: Group::Document, index: None, term: Some(BtId(3)) }),
{
    if !used_in_content(inv, VatCategory::SplitPayment) {
        return None;
    }
    let seller_it = match &inv.seller.address.country {
        Some(c) => str_eq(c.as_str(), "IT"),
        None => false,
    };
    let buyer_it = match &inv.buyer.address.country {
        Some(c) => str_eq(c.as_str(), "IT"),
        None => false,
    };
    if !seller_it || !buyer_it {
        Some(Path::term(BtId(3)))
    } else {
        None
    }
}

/// What a sequence holds after a push.
proof fn lemma_contains_push(s: Seq<VatCategory>, y: VatCategory)
    ensures
        forall|x: VatCategory| #[trigger] s.push(y).contains(x) <==> (s.contains(x) || y == x),
{
    assert forall|x: VatCategory| #[trigger] s.push(y).contains(x) <==> (s.contains(x) || y == x) by {
        if s.push(y).contains(x) {
            let k = choose|k: int| 0 <= k < s.push(y).len() && s.push(y)[k] == x;
            if k < s.len() {
                assert(s[k] == x);
            }
        }
        if s.contains(x) {
            let k = choose|k: int| 0 <= k < s.len() && s[k] == x;
            assert(s.push(y)[k] == x);
        }
        if y == x {
            assert(s.push(y)[s.len() as int] == x);
        }
    }
}

/// `BR-B-02` — split payment and the standard rate cannot coexist.
/// `Some(BG-23)` when a document uses both.
pub fn br_b_02(inv: &Invoice) -> (r: Option<Path>)
    ensures
        r is Some <==> (uses_category(*inv, VatCategory::SplitPayment) && uses_category(
            *inv,
            VatCategory::Standard,
        )),
        r matches Some(p) ==> p == (Path { group: Group::VatBreakdown, index: None, term: None }),
{
    let used = inv.categories_used();
    let mut has_b = false;
    let mut has_s = false;
    let mut i: usize = 0;
    while i < used.len()
        invariant
            i <= used@.len(),
            has_b == used@.subrange(0, i as int).contains(VatCategory::SplitPayment),
            has_s == used@.subrange(0, i as int).contains(VatCategory::Standard),
        decreases used.len() - i,
    {
        assert(used@.subrange(0, i + 1) =~= used@.subrange(0, i as int).push(used@[i as int]));
        proof {
            lemma_contains_push(used@.subrange(0, i as int), used@[i as int]);
        }
        if used[i] == VatCategory::SplitPayment {
            has_b = true;
        }
        if used[i] == VatCategory::Standard {
            has_s = true;
        }
        i = i + 1;
    }
    assert(used@.subrange(0, used@.len() as int) =~= used@);
    if has_b && has_s {
        Some(Path::group(Group::VatBreakdown))
    } else {
        None
    }
}

/// The paths of the first `n` rows whose category is not `c`.
pub open spec fn other_category_paths(
    vats: Seq<LineVat>,
    c: VatCategory,
    group: Group,
    term: BtId,
    n: nat,
) -> Seq<Path>
    decreases n,
{
    if n == 0 {
        Seq::empty()
    } else {
        let rest = other_category_paths(vats, c, group, term, (n - 1) as nat);
        if category_of_code(vats[n - 1].category@) != Some(c) {
            rest.push(Path { group, index: Some((n - 1) as usize), term: Some(term) })
        } else {
            rest
        }
    }
}

/// The paths of the rows of `vats` whose category is not `c`.
fn other_category(vats: &Vec<LineVat>, c: VatCategory, group: Group, term: BtId) -> (r: Vec<Path>)
    ensures
        r@ == other_category_paths(vats@, c, group, term, vats@.len()),
{
    let mut out: Vec<Path> = Vec::new();
    let mut i: usize = 0;
    while i < vats.len()
        invariant
            i <= vats@.len(),
            out@ == other_category_paths(vats@, c, group, term, i as nat),
        decreases vats.len() - i,
    {
        if vats[i].semantics() != Some(c) {
            out.push(Path::at_term(group, i, term));
        }
        i = i + 1;
    }
    out
}

/// Whether the breakdown has an `O` group.
pub open spec fn has_out_of_scope_group(inv: Invoice) -> bool {
    exists|i: int|
        0 <= i < inv.vat_breakdown@.len() && category_of_code(
            #[trigger] inv.vat_breakdown@[i].category@,
        ) == Some(VatCategory::OutOfScope)
}

/// Whether the breakdown has an `O` group, which `BR-O-11` … `BR-O-14` turn on.
fn out_of_scope_group(inv: &Invoice) -> (b: bool)
    ensures
        b == has_out_of_scope_group(*inv),
{
    let mut i: usize = 0;
    while i < inv.vat_breakdown.len()
        invariant
            i <= inv.vat_breakdown@.len(),
            forall|k: int| 0 <= k < i ==> category_of_code(
                #[trigger] inv.vat_breakdown@[k].category@,
            ) != Some(VatCategory::OutOfScope),
        decreases inv.vat_breakdown.len() - i,
    {
        if inv.vat_breakdown[i].semantics() == Some(VatCategory::OutOfScope) {
            return true;
        }
        i = i + 1;
    }
    false
}

/// The VATs of the breakdown groups, as rows.
pub open spec fn breakdown_vats(inv: Invoice) -> Seq<LineVat> {
    inv.vat_breakdown@.map_values(|e: VatBreakdown| LineVat { category: e.category, rate: e.rate })
}

/// `BR-O-11` — an `O` breakdown group excludes every other group. The BT-118
/// paths of the others, when there is an `O` group and more than one group.
pub fn br_o_11(inv: &Invoice) -> (r: Vec<Path>)
    ensures
        (has_out_of_scope_group(*inv) && inv.vat_breakdown@.len() > 1) ==> r@
            == other_category_paths(
            breakdown_vats(*inv),
            VatCategory::OutOfScope,
            Group::VatBreakdown,
            BtId(118),
            inv.vat_breakdown@.len(),
        ),
        !(has_out_of_scope_group(*inv) && inv.vat_breakdown@.len() > 1) ==> r@.len() == 0,
{
    if !out_of_scope_group(inv) || inv.vat_breakdown.len() <= 1 {
        return Vec::new();
    }
    let mut vats: Vec<LineVat> = Vec::new();
    let mut i: usize = 0;
    while i < inv.vat_breakdown.len()
        invariant
            i <= inv.vat_breakdown@.len(),
            vats@ == breakdown_vats(*inv).subrange(0, i as int),
        decreases inv.vat_breakdown.len() - i,
    {
        let e = &inv.vat_breakdown[i];
        vats.push(LineVat { category: e.category.clone(), rate: e.rate });
        assert(vats@ =~= breakdown_vats(*inv).subrange(0, i + 1));
        i = i + 1;
    }
    assert(breakdown_vats(*inv).subrange(0, inv.vat_breakdown@.len() as int) =~= breakdown_vats(
        *inv,
    ));
    other_category(&vats, VatCategory::OutOfScope, Group::VatBreakdown, BtId(118))
}

/// `BR-O-12`, `BR-O-13` and `BR-O-14` — with an `O` breakdown group, no line
/// (BT-151), allowance (BT-95) or charge (BT-102) may be in another category.
/// The paths of those that are, for the context's collection.
pub fn br_o_content(inv: &Invoice, ctx: RateContext) -> (r: Vec<Path>)
    ensures
        has_out_of_scope_group(*inv) ==> r@ == other_category_paths(
            context_vats(*inv, ctx),
            VatCategory::OutOfScope,
            match ctx {
                RateContext::Line => Group::Line,
                RateContext::Allowance => Group::DocumentAllowance,
                RateContext::Charge => Group::DocumentCharge,
            },
            match ctx {
                RateContext::Line => BtId(151),
                RateContext::Allowance => BtId(95),
                RateContext::Charge => BtId(102),
            },
            context_vats(*inv, ctx).len(),
        ),
        !has_out_of_scope_group(*inv) ==> r@.len() == 0,
{
    if !out_of_scope_group(inv) {
        return Vec::new();
    }
    let vats = vats_of(inv, ctx);
    match ctx {
        RateContext::Line => other_category(&vats, VatCategory::OutOfScope, Group::Line, BtId(151)),
        RateContext::Allowance => other_category(
            &vats,
            VatCategory::OutOfScope,
            Group::DocumentAllowance,
            BtId(95),
        ),
        RateContext::Charge => other_category(
            &vats,
            VatCategory::OutOfScope,
            Group::DocumentCharge,
            BtId(102),
        ),
    }
}

} // verus!

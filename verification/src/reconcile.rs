//! Deriving BG-23 and BG-22 from the lines — the arithmetic every hand-mapper
//! otherwise re-implements.
//!
//! `BR-CO-10` … `BR-CO-16`, the `-08` and `-09` rows of the category families
//! and `BR-CO-18` are one function of the lines, allowances and charges. It
//! computes the amounts; it does **not** invent an exemption reason, a due
//! date or a VAT identifier. Grouping comes from
//! [`profile`](crate::validation::rules::category::profile) — the same table
//! the `-08` rows check against — so the two cannot disagree.

use vstd::prelude::*;

use crate::amount::{InvoiceAmount, fits_i64, lemma_amount_view_eq, scaled_amount, sum_fits, sum_of};
use crate::bt::{BtId, Group, Path};
use crate::codes::{
    VatCategory, category_carries_tax, category_code, category_forbids_reason, category_of_code,
};
use crate::decimal::{
    Dec, dec_checked_div, dec_checked_mul, dec_round_dp_away, decimal_checked_div,
    decimal_checked_mul, rounded,
};
use crate::identifier::{opt_view, owned};
use crate::invoice::{
    Code, DocumentAllowanceCharge, DocumentTotals, Invoice, InvoiceLine, LineVat, VatBreakdown,
};
use crate::numeric::Percentage;
use crate::text::{chars_eq, chars_of, push_str, string_of};
use crate::validation::rules::category::{
    CategoryProfile, Groups, TaxRule, category_profile, group_base, in_group, profile,
    same_rate_opt, taxable_base,
};

verus! {

// ── Errors ────────────────────────────────────────────────────────────────────

/// Why an invoice could not be reconciled: the arithmetic cannot be
/// performed at all. Every variant is something validation would also report.
#[derive(Debug, Clone, PartialEq, Eq)]
#[non_exhaustive]
pub enum ReconcileError {
    /// A line, allowance or charge carries a VAT category outside UNCL 5305.
    UnknownCategory {
        /// Which element.
        at: Path,
        /// The code found.
        code: String,
    },
    /// A taxed category with no rate to multiply by; defaulting it to zero
    /// would silently under-declare VAT.
    MissingRate {
        /// Which element.
        at: Path,
        /// The category that needs one.
        category: VatCategory,
    },
    /// A sum did not fit in [`InvoiceAmount`], or an intermediate overflowed.
    Overflow {
        /// Which business term was being computed.
        term: &'static str,
    },
}

/// What a reconciliation error says.
pub open spec fn reconcile_error_text(e: ReconcileError) -> Seq<char> {
    match e {
        ReconcileError::UnknownCategory { at, code } => crate::bt::path_text(at)
            + " carries VAT category "@ + crate::text::debug_text(code@)
            + ", which is not in UNCL 5305 — BG-23 grouping and the tax rule both depend on the category (BR-CL-18)"@,
        ReconcileError::MissingRate { at, category } => crate::bt::path_text(at)
            + " is VAT category "@ + crate::codes::category_code(category)
            + " at no rate; a taxed category derives its tax amount from the rate, and defaulting it to zero would silently under-declare VAT"@,
        ReconcileError::Overflow { term } => term@
            + " overflowed while reconciling; the amounts involved are not representable"@,
    }
}

impl ReconcileError {
    /// The message, as the error reads.
    pub fn to_string(&self) -> (r: String)
        ensures
            r@ == reconcile_error_text(*self),
    {
        let mut out: Vec<char> = Vec::new();
        match self {
            ReconcileError::UnknownCategory { at, code } => {
                let p = at.to_string();
                push_str(&mut out, p.as_str());
                push_str(&mut out, " carries VAT category ");
                let q = crate::text::debug_quoted(code.as_str());
                push_str(&mut out, q.as_str());
                push_str(
                    &mut out,
                    ", which is not in UNCL 5305 — BG-23 grouping and the tax rule both depend on the category (BR-CL-18)",
                );
            },
            ReconcileError::MissingRate { at, category } => {
                let p = at.to_string();
                push_str(&mut out, p.as_str());
                push_str(&mut out, " is VAT category ");
                push_str(&mut out, category.code());
                push_str(
                    &mut out,
                    " at no rate; a taxed category derives its tax amount from the rate, and defaulting it to zero would silently under-declare VAT",
                );
            },
            ReconcileError::Overflow { term } => {
                push_str(&mut out, term);
                push_str(
                    &mut out,
                    " overflowed while reconciling; the amounts involved are not representable",
                );
            },
        }
        let r = string_of(&out);
        assert(r@ =~= reconcile_error_text(*self));
        r
    }
}

// ── The result ────────────────────────────────────────────────────────────────

/// What reconciliation produced, before it is put back on an invoice.
#[derive(Debug, Clone, PartialEq, Eq)]
pub struct Reconciled {
    /// BG-23, one entry per group, ordered by category code then rate.
    pub vat_breakdown: Vec<VatBreakdown>,
    /// BG-22.
    pub totals: DocumentTotals,
}

// ── The reconciler ────────────────────────────────────────────────────────────

/// An exemption reason to attach to a category's BG-23 group.
#[derive(Debug, Clone, PartialEq, Eq)]
struct Exemption {
    category: String,
    text: Option<String>,
    code: Option<String>,
}

/// Computes BG-23 and BG-22 from an invoice's lines, allowances and charges.
///
/// Defaults are the common case: no prepayment, no rounding amount, and any
/// exemption reasons already present on the invoice's own BG-23 preserved.
#[derive(Debug, Clone)]
pub struct Reconciler {
    exemptions: Vec<Exemption>,
    paid: Option<InvoiceAmount>,
    rounding: Option<InvoiceAmount>,
    vat_total_accounting: Option<InvoiceAmount>,
}

/// The configured exemption reason: category code, text and code.
pub type ExemptionView = (Seq<char>, Option<Seq<char>>, Option<Seq<char>>);

impl Reconciler {
    /// The exemption reasons configured, in the order given.
    pub closed spec fn exemptions(&self) -> Seq<ExemptionView> {
        self.exemptions@.map_values(
            |e: Exemption| (e.category@, opt_view(e.text), opt_view(e.code)),
        )
    }

    /// BT-113, when configured.
    pub closed spec fn paid_amount(&self) -> Option<InvoiceAmount> {
        self.paid
    }

    /// BT-114, when configured.
    pub closed spec fn rounding_amount(&self) -> Option<InvoiceAmount> {
        self.rounding
    }

    /// BT-111, when configured.
    pub closed spec fn accounting_vat(&self) -> Option<InvoiceAmount> {
        self.vat_total_accounting
    }

    /// A reconciler with nothing configured.
    pub fn new() -> (r: Reconciler)
        ensures
            r.exemptions().len() == 0,
            r.paid_amount() is None,
            r.rounding_amount() is None,
            r.accounting_vat() is None,
    {
        let r = Reconciler {
            exemptions: Vec::new(),
            paid: None,
            rounding: None,
            vat_total_accounting: None,
        };
        assert(r.exemptions() =~= Seq::<ExemptionView>::empty());
        r
    }

    /// BT-120 / BT-121 for one VAT category — what `BR-E-10` and its four
    /// siblings require and no arithmetic can supply. A reason given for a
    /// category that forbids one is dropped when the groups are built.
    pub fn exemption(self, category: &str, text: Option<&str>, code: Option<&str>) -> (r:
        Reconciler)
        ensures
            r.exemptions() == self.exemptions().push(
                (
                    category@,
                    match text {
                        Some(t) => Some(t@),
                        None => None,
                    },
                    match code {
                        Some(c) => Some(c@),
                        None => None,
                    },
                ),
            ),
            r.paid_amount() == self.paid_amount(),
            r.rounding_amount() == self.rounding_amount(),
            r.accounting_vat() == self.accounting_vat(),
    {
        let mut exemptions = self.exemptions;
        let e = Exemption {
            category: owned(category),
            text: match text {
                Some(t) => Some(owned(t)),
                None => None,
            },
            code: match code {
                Some(c) => Some(owned(c)),
                None => None,
            },
        };
        exemptions.push(e);
        let r = Reconciler { exemptions, ..self };
        assert(r.exemptions() =~= self.exemptions().push(
            (
                category@,
                match text {
                    Some(t) => Some(t@),
                    None => None,
                },
                match code {
                    Some(c) => Some(c@),
                    None => None,
                },
            ),
        ));
        r
    }

    /// BT-113 — an amount already paid, subtracted from BT-115 by `BR-CO-16`.
    pub fn paid(self, amount: InvoiceAmount) -> (r: Reconciler)
        ensures
            r.paid_amount() == Some(amount),
            r.exemptions() == self.exemptions(),
            r.rounding_amount() == self.rounding_amount(),
            r.accounting_vat() == self.accounting_vat(),
    {
        Reconciler { paid: Some(amount), ..self }
    }

    /// BT-114 — a rounding amount, added to BT-115 by `BR-CO-16`.
    pub fn rounding(self, amount: InvoiceAmount) -> (r: Reconciler)
        ensures
            r.rounding_amount() == Some(amount),
            r.exemptions() == self.exemptions(),
            r.paid_amount() == self.paid_amount(),
            r.accounting_vat() == self.accounting_vat(),
    {
        Reconciler { rounding: Some(amount), ..self }
    }

    /// BT-111 — the total VAT in the accounting currency, required by `BR-53`
    /// whenever BT-6 is present. Not derived: the conversion rate is not this
    /// crate's to invent.
    pub fn vat_total_accounting(self, amount: InvoiceAmount) -> (r: Reconciler)
        ensures
            r.accounting_vat() == Some(amount),
            r.exemptions() == self.exemptions(),
            r.paid_amount() == self.paid_amount(),
            r.rounding_amount() == self.rounding_amount(),
    {
        Reconciler { vat_total_accounting: Some(amount), ..self }
    }
}

impl Default for Reconciler {
    /// A reconciler with nothing configured.
    fn default() -> (r: Reconciler)
        ensures
            r.exemptions().len() == 0,
            r.paid_amount() is None,
            r.rounding_amount() is None,
            r.accounting_vat() is None,
    {
        Reconciler::new()
    }
}

// ── BG-22 ─────────────────────────────────────────────────────────────────────

/// The line net amounts, in order.
pub open spec fn line_nets(inv: Invoice) -> Seq<InvoiceAmount> {
    inv.lines@.map_values(|l: InvoiceLine| l.net_amount)
}

/// The amounts of a list of allowances or charges, in order.
pub open spec fn row_amounts(rows: Seq<DocumentAllowanceCharge>) -> Seq<InvoiceAmount> {
    rows.map_values(|a: DocumentAllowanceCharge| a.amount)
}

/// The BT-117 of each breakdown group, in order.
pub open spec fn tax_amounts(entries: Seq<VatBreakdown>) -> Seq<InvoiceAmount> {
    entries.map_values(|e: VatBreakdown| e.tax_amount)
}

/// An optional amount, absent counted as zero.
pub open spec fn or_zero(a: Option<InvoiceAmount>) -> int {
    match a {
        Some(v) => v@,
        None => 0,
    }
}

/// The business term whose computation overflows first when the totals are
/// derived, in the order `BR-CO-10` … `BR-CO-16` define them; `None` when
/// none does.
pub open spec fn totals_failure(
    inv: Invoice,
    breakdown: Seq<VatBreakdown>,
    paid: Option<InvoiceAmount>,
    rounding: Option<InvoiceAmount>,
) -> Option<Seq<char>> {
    let l = line_nets(inv);
    let a = row_amounts(inv.allowances@);
    let c = row_amounts(inv.charges@);
    let t = tax_amounts(breakdown);
    let av = if a.len() == 0 {
        0
    } else {
        sum_of(a)
    };
    let cv = if c.len() == 0 {
        0
    } else {
        sum_of(c)
    };
    let vv = if t.len() == 0 {
        0
    } else {
        sum_of(t)
    };
    let net = sum_of(l) - av;
    let taxable = net + cv;
    let gross = taxable + vv;
    let owed = gross - or_zero(paid);
    if !sum_fits(l) {
        Some("BT-106"@)
    } else if a.len() > 0 && !sum_fits(a) {
        Some("BT-107"@)
    } else if c.len() > 0 && !sum_fits(c) {
        Some("BT-108"@)
    } else if !fits_i64(net) || !fits_i64(taxable) {
        Some("BT-109"@)
    } else if t.len() > 0 && !sum_fits(t) {
        Some("BT-110"@)
    } else if !fits_i64(gross) {
        Some("BT-112"@)
    } else if !fits_i64(owed) || !fits_i64(owed + or_zero(rounding)) {
        Some("BT-115"@)
    } else {
        None
    }
}

/// `BR-CO-10` … `BR-CO-16`: the totals `t` are what the lines, allowances,
/// charges and breakdown give, with absent kept distinct from zero.
pub open spec fn totals_chain(
    inv: Invoice,
    breakdown: Seq<VatBreakdown>,
    paid: Option<InvoiceAmount>,
    rounding: Option<InvoiceAmount>,
    accounting: Option<InvoiceAmount>,
    t: DocumentTotals,
) -> bool {
    &&& t.line_total@ == sum_of(line_nets(inv))
    &&& (inv.allowances@.len() == 0 ==> t.allowance_total is None)
    &&& (inv.allowances@.len() > 0 ==> (t.allowance_total matches Some(v) && v@ == sum_of(
        row_amounts(inv.allowances@),
    )))
    &&& (inv.charges@.len() == 0 ==> t.charge_total is None)
    &&& (inv.charges@.len() > 0 ==> (t.charge_total matches Some(v) && v@ == sum_of(
        row_amounts(inv.charges@),
    )))
    &&& t.taxable_total@ == t.line_total@ - or_zero(t.allowance_total) + or_zero(t.charge_total)
    &&& (breakdown.len() == 0 ==> t.vat_total is None)
    &&& (breakdown.len() > 0 ==> (t.vat_total matches Some(v) && v@ == sum_of(
        tax_amounts(breakdown),
    )))
    &&& t.gross_total@ == t.taxable_total@ + or_zero(t.vat_total)
    &&& t.due@ == t.gross_total@ - or_zero(paid) + or_zero(rounding)
    &&& t.paid == paid
    &&& t.rounding == rounding
    &&& t.vat_total_accounting == accounting
}

/// The amounts of `rows`.
fn amounts_of(rows: &Vec<DocumentAllowanceCharge>) -> (v: Vec<InvoiceAmount>)
    ensures
        v@ == row_amounts(rows@),
{
    let mut v: Vec<InvoiceAmount> = Vec::new();
    let mut i: usize = 0;
    while i < rows.len()
        invariant
            i <= rows@.len(),
            v@ == row_amounts(rows@).subrange(0, i as int),
        decreases rows.len() - i,
    {
        v.push(rows[i].amount);
        assert(v@ =~= row_amounts(rows@).subrange(0, i + 1));
        i = i + 1;
    }
    assert(row_amounts(rows@).subrange(0, rows@.len() as int) =~= row_amounts(rows@));
    v
}

/// A sum that overflows as [`ReconcileError::Overflow`] naming `term`.
fn sum_or(amounts: &Vec<InvoiceAmount>, term: &'static str) -> (r: Result<
    InvoiceAmount,
    ReconcileError,
>)
    ensures
        sum_fits(amounts@) ==> (r matches Ok(v) && v@ == sum_of(amounts@)),
        !sum_fits(amounts@) ==> r == Err::<InvoiceAmount, ReconcileError>(
            ReconcileError::Overflow { term },
        ),
{
    match InvoiceAmount::checked_sum(amounts.as_slice()) {
        Ok(v) => Ok(v),
        Err(_) => Err(ReconcileError::Overflow { term }),
    }
}

/// The overflow error naming `term`.
fn overflow(term: &'static str) -> (e: ReconcileError)
    ensures
        e == (ReconcileError::Overflow { term }),
{
    ReconcileError::Overflow { term }
}

impl Reconciler {
    /// BG-22 — the whole `BR-CO-10` … `BR-CO-16` chain, in the order it is
    /// defined, over the lines, allowances and charges of `inv` and the
    /// breakdown `breakdown`.
    pub fn totals(&self, inv: &Invoice, breakdown: &Vec<VatBreakdown>) -> (r: Result<
        DocumentTotals,
        ReconcileError,
    >)
        ensures
            r is Err <==> totals_failure(*inv, breakdown@, self.paid_amount(), self.rounding_amount())
                is Some,
            r matches Err(e) ==> e matches ReconcileError::Overflow { term } && term@
                == totals_failure(*inv, breakdown@, self.paid_amount(), self.rounding_amount())->0,
            r matches Ok(t) ==> totals_chain(
                *inv,
                breakdown@,
                self.paid_amount(),
                self.rounding_amount(),
                self.accounting_vat(),
                t,
            ),
    {
        let mut nets: Vec<InvoiceAmount> = Vec::new();
        let mut i: usize = 0;
        while i < inv.lines.len()
            invariant
                i <= inv.lines@.len(),
                nets@ == line_nets(*inv).subrange(0, i as int),
            decreases inv.lines.len() - i,
        {
            nets.push(inv.lines[i].net_amount);
            assert(nets@ =~= line_nets(*inv).subrange(0, i + 1));
            i = i + 1;
        }
        assert(line_nets(*inv).subrange(0, inv.lines@.len() as int) =~= line_nets(*inv));
        let line_total = match sum_or(&nets, "BT-106") {
            Ok(v) => v,
            Err(e) => {
                return Err(e);
            },
        };
        let allowance_total = if inv.allowances.len() == 0 {
            None
        } else {
            match sum_or(&amounts_of(&inv.allowances), "BT-107") {
                Ok(v) => Some(v),
                Err(e) => {
                    return Err(e);
                },
            }
        };
        let charge_total = if inv.charges.len() == 0 {
            None
        } else {
            match sum_or(&amounts_of(&inv.charges), "BT-108") {
                Ok(v) => Some(v),
                Err(e) => {
                    return Err(e);
                },
            }
        };
        let zero = InvoiceAmount::zero();
        let taxable_total = match line_total.checked_sub(allowance_total.unwrap_or(zero)) {
            Ok(v) => match v.checked_add(charge_total.unwrap_or(zero)) {
                Ok(w) => w,
                Err(_) => {
                    return Err(overflow("BT-109"));
                },
            },
            Err(_) => {
                return Err(overflow("BT-109"));
            },
        };
        let mut taxes: Vec<InvoiceAmount> = Vec::new();
        let mut k: usize = 0;
        while k < breakdown.len()
            invariant
                k <= breakdown@.len(),
                taxes@ == tax_amounts(breakdown@).subrange(0, k as int),
            decreases breakdown.len() - k,
        {
            taxes.push(breakdown[k].tax_amount);
            assert(taxes@ =~= tax_amounts(breakdown@).subrange(0, k + 1));
            k = k + 1;
        }
        assert(tax_amounts(breakdown@).subrange(0, breakdown@.len() as int) =~= tax_amounts(
            breakdown@,
        ));
        let vat_total = if breakdown.len() == 0 {
            None
        } else {
            match sum_or(&taxes, "BT-110") {
                Ok(v) => Some(v),
                Err(e) => {
                    return Err(e);
                },
            }
        };
        let gross_total = match taxable_total.checked_add(vat_total.unwrap_or(zero)) {
            Ok(v) => v,
            Err(_) => {
                return Err(overflow("BT-112"));
            },
        };
        let due = match gross_total.checked_sub(self.paid.unwrap_or(zero)) {
            Ok(v) => match v.checked_add(self.rounding.unwrap_or(zero)) {
                Ok(w) => w,
                Err(_) => {
                    return Err(overflow("BT-115"));
                },
            },
            Err(_) => {
                return Err(overflow("BT-115"));
            },
        };
        Ok(
            DocumentTotals {
                line_total,
                allowance_total,
                charge_total,
                taxable_total,
                vat_total,
                vat_total_accounting: self.vat_total_accounting,
                gross_total,
                paid: self.paid,
                rounding: self.rounding,
                due,
            },
        )
    }
}


// ── The groups ────────────────────────────────────────────────────────────────

/// A BG-23 group key: the category, and the rate when the category is
/// grouped by rate.
pub type GroupKey = (VatCategory, Option<Percentage>);

/// The rate a group is keyed on: the row's rate for the categories that may
/// repeat per rate, none for the six whose `-01` row says *"exactly one"*.
pub open spec fn keyed_rate(c: VatCategory, rate: Option<Percentage>) -> Option<Percentage> {
    if category_profile(c).groups == Groups::AtLeastOne {
        rate
    } else {
        None
    }
}

/// The rate a group is keyed on.
pub fn group_rate(category: VatCategory, rate: Option<Percentage>) -> (r: Option<Percentage>)
    ensures
        r == keyed_rate(category, rate),
{
    if profile(category).grouped_by_rate() {
        rate
    } else {
        None
    }
}

/// The position of a category's code in alphabetical order — `AE`, `B`, `E`,
/// `G`, `K`, `L`, `M`, `O`, `S`, `Z` — the order the groups are reported in.
pub open spec fn code_rank(c: VatCategory) -> int {
    match c {
        VatCategory::ReverseCharge => 0,
        VatCategory::SplitPayment => 1,
        VatCategory::Exempt => 2,
        VatCategory::Export => 3,
        VatCategory::IntraCommunity => 4,
        VatCategory::CanaryIslands => 5,
        VatCategory::CeutaMelilla => 6,
        VatCategory::OutOfScope => 7,
        VatCategory::Standard => 8,
        VatCategory::ZeroRated => 9,
    }
}

fn rank_of(c: VatCategory) -> (r: u8)
    ensures
        r == code_rank(c),
{
    match c {
        VatCategory::ReverseCharge => 0,
        VatCategory::SplitPayment => 1,
        VatCategory::Exempt => 2,
        VatCategory::Export => 3,
        VatCategory::IntraCommunity => 4,
        VatCategory::CanaryIslands => 5,
        VatCategory::CeutaMelilla => 6,
        VatCategory::OutOfScope => 7,
        VatCategory::Standard => 8,
        VatCategory::ZeroRated => 9,
    }
}

/// Whether rate `a` sorts before rate `b`: absent first, then by value.
pub open spec fn rate_before(a: Option<Percentage>, b: Option<Percentage>) -> bool {
    match (a, b) {
        (None, Some(_)) => true,
        (Some(x), Some(y)) => crate::decimal::less_value(x@, y@),
        _ => false,
    }
}

/// Whether key `a` sorts before key `b`: by category code, then by rate.
pub open spec fn key_before(a: GroupKey, b: GroupKey) -> bool {
    code_rank(a.0) < code_rank(b.0) || (a.0 == b.0 && rate_before(a.1, b.1))
}

/// Whether two keys name the same group: same category, same rate by value.
pub open spec fn same_key(a: GroupKey, b: GroupKey) -> bool {
    a.0 == b.0 && same_rate_opt(a.1, b.1)
}

/// Whether `keys` already names the group of `k`.
pub open spec fn has_key(keys: Seq<GroupKey>, k: GroupKey) -> bool {
    exists|i: int| 0 <= i < keys.len() && same_key(#[trigger] keys[i], k)
}

/// How many of `keys` sort before `k` — where `k` goes in a sorted list.
pub open spec fn key_position(keys: Seq<GroupKey>, k: GroupKey, n: nat) -> nat
    decreases n,
{
    if n == 0 {
        0
    } else {
        key_position(keys, k, (n - 1) as nat) + if key_before(keys[n - 1], k) {
            1nat
        } else {
            0nat
        }
    }
}

/// The key of a row whose category is known.
pub open spec fn row_key(v: LineVat) -> GroupKey {
    let c = category_of_code(v.category@)->0;
    (c, keyed_rate(c, v.rate))
}

/// The group keys of the first `n` rows: each new key inserted where it
/// sorts, each repeated one skipped.
pub open spec fn collected_keys(rows: Seq<LineVat>, n: nat) -> Seq<GroupKey>
    decreases n,
{
    if n == 0 {
        Seq::empty()
    } else {
        let prev = collected_keys(rows, (n - 1) as nat);
        let k = row_key(rows[n - 1]);
        if has_key(prev, k) {
            prev
        } else {
            prev.insert(key_position(prev, k, prev.len()) as int, k)
        }
    }
}

/// Whether a row cannot be grouped: its category is unknown, or taxed with no
/// rate.
pub open spec fn row_problem(v: LineVat) -> bool {
    match category_of_code(v.category@) {
        None => true,
        Some(c) => category_carries_tax(c) && v.rate is None,
    }
}

/// Every VAT-bearing row of the document: lines, then allowances, then
/// charges.
pub open spec fn content_rows(inv: Invoice) -> Seq<LineVat> {
    inv.lines@.map_values(|l: InvoiceLine| l.vat) + inv.allowances@.map_values(
        |a: DocumentAllowanceCharge| a.vat,
    ) + inv.charges@.map_values(|c: DocumentAllowanceCharge| c.vat)
}

/// Where row `i` of [`content_rows`] is.
pub open spec fn content_path(inv: Invoice, i: int) -> Path {
    let nl = inv.lines@.len() as int;
    let na = inv.allowances@.len() as int;
    if i < nl {
        Path { group: Group::Line, index: Some(i as usize), term: None }
    } else if i < nl + na {
        Path { group: Group::DocumentAllowance, index: Some((i - nl) as usize), term: None }
    } else {
        Path { group: Group::DocumentCharge, index: Some((i - nl - na) as usize), term: None }
    }
}

/// `k` is the first row that cannot be grouped.
pub open spec fn first_problem_at(rows: Seq<LineVat>, k: int) -> bool {
    &&& 0 <= k < rows.len()
    &&& row_problem(rows[k])
    &&& forall|j: int| 0 <= j < k ==> !row_problem(#[trigger] rows[j])
}

/// The error for the first row that cannot be grouped, if `k` is it.
pub open spec fn row_error(inv: Invoice, k: int, e: ReconcileError) -> bool {
    let v = content_rows(inv)[k];
    match category_of_code(v.category@) {
        None => e matches ReconcileError::UnknownCategory { at, code } && at == content_path(inv, k)
            && code@ == v.category@,
        Some(c) => e == (ReconcileError::MissingRate { at: content_path(inv, k), category: c }),
    }
}

/// The rows of the document, in order.
fn rows_of(inv: &Invoice) -> (v: Vec<(LineVat, Path)>)
    ensures
        v@.len() == content_rows(*inv).len(),
        forall|i: int|
            0 <= i < v@.len() ==> (#[trigger] v@[i]).0 == content_rows(*inv)[i] && v@[i].1
                == content_path(*inv, i),
{
    let mut v: Vec<(LineVat, Path)> = Vec::new();
    let mut i: usize = 0;
    while i < inv.lines.len()
        invariant
            i <= inv.lines@.len(),
            v@.len() == i,
            forall|k: int|
                0 <= k < i ==> (#[trigger] v@[k]).0 == content_rows(*inv)[k] && v@[k].1
                    == content_path(*inv, k),
        decreases inv.lines.len() - i,
    {
        v.push((inv.lines[i].vat.clone(), Path::at(Group::Line, i)));
        i = i + 1;
    }
    let nl = inv.lines.len();
    let mut i: usize = 0;
    while i < inv.allowances.len()
        invariant
            nl == inv.lines@.len(),
            i <= inv.allowances@.len(),
            v@.len() == nl + i,
            forall|k: int|
                0 <= k < nl + i ==> (#[trigger] v@[k]).0 == content_rows(*inv)[k] && v@[k].1
                    == content_path(*inv, k),
        decreases inv.allowances.len() - i,
    {
        v.push((inv.allowances[i].vat.clone(), Path::at(Group::DocumentAllowance, i)));
        i = i + 1;
    }
    let na = inv.allowances.len();
    let mut i: usize = 0;
    while i < inv.charges.len()
        invariant
            nl == inv.lines@.len(),
            na == inv.allowances@.len(),
            i <= inv.charges@.len(),
            v@.len() == nl + na + i,
            forall|k: int|
                0 <= k < nl + na + i ==> (#[trigger] v@[k]).0 == content_rows(*inv)[k] && v@[k].1
                    == content_path(*inv, k),
        decreases inv.charges.len() - i,
    {
        v.push((inv.charges[i].vat.clone(), Path::at(Group::DocumentCharge, i)));
        i = i + 1;
    }
    v
}

/// Whether two keys name the same group.
fn keys_same(a: GroupKey, b: GroupKey) -> (r: bool)
    ensures
        r == same_key(a, b),
{
    a.0 == b.0 && crate::validation::rules::category::rates_match(a.1, b.1)
}

/// Whether key `a` sorts before key `b`.
fn key_less(a: GroupKey, b: GroupKey) -> (r: bool)
    ensures
        r == key_before(a, b),
{
    let ra = rank_of(a.0);
    let rb = rank_of(b.0);
    if ra < rb {
        return true;
    }
    if a.0 != b.0 {
        return false;
    }
    match (a.1, b.1) {
        (None, Some(_)) => true,
        (Some(x), Some(y)) => {
            x.check_wf();
            y.check_wf();
            crate::decimal::dec_less(x.into_decimal(), y.into_decimal())
        },
        _ => false,
    }
}

/// The BG-23 keys of the document, sorted by category code then rate, or the
/// error for the first row that cannot be grouped.
fn group_keys(inv: &Invoice) -> (r: Result<Vec<GroupKey>, ReconcileError>)
    ensures
        r matches Ok(keys) ==> (forall|j: int|
            0 <= j < content_rows(*inv).len() ==> !row_problem(#[trigger] content_rows(*inv)[j]))
            && keys@ == collected_keys(content_rows(*inv), content_rows(*inv).len()),
        r matches Err(e) ==> exists|k: int|
            first_problem_at(content_rows(*inv), k) && row_error(*inv, k, e),
{
    let rows = rows_of(inv);
    let ghost all = content_rows(*inv);
    let mut keys: Vec<GroupKey> = Vec::new();
    let mut i: usize = 0;
    while i < rows.len()
        invariant
            i <= rows@.len() == all.len(),
            all == content_rows(*inv),
            forall|k: int|
                0 <= k < rows@.len() ==> (#[trigger] rows@[k]).0 == all[k] && rows@[k].1
                    == content_path(*inv, k),
            forall|j: int| 0 <= j < i ==> !row_problem(#[trigger] all[j]),
            keys@ == collected_keys(all, i as nat),
        decreases rows.len() - i,
    {
        let vat = rows[i].0.clone();
        let at = rows[i].1;
        assert(vat == all[i as int]);
        let semantics = vat.semantics();
        let category = match semantics {
            Some(c) => c,
            None => {
                let e = ReconcileError::UnknownCategory {
                    at,
                    code: string_of(&chars_of(vat.category.as_str())),
                };
                assert(first_problem_at(all, i as int));
                return Err(e);
            },
        };
        if category.carries_tax() && vat.rate.is_none() {
            assert(first_problem_at(all, i as int));
            return Err(ReconcileError::MissingRate { at, category });
        }
        let key: GroupKey = (category, group_rate(category, vat.rate));
        assert(key == row_key(all[i as int]));
        let mut present = false;
        let mut j: usize = 0;
        while j < keys.len()
            invariant
                j <= keys@.len(),
                present == exists|m: int| 0 <= m < j && same_key(#[trigger] keys@[m], key),
            decreases keys.len() - j,
        {
            if keys_same(keys[j], key) {
                present = true;
            }
            j = j + 1;
        }
        if !present {
            let mut pos: usize = 0;
            let mut m: usize = 0;
            while m < keys.len()
                invariant
                    m <= keys@.len(),
                    pos <= m,
                    pos == key_position(keys@, key, m as nat),
                decreases keys.len() - m,
            {
                if key_less(keys[m], key) {
                    pos = pos + 1;
                }
                m = m + 1;
            }
            keys.insert(pos, key);
        }
        i = i + 1;
    }
    Ok(keys)
}


// ── One group ─────────────────────────────────────────────────────────────────

/// The text of an optional code.
pub open spec fn opt_code_view(c: Option<Code>) -> Option<Seq<char>> {
    match c {
        Some(v) => Some(v@),
        None => None,
    }
}

/// The first configured exemption for category `c`.
pub open spec fn configured_reason(ex: Seq<ExemptionView>, c: VatCategory) -> Option<ExemptionView>
    decreases ex.len(),
{
    if ex.len() == 0 {
        None
    } else if ex[0].0 == category_code(c) {
        Some(ex[0])
    } else {
        configured_reason(ex.drop_first(), c)
    }
}

/// The first breakdown group of category `c` that states a reason.
pub open spec fn stated_reason(entries: Seq<VatBreakdown>, c: VatCategory) -> Option<VatBreakdown>
    decreases entries.len(),
{
    if entries.len() == 0 {
        None
    } else if category_of_code(entries[0].category@) == Some(c) && (entries[0].exemption_reason
        is Some || entries[0].exemption_reason_code is Some) {
        Some(entries[0])
    } else {
        stated_reason(entries.drop_first(), c)
    }
}

/// BT-120 / BT-121 for a category: none where a rule forbids one; else what
/// the caller configured; else what the invoice's own BG-23 already carried.
pub open spec fn reason_spec(ex: Seq<ExemptionView>, inv: Invoice, c: VatCategory) -> (
    Option<Seq<char>>,
    Option<Seq<char>>,
) {
    if category_forbids_reason(c) {
        (None, None)
    } else {
        match configured_reason(ex, c) {
            Some(e) => (e.1, e.2),
            None => match stated_reason(inv.vat_breakdown@, c) {
                Some(e) => (opt_view(e.exemption_reason), opt_code_view(e.exemption_reason_code)),
                None => (None, None),
            },
        }
    }
}

/// The `Dec` a rate stands for, zero when absent.
pub open spec fn rate_or_zero(rate: Option<Percentage>) -> Dec {
    match rate {
        Some(r) => r@,
        None => Dec { mantissa: 0, scale: 0 },
    }
}

/// BT-117 for a taxed group of base `base` minor units at `rate`: the product
/// and quotient as `rust_decimal` computes them, rounded to two places half
/// away from zero, in minor units; `None` when a step gives nothing or the
/// result does not fit.
pub open spec fn tax_value(base: int, rate: Option<Percentage>) -> Option<int> {
    let r = rate_or_zero(rate);
    match decimal_checked_mul(base, 2, r.mantissa as int, r.scale as int) {
        None => None,
        Some((m1, s1)) => match decimal_checked_div(m1, s1, 100, 0) {
            None => None,
            Some((m2, s2)) => {
                let x = rounded(Dec { mantissa: m2 as i128, scale: s2 as u32 }, 2, true);
                match scaled_amount(crate::amount::hundredfold(x)) {
                    Ok(v) => Some(v),
                    Err(_) => None,
                }
            },
        },
    }
}

/// BT-117 for a taxed group: BT-116 × BT-119 / 100, to two decimals,
/// **half away from zero** — `−0.125` goes to `−0.13`, as on the credit note
/// a German auditor reads.
pub fn tax_on(base: InvoiceAmount, rate: Option<Percentage>) -> (r: Result<
    InvoiceAmount,
    ReconcileError,
>)
    ensures
        match tax_value(base@, rate) {
            Some(v) => r matches Ok(a) && a@ == v,
            None => r == Err::<InvoiceAmount, ReconcileError>(
                ReconcileError::Overflow { term: "BT-117" },
            ),
        },
{
    let rate_dec = match rate {
        Some(p) => {
            p.check_wf();
            p.into_decimal()
        },
        None => Dec::zero(),
    };
    let exact = match dec_checked_mul(base.into_decimal(), rate_dec) {
        Some(v) => match dec_checked_div(v, Dec::one_hundred()) {
            Some(q) => q,
            None => {
                return Err(overflow("BT-117"));
            },
        },
        None => {
            return Err(overflow("BT-117"));
        },
    };
    let rounded_tax = dec_round_dp_away(exact, 2);
    match InvoiceAmount::from_decimal_exact(rounded_tax) {
        Ok(v) => Ok(v),
        Err(_) => Err(overflow("BT-117")),
    }
}

/// BT-119 for a group — which is **not** BT-152: every group states it,
/// category `O` included, as zero when the key carries none. XRechnung's
/// `BR-DE-14` requires it unconditionally.
pub fn breakdown_rate(rate: Option<Percentage>) -> (r: Option<Percentage>)
    ensures
        rate is Some ==> r == rate,
        rate is None ==> (r matches Some(p) && p@ == (Dec { mantissa: 0, scale: 0 })),
{
    match rate {
        Some(r) => Some(r),
        None => Some(Percentage::zero()),
    }
}

/// What a group's BT-117 is: exactly zero for the zero-tax categories,
/// derived from the base for the taxed ones.
pub open spec fn group_tax(c: VatCategory, base: int, rate: Option<Percentage>) -> Option<int> {
    match category_profile(c).tax {
        TaxRule::Zero => Some(0),
        TaxRule::Derived => tax_value(base, rate),
    }
}

/// What goes wrong computing the group of `key`, if anything.
pub open spec fn group_failure(inv: Invoice, key: GroupKey) -> Option<Seq<char>> {
    match group_base(inv, key.0, category_profile(key.0).groups == Groups::AtLeastOne, key.1) {
        None => Some("BT-116"@),
        Some(b) => match group_tax(key.0, b, key.1) {
            None => Some("BT-117"@),
            Some(_) => None,
        },
    }
}

/// The BG-23 entry `e` is the group of `key`, with reasons `reasons`.
pub open spec fn group_entry(
    inv: Invoice,
    key: GroupKey,
    reasons: (Option<Seq<char>>, Option<Seq<char>>),
    e: VatBreakdown,
) -> bool {
    let b = group_base(inv, key.0, category_profile(key.0).groups == Groups::AtLeastOne, key.1);
    &&& b matches Some(v) && e.taxable_amount@ == v
    &&& group_tax(key.0, e.taxable_amount@, key.1) == Some(e.tax_amount@)
    &&& e.category@ == category_code(key.0)
    &&& (key.1 is Some ==> e.rate == key.1)
    &&& (key.1 is None ==> (e.rate matches Some(p) && p@ == (Dec { mantissa: 0, scale: 0 })))
    &&& opt_view(e.exemption_reason) == reasons.0
    &&& opt_code_view(e.exemption_reason_code) == reasons.1
}

impl Reconciler {
    /// BT-120 / BT-121 for a category: what the caller configured, else what
    /// the invoice's existing BG-23 already carried, else nothing — and
    /// nothing at all where a rule forbids a reason.
    fn reason_for(&self, inv: &Invoice, category: VatCategory) -> (r: (Option<String>, Option<Code>))
        ensures
            (opt_view(r.0), opt_code_view(r.1)) == reason_spec(self.exemptions(), *inv, category),
    {
        if category.forbids_exemption_reason() {
            return (None, None);
        }
        let code = chars_of(category.code());
        let mut i: usize = 0;
        assert(self.exemptions().subrange(0, self.exemptions().len() as int) =~= self.exemptions());
        while i < self.exemptions.len()
            invariant
                i <= self.exemptions@.len(),
                code@ == category_code(category),
                !category_forbids_reason(category),
                configured_reason(
                    self.exemptions().subrange(i as int, self.exemptions().len() as int),
                    category,
                ) == configured_reason(self.exemptions(), category),
            decreases self.exemptions.len() - i,
        {
            let ghost rest = self.exemptions().subrange(i as int, self.exemptions().len() as int);
            assert(rest.drop_first() =~= self.exemptions().subrange(
                i + 1,
                self.exemptions().len() as int,
            ));
            let e = &self.exemptions[i];
            if chars_eq(&chars_of(e.category.as_str()), &code) {
                let text = e.text.clone();
                let c = match &e.code {
                    Some(s) => Some(Code::new(s.as_str())),
                    None => None,
                };
                assert(self.exemptions()[i as int] == (e.category@, opt_view(e.text), opt_view(
                    e.code,
                )));
                assert(rest[0] == self.exemptions()[i as int]);
                assert(opt_view(text) == opt_view(e.text));
                assert(opt_code_view(c) == opt_view(e.code));
                assert(rest[0].0 == category_code(category));
                assert(configured_reason(rest, category) == Some(rest[0]));
                assert(reason_spec(self.exemptions(), *inv, category) == (opt_view(e.text), opt_view(e.code)));
                return (text, c);
            }
            i = i + 1;
        }
        let mut k: usize = 0;
        assert(inv.vat_breakdown@.subrange(0, inv.vat_breakdown@.len() as int) =~= inv.vat_breakdown@);
        while k < inv.vat_breakdown.len()
            invariant
                k <= inv.vat_breakdown@.len(),
                !category_forbids_reason(category),
                configured_reason(self.exemptions(), category) is None,
                stated_reason(
                    inv.vat_breakdown@.subrange(k as int, inv.vat_breakdown@.len() as int),
                    category,
                ) == stated_reason(inv.vat_breakdown@, category),
            decreases inv.vat_breakdown.len() - k,
        {
            let ghost rest = inv.vat_breakdown@.subrange(k as int, inv.vat_breakdown@.len() as int);
            assert(rest.drop_first() =~= inv.vat_breakdown@.subrange(
                k + 1,
                inv.vat_breakdown@.len() as int,
            ));
            let e = &inv.vat_breakdown[k];
            if e.semantics() == Some(category) && e.has_exemption_reason() {
                let text = e.exemption_reason.clone();
                let c = e.exemption_reason_code.clone();
                assert(rest[0] == inv.vat_breakdown@[k as int]);
                assert(opt_view(text) == opt_view(e.exemption_reason));
                assert(opt_code_view(c) == opt_code_view(e.exemption_reason_code));
                return (text, c);
            }
            k = k + 1;
        }
        (None, None)
    }

    /// One BG-23 entry, grouped exactly as the `-08` rows check.
    fn group(&self, inv: &Invoice, category: VatCategory, rate: Option<Percentage>) -> (r: Result<
        VatBreakdown,
        ReconcileError,
    >)
        ensures
            r is Err <==> group_failure(*inv, (category, rate)) is Some,
            r matches Err(e) ==> e matches ReconcileError::Overflow { term } && term@
                == group_failure(*inv, (category, rate))->0,
            r matches Ok(e) ==> group_entry(
                *inv,
                (category, rate),
                reason_spec(self.exemptions(), *inv, category),
                e,
            ),
    {
        let p = profile(category);
        let taxable_amount = match taxable_base(inv, category, p.grouped_by_rate(), rate) {
            Some(v) => v,
            None => {
                return Err(overflow("BT-116"));
            },
        };
        let tax_amount = match p.tax {
            TaxRule::Zero => InvoiceAmount::zero(),
            TaxRule::Derived => match tax_on(taxable_amount, rate) {
                Ok(v) => v,
                Err(e) => {
                    return Err(e);
                },
            },
        };
        let (exemption_reason, exemption_reason_code) = self.reason_for(inv, category);
        Ok(
            VatBreakdown {
                taxable_amount,
                tax_amount,
                category: Code::new(category.code()),
                rate: breakdown_rate(rate),
                exemption_reason,
                exemption_reason_code,
            },
        )
    }
}


// ── The whole computation ─────────────────────────────────────────────────────

/// `j` is the first key whose group cannot be computed.
pub open spec fn first_failing_key(inv: Invoice, keys: Seq<GroupKey>, j: int) -> bool {
    &&& 0 <= j < keys.len()
    &&& group_failure(inv, keys[j]) is Some
    &&& forall|m: int| 0 <= m < j ==> group_failure(inv, #[trigger] keys[m]) is None
}

/// The BG-23 keys of `inv`, when every row can be grouped.
pub open spec fn document_keys(inv: Invoice) -> Seq<GroupKey> {
    collected_keys(content_rows(inv), content_rows(inv).len())
}

/// Whether every VAT-bearing row of `inv` can be grouped.
pub open spec fn rows_groupable(inv: Invoice) -> bool {
    forall|j: int| 0 <= j < content_rows(inv).len() ==> !row_problem(#[trigger] content_rows(inv)[j])
}

/// `entries` is BG-23 for `inv`: one entry per key, in key order.
pub open spec fn breakdown_of(ex: Seq<ExemptionView>, inv: Invoice, entries: Seq<VatBreakdown>) -> bool {
    let keys = document_keys(inv);
    &&& entries.len() == keys.len()
    &&& forall|j: int|
        0 <= j < keys.len() ==> group_entry(
            inv,
            keys[j],
            reason_spec(ex, inv, keys[j].0),
            #[trigger] entries[j],
        )
}

/// What reconciling `inv` with exemption reasons `ex`, prepayment `paid`,
/// rounding amount `rounding` and accounting-currency VAT `accounting`
/// returns.
///
/// The first VAT-bearing row that cannot be grouped gives its error;
/// otherwise the first group (in key order) that cannot be computed gives an
/// overflow of BT-116 or BT-117; otherwise the first total that overflows;
/// otherwise BG-23 and BG-22 as [`breakdown_of`] and [`totals_chain`] state
/// them.
pub open spec fn reconcile_outcome(
    ex: Seq<ExemptionView>,
    paid: Option<InvoiceAmount>,
    rounding: Option<InvoiceAmount>,
    accounting: Option<InvoiceAmount>,
    inv: Invoice,
    r: Result<Reconciled, ReconcileError>,
) -> bool {
        if !rows_groupable(inv) {
            r matches Err(e) && exists|k: int|
                first_problem_at(content_rows(inv), k) && row_error(inv, k, e)
        } else if exists|j: int| 0 <= j < document_keys(inv).len() && group_failure(
            inv,
            #[trigger] document_keys(inv)[j],
        ) is Some {
            r matches Err(ReconcileError::Overflow { term }) && exists|j: int|
                first_failing_key(inv, document_keys(inv), j) && term@ == group_failure(
                    inv,
                    document_keys(inv)[j],
                )->0
        } else {
            match r {
                Ok(rec) => {
                    &&& breakdown_of(ex, inv, rec.vat_breakdown@)
                    &&& totals_failure(inv, rec.vat_breakdown@, paid, rounding) is None
                    &&& totals_chain(inv, rec.vat_breakdown@, paid, rounding, accounting, rec.totals)
                },
                Err(e) => e matches ReconcileError::Overflow { term } && exists|entries: Seq<
                    VatBreakdown,
                >|
                    breakdown_of(ex, inv, entries) && totals_failure(inv, entries, paid, rounding)
                        == Some(term@),
            }
        }
    }

impl Reconciler {
    /// What [`Reconciler::compute`] returns for `inv` with this configuration.
    pub open spec fn outcome(&self, inv: Invoice, r: Result<Reconciled, ReconcileError>) -> bool {
        reconcile_outcome(
            self.exemptions(),
            self.paid_amount(),
            self.rounding_amount(),
            self.accounting_vat(),
            inv,
            r,
        )
    }

    /// What [`Reconciler::apply`] does to `before`: on failure nothing, and
    /// the error of a result of reconciling it; on success, that result's
    /// BG-23 and BG-22 in place of the invoice's, everything else as it was.
    pub open spec fn applied_by(&self, before: Invoice, after: Invoice, r: Result<(), ReconcileError>) -> bool {
        &&& r is Err ==> after == before
        &&& exists|res: Result<Reconciled, ReconcileError>|
            self.outcome(before, res) && match res {
                Ok(rec) => r is Ok && after == applied(before, rec),
                Err(e) => r == Err::<(), ReconcileError>(e),
            }
    }

    /// BG-23: one entry per group, grouped exactly as the `-08` rows check.
    fn breakdown(&self, inv: &Invoice) -> (r: Result<Vec<VatBreakdown>, ReconcileError>)
        ensures
            !rows_groupable(*inv) ==> (r matches Err(e) && exists|k: int|
                first_problem_at(content_rows(*inv), k) && row_error(*inv, k, e)),
            rows_groupable(*inv) && (exists|j: int|
                0 <= j < document_keys(*inv).len() && group_failure(
                    *inv,
                    #[trigger] document_keys(*inv)[j],
                ) is Some) ==> (r matches Err(ReconcileError::Overflow { term }) && exists|j: int|
                first_failing_key(*inv, document_keys(*inv), j) && term@ == group_failure(
                    *inv,
                    document_keys(*inv)[j],
                )->0),
            rows_groupable(*inv) && !(exists|j: int|
                0 <= j < document_keys(*inv).len() && group_failure(
                    *inv,
                    #[trigger] document_keys(*inv)[j],
                ) is Some) ==> (r matches Ok(entries) && breakdown_of(
                self.exemptions(),
                *inv,
                entries@,
            )),
    {
        let keys = match group_keys(inv) {
            Ok(k) => k,
            Err(e) => {
                return Err(e);
            },
        };
        let ghost all = document_keys(*inv);
        let mut out: Vec<VatBreakdown> = Vec::new();
        let mut j: usize = 0;
        while j < keys.len()
            invariant
                j <= keys@.len(),
                keys@ == all,
                all == document_keys(*inv),
                rows_groupable(*inv),
                out@.len() == j,
                forall|m: int| 0 <= m < j ==> group_failure(*inv, #[trigger] all[m]) is None,
                forall|m: int|
                    0 <= m < j ==> group_entry(
                        *inv,
                        all[m],
                        reason_spec(self.exemptions(), *inv, all[m].0),
                        #[trigger] out@[m],
                    ),
            decreases keys.len() - j,
        {
            match self.group(inv, keys[j].0, keys[j].1) {
                Ok(e) => {
                    out.push(e);
                },
                Err(e) => {
                    assert(first_failing_key(*inv, all, j as int));
                    return Err(e);
                },
            }
            j = j + 1;
        }
        Ok(out)
    }

    /// Compute BG-23 and BG-22 without touching the invoice.
    pub fn compute(&self, inv: &Invoice) -> (r: Result<Reconciled, ReconcileError>)
        ensures
            self.outcome(*inv, r),
    {
        let vat_breakdown = match self.breakdown(inv) {
            Ok(b) => b,
            Err(e) => {
                return Err(e);
            },
        };
        let totals = match self.totals(inv, &vat_breakdown) {
            Ok(t) => t,
            Err(e) => {
                return Err(e);
            },
        };
        Ok(Reconciled { vat_breakdown, totals })
    }

    /// Compute and write both groups back onto the invoice, replacing exactly
    /// BG-23 and BG-22. The invoice is **unchanged** on error: both groups are
    /// computed before either is written.
    pub fn apply(&self, inv: &mut Invoice) -> (r: Result<(), ReconcileError>)
        ensures
            self.applied_by(*old(inv), *final(inv), r),
    {
        let res = self.compute(inv);
        match res {
            Ok(rec) => {
                let ghost g = rec;
                inv.vat_breakdown = rec.vat_breakdown;
                inv.totals = rec.totals;
                assert(self.outcome(*old(inv), Ok(g)));
                Ok(())
            },
            Err(e) => {
                let ghost ge = e;
                assert(self.outcome(*old(inv), Err(ge)));
                Err(e)
            },
        }
    }
}

/// Reconcile with every default — the one-liner for the common case.
pub fn reconcile(inv: &mut Invoice) -> (r: Result<(), ReconcileError>)
    ensures
        r is Err ==> *final(inv) == *old(inv),
        exists|res: Result<Reconciled, ReconcileError>|
            reconcile_outcome(Seq::empty(), None, None, None, *old(inv), res) && match res {
                Ok(rec) => r is Ok && *final(inv) == (Invoice {
                    vat_breakdown: rec.vat_breakdown,
                    totals: rec.totals,
                    ..*old(inv)
                }),
                Err(e) => r == Err::<(), ReconcileError>(e),
            },
{
    let rc = Reconciler::new();
    assert(rc.exemptions() =~= Seq::<ExemptionView>::empty());
    rc.apply(inv)
}


// ── What a reconciled invoice satisfies ───────────────────────────────────────

/// The invoice `inv` with BG-23 and BG-22 replaced by `rec`.
pub open spec fn applied(inv: Invoice, rec: Reconciled) -> Invoice {
    Invoice { vat_breakdown: rec.vat_breakdown, totals: rec.totals, ..inv }
}

/// A category's code names the category.
pub proof fn lemma_code_names_category(c: VatCategory)
    ensures
        category_of_code(category_code(c)) == Some(c),
{
    let code = category_code(c);
    assert(seq!['S'].len() == 1 && seq!['Z'].len() == 1 && seq!['E'].len() == 1);
    assert(seq!['K'].len() == 1 && seq!['G'].len() == 1 && seq!['O'].len() == 1);
    assert(seq!['L'].len() == 1 && seq!['M'].len() == 1 && seq!['B'].len() == 1);
    assert(seq!['A', 'E'].len() == 2);
    if c != VatCategory::ReverseCharge {
        assert(code.len() == 1);
        assert(code != seq!['A', 'E']);
        assert(code =~= seq![code[0]]);
    }
}

/// Whether the group of a category at a rate is independent of the rate when
/// the category is not grouped by rate.
proof fn lemma_amounts_ignore_rate(
    lines: Seq<InvoiceLine>,
    rows: Seq<DocumentAllowanceCharge>,
    c: VatCategory,
    r1: Option<Percentage>,
    r2: Option<Percentage>,
)
    ensures
        crate::validation::rules::category::line_amounts(lines, c, false, r1)
            == crate::validation::rules::category::line_amounts(lines, c, false, r2),
        crate::validation::rules::category::charge_amounts(rows, c, false, r1)
            == crate::validation::rules::category::charge_amounts(rows, c, false, r2),
    decreases lines.len() + rows.len(),
{
    if lines.len() > 0 {
        lemma_amounts_ignore_rate(lines.drop_last(), rows, c, r1, r2);
    }
    if rows.len() > 0 {
        lemma_amounts_ignore_rate(lines, rows.drop_last(), c, r1, r2);
    }
}

/// Every collected key is the key of some row.
proof fn lemma_keys_from_rows(rows: Seq<LineVat>, n: nat)
    requires
        n <= rows.len(),
    ensures
        forall|j: int|
            0 <= j < collected_keys(rows, n).len() ==> exists|i: int|
                0 <= i < n && #[trigger] collected_keys(rows, n)[j] == row_key(rows[i]),
    decreases n,
{
    if n > 0 {
        lemma_keys_from_rows(rows, (n - 1) as nat);
        let prev = collected_keys(rows, (n - 1) as nat);
        let k = row_key(rows[n - 1]);
        if !has_key(prev, k) {
            let p = key_position(prev, k, prev.len()) as int;
            lemma_key_position_bound(prev, k, prev.len());
            let cur = collected_keys(rows, n);
            assert forall|j: int| 0 <= j < cur.len() implies exists|i: int|
                0 <= i < n && #[trigger] cur[j] == row_key(rows[i]) by {
                if j < p {
                    assert(cur[j] == prev[j]);
                } else if j == p {
                    assert(cur[j] == row_key(rows[n - 1]));
                } else {
                    assert(cur[j] == prev[j - 1]);
                }
            }
        }
    }
}

/// A key's position is within the list.
proof fn lemma_key_position_bound(keys: Seq<GroupKey>, k: GroupKey, n: nat)
    ensures
        key_position(keys, k, n) <= n,
    decreases n,
{
    if n > 0 {
        lemma_key_position_bound(keys, k, (n - 1) as nat);
    }
}

/// The key of a groupable row in a category grouped by rate carries a rate.
proof fn lemma_rated_key(v: LineVat)
    requires
        !row_problem(v),
        category_profile(row_key(v).0).groups == Groups::AtLeastOne,
    ensures
        row_key(v).1 is Some,
{
    let c = category_of_code(v.category@)->0;
    assert(category_carries_tax(c));
}

/// **BR-CO-10 … BR-CO-16 hold of a reconciled invoice**: its BG-22 is what
/// its own lines, allowances, charges and BG-23 give.
pub proof fn law_reconciled_totals_balance(
    ex: Seq<ExemptionView>,
    paid: Option<InvoiceAmount>,
    rounding: Option<InvoiceAmount>,
    accounting: Option<InvoiceAmount>,
    inv: Invoice,
    rec: Reconciled,
)
    requires
        reconcile_outcome(ex, paid, rounding, accounting, inv, Ok(rec)),
    ensures
        totals_chain(
            applied(inv, rec),
            applied(inv, rec).vat_breakdown@,
            paid,
            rounding,
            accounting,
            applied(inv, rec).totals,
        ),
{
    assert(line_nets(applied(inv, rec)) =~= line_nets(inv));
}

/// **Every BG-23 group states BT-119**, category `O` included — what
/// XRechnung's `BR-DE-14` requires.
pub proof fn law_reconciled_rates_stated(
    ex: Seq<ExemptionView>,
    paid: Option<InvoiceAmount>,
    rounding: Option<InvoiceAmount>,
    accounting: Option<InvoiceAmount>,
    inv: Invoice,
    rec: Reconciled,
)
    requires
        reconcile_outcome(ex, paid, rounding, accounting, inv, Ok(rec)),
    ensures
        forall|j: int|
            0 <= j < rec.vat_breakdown@.len() ==> (#[trigger] rec.vat_breakdown@[j]).rate is Some,
{
    let keys = document_keys(inv);
    assert forall|j: int| 0 <= j < rec.vat_breakdown@.len() implies (
    #[trigger] rec.vat_breakdown@[j]).rate is Some by {
        assert(group_entry(inv, keys[j], reason_spec(ex, inv, keys[j].0), rec.vat_breakdown@[j]));
    }
}

/// **The `-08` rows pass on a reconciled invoice**, for every category: the
/// reconciler and the validator group the rows the same way.
pub proof fn law_reconciled_taxable_amounts_check(
    ex: Seq<ExemptionView>,
    paid: Option<InvoiceAmount>,
    rounding: Option<InvoiceAmount>,
    accounting: Option<InvoiceAmount>,
    inv: Invoice,
    rec: Reconciled,
    c: VatCategory,
)
    requires
        reconcile_outcome(ex, paid, rounding, accounting, inv, Ok(rec)),
    ensures
        crate::validation::rules::category::taxable_scan(
            applied(inv, rec),
            category_profile(c),
            rec.vat_breakdown@.len(),
        ) == (Seq::<(int, int)>::empty(), false),
{
    lemma_taxable_scan_clean(ex, paid, rounding, accounting, inv, rec, c, rec.vat_breakdown@.len());
}

proof fn lemma_taxable_scan_clean(
    ex: Seq<ExemptionView>,
    paid: Option<InvoiceAmount>,
    rounding: Option<InvoiceAmount>,
    accounting: Option<InvoiceAmount>,
    inv: Invoice,
    rec: Reconciled,
    c: VatCategory,
    n: nat,
)
    requires
        reconcile_outcome(ex, paid, rounding, accounting, inv, Ok(rec)),
        n <= rec.vat_breakdown@.len(),
    ensures
        crate::validation::rules::category::taxable_scan(applied(inv, rec), category_profile(c), n)
            == (Seq::<(int, int)>::empty(), false),
    decreases n,
{
    if n > 0 {
        lemma_taxable_scan_clean(ex, paid, rounding, accounting, inv, rec, c, (n - 1) as nat);
        let j = n - 1;
        let keys = document_keys(inv);
        let e = rec.vat_breakdown@[j];
        let key = keys[j];
        assert(group_entry(inv, key, reason_spec(ex, inv, key.0), e));
        lemma_code_names_category(key.0);
        if category_of_code(e.category@) == Some(c) {
            assert(key.0 == c);
            let by_rate = category_profile(c).groups == Groups::AtLeastOne;
            let a = applied(inv, rec);
            if by_rate {
                lemma_keys_from_rows(content_rows(inv), content_rows(inv).len());
                let i = choose|i: int|
                    0 <= i < content_rows(inv).len() && keys[j] == row_key(content_rows(inv)[i]);
                lemma_rated_key(content_rows(inv)[i]);
                assert(e.rate == key.1);
            } else {
                lemma_amounts_ignore_rate(inv.lines@, inv.charges@, c, e.rate, key.1);
                lemma_amounts_ignore_rate(inv.lines@, inv.allowances@, c, e.rate, key.1);
            }
            assert(group_base(a, c, by_rate, e.rate) == group_base(inv, c, by_rate, key.1));
        }
    }
}


/// **The `-09` rows of the zero-tax categories pass on a reconciled
/// invoice**: `Z`, `E`, `AE`, `K`, `G` and `O` groups carry exactly zero tax.
pub proof fn law_reconciled_zero_tax_check(
    ex: Seq<ExemptionView>,
    paid: Option<InvoiceAmount>,
    rounding: Option<InvoiceAmount>,
    accounting: Option<InvoiceAmount>,
    inv: Invoice,
    rec: Reconciled,
    c: VatCategory,
)
    requires
        reconcile_outcome(ex, paid, rounding, accounting, inv, Ok(rec)),
        category_profile(c).tax == TaxRule::Zero,
    ensures
        crate::validation::rules::category::tax_scan(
            applied(inv, rec),
            category_profile(c),
            rec.vat_breakdown@.len(),
        ) == Seq::<int>::empty(),
{
    lemma_tax_scan_clean(ex, paid, rounding, accounting, inv, rec, c, rec.vat_breakdown@.len());
}

proof fn lemma_tax_scan_clean(
    ex: Seq<ExemptionView>,
    paid: Option<InvoiceAmount>,
    rounding: Option<InvoiceAmount>,
    accounting: Option<InvoiceAmount>,
    inv: Invoice,
    rec: Reconciled,
    c: VatCategory,
    n: nat,
)
    requires
        reconcile_outcome(ex, paid, rounding, accounting, inv, Ok(rec)),
        category_profile(c).tax == TaxRule::Zero,
        n <= rec.vat_breakdown@.len(),
    ensures
        crate::validation::rules::category::tax_scan(applied(inv, rec), category_profile(c), n)
            == Seq::<int>::empty(),
    decreases n,
{
    if n > 0 {
        lemma_tax_scan_clean(ex, paid, rounding, accounting, inv, rec, c, (n - 1) as nat);
        let j = n - 1;
        let keys = document_keys(inv);
        let e = rec.vat_breakdown@[j];
        assert(group_entry(inv, keys[j], reason_spec(ex, inv, keys[j].0), e));
        lemma_code_names_category(keys[j].0);
    }
}

/// **A reason is never written where a rule forbids it**: the `-10` rows of
/// `S`, `Z`, `L` and `M` pass on a reconciled invoice.
pub proof fn law_reconciled_forbidden_reasons_absent(
    ex: Seq<ExemptionView>,
    paid: Option<InvoiceAmount>,
    rounding: Option<InvoiceAmount>,
    accounting: Option<InvoiceAmount>,
    inv: Invoice,
    rec: Reconciled,
    c: VatCategory,
)
    requires
        reconcile_outcome(ex, paid, rounding, accounting, inv, Ok(rec)),
        category_forbids_reason(c),
    ensures
        crate::validation::rules::category::reason_failures(
            rec.vat_breakdown@,
            c,
            rec.vat_breakdown@.len(),
        ) == Seq::<Path>::empty(),
{
    lemma_reasons_clean(ex, paid, rounding, accounting, inv, rec, c, rec.vat_breakdown@.len());
}

proof fn lemma_reasons_clean(
    ex: Seq<ExemptionView>,
    paid: Option<InvoiceAmount>,
    rounding: Option<InvoiceAmount>,
    accounting: Option<InvoiceAmount>,
    inv: Invoice,
    rec: Reconciled,
    c: VatCategory,
    n: nat,
)
    requires
        reconcile_outcome(ex, paid, rounding, accounting, inv, Ok(rec)),
        category_forbids_reason(c),
        n <= rec.vat_breakdown@.len(),
    ensures
        crate::validation::rules::category::reason_failures(rec.vat_breakdown@, c, n)
            == Seq::<Path>::empty(),
    decreases n,
{
    if n > 0 {
        lemma_reasons_clean(ex, paid, rounding, accounting, inv, rec, c, (n - 1) as nat);
        let j = n - 1;
        let keys = document_keys(inv);
        let e = rec.vat_breakdown@[j];
        assert(group_entry(inv, keys[j], reason_spec(ex, inv, keys[j].0), e));
        lemma_code_names_category(keys[j].0);
    }
}


/// Two keys name the same group whichever way round they are compared.
proof fn lemma_same_key_symmetric(a: GroupKey, b: GroupKey)
    ensures
        same_key(a, b) == same_key(b, a),
{
}

/// No two collected keys name the same group.
proof fn lemma_keys_distinct(rows: Seq<LineVat>, n: nat)
    requires
        n <= rows.len(),
    ensures
        forall|j1: int, j2: int|
            0 <= j1 < j2 < collected_keys(rows, n).len() ==> !same_key(
                #[trigger] collected_keys(rows, n)[j1],
                #[trigger] collected_keys(rows, n)[j2],
            ),
    decreases n,
{
    if n > 0 {
        lemma_keys_distinct(rows, (n - 1) as nat);
        let prev = collected_keys(rows, (n - 1) as nat);
        let k = row_key(rows[n - 1]);
        if !has_key(prev, k) {
            let p = key_position(prev, k, prev.len()) as int;
            lemma_key_position_bound(prev, k, prev.len());
            let cur = collected_keys(rows, n);
            assert forall|j1: int, j2: int| 0 <= j1 < j2 < cur.len() implies !same_key(
                #[trigger] cur[j1],
                #[trigger] cur[j2],
            ) by {
                let o1 = if j1 < p { j1 } else { j1 - 1 };
                let o2 = if j2 < p { j2 } else { j2 - 1 };
                if j1 == p {
                    assert(cur[j1] == k);
                    assert(cur[j2] == prev[o2]);
                    lemma_same_key_symmetric(prev[o2], k);
                } else if j2 == p {
                    assert(cur[j2] == k);
                    assert(cur[j1] == prev[o1]);
                } else {
                    assert(cur[j1] == prev[o1]);
                    assert(cur[j2] == prev[o2]);
                }
            }
        }
    }
}

/// Every groupable row's key is among the collected keys.
proof fn lemma_row_keys_present(rows: Seq<LineVat>, n: nat)
    requires
        n <= rows.len(),
    ensures
        forall|i: int| 0 <= i < n ==> has_key(collected_keys(rows, n), #[trigger] row_key(rows[i])),
    decreases n,
{
    if n > 0 {
        lemma_row_keys_present(rows, (n - 1) as nat);
        let prev = collected_keys(rows, (n - 1) as nat);
        let k = row_key(rows[n - 1]);
        let cur = collected_keys(rows, n);
        if !has_key(prev, k) {
            let p = key_position(prev, k, prev.len()) as int;
            lemma_key_position_bound(prev, k, prev.len());
            assert forall|i: int| 0 <= i < n implies has_key(cur, #[trigger] row_key(rows[i])) by {
                if i == n - 1 {
                    assert(cur[p] == k);
                    assert(same_key(cur[p], k));
                } else {
                    let m = choose|m: int| 0 <= m < prev.len() && same_key(prev[m], row_key(rows[i]));
                    if m < p {
                        assert(cur[m] == prev[m]);
                    } else {
                        assert(cur[m + 1] == prev[m]);
                    }
                }
            }
        }
    }
}

/// A category used by some row of the content has a row whose key is in it.
proof fn lemma_used_row(inv: Invoice, c: VatCategory)
    requires
        crate::validation::rules::category::content_uses(inv, c),
    ensures
        exists|i: int|
            0 <= i < content_rows(inv).len() && category_of_code(
                #[trigger] content_rows(inv)[i].category@,
            ) == Some(c),
{
    let rows = content_rows(inv);
    let nl = inv.lines@.len() as int;
    let na = inv.allowances@.len() as int;
    if exists|i: int|
        0 <= i < inv.lines@.len() && category_of_code(#[trigger] inv.lines@[i].vat.category@)
            == Some(c) {
        let i = choose|i: int|
            0 <= i < inv.lines@.len() && category_of_code(#[trigger] inv.lines@[i].vat.category@)
                == Some(c);
        assert(rows[i] == inv.lines@[i].vat);
    } else if exists|i: int|
        0 <= i < inv.allowances@.len() && category_of_code(
            #[trigger] inv.allowances@[i].vat.category@,
        ) == Some(c) {
        let i = choose|i: int|
            0 <= i < inv.allowances@.len() && category_of_code(
                #[trigger] inv.allowances@[i].vat.category@,
            ) == Some(c);
        assert(rows[nl + i] == inv.allowances@[i].vat);
    } else {
        let i = choose|i: int|
            0 <= i < inv.charges@.len() && category_of_code(
                #[trigger] inv.charges@[i].vat.category@,
            ) == Some(c);
        assert(rows[nl + na + i] == inv.charges@[i].vat);
    }
}

/// Counting groups: one index in category `c`, and `groups_of` is one past it.
proof fn lemma_count_one(entries: Seq<VatBreakdown>, c: VatCategory, j0: int, n: nat)
    requires
        0 <= j0 < entries.len(),
        n <= entries.len(),
        category_of_code(entries[j0].category@) == Some(c),
        forall|j: int|
            0 <= j < entries.len() && j != j0 ==> category_of_code(#[trigger] entries[j].category@)
                != Some(c),
    ensures
        crate::validation::rules::category::groups_of(entries, c, n) == (if n > j0 {
            1nat
        } else {
            0nat
        }),
    decreases n,
{
    if n > 0 {
        lemma_count_one(entries, c, j0, (n - 1) as nat);
    }
}

/// Counting groups: one index in category `c` makes at least one group.
proof fn lemma_count_some(entries: Seq<VatBreakdown>, c: VatCategory, j0: int, n: nat)
    requires
        0 <= j0 < n <= entries.len(),
        category_of_code(entries[j0].category@) == Some(c),
    ensures
        crate::validation::rules::category::groups_of(entries, c, n) >= 1,
    decreases n,
{
    if n - 1 > j0 {
        lemma_count_some(entries, c, j0, (n - 1) as nat);
    }
}

/// **The `-01` rows pass on a reconciled invoice**: a category the lines,
/// allowances or charges use gets exactly one BG-23 group when its `-01` row
/// says *"exactly one"*, and at least one otherwise — rows at `0` and at no
/// rate in one zero-tax category do not split it.
pub proof fn law_reconciled_group_counts(
    ex: Seq<ExemptionView>,
    paid: Option<InvoiceAmount>,
    rounding: Option<InvoiceAmount>,
    accounting: Option<InvoiceAmount>,
    inv: Invoice,
    rec: Reconciled,
    c: VatCategory,
)
    requires
        reconcile_outcome(ex, paid, rounding, accounting, inv, Ok(rec)),
        crate::validation::rules::category::content_uses(inv, c),
    ensures
        category_profile(c).groups == Groups::ExactlyOne ==> crate::validation::rules::category::groups_of(
            rec.vat_breakdown@,
            c,
            rec.vat_breakdown@.len(),
        ) == 1,
        category_profile(c).groups == Groups::AtLeastOne ==> crate::validation::rules::category::groups_of(
            rec.vat_breakdown@,
            c,
            rec.vat_breakdown@.len(),
        ) >= 1,
{
    let rows = content_rows(inv);
    let keys = document_keys(inv);
    let entries = rec.vat_breakdown@;
    lemma_used_row(inv, c);
    let i = choose|i: int| 0 <= i < rows.len() && category_of_code(#[trigger] rows[i].category@) == Some(c);
    lemma_row_keys_present(rows, rows.len());
    assert(has_key(keys, row_key(rows[i])));
    let j0 = choose|j: int| 0 <= j < keys.len() && same_key(#[trigger] keys[j], row_key(rows[i]));
    assert(keys[j0].0 == c);
    assert forall|j: int| 0 <= j < keys.len() implies category_of_code(
        #[trigger] entries[j].category@,
    ) == Some(keys[j].0) by {
        assert(group_entry(inv, keys[j], reason_spec(ex, inv, keys[j].0), entries[j]));
        lemma_code_names_category(keys[j].0);
    }
    assert(category_of_code(entries[j0].category@) == Some(c));
    if category_profile(c).groups == Groups::ExactlyOne {
        lemma_keys_distinct(rows, rows.len());
        lemma_keys_from_rows(rows, rows.len());
        assert forall|j: int| 0 <= j < entries.len() && j != j0 implies category_of_code(
            #[trigger] entries[j].category@,
        ) != Some(c) by {
            if category_of_code(entries[j].category@) == Some(c) {
                let ij = choose|ii: int| 0 <= ii < rows.len() && keys[j] == row_key(rows[ii]);
                let ij0 = choose|ii: int| 0 <= ii < rows.len() && keys[j0] == row_key(rows[ii]);
                assert(keys[j] == (c, None::<Percentage>));
                assert(keys[j0] == (c, None::<Percentage>));
                if j < j0 {
                    assert(!same_key(keys[j], keys[j0]));
                } else {
                    assert(!same_key(keys[j0], keys[j]));
                }
            }
        }
        lemma_count_one(entries, c, j0, entries.len());
    } else {
        lemma_count_some(entries, c, j0, entries.len());
    }
}


/// Two breakdown entries state the same thing: the same amounts, category
/// code, rate and reasons.
pub open spec fn same_entry(a: VatBreakdown, b: VatBreakdown) -> bool {
    &&& a.taxable_amount == b.taxable_amount
    &&& a.tax_amount == b.tax_amount
    &&& a.category@ == b.category@
    &&& a.rate == b.rate
    &&& opt_view(a.exemption_reason) == opt_view(b.exemption_reason)
    &&& opt_code_view(a.exemption_reason_code) == opt_code_view(b.exemption_reason_code)
}

/// Replacing BG-23 and BG-22 leaves the rows, and so the keys and the group
/// bases, as they were.
proof fn lemma_applied_rows(inv: Invoice, rec: Reconciled)
    ensures
        content_rows(applied(inv, rec)) == content_rows(inv),
        document_keys(applied(inv, rec)) == document_keys(inv),
        rows_groupable(applied(inv, rec)) == rows_groupable(inv),
        forall|c: VatCategory, b: bool, r: Option<Percentage>|
            #[trigger] group_base(applied(inv, rec), c, b, r) == group_base(inv, c, b, r),
        forall|k: GroupKey| #[trigger] group_failure(applied(inv, rec), k) == group_failure(inv, k),
        line_nets(applied(inv, rec)) == line_nets(inv),
{
    assert(content_rows(applied(inv, rec)) =~= content_rows(inv));
    assert(line_nets(applied(inv, rec)) =~= line_nets(inv));
}

/// The first entry of `entries` in category `c` that states a reason, when the
/// entries were built with `reasons` for every group of `c`.
proof fn lemma_stated_again(
    entries: Seq<VatBreakdown>,
    keys: Seq<GroupKey>,
    inv: Invoice,
    ex: Seq<ExemptionView>,
    c: VatCategory,
    j0: int,
)
    requires
        entries.len() == keys.len(),
        0 <= j0 < keys.len(),
        keys[j0].0 == c,
        forall|j: int|
            0 <= j < keys.len() ==> group_entry(
                inv,
                keys[j],
                reason_spec(ex, inv, keys[j].0),
                #[trigger] entries[j],
            ),
    ensures
        reason_spec(ex, inv, c) != (None::<Seq<char>>, None::<Seq<char>>) ==> (stated_reason(
            entries,
            c,
        ) matches Some(e) && (opt_view(e.exemption_reason), opt_code_view(e.exemption_reason_code))
            == reason_spec(ex, inv, c)),
    decreases entries.len(),
{
    let e0 = entries[0];
    assert(group_entry(inv, keys[0], reason_spec(ex, inv, keys[0].0), e0));
    lemma_code_names_category(keys[0].0);
    if category_of_code(e0.category@) == Some(c) && (e0.exemption_reason is Some
        || e0.exemption_reason_code is Some) {
    } else if j0 == 0 {
    } else {
        assert forall|j: int|
            0 <= j < keys.drop_first().len() implies group_entry(
            inv,
            keys.drop_first()[j],
            reason_spec(ex, inv, keys.drop_first()[j].0),
            #[trigger] entries.drop_first()[j],
        ) by {
            assert(entries.drop_first()[j] == entries[j + 1]);
            assert(keys.drop_first()[j] == keys[j + 1]);
        }
        lemma_stated_again(entries.drop_first(), keys.drop_first(), inv, ex, c, j0 - 1);
    }
}

/// With no reason for category `c`, no entry of `c` states one.
proof fn lemma_stated_none(
    entries: Seq<VatBreakdown>,
    keys: Seq<GroupKey>,
    inv: Invoice,
    ex: Seq<ExemptionView>,
    c: VatCategory,
)
    requires
        entries.len() == keys.len(),
        reason_spec(ex, inv, c) == (None::<Seq<char>>, None::<Seq<char>>),
        forall|j: int|
            0 <= j < keys.len() ==> group_entry(
                inv,
                keys[j],
                reason_spec(ex, inv, keys[j].0),
                #[trigger] entries[j],
            ),
    ensures
        stated_reason(entries, c) is None,
    decreases entries.len(),
{
    if entries.len() > 0 {
        let e0 = entries[0];
        assert(group_entry(inv, keys[0], reason_spec(ex, inv, keys[0].0), e0));
        lemma_code_names_category(keys[0].0);
        assert forall|j: int|
            0 <= j < keys.drop_first().len() implies group_entry(
            inv,
            keys.drop_first()[j],
            reason_spec(ex, inv, keys.drop_first()[j].0),
            #[trigger] entries.drop_first()[j],
        ) by {
            assert(entries.drop_first()[j] == entries[j + 1]);
            assert(keys.drop_first()[j] == keys[j + 1]);
        }
        lemma_stated_none(entries.drop_first(), keys.drop_first(), inv, ex, c);
    }
}

/// **Reconciling twice changes nothing**: reconciling an invoice that was just
/// reconciled succeeds, gives the same BG-22 and a BG-23 that states the same
/// thing, group for group — reasons included, because the second run finds
/// them on the first run's breakdown — and leaves every other part of the
/// invoice as the first run left it.
pub proof fn law_reconcile_idempotent(
    ex: Seq<ExemptionView>,
    paid: Option<InvoiceAmount>,
    rounding: Option<InvoiceAmount>,
    accounting: Option<InvoiceAmount>,
    inv: Invoice,
    rec: Reconciled,
    again: Result<Reconciled, ReconcileError>,
)
    requires
        reconcile_outcome(ex, paid, rounding, accounting, inv, Ok(rec)),
        reconcile_outcome(ex, paid, rounding, accounting, applied(inv, rec), again),
    ensures
        again matches Ok(rec2) && rec2.totals == rec.totals && rec2.vat_breakdown@.len()
            == rec.vat_breakdown@.len() && forall|j: int|
            0 <= j < rec.vat_breakdown@.len() ==> same_entry(
                #[trigger] rec.vat_breakdown@[j],
                rec2.vat_breakdown@[j],
            ),
        again matches Ok(rec2) && applied(applied(inv, rec), rec2) == (Invoice {
            vat_breakdown: rec2.vat_breakdown,
            ..applied(inv, rec)
        }),
{
    let a = applied(inv, rec);
    lemma_applied_rows(inv, rec);
    let keys = document_keys(inv);
    let e1 = rec.vat_breakdown@;
    // The second run's reasons are the first run's.
    assert forall|j: int| 0 <= j < keys.len() implies #[trigger] reason_spec(ex, a, keys[j].0)
        == reason_spec(ex, inv, keys[j].0) by {
        if reason_spec(ex, inv, keys[j].0) == (None::<Seq<char>>, None::<Seq<char>>) {
            lemma_stated_none(e1, keys, inv, ex, keys[j].0);
        } else {
            lemma_stated_again(e1, keys, inv, ex, keys[j].0, j);
        }
    }
    // Any breakdown of the second run states what the first did.
    assert forall|entries: Seq<VatBreakdown>| #[trigger] breakdown_of(ex, a, entries) implies (
    entries.len() == e1.len() && forall|j: int|
        0 <= j < e1.len() ==> same_entry(#[trigger] e1[j], entries[j])) by {
        assert forall|j: int| 0 <= j < e1.len() implies same_entry(#[trigger] e1[j], entries[j]) by {
            let k = keys[j];
            assert(group_entry(inv, k, reason_spec(ex, inv, k.0), e1[j]));
            assert(group_entry(a, k, reason_spec(ex, a, k.0), entries[j]));
            crate::amount::lemma_amount_view_eq(e1[j].taxable_amount, entries[j].taxable_amount);
            crate::amount::lemma_amount_view_eq(e1[j].tax_amount, entries[j].tax_amount);
            if k.1 is None {
                Percentage::lemma_view_eq(e1[j].rate->0, entries[j].rate->0);
            }
        }
    }
    match again {
        Ok(rec2) => {
            let e2 = rec2.vat_breakdown@;
            assert(breakdown_of(ex, a, e2));
            assert(tax_amounts(e2) =~= tax_amounts(e1));
            let t1 = rec.totals;
            let t2 = rec2.totals;
            crate::amount::lemma_amount_view_eq(t1.line_total, t2.line_total);
            crate::amount::lemma_amount_view_eq(t1.taxable_total, t2.taxable_total);
            crate::amount::lemma_amount_view_eq(t1.gross_total, t2.gross_total);
            crate::amount::lemma_amount_view_eq(t1.due, t2.due);
            assert(row_amounts(a.allowances@) == row_amounts(inv.allowances@));
            assert(row_amounts(a.charges@) == row_amounts(inv.charges@));
            if inv.allowances@.len() > 0 {
                crate::amount::lemma_amount_view_eq(t1.allowance_total->0, t2.allowance_total->0);
            }
            if inv.charges@.len() > 0 {
                crate::amount::lemma_amount_view_eq(t1.charge_total->0, t2.charge_total->0);
            }
            if e1.len() > 0 {
                crate::amount::lemma_amount_view_eq(t1.vat_total->0, t2.vat_total->0);
            }
        },
        Err(_) => {
            if !rows_groupable(a) {
            } else if exists|j: int| 0 <= j < document_keys(a).len() && group_failure(
                a,
                #[trigger] document_keys(a)[j],
            ) is Some {
                let j = choose|j: int| 0 <= j < document_keys(a).len() && group_failure(
                    a,
                    #[trigger] document_keys(a)[j],
                ) is Some;
                assert(group_failure(inv, keys[j]) is Some);
            } else {
                let entries = choose|entries: Seq<VatBreakdown>|
                    breakdown_of(ex, a, entries) && totals_failure(a, entries, paid, rounding)
                        is Some;
                assert(breakdown_of(ex, a, entries));
                assert(tax_amounts(entries) =~= tax_amounts(e1));
                assert(row_amounts(a.allowances@) == row_amounts(inv.allowances@));
                assert(row_amounts(a.charges@) == row_amounts(inv.charges@));
            }
        },
    }
}


/// What an error says: its kind, where, the code or term it names, and the
/// category.
pub open spec fn error_view(e: ReconcileError) -> (int, Option<Path>, Seq<char>, Option<VatCategory>) {
    match e {
        ReconcileError::UnknownCategory { at, code } => (0, Some(at), code@, None),
        ReconcileError::MissingRate { at, category } => (1, Some(at), Seq::empty(), Some(category)),
        ReconcileError::Overflow { term } => (2, None, term@, None),
    }
}

/// Two breakdowns that each state what reconciling `inv` gives state the
/// same thing, group for group.
proof fn lemma_breakdowns_agree(ex: Seq<ExemptionView>, inv: Invoice, e1: Seq<VatBreakdown>, e2: Seq<VatBreakdown>)
    requires
        breakdown_of(ex, inv, e1),
        breakdown_of(ex, inv, e2),
    ensures
        e1.len() == e2.len(),
        forall|j: int| 0 <= j < e1.len() ==> same_entry(#[trigger] e1[j], e2[j]),
        tax_amounts(e1) == tax_amounts(e2),
{
    let keys = document_keys(inv);
    assert forall|j: int| 0 <= j < e1.len() implies same_entry(#[trigger] e1[j], e2[j]) by {
        let k = keys[j];
        assert(group_entry(inv, k, reason_spec(ex, inv, k.0), e1[j]));
        assert(group_entry(inv, k, reason_spec(ex, inv, k.0), e2[j]));
        lemma_amount_view_eq(e1[j].taxable_amount, e2[j].taxable_amount);
        lemma_amount_view_eq(e1[j].tax_amount, e2[j].tax_amount);
        if k.1 is None {
            Percentage::lemma_view_eq(e1[j].rate->Some_0, e2[j].rate->Some_0);
        }
    }
    assert(tax_amounts(e1) =~= tax_amounts(e2));
}

/// **Reconciling is a function of the invoice and the configuration**: two
/// results that both state what reconciling `inv` gives agree — both succeed
/// or both fail, and on success with the same BG-22 and a BG-23 that states
/// the same thing group for group, and on failure with the same error. So
/// [`Reconciler::apply`], whose contract is stated over this same outcome,
/// writes exactly what [`Reconciler::compute`] returns, and fails exactly
/// when it fails, with the error it returns.
pub proof fn law_reconcile_outcome_is_unique(
    ex: Seq<ExemptionView>,
    paid: Option<InvoiceAmount>,
    rounding: Option<InvoiceAmount>,
    accounting: Option<InvoiceAmount>,
    inv: Invoice,
    r1: Result<Reconciled, ReconcileError>,
    r2: Result<Reconciled, ReconcileError>,
)
    requires
        reconcile_outcome(ex, paid, rounding, accounting, inv, r1),
        reconcile_outcome(ex, paid, rounding, accounting, inv, r2),
    ensures
        r1 is Ok <==> r2 is Ok,
        match (r1, r2) {
            (Ok(a), Ok(b)) => {
                &&& a.totals == b.totals
                &&& a.vat_breakdown@.len() == b.vat_breakdown@.len()
                &&& forall|j: int|
                    0 <= j < a.vat_breakdown@.len() ==> same_entry(
                        #[trigger] a.vat_breakdown@[j],
                        b.vat_breakdown@[j],
                    )
            },
            (Err(e1), Err(e2)) => error_view(e1) == error_view(e2),
            _ => true,
        },
{
    if r1 is Err && r2 is Err {
        let (e1, e2) = (r1->Err_0, r2->Err_0);
        if !rows_groupable(inv) {
            let k1 = choose|k: int| first_problem_at(content_rows(inv), k) && row_error(inv, k, e1);
            let k2 = choose|k: int| first_problem_at(content_rows(inv), k) && row_error(inv, k, e2);
            assert(k1 == k2) by {
                if k1 < k2 {
                    assert(!row_problem(content_rows(inv)[k1]));
                } else if k2 < k1 {
                    assert(!row_problem(content_rows(inv)[k2]));
                }
            }
        } else if exists|j: int| 0 <= j < document_keys(inv).len() && group_failure(
            inv,
            #[trigger] document_keys(inv)[j],
        ) is Some {
            let keys = document_keys(inv);
            let j1 = choose|j: int| first_failing_key(inv, keys, j) && e1->Overflow_term@ == group_failure(inv, keys[j])->0;
            let j2 = choose|j: int| first_failing_key(inv, keys, j) && e2->Overflow_term@ == group_failure(inv, keys[j])->0;
            assert(j1 == j2) by {
                if j1 < j2 {
                    assert(group_failure(inv, keys[j1]) is None);
                } else if j2 < j1 {
                    assert(group_failure(inv, keys[j2]) is None);
                }
            }
        } else {
            let t1 = choose|entries: Seq<VatBreakdown>|
                breakdown_of(ex, inv, entries) && totals_failure(inv, entries, paid, rounding) == Some(
                    e1->Overflow_term@,
                );
            let t2 = choose|entries: Seq<VatBreakdown>|
                breakdown_of(ex, inv, entries) && totals_failure(inv, entries, paid, rounding) == Some(
                    e2->Overflow_term@,
                );
            lemma_breakdowns_agree(ex, inv, t1, t2);
        }
    }
    if r1 is Ok || r2 is Ok {
        let (ok, other) = if r1 is Ok {
            (r1->Ok_0, r2)
        } else {
            (r2->Ok_0, r1)
        };
        match other {
            Ok(b) => {
                lemma_breakdowns_agree(ex, inv, ok.vat_breakdown@, b.vat_breakdown@);
                let (t1, t2) = (ok.totals, b.totals);
                lemma_amount_view_eq(t1.line_total, t2.line_total);
                lemma_amount_view_eq(t1.taxable_total, t2.taxable_total);
                lemma_amount_view_eq(t1.gross_total, t2.gross_total);
                lemma_amount_view_eq(t1.due, t2.due);
                if inv.allowances@.len() > 0 {
                    lemma_amount_view_eq(t1.allowance_total->Some_0, t2.allowance_total->Some_0);
                }
                if inv.charges@.len() > 0 {
                    lemma_amount_view_eq(t1.charge_total->Some_0, t2.charge_total->Some_0);
                }
                if ok.vat_breakdown@.len() > 0 {
                    lemma_amount_view_eq(t1.vat_total->Some_0, t2.vat_total->Some_0);
                }
            },
            Err(e) => {
                let entries = choose|entries: Seq<VatBreakdown>|
                    breakdown_of(ex, inv, entries) && totals_failure(inv, entries, paid, rounding) == Some(
                        e->Overflow_term@,
                    );
                lemma_breakdowns_agree(ex, inv, ok.vat_breakdown@, entries);
            },
        }
    }
}


/// **`apply` writes what `compute` returns**: given what
/// [`Reconciler::compute`] returns for an invoice, [`Reconciler::apply`] on
/// that invoice fails exactly when it fails, with the same error and the
/// invoice untouched, and otherwise replaces BG-23 and BG-22 with a
/// breakdown stating the same thing and the same totals, leaving every other
/// field as it was.
pub proof fn law_apply_writes_what_compute_returns(
    rc: Reconciler,
    before: Invoice,
    after: Invoice,
    r: Result<(), ReconcileError>,
    computed: Result<Reconciled, ReconcileError>,
)
    requires
        rc.applied_by(before, after, r),
        rc.outcome(before, computed),
    ensures
        match computed {
            Ok(c) => {
                &&& r is Ok
                &&& after == (Invoice { vat_breakdown: after.vat_breakdown, totals: after.totals, ..before })
                &&& after.totals == c.totals
                &&& after.vat_breakdown@.len() == c.vat_breakdown@.len()
                &&& forall|j: int|
                    0 <= j < c.vat_breakdown@.len() ==> same_entry(
                        #[trigger] c.vat_breakdown@[j],
                        after.vat_breakdown@[j],
                    )
            },
            Err(e) => r matches Err(e2) && error_view(e2) == error_view(e) && after == before,
        },
{
    let res = choose|res: Result<Reconciled, ReconcileError>|
        rc.outcome(before, res) && match res {
            Ok(rec) => r is Ok && after == applied(before, rec),
            Err(e) => r == Err::<(), ReconcileError>(e),
        };
    law_reconcile_outcome_is_unique(
        rc.exemptions(),
        rc.paid_amount(),
        rc.rounding_amount(),
        rc.accounting_vat(),
        before,
        computed,
        res,
    );
}


/// The first configuration of a category is the one that counts.
proof fn lemma_first_configuration(ex: Seq<ExemptionView>, c: VatCategory, i: int)
    requires
        0 <= i < ex.len(),
        ex[i].0 == category_code(c),
        forall|k: int| 0 <= k < i ==> ex[k].0 != ex[i].0,
    ensures
        configured_reason(ex, c) == Some(ex[i]),
    decreases i,
{
    if i > 0 {
        let rest = ex.drop_first();
        assert(rest[i - 1] == ex[i]);
        assert forall|k: int| 0 <= k < i - 1 implies (#[trigger] rest[k]).0 != rest[i - 1].0 by {
            assert(rest[k] == ex[k + 1]);
        }
        lemma_first_configuration(rest, c, i - 1);
        assert(ex[0].0 != ex[i].0);
    }
}

/// **A configured exemption reaches the breakdown**: when the caller
/// configured, for a category whose `-10` rule does not forbid a reason (any
/// but `S`, `Z`, `L` and `M`), the text `t` and the code `k` — the first
/// configuration given for that category — every BG-23 group of that category
/// in the reconciled invoice states exactly BT-120 = `t` and BT-121 = `k`.
pub proof fn law_reconciled_groups_carry_the_configured_reason(
    ex: Seq<ExemptionView>,
    paid: Option<InvoiceAmount>,
    rounding: Option<InvoiceAmount>,
    accounting: Option<InvoiceAmount>,
    inv: Invoice,
    rec: Reconciled,
    i: int,
    j: int,
)
    requires
        reconcile_outcome(ex, paid, rounding, accounting, inv, Ok(rec)),
        0 <= i < ex.len(),
        forall|k: int| 0 <= k < i ==> ex[k].0 != ex[i].0,
        ex[i].0 != seq!['S'] && ex[i].0 != seq!['Z'] && ex[i].0 != seq!['L'] && ex[i].0 != seq!['M'],
        0 <= j < rec.vat_breakdown@.len(),
        rec.vat_breakdown@[j].category@ == ex[i].0,
    ensures
        match rec.vat_breakdown@[j].exemption_reason {
            Some(t) => ex[i].1 == Some(t@),
            None => ex[i].1 is None,
        },
        match rec.vat_breakdown@[j].exemption_reason_code {
            Some(k) => ex[i].2 == Some(k@),
            None => ex[i].2 is None,
        },
{
    let keys = document_keys(inv);
    let e = rec.vat_breakdown@[j];
    let c = keys[j].0;
    assert(group_entry(inv, keys[j], reason_spec(ex, inv, c), e));
    assert(category_code(c) == ex[i].0);
    assert(!category_forbids_reason(c));
    lemma_first_configuration(ex, c, i);
}

} // verus!

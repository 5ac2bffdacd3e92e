//! The validation engine: every registered rule evaluated on an invoice,
//! each failure a finding carrying the rule's id, severity and wording.

use vstd::prelude::*;

use crate::amount::{InvoiceAmount, fits_i64, sum_fits, sum_of};
use crate::bt::{BtId, Group, Path};
use crate::codes::VatCategory;
use crate::amount::amount_text;
use crate::decimal::{Dec, decimal_text};
use crate::text::decimal_digits;
use crate::invoice::{Invoice, VatBreakdown};
use crate::validation::rules::category::{
    check_exemption_reason, check_groups, check_identifiers, check_rate, check_tax_amount,
    check_taxable_amount, profile, br_b_01, br_b_02, br_o_11, br_o_content,
    CategoryProfile, Groups, RateContext, TaxRule, category_identifier_rule, category_profile, content_uses,
    context_vats, groups_of, has_out_of_scope_group, identifiers_ok, is_italian, other_category_paths,
    breakdown_vats, derived_vat, derived_vat_of, rate_failures, reason_failures, tax_scan, taxable_scan,
};
use crate::validation::rules::xrechnung as xr;
use crate::validation::rules::{
    allowance_amounts, br_01, br_01_result, br_02, br_02_result, br_03, br_03_result, br_04, br_04_result, br_05, br_05_result, br_06, br_06_result, br_07, br_07_result, br_09, br_09_result, br_11, br_11_result, br_16, br_16_result, br_21, br_23, br_25, br_27, br_28, br_29, br_29_result, br_30, br_47, br_48, br_cl_17, br_cl_18, br_co_04, br_co_10, br_co_11, br_co_12, br_co_13, br_co_14, br_co_15, br_co_16, br_co_17, br_co_18, br_co_18_result, br_co_19, br_co_19_result, br_co_25, br_co_25_result, breakdown_flags, charge_amounts, co17_results, en_currency_01, en_currency_01_result, flagged_paths, group_term_path, line_flags, net_amounts, or_zero, tax_amounts,
};
use crate::invoice::uses_category;
use crate::edition::Edition;
use crate::codes::texts;
use crate::validation::profile::{
    Profile, Restriction, restriction_failures, restriction_hint, restriction_id, restriction_message,
};
use crate::identifier::opt_view;
use crate::validation::{Detail, Finding, Rule, Severity, ValidationReport, rule_key, rule_keys};
use crate::validation::rules::registry::{
    RuleKey, category_extras_keys, cvd_keys, family_keys, general_keys, registry, registry_keys, xrechnung_keys,
};
use crate::codes::category_of_code;

verus! {

/// A found path, as a sequence of zero or one.
pub open spec fn opt_paths(o: Option<Path>) -> Seq<Path> {
    match o {
        Some(p) => seq![p],
        None => Seq::empty(),
    }
}

/// One path when `fails`, none otherwise.
pub open spec fn path_if(fails: bool, p: Path) -> Seq<Path> {
    if fails {
        seq![p]
    } else {
        Seq::empty()
    }
}

/// Where the totals rule `BR-CO-1x` fails (`x` from 0 to 6).
pub open spec fn totals_paths(x: int, inv: Invoice) -> Seq<Path> {
    let t = inv.totals;
    if x == 0 {
        path_if(
            sum_fits(net_amounts(inv)) && sum_of(net_amounts(inv)) != t.line_total@,
            group_term_path(Group::Totals, 106),
        )
    } else if x == 1 {
        path_if(
            sum_fits(allowance_amounts(inv)) && match t.allowance_total {
                Some(a) => a@ != sum_of(allowance_amounts(inv)),
                None => inv.allowances@.len() > 0,
            },
            group_term_path(Group::Totals, 107),
        )
    } else if x == 2 {
        path_if(
            sum_fits(charge_amounts(inv)) && match t.charge_total {
                Some(c) => c@ != sum_of(charge_amounts(inv)),
                None => inv.charges@.len() > 0,
            },
            group_term_path(Group::Totals, 108),
        )
    } else if x == 3 {
        let step = t.line_total@ - or_zero(t.allowance_total);
        let expected = step + or_zero(t.charge_total);
        path_if(
            fits_i64(step) && fits_i64(expected) && expected != t.taxable_total@,
            group_term_path(Group::Totals, 109),
        )
    } else if x == 4 {
        path_if(
            sum_fits(tax_amounts(inv)) && match t.vat_total {
                Some(v) => v@ != sum_of(tax_amounts(inv)),
                None => sum_of(tax_amounts(inv)) != 0,
            },
            group_term_path(Group::Totals, 110),
        )
    } else if x == 5 {
        let expected = t.taxable_total@ + or_zero(t.vat_total);
        path_if(fits_i64(expected) && expected != t.gross_total@, group_term_path(Group::Totals, 112))
    } else {
        let step = t.gross_total@ - or_zero(t.paid);
        let expected = step + or_zero(t.rounding);
        path_if(
            fits_i64(step) && fits_i64(expected) && expected != t.due@,
            group_term_path(Group::Totals, 115),
        )
    }
}

/// Where core rule `k` of the registry fails, for `k` below 34.
pub open spec fn general_paths(k: int, inv: Invoice) -> Seq<Path> {
    let nl = inv.lines@.len();
    let nb = inv.vat_breakdown@.len();
    if k == 0 {
        opt_paths(br_01_result(inv))
    } else if k == 1 {
        opt_paths(br_02_result(inv))
    } else if k == 2 {
        opt_paths(br_03_result(inv))
    } else if k == 3 {
        opt_paths(br_04_result(inv))
    } else if k == 4 {
        opt_paths(br_05_result(inv))
    } else if k == 5 {
        opt_paths(br_06_result(inv))
    } else if k == 6 {
        opt_paths(br_07_result(inv))
    } else if k == 7 {
        opt_paths(br_09_result(inv))
    } else if k == 8 {
        opt_paths(br_11_result(inv))
    } else if k == 9 {
        opt_paths(br_16_result(inv))
    } else if k == 10 {
        flagged_paths(nl, line_flags(inv, 21), Group::Line, 126)
    } else if k == 11 {
        flagged_paths(nl, line_flags(inv, 23), Group::Line, 130)
    } else if k == 12 {
        flagged_paths(nl, line_flags(inv, 25), Group::Line, 153)
    } else if k == 13 {
        flagged_paths(nl, line_flags(inv, 27), Group::Line, 146)
    } else if k == 14 {
        flagged_paths(nl, line_flags(inv, 28), Group::Line, 148)
    } else if k == 15 {
        opt_paths(br_29_result(inv))
    } else if k == 16 {
        flagged_paths(nl, line_flags(inv, 30), Group::Line, 135)
    } else if k == 17 {
        flagged_paths(nb, breakdown_flags(inv, 47), Group::VatBreakdown, 118)
    } else if k == 18 {
        flagged_paths(nb, breakdown_flags(inv, 48), Group::VatBreakdown, 119)
    } else if k == 19 {
        flagged_paths(nb, breakdown_flags(inv, 17), Group::VatBreakdown, 118)
    } else if k == 20 {
        flagged_paths(nl, line_flags(inv, 18), Group::Line, 151)
    } else if k == 21 {
        flagged_paths(nl, line_flags(inv, 4), Group::Line, 151)
    } else if k <= 28 {
        totals_paths(k - 22, inv)
    } else if k == 29 {
        co17_results(inv, nb).map_values(|x: (Path, Dec)| x.0)
    } else if k == 30 {
        opt_paths(br_co_18_result(inv))
    } else if k == 31 {
        opt_paths(br_co_19_result(inv))
    } else if k == 32 {
        opt_paths(br_co_25_result(inv))
    } else {
        opt_paths(en_currency_01_result(inv))
    }
}

/// The category of the `f`-th family: `S`, `Z`, `E`, `AE`, `K`, `G`, `O`,
/// `L`, `M`.
pub open spec fn family_category(f: int) -> VatCategory {
    if f == 0 {
        VatCategory::Standard
    } else if f == 1 {
        VatCategory::ZeroRated
    } else if f == 2 {
        VatCategory::Exempt
    } else if f == 3 {
        VatCategory::ReverseCharge
    } else if f == 4 {
        VatCategory::IntraCommunity
    } else if f == 5 {
        VatCategory::Export
    } else if f == 6 {
        VatCategory::OutOfScope
    } else if f == 7 {
        VatCategory::CanaryIslands
    } else {
        VatCategory::CeutaMelilla
    }
}

/// The context of a family row that comes in threes: line, allowance, charge.
pub open spec fn row_context(j: int) -> RateContext {
    if j % 3 == 1 {
        RateContext::Line
    } else if j % 3 == 2 {
        RateContext::Allowance
    } else {
        RateContext::Charge
    }
}

/// Whether the `-01` row fails: the category is used and its groups are not
/// the number the table asks for.
pub open spec fn groups_fail(inv: Invoice, p: CategoryProfile) -> bool {
    let n = groups_of(inv.vat_breakdown@, p.category, inv.vat_breakdown@.len());
    content_uses(inv, p.category) && !match p.groups {
        Groups::AtLeastOne => n >= 1,
        Groups::ExactlyOne => n == 1,
    }
}

/// Whether an identifier row (`-02` … `-04`) fails in `ctx`.
pub open spec fn identifiers_fail(inv: Invoice, p: CategoryProfile, ctx: RateContext) -> bool {
    (exists|i: int|
        0 <= i < context_vats(inv, ctx).len() && category_of_code(#[trigger] context_vats(inv, ctx)[i].category@)
            == Some(p.category)) && !identifiers_ok(inv, category_identifier_rule(p.category))
}

/// Where row `j` (0 for `-01` … 9 for `-10`) of family `f` fails.
pub open spec fn family_paths(f: int, j: int, inv: Invoice) -> Seq<Path> {
    let p = category_profile(family_category(f));
    let nb = inv.vat_breakdown@.len();
    if j == 0 {
        path_if(groups_fail(inv, p), Path { group: Group::VatBreakdown, index: None, term: None })
    } else if j <= 3 {
        path_if(
            identifiers_fail(inv, p, row_context(j)),
            Path { group: Group::Seller, index: None, term: Some(BtId(31)) },
        )
    } else if j <= 6 {
        let vats = context_vats(inv, row_context(j - 3));
        rate_failures(vats, p, row_context(j - 3), vats.len())
    } else if j == 7 {
        let found = taxable_scan(inv, p, nb).0;
        Seq::new(
            found.len(),
            |k: int| Path { group: Group::VatBreakdown, index: Some(found[k].0 as usize), term: Some(BtId(116)) },
        )
    } else if j == 8 {
        let found = tax_scan(inv, p, nb);
        Seq::new(
            found.len(),
            |k: int| Path { group: Group::VatBreakdown, index: Some(found[k] as usize), term: Some(BtId(117)) },
        )
    } else {
        reason_failures(inv.vat_breakdown@, p.category, nb)
    }
}


/// Where split-payment or `O` rule `k` (0 `BR-B-01`, 1 `BR-B-02`, 2
/// `BR-O-11`, 3 to 5 `BR-O-12` … `BR-O-14`) fails.
pub open spec fn extra_paths(k: int, inv: Invoice) -> Seq<Path> {
    if k == 0 {
        path_if(
            content_uses(inv, VatCategory::SplitPayment) && !(is_italian(inv.seller.address.country)
                && is_italian(inv.buyer.address.country)),
            Path { group: Group::Document, index: None, term: Some(BtId(3)) },
        )
    } else if k == 1 {
        path_if(
            uses_category(inv, VatCategory::SplitPayment) && uses_category(inv, VatCategory::Standard),
            Path { group: Group::VatBreakdown, index: None, term: None },
        )
    } else if k == 2 {
        if has_out_of_scope_group(inv) && inv.vat_breakdown@.len() > 1 {
            other_category_paths(
                breakdown_vats(inv),
                VatCategory::OutOfScope,
                Group::VatBreakdown,
                BtId(118),
                inv.vat_breakdown@.len(),
            )
        } else {
            Seq::empty()
        }
    } else {
        let ctx = if k == 3 {
            RateContext::Line
        } else if k == 4 {
            RateContext::Allowance
        } else {
            RateContext::Charge
        };
        if has_out_of_scope_group(inv) {
            other_category_paths(
                context_vats(inv, ctx),
                VatCategory::OutOfScope,
                if k == 3 {
                    Group::Line
                } else if k == 4 {
                    Group::DocumentAllowance
                } else {
                    Group::DocumentCharge
                },
                if k == 3 {
                    BtId(151)
                } else if k == 4 {
                    BtId(95)
                } else {
                    BtId(102)
                },
                context_vats(inv, ctx).len(),
            )
        } else {
            Seq::empty()
        }
    }
}

/// Where XRechnung rule `k` of its list fails; the `-b` halves never do,
/// because `PaymentMeans` cannot hold two groups.
pub open spec fn xrechnung_paths(k: int, inv: Invoice) -> Seq<Path> {
    let na = inv.attachments@.len();
    if k == 0 {
        opt_paths(xr::br_de_2_result(inv))
    } else if k == 1 {
        opt_paths(xr::br_de_10_result(inv))
    } else if k == 2 {
        opt_paths(xr::br_de_11_result(inv))
    } else if k == 3 {
        opt_paths(xr::br_de_18_result(inv))
    } else if k == 4 {
        xr::attachment_paths(na, xr::repeated_names(inv), 125)
    } else if k == 5 {
        xr::attachment_paths(na, xr::bad_locations(inv), 124)
    } else if k == 6 {
        opt_paths(xr::br_de_tmp_32_result(inv))
    } else if k == 7 {
        opt_paths(xr::br_de_16_result(inv))
    } else if k == 8 {
        opt_paths(xr::br_de_19_result(inv))
    } else if k == 9 {
        opt_paths(xr::br_de_20_result(inv))
    } else if k == 10 {
        opt_paths(xr::br_de_23_a_result(inv))
    } else if k == 12 {
        opt_paths(xr::br_de_24_a_result(inv))
    } else if k == 14 {
        opt_paths(xr::br_de_25_a_result(inv))
    } else if k == 16 {
        opt_paths(xr::br_de_26_result(inv))
    } else if k == 17 {
        opt_paths(xr::br_de_27_result(inv))
    } else if k == 18 {
        opt_paths(xr::br_de_28_result(inv))
    } else if k == 19 {
        opt_paths(xr::br_de_30_result(inv))
    } else if k == 20 {
        opt_paths(xr::br_de_31_result(inv))
    } else if k == 21 {
        opt_paths(xr::en_sepa_01_result(inv))
    } else {
        Seq::empty()
    }
}

/// Where CVD rule `k` of its list fails, 7 being the Extension's mime rule.
pub open spec fn cvd_paths(k: int, inv: Invoice) -> Seq<Path> {
    let nl = inv.lines@.len();
    if k == 0 {
        opt_paths(xr::br_de_cvd_01_result(inv))
    } else if k == 1 {
        opt_paths(xr::br_de_cvd_02_result(inv))
    } else if k == 2 {
        opt_paths(xr::br_de_cvd_03_result(inv))
    } else if k == 3 {
        xr::line_paths(nl, xr::bad_vehicle_counts(inv), 158)
    } else if k == 4 {
        xr::line_paths(nl, xr::bad_cva_counts(inv), 161)
    } else if k == 5 {
        xr::line_paths(nl, xr::cvd_06_a_counts(inv), 160)
    } else if k == 6 {
        xr::line_paths(nl, xr::cvd_06_b_counts(inv), 158)
    } else {
        xr::attachment_paths(inv.attachments@.len(), xr::foreign_mime_codes(inv), 125)
    }
}

/// How many rules the registry holds, and where each part begins.
pub open spec fn registry_len() -> int {
    160
}

/// Where registry rule `k` fails in `inv`.
pub open spec fn rule_paths(k: int, inv: Invoice) -> Seq<Path> {
    if k < 34 {
        general_paths(k, inv)
    } else if k < 124 {
        family_paths((k - 34) / 10, (k - 34) % 10, inv)
    } else if k < 130 {
        extra_paths(k - 124, inv)
    } else if k < 152 {
        xrechnung_paths(k - 130, inv)
    } else {
        cvd_paths(k - 152, inv)
    }
}


fn opt_vec(o: Option<Path>) -> (r: Vec<Path>)
    ensures
        r@ == opt_paths(o),
{
    match o {
        Some(p) => {
            let v = vec![p];
            assert(v@ =~= seq![p]);
            v
        },
        None => Vec::new(),
    }
}

fn pair_vec(o: Option<(Path, InvoiceAmount)>) -> (r: Vec<Path>)
    ensures
        r@ == match o {
            Some((p, _)) => seq![p],
            None => Seq::<Path>::empty(),
        },
{
    match o {
        Some((p, _)) => {
            let v = vec![p];
            assert(v@ =~= seq![p]);
            v
        },
        None => Vec::new(),
    }
}

fn totals_exec(x: usize, inv: &Invoice) -> (r: Vec<Path>)
    requires
        x <= 6,
    ensures
        r@ == totals_paths(x as int, *inv),
{
    if x == 0 {
        pair_vec(br_co_10(inv))
    } else if x == 1 {
        pair_vec(br_co_11(inv))
    } else if x == 2 {
        pair_vec(br_co_12(inv))
    } else if x == 3 {
        pair_vec(br_co_13(inv))
    } else if x == 4 {
        pair_vec(br_co_14(inv))
    } else if x == 5 {
        pair_vec(br_co_15(inv))
    } else {
        pair_vec(br_co_16(inv))
    }
}

fn co17_exec(inv: &Invoice) -> (r: Vec<Path>)
    ensures
        r@ == co17_results(*inv, inv.vat_breakdown@.len()).map_values(|x: (Path, Dec)| x.0),
{
    let found = br_co_17(inv);
    let mut out: Vec<Path> = Vec::new();
    let mut i: usize = 0;
    while i < found.len()
        invariant
            i <= found@.len(),
            out@ == found@.subrange(0, i as int).map_values(|x: (Path, Dec)| x.0),
        decreases found.len() - i,
    {
        out.push(found[i].0);
        assert(found@.subrange(0, i + 1).map_values(|x: (Path, Dec)| x.0) =~= found@.subrange(
            0,
            i as int,
        ).map_values(|x: (Path, Dec)| x.0).push(found@[i as int].0));
        i = i + 1;
    }
    assert(found@.subrange(0, found@.len() as int) =~= found@);
    out
}

fn general_exec(k: usize, inv: &Invoice) -> (r: Vec<Path>)
    requires
        k < 34,
    ensures
        r@ == general_paths(k as int, *inv),
{
    if k == 0 {
        opt_vec(br_01(inv))
    } else if k == 1 {
        opt_vec(br_02(inv))
    } else if k == 2 {
        opt_vec(br_03(inv))
    } else if k == 3 {
        opt_vec(br_04(inv))
    } else if k == 4 {
        opt_vec(br_05(inv))
    } else if k == 5 {
        opt_vec(br_06(inv))
    } else if k == 6 {
        opt_vec(br_07(inv))
    } else if k == 7 {
        opt_vec(br_09(inv))
    } else if k == 8 {
        opt_vec(br_11(inv))
    } else if k == 9 {
        opt_vec(br_16(inv))
    } else if k == 10 {
        br_21(inv)
    } else if k == 11 {
        br_23(inv)
    } else if k == 12 {
        br_25(inv)
    } else if k == 13 {
        br_27(inv)
    } else if k == 14 {
        br_28(inv)
    } else if k == 15 {
        opt_vec(br_29(inv))
    } else if k == 16 {
        br_30(inv)
    } else if k == 17 {
        br_47(inv)
    } else if k == 18 {
        br_48(inv)
    } else if k == 19 {
        br_cl_17(inv)
    } else if k == 20 {
        br_cl_18(inv)
    } else if k == 21 {
        br_co_04(inv)
    } else if k <= 28 {
        totals_exec(k - 22, inv)
    } else if k == 29 {
        co17_exec(inv)
    } else if k == 30 {
        opt_vec(br_co_18(inv))
    } else if k == 31 {
        opt_vec(br_co_19(inv))
    } else if k == 32 {
        opt_vec(br_co_25(inv))
    } else {
        opt_vec(en_currency_01(inv))
    }
}


fn family_category_exec(f: usize) -> (c: VatCategory)
    ensures
        c == family_category(f as int),
{
    if f == 0 {
        VatCategory::Standard
    } else if f == 1 {
        VatCategory::ZeroRated
    } else if f == 2 {
        VatCategory::Exempt
    } else if f == 3 {
        VatCategory::ReverseCharge
    } else if f == 4 {
        VatCategory::IntraCommunity
    } else if f == 5 {
        VatCategory::Export
    } else if f == 6 {
        VatCategory::OutOfScope
    } else if f == 7 {
        VatCategory::CanaryIslands
    } else {
        VatCategory::CeutaMelilla
    }
}

fn row_context_exec(j: usize) -> (c: RateContext)
    ensures
        c == row_context(j as int),
{
    if j % 3 == 1 {
        RateContext::Line
    } else if j % 3 == 2 {
        RateContext::Allowance
    } else {
        RateContext::Charge
    }
}

fn family_exec(f: usize, j: usize, inv: &Invoice) -> (r: Vec<Path>)
    requires
        f < 9,
        j < 10,
    ensures
        r@ == family_paths(f as int, j as int, *inv),
{
    let p = profile(family_category_exec(f));
    if j == 0 {
        match check_groups(inv, p) {
            Some(_) => {
                let v = vec![Path::group(Group::VatBreakdown)];
                assert(v@ =~= seq![Path { group: Group::VatBreakdown, index: None, term: None }]);
                v
            },
            None => Vec::new(),
        }
    } else if j <= 3 {
        opt_vec(check_identifiers(inv, p, row_context_exec(j)))
    } else if j <= 6 {
        check_rate(inv, p, row_context_exec(j - 3))
    } else if j == 7 {
        let found = check_taxable_amount(inv, p);
        let ghost scan = taxable_scan(*inv, p, inv.vat_breakdown@.len()).0;
        let mut out: Vec<Path> = Vec::new();
        let mut i: usize = 0;
        while i < found.len()
            invariant
                i <= found@.len(),
                found@.len() == scan.len(),
                scan == taxable_scan(*inv, p, inv.vat_breakdown@.len()).0,
                forall|k: int|
                    0 <= k < found@.len() ==> (#[trigger] found@[k]).0 == (Path {
                        group: Group::VatBreakdown,
                        index: Some(scan[k].0 as usize),
                        term: Some(BtId(116)),
                    }),
                out@ =~= Seq::new(
                    i as nat,
                    |k: int| Path { group: Group::VatBreakdown, index: Some(scan[k].0 as usize), term: Some(BtId(116)) },
                ),
            decreases found.len() - i,
        {
            assert(found@[i as int].0 == (Path {
                group: Group::VatBreakdown,
                index: Some(scan[i as int].0 as usize),
                term: Some(BtId(116)),
            }));
            out.push(found[i].0);
            i = i + 1;
        }
        out
    } else if j == 8 {
        check_tax_amount(inv, p)
    } else {
        check_exemption_reason(inv, p)
    }
}


fn extra_exec(k: usize, inv: &Invoice) -> (r: Vec<Path>)
    requires
        k < 6,
    ensures
        r@ == extra_paths(k as int, *inv),
{
    if k == 0 {
        opt_vec(br_b_01(inv))
    } else if k == 1 {
        opt_vec(br_b_02(inv))
    } else if k == 2 {
        br_o_11(inv)
    } else if k == 3 {
        br_o_content(inv, RateContext::Line)
    } else if k == 4 {
        br_o_content(inv, RateContext::Allowance)
    } else {
        br_o_content(inv, RateContext::Charge)
    }
}

fn xrechnung_exec(k: usize, inv: &Invoice) -> (r: Vec<Path>)
    requires
        k < 22,
    ensures
        r@ == xrechnung_paths(k as int, *inv),
{
    if k == 0 {
        opt_vec(xr::br_de_2(inv))
    } else if k == 1 {
        opt_vec(xr::br_de_10(inv))
    } else if k == 2 {
        opt_vec(xr::br_de_11(inv))
    } else if k == 3 {
        opt_vec(xr::br_de_18(inv))
    } else if k == 4 {
        xr::br_de_22(inv)
    } else if k == 5 {
        xr::br_tmp_2(inv)
    } else if k == 6 {
        opt_vec(xr::br_de_tmp_32(inv))
    } else if k == 7 {
        opt_vec(xr::br_de_16(inv))
    } else if k == 8 {
        opt_vec(xr::br_de_19(inv))
    } else if k == 9 {
        opt_vec(xr::br_de_20(inv))
    } else if k == 10 {
        opt_vec(xr::br_de_23_a(inv))
    } else if k == 12 {
        opt_vec(xr::br_de_24_a(inv))
    } else if k == 14 {
        opt_vec(xr::br_de_25_a(inv))
    } else if k == 16 {
        opt_vec(xr::br_de_26(inv))
    } else if k == 17 {
        opt_vec(xr::br_de_27(inv))
    } else if k == 18 {
        opt_vec(xr::br_de_28(inv))
    } else if k == 19 {
        opt_vec(xr::br_de_30(inv))
    } else if k == 20 {
        opt_vec(xr::br_de_31(inv))
    } else if k == 21 {
        opt_vec(xr::en_sepa_01(inv))
    } else {
        Vec::new()
    }
}

fn cvd_exec(k: usize, inv: &Invoice) -> (r: Vec<Path>)
    requires
        k < 8,
    ensures
        r@ == cvd_paths(k as int, *inv),
{
    if k == 0 {
        opt_vec(xr::br_de_cvd_01(inv))
    } else if k == 1 {
        opt_vec(xr::br_de_cvd_02(inv))
    } else if k == 2 {
        opt_vec(xr::br_de_cvd_03(inv))
    } else if k == 3 {
        xr::br_de_cvd_04(inv)
    } else if k == 4 {
        xr::br_de_cvd_05(inv)
    } else if k == 5 {
        xr::br_de_cvd_06_a(inv)
    } else if k == 6 {
        xr::br_de_cvd_06_b(inv)
    } else {
        xr::br_dex_01(inv)
    }
}

/// Where registry rule `k` fails in `inv`.
pub fn rule_failures(k: usize, inv: &Invoice) -> (r: Vec<Path>)
    requires
        k < 160,
    ensures
        r@ == rule_paths(k as int, *inv),
{
    if k < 34 {
        general_exec(k, inv)
    } else if k < 124 {
        family_exec((k - 34) / 10, (k - 34) % 10, inv)
    } else if k < 130 {
        extra_exec(k - 124, inv)
    } else if k < 152 {
        xrechnung_exec(k - 130, inv)
    } else {
        cvd_exec(k - 152, inv)
    }
}


// ── Running rules ─────────────────────────────────────────────────────────────

/// What a finding's contract fixes: its rule id, severity, path, wording,
/// hint and arithmetic detail.
pub type FindingKey = (
    Seq<char>,
    Severity,
    Path,
    Seq<char>,
    Option<Seq<char>>,
    Option<(Seq<char>, Seq<char>)>,
);

/// A finding's key.
pub open spec fn finding_key(f: Finding) -> FindingKey {
    (f.rule@, f.severity, f.path, f.message@, opt_view(f.hint), detail_view(f.detail))
}

/// The keys of the findings of rule `key` at each of `paths`, the rule at
/// registry position `k`.
pub open spec fn keyed(k: int, key: RuleKey, inv: Invoice, paths: Seq<Path>, n: int) -> Seq<FindingKey> {
    Seq::new(n as nat, |m: int| (key.0, key.1, paths[m], key.4, None::<Seq<char>>, rule_detail(k, inv, paths, m)))
}

/// The keys of a list of findings, in order.
pub open spec fn finding_keys(fs: Seq<Finding>) -> Seq<FindingKey> {
    fs.map_values(|f: Finding| finding_key(f))
}

/// The findings of registry rule `k` on `inv`: one per failing path.
pub open spec fn findings_of(k: int, inv: Invoice) -> Seq<FindingKey> {
    let paths = rule_paths(k, inv);
    keyed(k, registry_keys()[k], inv, paths, paths.len() as int)
}

/// The findings of the registry rules `ks`, in that order.
pub open spec fn run(ks: Seq<int>, inv: Invoice) -> Seq<FindingKey>
    decreases ks.len(),
{
    if ks.len() == 0 {
        Seq::empty()
    } else {
        run(ks.drop_last(), inv) + findings_of(ks.last(), inv)
    }
}

/// The core rule set's registry positions: the general rules, the nine
/// families and the split-payment and `O` rules.
pub open spec fn core_indices() -> Seq<int> {
    Seq::new(130, |k: int| k)
}

/// The registry holds 160 rules.
pub proof fn lemma_registry_len()
    ensures
        registry_keys().len() == 160,
{
    assert(general_keys().len() == 34);
    assert(family_keys().len() == 90);
    assert(category_extras_keys().len() == 6);
    assert(xrechnung_keys().len() == 22);
    assert(cvd_keys().len() == 8);
}

/// Registry positions as integers.
pub open spec fn as_ints(ks: Seq<usize>) -> Seq<int> {
    ks.map_values(|k: usize| k as int)
}

/// Append the findings of registry rules `ks` to `out`.
fn run_rules(rules: &Vec<Rule>, ks: &Vec<usize>, inv: &Invoice, out: &mut Vec<Finding>)
    requires
        rule_keys(rules@) == registry_keys(),
        forall|i: int| 0 <= i < ks@.len() ==> #[trigger] ks@[i] < 160,
    ensures
        finding_keys(final(out)@) == finding_keys(old(out)@) + run(
            as_ints(ks@),
            *inv,
        ),
{
    proof {
        lemma_registry_len();
    }
    let ghost start = finding_keys(out@);
    let ghost idx = as_ints(ks@);
    let mut i: usize = 0;
    while i < ks.len()
        invariant
            rule_keys(rules@) == registry_keys(),
            registry_keys().len() == 160,
            rules@.len() == 160,
            idx == as_ints(ks@),
            forall|j: int| 0 <= j < ks@.len() ==> #[trigger] ks@[j] < 160,
            i <= ks@.len(),
            finding_keys(out@) == start + run(idx.subrange(0, i as int), *inv),
        decreases ks.len() - i,
    {
        let k = ks[i];
        let rule = &rules[k];
        let paths = rule_failures(k, inv);
        let details = rule_details(k, inv, &paths);
        let ghost key = registry_keys()[k as int];
        assert(rule_key(*rule) == key);
        let ghost before = finding_keys(out@);
        let mut j: usize = 0;
        while j < paths.len()
            invariant
                j <= paths@.len(),
                details@.len() == paths@.len(),
                forall|m: int|
                    0 <= m < paths@.len() ==> detail_view(#[trigger] details@[m]) == rule_detail(
                        k as int,
                        *inv,
                        paths@,
                        m,
                    ),
                rule_key(*rule) == key,
                finding_keys(out@) == before + keyed(k as int, key, *inv, paths@, j as int),
            decreases paths.len() - j,
        {
            let ghost mid = out@;
            let detail = match &details[j] {
                Some(d) => Some(
                    Detail {
                        expected: crate::identifier::owned(d.expected.as_str()),
                        actual: crate::identifier::owned(d.actual.as_str()),
                    },
                ),
                None => None,
            };
            out.push(
                Finding {
                    rule: crate::identifier::owned(rule.id.as_str()),
                    severity: rule.severity,
                    path: paths[j],
                    message: crate::identifier::owned(rule.text.as_str()),
                    detail,
                    hint: None,
                },
            );
            assert(detail_view(detail) == rule_detail(k as int, *inv, paths@, j as int));
            assert(finding_keys(out@) =~= finding_keys(mid).push(
                (
                    key.0,
                    key.1,
                    paths@[j as int],
                    key.4,
                    None::<Seq<char>>,
                    rule_detail(k as int, *inv, paths@, j as int),
                ),
            ));
            assert(keyed(k as int, key, *inv, paths@, j + 1) =~= keyed(k as int, key, *inv, paths@, j as int).push(
                (
                    key.0,
                    key.1,
                    paths@[j as int],
                    key.4,
                    None::<Seq<char>>,
                    rule_detail(k as int, *inv, paths@, j as int),
                ),
            ));
            j = j + 1;
        }
        proof {
            assert(idx.subrange(0, i + 1).drop_last() =~= idx.subrange(0, i as int));
            assert(idx.subrange(0, i + 1).last() == k as int);
            assert(findings_of(k as int, *inv) =~= keyed(k as int, key, *inv, paths@, paths@.len() as int));
        }
        i = i + 1;
    }
    assert(idx.subrange(0, ks@.len() as int) =~= idx);
}

/// Validate `inv` against the EN 16931 core rule set: every failure of a
/// general rule, a category family row, or a split-payment or `O` rule, in
/// registry order, each carrying its rule's id, severity and wording and, for
/// an arithmetic rule, what it computed beside what the document states.
pub fn validate(inv: &Invoice) -> (report: ValidationReport)
    ensures
        report.profile is None,
        report.edition == Edition::En2017A1,
        report.suppressed@.len() == 0,
        finding_keys(report.findings@) == run(core_indices(), *inv),
{
    let rules = registry();
    let mut ks: Vec<usize> = Vec::new();
    let mut k: usize = 0;
    while k < 130
        invariant
            k <= 130,
            ks@.len() == k,
            as_ints(ks@) == Seq::new(k as nat, |x: int| x),
            forall|i: int| 0 <= i < ks@.len() ==> #[trigger] ks@[i] < 160,
        decreases 130 - k,
    {
        let ghost before = ks@;
        ks.push(k);
        assert forall|i: int| 0 <= i < ks@.len() implies #[trigger] as_ints(ks@)[i]
            == i by {
            if i < k {
                assert(ks@[i] == before[i]);
                assert(as_ints(before)[i] == Seq::new(k as nat, |x: int| x)[i]);
            }
        }
        assert(as_ints(ks@) =~= Seq::new((k + 1) as nat, |x: int| x));
        k = k + 1;
    }
    let mut findings: Vec<Finding> = Vec::new();
    run_rules(&rules, &ks, inv, &mut findings);
    assert(finding_keys(Seq::<Finding>::empty()) =~= Seq::empty());
    assert(core_indices() =~= as_ints(ks@));
    ValidationReport { profile: None, edition: Edition::En2017A1, suppressed: Vec::new(), findings }
}

/// Whether any finding is fatal.
pub open spec fn has_fatal(fs: Seq<FindingKey>) -> bool {
    exists|i: int| 0 <= i < fs.len() && (#[trigger] fs[i]).1 == Severity::Fatal
}

impl ValidationReport {
    /// Whether no finding is fatal.
    pub fn is_valid(&self) -> (b: bool)
        ensures
            b == !has_fatal(finding_keys(self.findings@)),
    {
        let mut i: usize = 0;
        while i < self.findings.len()
            invariant
                i <= self.findings@.len(),
                forall|j: int| 0 <= j < i ==> (#[trigger] self.findings@[j]).severity != Severity::Fatal,
            decreases self.findings.len() - i,
        {
            if self.findings[i].severity == Severity::Fatal {
                assert(finding_keys(self.findings@)[i as int].1 == Severity::Fatal);
                return false;
            }
            i = i + 1;
        }
        proof {
            if has_fatal(finding_keys(self.findings@)) {
                let j = choose|j: int| 0 <= j < finding_keys(self.findings@).len() && (#[trigger] finding_keys(self.findings@)[j]).1
                    == Severity::Fatal;
                assert(self.findings@[j].severity == Severity::Fatal);
            }
        }
        true
    }

    /// Whether some finding is of the rule `id`.
    pub fn has(&self, id: &str) -> (b: bool)
        ensures
            b == exists|i: int| 0 <= i < self.findings@.len() && (#[trigger] self.findings@[i]).rule@ == id@,
    {
        let mut i: usize = 0;
        while i < self.findings.len()
            invariant
                i <= self.findings@.len(),
                forall|j: int| 0 <= j < i ==> (#[trigger] self.findings@[j]).rule@ != id@,
            decreases self.findings.len() - i,
        {
            if crate::text::str_eq(self.findings[i].rule.as_str(), id) {
                return true;
            }
            i = i + 1;
        }
        false
    }
}


// ── Profiles ──────────────────────────────────────────────────────────────────

/// The first registry position at or after `from` whose id is exactly `id`.
pub open spec fn index_of_id(id: Seq<char>, from: int) -> Option<int>
    decreases 160 - from,
{
    if from < 0 || from >= 160 {
        None
    } else if registry_keys()[from].0 == id {
        Some(from)
    } else {
        index_of_id(id, from + 1)
    }
}

/// The first `n` core positions whose rule `suppressed` does not withdraw.
pub open spec fn core_kept(suppressed: Seq<Seq<char>>, n: nat) -> Seq<int>
    decreases n,
{
    if n == 0 {
        Seq::empty()
    } else {
        let earlier = core_kept(suppressed, (n - 1) as nat);
        if suppressed.contains(registry_keys()[n - 1].0) {
            earlier
        } else {
            earlier.push(n - 1)
        }
    }
}

/// The registry positions of `ids`, in order, ids the registry lacks skipped.
pub open spec fn extra_positions(ids: Seq<Seq<char>>) -> Seq<int>
    decreases ids.len(),
{
    if ids.len() == 0 {
        Seq::empty()
    } else {
        let earlier = extra_positions(ids.drop_last());
        match index_of_id(ids.last(), 0) {
            Some(k) => earlier.push(k),
            None => earlier,
        }
    }
}

/// The rules a profile runs: the core set less what it suppresses, then its
/// own conditional rules.
pub open spec fn profile_indices(p: Profile) -> Seq<int> {
    core_kept(texts(p.suppressed@), 130) + extra_positions(texts(p.extra_rules@))
}

/// The findings the first `n` restrictions raise on `inv`: fatal, under the
/// restriction's own id, at each failing occurrence.
pub open spec fn restriction_keys(rs: Seq<Restriction>, inv: Invoice, n: nat) -> Seq<FindingKey>
    decreases n,
{
    if n == 0 {
        Seq::empty()
    } else {
        let r = rs[n - 1];
        restriction_keys(rs, inv, (n - 1) as nat) + restriction_failures(r, inv).map_values(
            |o: (Path, Option<Seq<char>>)|
                (
                    restriction_id(r)@,
                    Severity::Fatal,
                    o.0,
                    restriction_message(r),
                    restriction_hint(r, o.1),
                    None::<(Seq<char>, Seq<char>)>,
                ),
        )
    }
}

/// What a profile reports on `inv`: its rules' findings, then its
/// restrictions'.
pub open spec fn profile_findings(p: Profile, inv: Invoice) -> Seq<FindingKey> {
    run(profile_indices(p), inv) + restriction_keys(p.restrictions@, inv, p.restrictions@.len())
}

/// The registry position of `id`, if it is registered.
fn position_of(rules: &Vec<Rule>, id: &str) -> (r: Option<usize>)
    requires
        rule_keys(rules@) == registry_keys(),
        rules@.len() == 160,
    ensures
        match index_of_id(id@, 0) {
            Some(k) => r == Some(k as usize),
            None => r is None,
        },
{
    let mut k: usize = 0;
    while k < 160
        invariant
            rule_keys(rules@) == registry_keys(),
            rules@.len() == 160,
            k <= 160,
            index_of_id(id@, 0) == index_of_id(id@, k as int),
        decreases 160 - k,
    {
        assert(registry_keys()[k as int].0 == rules@[k as int].id@);
        if crate::text::str_eq(rules[k].id.as_str(), id) {
            return Some(k);
        }
        k = k + 1;
    }
    None
}

/// Whether `s` is one of `list`.
fn listed_id(list: &Vec<&'static str>, s: &str) -> (b: bool)
    ensures
        b == texts(list@).contains(s@),
{
    let mut i: usize = 0;
    while i < list.len()
        invariant
            i <= list@.len(),
            forall|k: int| 0 <= k < i ==> list@[k]@ != s@,
        decreases list.len() - i,
    {
        if crate::text::str_eq(list[i], s) {
            assert(texts(list@)[i as int] == s@);
            return true;
        }
        i = i + 1;
    }
    proof {
        if texts(list@).contains(s@) {
            let k = choose|k: int| 0 <= k < texts(list@).len() && texts(list@)[k] == s@;
            assert(list@[k]@ == s@);
        }
    }
    false
}

impl Profile {
    /// Validate `invoice` against the core rules this profile keeps, its own
    /// conditional rules, and its restrictions, attributed to the profile.
    pub fn validate(&self, invoice: &Invoice) -> (report: ValidationReport)
        ensures
            report.profile matches Some(id) && id@ == self.id@,
            report.edition == self.edition,
            report.suppressed@.map_values(|s: String| s@) == texts(self.suppressed@),
            finding_keys(report.findings@) == profile_findings(*self, *invoice),
    {
        proof {
            lemma_registry_len();
        }
        let rules = registry();
        let mut ks: Vec<usize> = Vec::new();
        let mut k: usize = 0;
        while k < 130
            invariant
                rule_keys(rules@) == registry_keys(),
                rules@.len() == 160,
                k <= 130,
                as_ints(ks@) == core_kept(texts(self.suppressed@), k as nat),
                forall|i: int| 0 <= i < ks@.len() ==> #[trigger] ks@[i] < 160,
            decreases 130 - k,
        {
            assert(registry_keys()[k as int].0 == rules@[k as int].id@);
            let ghost before = ks@;
            if !listed_id(&self.suppressed, rules[k].id.as_str()) {
                ks.push(k);
                assert(as_ints(ks@) =~= as_ints(before).push(k as int));
            }
            k = k + 1;
        }
        let ghost kept = as_ints(ks@);
        let mut i: usize = 0;
        while i < self.extra_rules.len()
            invariant
                rule_keys(rules@) == registry_keys(),
                rules@.len() == 160,
                i <= self.extra_rules@.len(),
                as_ints(ks@) == kept + extra_positions(texts(self.extra_rules@.subrange(0, i as int))),
                forall|j: int| 0 <= j < ks@.len() ==> #[trigger] ks@[j] < 160,
            decreases self.extra_rules.len() - i,
        {
            proof {
                assert(texts(self.extra_rules@.subrange(0, i + 1)).drop_last() =~= texts(
                    self.extra_rules@.subrange(0, i as int),
                ));
                assert(texts(self.extra_rules@.subrange(0, i + 1)).last() == self.extra_rules@[i as int]@);
            }
            let ghost before = ks@;
            match position_of(&rules, self.extra_rules[i]) {
                Some(p) => {
                    proof {
                        lemma_index_of_id_in_range(self.extra_rules@[i as int]@, 0);
                    }
                    ks.push(p);
                    assert(as_ints(ks@) =~= as_ints(before).push(p as int));
                },
                None => {},
            }
            i = i + 1;
        }
        proof {
            assert(self.extra_rules@.subrange(0, self.extra_rules@.len() as int) =~= self.extra_rules@);
        }
        let mut findings: Vec<Finding> = Vec::new();
        run_rules(&rules, &ks, invoice, &mut findings);
        proof {
            assert(finding_keys(Seq::<Finding>::empty()) =~= Seq::empty());
        }
        let mut j: usize = 0;
        let ghost ran = finding_keys(findings@);
        while j < self.restrictions.len()
            invariant
                j <= self.restrictions@.len(),
                finding_keys(findings@) == ran + restriction_keys(self.restrictions@, *invoice, j as nat),
            decreases self.restrictions.len() - j,
        {
            let r = &self.restrictions[j];
            let mut more = r.check(invoice);
            let ghost before = finding_keys(findings@);
            proof {
                assert(finding_keys(more@) =~= restriction_failures(*r, *invoice).map_values(
                    |o: (Path, Option<Seq<char>>)|
                        (
                            restriction_id(*r)@,
                            Severity::Fatal,
                            o.0,
                            restriction_message(*r),
                            restriction_hint(*r, o.1),
                            None::<(Seq<char>, Seq<char>)>,
                        ),
                ));
            }
            let ghost more_keys = finding_keys(more@);
            findings.append(&mut more);
            proof {
                assert(finding_keys(findings@) =~= before + more_keys);
            }
            j = j + 1;
        }
        let mut suppressed: Vec<String> = Vec::new();
        let mut s: usize = 0;
        while s < self.suppressed.len()
            invariant
                s <= self.suppressed@.len(),
                suppressed@.map_values(|x: String| x@) == texts(self.suppressed@.subrange(0, s as int)),
            decreases self.suppressed.len() - s,
        {
            let ghost before = suppressed@;
            suppressed.push(crate::identifier::owned(self.suppressed[s]));
            proof {
                assert(suppressed@.map_values(|x: String| x@) =~= before.map_values(|x: String| x@).push(
                    self.suppressed@[s as int]@,
                ));
                assert(texts(self.suppressed@.subrange(0, s + 1)) =~= texts(
                    self.suppressed@.subrange(0, s as int),
                ).push(self.suppressed@[s as int]@));
            }
            s = s + 1;
        }
        proof {
            assert(self.suppressed@.subrange(0, self.suppressed@.len() as int) =~= self.suppressed@);
        }
        ValidationReport {
            profile: Some(crate::identifier::owned(self.id)),
            edition: self.edition,
            suppressed,
            findings,
        }
    }
}

/// A position `index_of_id` returns is in the registry.
proof fn lemma_index_of_id_in_range(id: Seq<char>, from: int)
    ensures
        index_of_id(id, from) matches Some(k) ==> 0 <= k < 160,
    decreases 160 - from,
{
    if !(from < 0 || from >= 160) && registry_keys()[from].0 != id {
        lemma_index_of_id_in_range(id, from + 1);
    }
}


// ── Laws ──────────────────────────────────────────────────────────────────────

/// Running two lists of rules one after the other finds what each finds, in
/// that order.
pub proof fn lemma_run_append(a: Seq<int>, b: Seq<int>, inv: Invoice)
    ensures
        run(a + b, inv) == run(a, inv) + run(b, inv),
    decreases b.len(),
{
    if b.len() == 0 {
        assert(a + b =~= a);
        assert(run(b, inv) =~= Seq::empty());
    } else {
        lemma_run_append(a, b.drop_last(), inv);
        assert((a + b).drop_last() =~= a + b.drop_last());
        assert((a + b).last() == b.last());
    }
}

/// With nothing suppressed, every core position is kept, in order.
proof fn lemma_core_kept_all(n: nat)
    requires
        n <= 130,
    ensures
        core_kept(Seq::empty(), n) == Seq::new(n, |k: int| k),
    decreases n,
{
    if n > 0 {
        lemma_core_kept_all((n - 1) as nat);
        assert(Seq::new(n, |k: int| k) =~= Seq::new((n - 1) as nat, |k: int| k).push(n - 1));
    }
}

/// A profile that withdraws no core rule only adds findings: what it reports
/// on any invoice is everything the core rule set reports, followed by the
/// findings of its own rules and restrictions. Its restrictions narrow, and
/// nothing it does can accept what the core model rejects (§4.4.2).
pub proof fn law_a_conformant_cius_only_adds_findings(p: Profile, inv: Invoice)
    requires
        p.suppressed@.len() == 0,
    ensures
        profile_findings(p, inv) == run(core_indices(), inv) + run(
            extra_positions(texts(p.extra_rules@)),
            inv,
        ) + restriction_keys(p.restrictions@, inv, p.restrictions@.len()),
{
    assert(texts(p.suppressed@) =~= Seq::<Seq<char>>::empty());
    lemma_core_kept_all(130);
    assert(core_kept(texts(p.suppressed@), 130) =~= core_indices());
    lemma_run_append(core_indices(), extra_positions(texts(p.extra_rules@)), inv);
}

/// What the core rule set finds is among what the profile finds.
proof fn lemma_prefix_fatal(a: Seq<FindingKey>, b: Seq<FindingKey>)
    ensures
        has_fatal(a) ==> has_fatal(a + b),
{
    if has_fatal(a) {
        let i = choose|i: int| 0 <= i < a.len() && (#[trigger] a[i]).1 == Severity::Fatal;
        assert((a + b)[i] == a[i]);
    }
}

/// §4.4.4: a document valid under a conformant CIUS is valid under the core
/// model — no fatal finding from a profile that suppresses nothing means no
/// fatal finding from [`validate`].
pub proof fn law_valid_under_a_cius_is_valid_under_the_core(p: Profile, inv: Invoice)
    requires
        p.suppressed@.len() == 0,
        !has_fatal(profile_findings(p, inv)),
    ensures
        !has_fatal(run(core_indices(), inv)),
{
    law_a_conformant_cius_only_adds_findings(p, inv);
    let tail = run(extra_positions(texts(p.extra_rules@)), inv) + restriction_keys(
        p.restrictions@,
        inv,
        p.restrictions@.len(),
    );
    assert(profile_findings(p, inv) =~= run(core_indices(), inv) + tail);
    lemma_prefix_fatal(run(core_indices(), inv), tail);
}

/// `Mandatory` and `NotUsed` read "present" the same way, blank counting as
/// absent for both: on any value of a term, exactly one of them holds, so no
/// value fails both.
pub proof fn law_mandatory_and_not_used_are_complementary(
    m: &'static str,
    n: &'static str,
    term: crate::validation::profile::TermAccessor,
    value: Option<Seq<char>>,
)
    ensures
        crate::validation::profile::restriction_holds(Restriction::Mandatory { id: m, term }, value)
            != crate::validation::profile::restriction_holds(Restriction::NotUsed { id: n, term }, value),
{
}

/// A narrowed code list narrows the domain and does not make the term
/// mandatory: an absent value always satisfies it.
pub proof fn law_code_values_accept_absence(r: Restriction)
    requires
        r is CodeValues,
    ensures
        crate::validation::profile::restriction_holds(r, None),
{
}


// ── Arithmetic detail ─────────────────────────────────────────────────────────

/// What a finding's detail says: what the rule computed and what the
/// document states.
pub open spec fn detail_view(d: Option<Detail>) -> Option<(Seq<char>, Seq<char>)> {
    match d {
        Some(d) => Some((d.expected@, d.actual@)),
        None => None,
    }
}

/// An amount as the document states it, or `absent`.
pub open spec fn stated(a: Option<InvoiceAmount>) -> Seq<char> {
    match a {
        Some(v) => amount_text(v@),
        None => "absent"@,
    }
}

/// The amount totals rule `BR-CO-1x` computes, `x` counting from
/// `BR-CO-10`.
pub open spec fn totals_expected(x: int, inv: Invoice) -> int {
    let t = inv.totals;
    if x == 0 {
        sum_of(net_amounts(inv))
    } else if x == 1 {
        sum_of(allowance_amounts(inv))
    } else if x == 2 {
        sum_of(charge_amounts(inv))
    } else if x == 3 {
        t.line_total@ - or_zero(t.allowance_total) + or_zero(t.charge_total)
    } else if x == 4 {
        sum_of(tax_amounts(inv))
    } else if x == 5 {
        t.taxable_total@ + or_zero(t.vat_total)
    } else {
        t.gross_total@ - or_zero(t.paid) + or_zero(t.rounding)
    }
}

/// The term totals rule `BR-CO-1x` checks, as the document states it.
pub open spec fn totals_stated(x: int, inv: Invoice) -> Seq<char> {
    let t = inv.totals;
    if x == 0 {
        stated(Some(t.line_total))
    } else if x == 1 {
        stated(t.allowance_total)
    } else if x == 2 {
        stated(t.charge_total)
    } else if x == 3 {
        stated(Some(t.taxable_total))
    } else if x == 4 {
        stated(t.vat_total)
    } else if x == 5 {
        stated(Some(t.gross_total))
    } else {
        stated(Some(t.due))
    }
}

/// The tax amount of the breakdown group a path names, or `absent`.
pub open spec fn stated_tax_at(p: Path, inv: Invoice) -> Seq<char> {
    match p.index {
        Some(g) => if g < inv.vat_breakdown@.len() {
            amount_text(inv.vat_breakdown@[g as int].tax_amount@)
        } else {
            "absent"@
        },
        None => "absent"@,
    }
}

/// The expected base of the last entry of `found` for group `g`.
pub open spec fn last_expected(found: Seq<(int, int)>, g: int) -> Option<int>
    decreases found.len(),
{
    if found.len() == 0 {
        None
    } else if found.last().0 == g {
        Some(found.last().1)
    } else {
        last_expected(found.drop_last(), g)
    }
}

/// The detail of a finding of row `j` of family `f` at `p`: for `-01`, how
/// many groups the category wants and how many there are; for `-08` and
/// `-09`, the base or tax expected and the one stated.
pub open spec fn family_detail_of(f: int, j: int, p: Path, inv: Invoice) -> Option<(Seq<char>, Seq<char>)> {
    let c = family_category(f);
    let nb = inv.vat_breakdown@.len();
    let cp = category_profile(c);
    if j == 0 {
        Some(
            (
                match cp.groups {
                    Groups::AtLeastOne => "at least one group"@,
                    Groups::ExactlyOne => "exactly one group"@,
                },
                decimal_digits(groups_of(inv.vat_breakdown@, c, nb)),
            ),
        )
    } else if j == 7 || j == 8 {
        match p.index {
            Some(g) => if g < nb {
                let e = inv.vat_breakdown@[g as int];
                if j == 7 {
                    match last_expected(taxable_scan(inv, cp, nb).0, g as int) {
                        Some(x) => Some((amount_text(x), amount_text(e.taxable_amount@))),
                        None => None,
                    }
                } else {
                    match cp.tax {
                        TaxRule::Zero => Some(("0.00"@, amount_text(e.tax_amount@))),
                        TaxRule::Derived => match derived_vat(e) {
                            Some(x) => Some((decimal_text(x, 2), amount_text(e.tax_amount@))),
                            None => None,
                        },
                    }
                }
            } else {
                None
            },
            None => None,
        }
    } else {
        None
    }
}

/// The detail of the `i`-th finding `paths` of registry rule `k` holds on
/// `inv`: for a totals rule, the amount it computed and the stated total;
/// for `BR-CO-17`, the tax it derived and the stated tax; for a family's
/// `-01` row, how many groups it wants and how many there are; for `-08`
/// and `-09`, the base or tax expected and stated. Every other rule says
/// nothing more.
pub open spec fn rule_detail(k: int, inv: Invoice, paths: Seq<Path>, i: int) -> Option<(Seq<char>, Seq<char>)> {
    let p = paths[i];
    let nb = inv.vat_breakdown@.len();
    if 22 <= k <= 28 {
        if totals_paths(k - 22, inv).len() > 0 {
            Some((amount_text(totals_expected(k - 22, inv)), totals_stated(k - 22, inv)))
        } else {
            None
        }
    } else if k == 29 {
        let found = co17_results(inv, nb);
        if i < found.len() && found[i].1.wf() {
            Some((decimal_text(found[i].1.mantissa as int, found[i].1.scale as int), stated_tax_at(p, inv)))
        } else {
            None
        }
    } else if 34 <= k < 124 {
        family_detail_of((k - 34) / 10, (k - 34) % 10, p, inv)
    } else {
        None
    }
}

fn detail(expected: String, actual: String) -> (r: Option<Detail>)
    ensures
        detail_view(r) == Some((expected@, actual@)),
{
    Some(Detail { expected, actual })
}

fn stated_text(a: Option<InvoiceAmount>) -> (r: String)
    ensures
        r@ == stated(a),
{
    match a {
        Some(v) => v.to_string(),
        None => crate::identifier::owned("absent"),
    }
}

/// The expected and found values of a totals finding `BR-CO-1x`.
fn totals_detail(x: usize, inv: &Invoice) -> (r: Option<Detail>)
    requires
        x <= 6,
    ensures
        detail_view(r) == (if totals_paths(x as int, *inv).len() > 0 {
            Some((amount_text(totals_expected(x as int, *inv)), totals_stated(x as int, *inv)))
        } else {
            None
        }),
{
    let t = &inv.totals;
    let (found, s): (Option<(Path, InvoiceAmount)>, Option<InvoiceAmount>) = if x == 0 {
        (br_co_10(inv), Some(t.line_total))
    } else if x == 1 {
        (br_co_11(inv), t.allowance_total)
    } else if x == 2 {
        (br_co_12(inv), t.charge_total)
    } else if x == 3 {
        (br_co_13(inv), Some(t.taxable_total))
    } else if x == 4 {
        (br_co_14(inv), t.vat_total)
    } else if x == 5 {
        (br_co_15(inv), Some(t.gross_total))
    } else {
        (br_co_16(inv), Some(t.due))
    };
    assert(stated(s) == totals_stated(x as int, *inv));
    match found {
        Some((_, e)) => detail(e.to_string(), stated_text(s)),
        None => None,
    }
}

/// The detail of each finding `paths` of registry rule `k` holds: what the
/// rule computed and what the document states, for the arithmetic rules.
fn rule_details(k: usize, inv: &Invoice, paths: &Vec<Path>) -> (r: Vec<Option<Detail>>)
    requires
        k < 160,
    ensures
        r@.len() == paths@.len(),
        forall|i: int| 0 <= i < paths@.len() ==> detail_view(#[trigger] r@[i]) == rule_detail(k as int, *inv, paths@, i),
{
    let mut out: Vec<Option<Detail>> = Vec::new();
    let co17 = if k == 29 {
        br_co_17(inv)
    } else {
        Vec::new()
    };
    let nb = inv.vat_breakdown.len();
    let mut i: usize = 0;
    while i < paths.len()
        invariant
            i <= paths@.len(),
            out@.len() == i,
            k < 160,
            nb == inv.vat_breakdown@.len(),
            k == 29 ==> co17@ == co17_results(*inv, nb as nat),
            forall|j: int| 0 <= j < i ==> detail_view(#[trigger] out@[j]) == rule_detail(k as int, *inv, paths@, j),
        decreases paths.len() - i,
    {
        let p = paths[i];
        let d = if 22 <= k && k <= 28 {
            totals_detail(k - 22, inv)
        } else if k == 29 {
            if i < co17.len() && co17[i].1.wf_check() {
                detail(crate::decimal::dec_text(co17[i].1), stated_tax(p, inv))
            } else {
                None
            }
        } else if 34 <= k && k < 124 {
            family_detail((k - 34) / 10, (k - 34) % 10, p, inv)
        } else {
            None
        };
        out.push(d);
        i = i + 1;
    }
    out
}

/// The tax amount of the breakdown group `p` names, or `absent`.
fn stated_tax(p: Path, inv: &Invoice) -> (r: String)
    ensures
        r@ == stated_tax_at(p, *inv),
{
    match p.index {
        Some(g) => if g < inv.vat_breakdown.len() {
            inv.vat_breakdown[g].tax_amount.to_string()
        } else {
            crate::identifier::owned("absent")
        },
        None => crate::identifier::owned("absent"),
    }
}

/// The detail of a finding of row `j` of family `f` at `p`.
fn family_detail(f: usize, j: usize, p: Path, inv: &Invoice) -> (r: Option<Detail>)
    requires
        f < 9,
        j < 10,
    ensures
        detail_view(r) == family_detail_of(f as int, j as int, p, *inv),
{
    let c = family_category_exec(f);
    let prof = profile(c);
    let nb = inv.vat_breakdown.len();
    if j == 0 {
        let n = count_groups(inv, c);
        let want = match prof.groups {
            Groups::AtLeastOne => "at least one group",
            Groups::ExactlyOne => "exactly one group",
        };
        let mut digits: Vec<char> = Vec::new();
        crate::text::push_decimal(&mut digits, n as u64);
        assert(digits@ =~= decimal_digits(n as nat));
        detail(crate::identifier::owned(want), crate::text::string_of(&digits))
    } else if j == 7 || j == 8 {
        match p.index {
            Some(g) => if g < nb {
                let e = &inv.vat_breakdown[g];
                if j == 7 {
                    match expected_base(inv, prof, g) {
                        Some(x) => detail(x.to_string(), e.taxable_amount.to_string()),
                        None => None,
                    }
                } else {
                    match prof.tax {
                        TaxRule::Zero => detail(crate::identifier::owned("0.00"), e.tax_amount.to_string()),
                        TaxRule::Derived => match derived_vat_of(e) {
                            Some(x) => detail(
                                crate::decimal::dec_text(Dec { mantissa: x, scale: 2 }),
                                e.tax_amount.to_string(),
                            ),
                            None => None,
                        },
                    }
                }
            } else {
                None
            },
            None => None,
        }
    } else {
        None
    }
}

/// Every group the taxable-amount scan of the first `n` records is one of
/// them.
proof fn lemma_taxable_scan_indices(inv: Invoice, p: CategoryProfile, n: nat)
    requires
        n <= inv.vat_breakdown@.len(),
    ensures
        forall|m: int|
            0 <= m < taxable_scan(inv, p, n).0.len() ==> 0 <= (#[trigger] taxable_scan(inv, p, n).0[m]).0 < n,
    decreases n,
{
    if n > 0 {
        lemma_taxable_scan_indices(inv, p, (n - 1) as nat);
        let prev = taxable_scan(inv, p, (n - 1) as nat).0;
        let cur = taxable_scan(inv, p, n).0;
        assert forall|m: int| 0 <= m < cur.len() implies 0 <= (#[trigger] cur[m]).0 < n by {
            if cur.len() != prev.len() {
                if m < prev.len() {
                    assert(cur[m] == prev[m]);
                }
            } else {
                assert(cur[m] == prev[m]);
            }
        }
    }
}

/// The base `-08` expects for group `g`: the last the scan records for it.
fn expected_base(inv: &Invoice, prof: CategoryProfile, g: usize) -> (r: Option<InvoiceAmount>)
    requires
        g < inv.vat_breakdown@.len(),
    ensures
        match r {
            Some(x) => last_expected(taxable_scan(*inv, prof, inv.vat_breakdown@.len()).0, g as int) == Some(x@),
            None => last_expected(taxable_scan(*inv, prof, inv.vat_breakdown@.len()).0, g as int) is None,
        },
{
    let found = check_taxable_amount(inv, prof);
    let ghost spec_found = taxable_scan(*inv, prof, inv.vat_breakdown@.len()).0;
    let nb = inv.vat_breakdown.len();
    proof {
        lemma_taxable_scan_indices(*inv, prof, inv.vat_breakdown@.len());
    }
    let mut expected: Option<InvoiceAmount> = None;
    let mut j: usize = 0;
    while j < found.len()
        invariant
            j <= found@.len(),
            found@.len() == spec_found.len(),
            forall|m: int|
                0 <= m < found@.len() ==> {
                    let (i, x) = #[trigger] spec_found[m];
                    &&& found@[m].0 == (Path {
                        group: Group::VatBreakdown,
                        index: Some(i as usize),
                        term: Some(BtId(116)),
                    })
                    &&& found@[m].1@ == x
                },
            forall|m: int| 0 <= m < spec_found.len() ==> 0 <= (#[trigger] spec_found[m]).0 < inv.vat_breakdown@.len(),
            inv.vat_breakdown@.len() <= usize::MAX,
            match expected {
                Some(x) => last_expected(spec_found.subrange(0, j as int), g as int) == Some(x@),
                None => last_expected(spec_found.subrange(0, j as int), g as int) is None,
            },
        decreases found.len() - j,
    {
        proof {
            let e = spec_found[j as int];
            assert(found@[j as int].0.index == Some(e.0 as usize));
            assert(found@[j as int].1@ == e.1);
            assert(0 <= e.0 < inv.vat_breakdown@.len());
            assert(spec_found.subrange(0, j + 1).drop_last() =~= spec_found.subrange(0, j as int));
            assert(spec_found.subrange(0, j + 1).last() == e);
        }
        if found[j].0.index == Some(g) {
            expected = Some(found[j].1);
        }
        j = j + 1;
    }
    proof {
        assert(spec_found.subrange(0, found@.len() as int) =~= spec_found);
    }
    expected
}

/// How many VAT breakdown groups carry category `c`.
fn count_groups(inv: &Invoice, c: VatCategory) -> (n: usize)
    ensures
        n == groups_of(inv.vat_breakdown@, c, inv.vat_breakdown@.len()),
{
    let mut n: usize = 0;
    let mut i: usize = 0;
    while i < inv.vat_breakdown.len()
        invariant
            i <= inv.vat_breakdown@.len(),
            n == groups_of(inv.vat_breakdown@, c, i as nat),
            n <= i,
        decreases inv.vat_breakdown.len() - i,
    {
        if inv.vat_breakdown[i].semantics() == Some(c) {
            n = n + 1;
        }
        i = i + 1;
    }
    n
}



/// **The core report speaks of BR-06 as BT-27 alone decides**: the core
/// report is made of, among the other rules' findings, those of the registry
/// rule `BR-06`; it has one finding, at BG-4 / BT-27, when the seller name is
/// absent or empty, and none when it is stated, whatever the buyer name.
pub proof fn law_core_report_names_a_missing_seller(inv: Invoice)
    ensures
        registry_keys()[5].0 == seq!['B', 'R', '-', '0', '6'],
        findings_of(5, inv).len() == (if (match inv.seller.name {
            Some(n) => n@.len() == 0,
            None => true,
        }) {
            1int
        } else {
            0int
        }),
        findings_of(5, inv).len() == 1 ==> findings_of(5, inv)[0].0 == registry_keys()[5].0
            && findings_of(5, inv)[0].2 == (Path {
            group: Group::Seller,
            index: None,
            term: Some(BtId(27)),
        }),
        exists|before: Seq<FindingKey>, after: Seq<FindingKey>|
            run(core_indices(), inv) == before + findings_of(5, inv) + after,
{
    reveal_strlit("BR-06");
    assert("BR-06"@ =~= seq!['B', 'R', '-', '0', '6']);
    crate::validation::rules::law_br_06_is_decided_by_the_seller_name(inv, inv);
    let all = core_indices();
    let head = all.subrange(0, 5);
    let tail = all.subrange(6, 130);
    assert(all =~= head + seq![5int] + tail);
    lemma_run_append(head + seq![5int], tail, inv);
    lemma_run_append(head, seq![5int], inv);
    assert(seq![5int].drop_last() =~= Seq::<int>::empty());
    assert(seq![5int].last() == 5);
    assert(run(Seq::<int>::empty(), inv) =~= Seq::<FindingKey>::empty());
    assert(run(seq![5int], inv) == run(Seq::<int>::empty(), inv) + findings_of(5, inv));
    assert(run(seq![5int], inv) =~= findings_of(5, inv));
    assert(run(all, inv) == run(head, inv) + findings_of(5, inv) + run(tail, inv));
}

} // verus!

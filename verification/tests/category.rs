use en16931::codes::VatCategory;
use en16931::amount::InvoiceAmount;
use en16931::decimal::Dec;
use en16931::invoice::{Code, Invoice, VatBreakdown};
use en16931::numeric::Percentage;
use en16931::validation::engine::validate;
use en16931::validation::rules::category::{
    Groups, RateRule, TaxRule, derived_vat_of, outside_vat_tolerance, profile, xpath_round_dec,
};

#[test]
fn the_table_matches_the_standards_nine_tables() {
    for c in [VatCategory::Standard, VatCategory::CanaryIslands, VatCategory::CeutaMelilla] {
        assert_eq!(profile(c).groups, Groups::AtLeastOne, "{}", c.code());
        assert_eq!(profile(c).tax, TaxRule::Derived, "{}", c.code());
        assert!(profile(c).grouped_by_rate(), "{}", c.code());
    }
    for c in [
        VatCategory::ZeroRated,
        VatCategory::Exempt,
        VatCategory::ReverseCharge,
        VatCategory::IntraCommunity,
        VatCategory::Export,
        VatCategory::OutOfScope,
    ] {
        assert_eq!(profile(c).groups, Groups::ExactlyOne, "{}", c.code());
        assert_eq!(profile(c).tax, TaxRule::Zero, "{}", c.code());
        assert!(!profile(c).grouped_by_rate(), "{}", c.code());
    }
}

#[test]
fn only_out_of_scope_forbids_the_rate_outright() {
    for c in VatCategory::all() {
        if c == VatCategory::SplitPayment {
            continue;
        }
        assert_eq!(profile(c).rate == RateRule::Absent, c == VatCategory::OutOfScope, "{}", c.code());
    }
    assert_eq!(profile(VatCategory::Standard).rate, RateRule::Positive);
    assert_eq!(profile(VatCategory::ZeroRated).rate, RateRule::Zero);
    assert_eq!(profile(VatCategory::CanaryIslands).rate, RateRule::ZeroOrPositive);
}

fn breakdown(taxable: &str, tax: &str, rate: Dec) -> VatBreakdown {
    VatBreakdown {
        taxable_amount: InvoiceAmount::parse(taxable).unwrap(),
        tax_amount: InvoiceAmount::parse(tax).unwrap(),
        category: Code::new("S"),
        rate: Some(Percentage::new(rate)),
        exemption_reason: None,
        exemption_reason_code: None,
    }
}

#[test]
fn ties_go_towards_positive_infinity() {
    assert_eq!(xpath_round_dec(Dec::new(5, 1)), 1);
    assert_eq!(xpath_round_dec(Dec::new(25, 1)), 3);
    assert_eq!(xpath_round_dec(Dec::new(-5, 1)), 0);
    assert_eq!(xpath_round_dec(Dec::new(-15, 1)), -1);
    assert_eq!(xpath_round_dec(Dec::new(4, 1)), 0);
    assert_eq!(xpath_round_dec(Dec::new(6, 1)), 1);
    assert_eq!(xpath_round_dec(Dec::new(-6, 1)), -1);
    assert_eq!(xpath_round_dec(Dec::new(19, 0)), 19);
}

#[test]
fn a_rate_of_half_a_per_cent_is_not_a_zero_rate() {
    assert_ne!(xpath_round_dec(Dec::new(5, 1)), 0);
    assert_eq!(derived_vat_of(&breakdown("1000.00", "5.00", Dec::new(5, 1))), Some(500), "5.00, in hundredths");
    let mut inv = Invoice::default();
    inv.vat_breakdown.push(breakdown("1000.00", "5.00", Dec::new(5, 1)));
    assert!(!validate(&inv).has("BR-CO-17"), "the zero-rate branch is not taken");
}

#[test]
fn the_derivation_is_taken_on_absolute_values() {
    assert_eq!(
        derived_vat_of(&breakdown("-1000.00", "0.00", Dec::new(19, 0))),
        derived_vat_of(&breakdown("1000.00", "0.00", Dec::new(19, 0)))
    );
}

#[test]
fn a_full_currency_unit_of_slack_excludes_its_own_boundary() {
    let amount = |s: &str| InvoiceAmount::parse(s).unwrap();
    assert!(!outside_vat_tolerance(amount("190.99"), 19000));
    assert!(outside_vat_tolerance(amount("191.00"), 19000));
    assert!(outside_vat_tolerance(amount("189.00"), 19000));
}

#[test]
fn an_overflowing_group_does_not_silence_the_groups_after_it() {
    let mut inv = Invoice::default();
    inv.vat_breakdown.push(breakdown("1000.00", "0.00", Dec { mantissa: 79_228_162_514_264_337_593_543_950_335, scale: 0 }));
    inv.vat_breakdown.push(breakdown("100.00", "0.00", Dec::new(19, 0)));
    assert_eq!(derived_vat_of(&inv.vat_breakdown[0]), None, "the product overflows");
    let report = validate(&inv);
    let s09: Vec<Option<usize>> = report.findings.iter().filter(|f| f.rule == "BR-S-09").map(|f| f.path.index).collect();
    assert_eq!(s09, [Some(1)], "the second group is still checked");
    assert!(report.findings.iter().any(|f| f.rule == "BR-CO-17"));
}

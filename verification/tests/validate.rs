use en16931::amount::InvoiceAmount;
use en16931::bt::{BtId, Group, Path};
use en16931::date::Date;
use en16931::edition::Edition;
use en16931::decimal::Dec;
use en16931::invoice::{Code, Invoice, InvoiceLine, VatBreakdown};
use en16931::numeric::{Percentage, Quantity};
use en16931::profiles::{en16931, xrechnung};
use en16931::svrl::to_svrl;
use en16931::validation::Severity;
use en16931::validation::engine::validate;

#[test]
fn an_empty_invoice_fails_the_presence_rules() {
    let report = validate(&Invoice::default());
    for id in ["BR-01", "BR-02", "BR-03", "BR-04", "BR-05", "BR-06", "BR-07", "BR-16", "BR-CO-18"] {
        assert!(report.has(id), "{id}");
    }
    assert!(!report.has("BR-CO-10"), "an empty sum closes");
    assert!(!report.is_valid());
    assert_eq!(report.edition, Edition::En2017A1);
    let br02 = report.findings.iter().find(|f| f.rule == "BR-02").expect("BR-02");
    assert_eq!(br02.path, Path::term(BtId(1)));
    assert_eq!(br02.severity, Severity::Fatal);
    assert_eq!(br02.message, "An Invoice shall have an Invoice number (BT-1).");
}

#[test]
fn the_totals_chain_is_exact() {
    let mut inv = Invoice::default();
    inv.totals.gross_total = InvoiceAmount::parse("10.00").unwrap();
    inv.totals.due = InvoiceAmount::parse("9.99").unwrap();
    let report = validate(&inv);
    let f = report.findings.iter().find(|f| f.rule == "BR-CO-16").expect("BR-CO-16");
    assert_eq!(f.path, Path::group_term(Group::Totals, BtId(115)));
    assert!(report.has("BR-CO-15"), "BT-112 is 10.00 with nothing to add up to it");
}

#[test]
fn a_credit_note_owes_no_due_date() {
    let mut inv = Invoice::builder("urn:cen.eu:en16931:2017", "RE-1", Date::parse("2026-07-31").unwrap(), "380", "EUR").build();
    inv.totals.due = InvoiceAmount::parse("1.00").unwrap();
    assert!(validate(&inv).has("BR-CO-25"));
    let note = inv.to_credit_note("GS-1", Date::parse("2026-08-01").unwrap());
    assert!(!validate(&note).has("BR-CO-25"));
}

#[test]
fn it_is_well_formed_and_carries_the_findings() {
    let report = xrechnung().validate(&Invoice::default());
    let xml = to_svrl(&report);
    assert!(xml.starts_with("<?xml version=\"1.0\""));
    assert!(xml.contains("xmlns:svrl=\"http://purl.oclc.org/dsdl/svrl\""));
    assert!(xml.contains("schemaVersion=\"EN 16931-1:2017+A1:2019\""));
    assert!(xml.contains("<svrl:active-pattern name=\"XRechnung 3.0\"/>"));
    assert!(xml.contains("id=\"BR-02\""));
    assert!(xml.contains("flag=\"fatal\""));
    assert!(xml.contains("location=\"BT-1\""));
    assert!(xml.ends_with("</svrl:schematron-output>\n"));
    assert_eq!(xml.matches("<svrl:failed-assert").count(), report.findings.len());
}

#[test]
fn the_attribution_is_present() {
    let xml = to_svrl(&validate(&Invoice::default()));
    assert!(xml.contains("implementation of the EN 16931-1 semantic data model"));
    assert!(xml.contains("© CEN"));
}

#[test]
fn arithmetic_findings_say_what_was_computed_and_what_was_stated() {
    let mut inv = Invoice::default();
    inv.totals.gross_total = InvoiceAmount::parse("10.00").unwrap();
    inv.totals.due = InvoiceAmount::parse("9.99").unwrap();
    let report = validate(&inv);
    let f = report.findings.iter().find(|f| f.rule == "BR-CO-16").expect("BR-CO-16");
    let d = f.detail.as_ref().expect("an arithmetic finding carries its numbers");
    assert_eq!((d.expected.as_str(), d.actual.as_str()), ("10.00", "9.99"));
    let xml = to_svrl(&report);
    assert!(xml.contains("(expected 10.00, found 9.99)"), "{xml}");
    let presence = report.findings.iter().find(|f| f.rule == "BR-02").expect("BR-02");
    assert!(presence.detail.is_none());
}

#[test]
fn suppressions_are_recorded() {
    let mut p = en16931();
    p.suppressed.push("BR-CO-26");
    let report = p.validate(&Invoice::default());
    let xml = to_svrl(&report);
    assert!(xml.contains("suppressed, NOT checked: BR-CO-26"));
}

#[test]
fn category_findings_say_what_the_rule_expected() {
    let mut inv = Invoice::default();
    inv.lines.push(InvoiceLine::new(
        "1",
        "Widget",
        Quantity::one(),
        "C62",
        InvoiceAmount::parse("100.00").unwrap(),
        "S",
        Some(Percentage::new(Dec::new(19, 0))),
    ));
    let report = validate(&inv);
    let f = report.findings.iter().find(|f| f.rule == "BR-S-01").expect("BR-S-01");
    let d = f.detail.as_ref().expect("a count");
    assert_eq!((d.expected.as_str(), d.actual.as_str()), ("at least one group", "0"));

    inv.vat_breakdown.push(VatBreakdown {
        taxable_amount: InvoiceAmount::parse("50.00").unwrap(),
        tax_amount: InvoiceAmount::parse("0.00").unwrap(),
        category: Code::new("S"),
        rate: Some(Percentage::new(Dec::new(19, 0))),
        exemption_reason: None,
        exemption_reason_code: None,
    });
    let report = validate(&inv);
    let f = report.findings.iter().find(|f| f.rule == "BR-S-08").expect("BR-S-08");
    let d = f.detail.as_ref().expect("the base");
    assert_eq!((d.expected.as_str(), d.actual.as_str()), ("100.00", "50.00"));
    let f = report.findings.iter().find(|f| f.rule == "BR-S-09").expect("BR-S-09");
    let d = f.detail.as_ref().expect("the tax");
    assert_eq!((d.expected.as_str(), d.actual.as_str()), ("9.50", "0.00"));
    assert!(!report.has("BR-S-01"));
}

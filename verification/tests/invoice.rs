use en16931::amount::InvoiceAmount;
use en16931::codes::VatCategory;
use en16931::date::Date;
use en16931::decimal::Dec;
use en16931::identifier::DocumentReference;
use en16931::invoice::{Code, DocumentKind, Invoice, LineVat, Period, PrecedingInvoice};
use en16931::numeric::Percentage;

fn date(s: &str) -> Date {
    Date::parse(s).unwrap_or_else(|_| panic!("{s} should parse"))
}

#[test]
fn period_ordering_matches_br_29() {
    let p = Period { start: Some(date("2026-06-01")), end: Some(date("2026-06-30")) };
    assert_eq!(p.is_ordered(), Some(true));
    let reversed = Period { start: p.end, end: p.start };
    assert_eq!(reversed.is_ordered(), Some(false));
    let open = Period { start: p.start, end: None };
    assert_eq!(open.is_ordered(), None);
}

#[test]
fn line_vat_semantics_are_optional() {
    let ok = LineVat { category: Code::new("S"), rate: Some(Percentage::new(Dec::new(19, 0))) };
    assert_eq!(ok.semantics(), Some(VatCategory::Standard));
    let bad = LineVat { category: Code::new("Q"), rate: None };
    assert_eq!(bad.semantics(), None, "so BR-CL-18 fires and others skip");
}

#[test]
fn a_credit_note_reverses_the_document_without_touching_the_money() {
    let mut inv = Invoice::builder("urn:cen.eu:en16931:2017", "RE-2026-0042", date("2026-07-31"), "380", "EUR").build();
    inv.seller.name = Some("Seller GmbH".into());
    inv.totals.gross_total = InvoiceAmount::parse("1190.00").expect("amount");

    let storno = inv.to_credit_note("STORNO-1", date("2026-08-15"));

    assert_eq!(storno.kind, DocumentKind::CreditNote);
    assert_eq!(storno.type_code.as_ref().map(Code::as_str), Some("381"));
    assert_eq!(storno.number.as_deref(), Some("STORNO-1"));
    assert_eq!(storno.issue_date, Date::parse("2026-08-15").ok());
    assert_eq!(storno.preceding_invoices.len(), 1);
    assert_eq!(storno.preceding_invoices[0].reference.as_str(), "RE-2026-0042");
    assert_eq!(storno.preceding_invoices[0].issue_date, inv.issue_date);
    assert_eq!(storno.seller.name, inv.seller.name);
    assert_eq!(storno.totals.gross_total, inv.totals.gross_total);
    assert_eq!(storno.currency, inv.currency);
}

#[test]
fn a_credit_note_of_a_numberless_invoice_invents_no_reference() {
    let storno = Invoice::default().to_credit_note("STORNO-1", date("2026-08-15"));
    assert!(storno.preceding_invoices.is_empty());
    assert_eq!(storno.kind, DocumentKind::CreditNote);
}

#[test]
fn a_code_is_kept_verbatim() {
    assert_eq!(Code::new(" KWH").as_str(), " KWH", "no trimming");
    assert!(Code::new("  ").is_blank());
    assert!(!Code::new("999").is_blank());
    assert!(Code::new("S").is_in(&en16931::codes::vat_category_codes()));
    assert!(!Code::new("s").is_in(&en16931::codes::vat_category_codes()));
}

#[test]
fn a_credit_note_of_a_numberless_invoice_keeps_its_own_preceding_invoices() {
    let mut inv = Invoice::default();
    inv.preceding_invoices.push(PrecedingInvoice {
        reference: DocumentReference::new("RE-2025-0001"),
        issue_date: Some(date("2025-12-31")),
    });
    let storno = inv.to_credit_note("STORNO-2", date("2026-08-15"));
    assert_eq!(storno.preceding_invoices.len(), 1);
    assert_eq!(storno.preceding_invoices[0].reference.as_str(), "RE-2025-0001");
    assert_eq!(storno.preceding_invoices[0].issue_date, Some(date("2025-12-31")));

    inv.number = Some("   ".into());
    let storno = inv.to_credit_note("STORNO-3", date("2026-08-15"));
    assert_eq!(storno.preceding_invoices[0].reference.as_str(), "RE-2025-0001", "a blank BT-1 is no number");
}

#[test]
fn a_credit_note_carries_the_parties_and_lines_over_unchanged() {
    let mut inv = Invoice::builder("urn:cen.eu:en16931:2017", "RE-7", date("2026-07-31"), "380", "EUR").build();
    inv.seller.name = Some("Seller GmbH".into());
    inv.buyer.vat_identifier = Some("DE987654321".into());
    inv.lines.push(en16931::invoice::InvoiceLine::new(
        "1",
        "Widget",
        en16931::numeric::Quantity::one(),
        "C62",
        InvoiceAmount::parse("10.00").unwrap(),
        "S",
        Some(Percentage::new(Dec::new(19, 0))),
    ));
    let storno = inv.to_credit_note("STORNO-7", date("2026-08-01"));
    assert_eq!(storno.seller, inv.seller);
    assert_eq!(storno.buyer, inv.buyer);
    assert_eq!(storno.lines, inv.lines);
    assert_eq!(storno.payment, inv.payment);
}

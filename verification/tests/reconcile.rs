use en16931::amount::InvoiceAmount;
use en16931::codes::VatCategory;
use en16931::date::Date;
use en16931::decimal::Dec;
use en16931::invoice::{
    Code, Delivery, DocumentAllowanceCharge, Invoice, InvoiceLine, Item, LineVat, PostalAddress, PriceDetails,
    VatBreakdown,
};
use en16931::numeric::{Percentage, Quantity};
use en16931::reconcile::{ReconcileError, Reconciler, reconcile, tax_on};
use en16931::validation::engine::validate;

fn amount(s: &str) -> InvoiceAmount {
    InvoiceAmount::parse(s).expect("amount")
}

fn rate(percent: i64) -> Percentage {
    Percentage::new(Dec::new(percent, 0))
}

fn line(id: &str, net: &str, category: &str, rate: Option<Dec>) -> InvoiceLine {
    InvoiceLine {
        id: id.to_owned(),
        note: None,
        order_line_reference: None,
        accounting_reference: None,
        object_identifier: None,
        quantity: Quantity::new(Dec::new(1, 0)),
        unit_code: Code::new("C62"),
        net_amount: amount(net),
        period: None,
        allowances: Vec::new(),
        charges: Vec::new(),
        price: PriceDetails::default(),
        vat: LineVat { category: Code::new(category), rate: rate.map(Percentage::new) },
        item: Item { name: Some(format!("item {id}")), ..Default::default() },
    }
}

fn invoice(lines: Vec<InvoiceLine>) -> Invoice {
    let mut inv = Invoice::builder(
        "urn:cen.eu:en16931:2017",
        "INV-1",
        Date::parse("2026-07-31").expect("date"),
        "380",
        "EUR",
    )
    .build();
    inv.lines = lines;
    inv
}

#[test]
fn two_lines_two_rates_produce_two_groups_and_a_balancing_total() {
    let mut inv = invoice(vec![
        line("1", "1000.00", "S", Some(Dec::new(19, 0))),
        line("2", "500.00", "S", Some(Dec::new(7, 0))),
    ]);
    reconcile(&mut inv).expect("reconciles");

    assert_eq!(inv.vat_breakdown.len(), 2, "one group per rate");
    let by_rate = |r: i64| inv.vat_breakdown.iter().find(|e| e.rate == Some(rate(r))).expect("group");
    assert_eq!(by_rate(19).taxable_amount.to_string(), "1000.00");
    assert_eq!(by_rate(19).tax_amount.to_string(), "190.00");
    assert_eq!(by_rate(7).tax_amount.to_string(), "35.00");

    let t = &inv.totals;
    assert_eq!(t.line_total.to_string(), "1500.00");
    assert_eq!(t.taxable_total.to_string(), "1500.00");
    assert_eq!(t.vat_total.expect("BT-110").to_string(), "225.00");
    assert_eq!(t.gross_total.to_string(), "1725.00");
    assert_eq!(t.due.to_string(), "1725.00");
    assert_eq!(t.allowance_total, None, "absent is not zero");
    assert_eq!(t.charge_total, None);
}

#[test]
fn rounding_happens_once_on_the_group_not_per_line() {
    let mut inv = invoice(vec![
        line("1", "0.05", "S", Some(Dec::new(19, 0))),
        line("2", "0.05", "S", Some(Dec::new(19, 0))),
        line("3", "0.05", "S", Some(Dec::new(19, 0))),
    ]);
    reconcile(&mut inv).expect("reconciles");

    assert_eq!(inv.vat_breakdown[0].taxable_amount.to_string(), "0.15");
    assert_eq!(inv.vat_breakdown[0].tax_amount.to_string(), "0.03");
    assert!(validate(&inv).findings.iter().all(|f| f.rule != "BR-S-09"));
}

#[test]
fn the_midpoint_rounds_away_from_zero() {
    assert_eq!(
        tax_on(amount("2.50"), Some(rate(5))).unwrap().to_string(),
        "0.13",
        "banker's rounding would give 0.12"
    );
    assert_eq!(
        tax_on(amount("-2.50"), Some(rate(5))).unwrap().to_string(),
        "-0.13",
        "and symmetrically on a credit note"
    );
}

#[test]
fn allowances_and_charges_move_the_base_of_their_own_group() {
    let mut inv = invoice(vec![line("1", "1000.00", "S", Some(Dec::new(19, 0)))]);
    inv.allowances.push(DocumentAllowanceCharge {
        amount: amount("100.00"),
        base_amount: None,
        percentage: None,
        vat: LineVat { category: Code::new("S"), rate: Some(rate(19)) },
        reason: Some("Skonto".into()),
        reason_code: None,
    });
    inv.charges.push(DocumentAllowanceCharge {
        amount: amount("50.00"),
        base_amount: None,
        percentage: None,
        vat: LineVat { category: Code::new("S"), rate: Some(rate(19)) },
        reason: Some("Versand".into()),
        reason_code: None,
    });
    reconcile(&mut inv).expect("reconciles");

    assert_eq!(inv.vat_breakdown[0].taxable_amount.to_string(), "950.00");
    assert_eq!(inv.vat_breakdown[0].tax_amount.to_string(), "180.50");
    let t = &inv.totals;
    assert_eq!(t.allowance_total.expect("BT-107").to_string(), "100.00");
    assert_eq!(t.charge_total.expect("BT-108").to_string(), "50.00");
    assert_eq!(t.taxable_total.to_string(), "950.00");
    assert_eq!(t.gross_total.to_string(), "1130.50");
}

#[test]
fn prepayment_and_rounding_reach_the_amount_due() {
    let inv = invoice(vec![line("1", "1000.00", "S", Some(Dec::new(19, 0)))]);
    let r = Reconciler::new()
        .paid(amount("190.00"))
        .rounding(amount("-0.01"))
        .compute(&inv)
        .expect("reconciles");
    assert_eq!(r.totals.gross_total.to_string(), "1190.00");
    assert_eq!(r.totals.due.to_string(), "999.99");
}

#[test]
fn every_category_reconciles_to_a_valid_breakdown() {
    for cat in VatCategory::all() {
        let rate = if cat.states_rate() && cat.carries_tax() {
            Some(Dec::new(19, 0))
        } else if cat.states_rate() {
            Some(Dec::new(0, 0))
        } else {
            None
        };
        let code = cat.code();
        let mut inv = invoice(vec![line("1", "1000.00", code, rate)]);
        if cat != VatCategory::OutOfScope {
            inv.seller.vat_identifier = Some("DE123456789".into());
            inv.buyer.vat_identifier = Some("DE987654321".into());
        }
        if cat == VatCategory::SplitPayment {
            inv.seller.address.country = Some(Code::new("IT"));
            inv.buyer.address.country = Some(Code::new("IT"));
        }
        inv.delivery = Some(Delivery {
            party_name: None,
            location: None,
            date: Some(Date::parse("2026-07-15").expect("date")),
            address: Some(PostalAddress { country: Some(Code::new("FR")), ..Default::default() }),
        });
        Reconciler::new()
            .exemption(code, Some("Steuerbefreiung"), None)
            .apply(&mut inv)
            .unwrap_or_else(|e| panic!("{cat:?}: {}", e.to_string()));

        let families = ["BR-S-", "BR-Z-", "BR-E-", "BR-AE-", "BR-IC-", "BR-G-", "BR-O-", "BR-AF-", "BR-AG-", "BR-B-"];
        let arithmetic =
            |r: &str| r.starts_with("BR-CO-1") || r == "BR-48" || families.iter().any(|p| r.starts_with(p));
        let left: Vec<String> = validate(&inv)
            .findings
            .iter()
            .filter(|f| arithmetic(&f.rule))
            .map(|f| format!("{} at {}", f.rule, f.path.to_string()))
            .collect();
        assert!(left.is_empty(), "{cat:?} left {left:#?}");
    }
}

#[test]
fn out_of_scope_states_bt_119_but_not_bt_152() {
    let mut inv = invoice(vec![line("1", "1000.00", "O", None)]);
    Reconciler::new()
        .exemption("O", Some("Nicht steuerbar"), None)
        .apply(&mut inv)
        .expect("reconciles");
    assert_eq!(inv.lines[0].vat.rate, None, "BR-O-05");
    assert_eq!(
        inv.vat_breakdown[0].rate,
        Some(Percentage::zero()),
        "BT-119 is a different term; BR-DE-14 wants it unconditionally"
    );
    assert_eq!(inv.vat_breakdown[0].tax_amount, InvoiceAmount::zero());
}

#[test]
fn exactly_one_group_categories_do_not_split_on_the_rate() {
    let mut inv = invoice(vec![
        line("1", "100.00", "AE", Some(Dec::new(0, 0))),
        line("2", "100.00", "AE", None),
    ]);
    Reconciler::new()
        .exemption("AE", None, Some("VATEX-EU-AE"))
        .apply(&mut inv)
        .expect("reconciles");
    assert_eq!(inv.vat_breakdown.len(), 1, "BR-AE-01 says exactly one");
    assert_eq!(inv.vat_breakdown[0].taxable_amount.to_string(), "200.00");
}

#[test]
fn a_category_outside_uncl_5305_is_refused_by_name() {
    let inv = invoice(vec![line("1", "100.00", "Q", Some(Dec::new(19, 0)))]);
    let err = reconcile(&mut inv.clone()).expect_err("Q is not a category");
    assert!(matches!(err, ReconcileError::UnknownCategory { .. }));
    assert!(err.to_string().contains("BR-CL-18"), "{}", err.to_string());
}

#[test]
fn a_taxed_category_with_no_rate_is_refused_rather_than_zeroed() {
    let inv = invoice(vec![line("1", "100.00", "S", None)]);
    let err = reconcile(&mut inv.clone()).expect_err("S needs a rate");
    assert!(matches!(err, ReconcileError::MissingRate { .. }));
    assert!(err.to_string().contains("under-declare"), "{}", err.to_string());
}

#[test]
fn existing_exemption_reasons_are_preserved() {
    let mut inv = invoice(vec![line("1", "100.00", "E", Some(Dec::new(0, 0)))]);
    inv.vat_breakdown.push(VatBreakdown {
        taxable_amount: InvoiceAmount::zero(),
        tax_amount: InvoiceAmount::zero(),
        category: Code::new("E"),
        rate: Some(Percentage::zero()),
        exemption_reason: Some("§ 4 Nr. 21 UStG".into()),
        exemption_reason_code: None,
    });
    reconcile(&mut inv).expect("reconciles");
    assert_eq!(inv.vat_breakdown[0].taxable_amount.to_string(), "100.00");
    assert_eq!(
        inv.vat_breakdown[0].exemption_reason.as_deref(),
        Some("§ 4 Nr. 21 UStG"),
        "the numbers are recomputed; the prose is not invented and not lost"
    );
}

#[test]
fn a_reason_is_never_written_where_a_rule_forbids_it() {
    let mut inv = invoice(vec![line("1", "100.00", "S", Some(Dec::new(19, 0)))]);
    Reconciler::new()
        .exemption("S", Some("not allowed here"), None)
        .apply(&mut inv)
        .expect("reconciles");
    assert!(!inv.vat_breakdown[0].has_exemption_reason(), "BR-S-10");
}

#[test]
fn reconciliation_is_idempotent() {
    let mut inv = invoice(vec![
        line("1", "33.33", "S", Some(Dec::new(19, 0))),
        line("2", "66.67", "S", Some(Dec::new(7, 0))),
    ]);
    reconcile(&mut inv).expect("first");
    let once = inv.clone();
    reconcile(&mut inv).expect("second");
    assert_eq!(inv, once);
}

#[test]
fn apply_writes_exactly_what_compute_returns() {
    let rc = Reconciler::new().paid(amount("100.00"));
    let before = invoice(vec![
        line("1", "33.33", "S", Some(Dec::new(19, 0))),
        line("2", "66.67", "S", Some(Dec::new(7, 0))),
    ]);
    let computed = rc.compute(&before).expect("reconciles");
    let mut after = before.clone();
    rc.apply(&mut after).expect("reconciles");
    assert_eq!(after.vat_breakdown, computed.vat_breakdown);
    assert_eq!(after.totals, computed.totals);
    let mut rest = after.clone();
    rest.vat_breakdown = before.vat_breakdown.clone();
    rest.totals = before.totals.clone();
    assert_eq!(rest, before, "nothing but BG-22 and BG-23 changes");
}

#[test]
fn apply_fails_with_the_error_compute_gives_and_touches_nothing() {
    let rc = Reconciler::new();
    let before = invoice(vec![
        line("1", "100.00", "S", Some(Dec::new(19, 0))),
        line("2", "100.00", "Q", Some(Dec::new(19, 0))),
    ]);
    let computed = rc.compute(&before).expect_err("Q is not a category");
    let mut after = before.clone();
    let applied = rc.apply(&mut after).expect_err("Q is not a category");
    assert_eq!(applied, computed);
    assert_eq!(after, before);
}

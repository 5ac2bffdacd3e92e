use en16931::amount::{InvoiceAmount, UnitPriceAmount};
use en16931::decimal::Dec;
use en16931::error::{AmountError, ParseAmountError};
use en16931::fmt::{Alignment, FormatSpec, number, padded};
use rust_decimal::Decimal;

fn parse(s: &str) -> InvoiceAmount {
    InvoiceAmount::parse(s).unwrap_or_else(|_| panic!("{s} should parse"))
}

#[test]
fn parses_and_renders_the_interchange_spelling() {
    for (input, rendered) in [
        ("1190.00", "1190.00"),
        ("0", "0.00"),
        ("12.5", "12.50"),
        ("-85.00", "-85.00"),
        ("+7.25", "7.25"),
        ("  31.88  ", "31.88"),
        ("0.07", "0.07"),
    ] {
        let a = parse(input);
        assert_eq!(a.to_string(), rendered, "input {input}");
    }
}

#[test]
fn rejects_malformed_input() {
    for bad in ["", "   ", "abc", "1.2.3", "1,50", ".5", "-", "1e3", "1 000"] {
        assert!(InvoiceAmount::parse(bad).is_err(), "{bad:?} should not parse");
    }
}

#[test]
fn fraction_padding_is_positional() {
    assert_eq!(parse("1.5").to_minor_units(), 150);
    assert_eq!(parse("1.05").to_minor_units(), 105);
}

#[test]
fn arithmetic_is_checked_never_wrapping() {
    assert!(InvoiceAmount::max_value().checked_add(parse("0.01")).is_err());
    assert!(InvoiceAmount::min_value().checked_neg().is_err());
    assert!(InvoiceAmount::min_value().checked_abs().is_err());
    assert!(InvoiceAmount::min_value().checked_sub(parse("0.01")).is_err());
}

#[test]
fn annex_a_1_7_negative_amount_due() {
    let bt_112 = parse("137.50");
    let bt_113 = parse("250.00");
    let bt_115 = bt_112.checked_sub(bt_113).unwrap();
    assert_eq!(bt_115, parse("-112.50"));
    assert!(bt_115.is_negative(), "a refund is a lawful invoice");
}

#[test]
fn ordering_and_display_padding() {
    let a = parse("-1.00");
    let b = parse("1.00");
    assert!(a < b);
    let right = FormatSpec { fill: ' ', align: Some(Alignment::Right), width: Some(10), precision: None };
    let left = FormatSpec { fill: ' ', align: Some(Alignment::Left), width: Some(8), precision: None };
    assert_eq!(padded(&right, &b.to_string()), "      1.00");
    assert_eq!(padded(&left, &a.to_string()), "-1.00   ");
}

#[test]
fn checked_sum_closes_the_negative_line_example() {
    let lines = [parse("212.50"), parse("-85.00")];
    assert_eq!(InvoiceAmount::checked_sum(&lines).unwrap(), parse("127.50"));
    assert!(InvoiceAmount::checked_sum(&[InvoiceAmount::max_value(), parse("0.01")]).is_err());
}

#[test]
fn number_pads_fraction_digits_without_truncating() {
    let a = parse("1190.00");
    let p = |precision: usize| FormatSpec { fill: ' ', align: None, width: None, precision: Some(precision) };
    assert_eq!(number(&p(3), &a.to_string()), "1190.000");
    assert_eq!(number(&p(0), &a.to_string()), "1190.00");
}


fn to_decimal(d: Dec) -> Decimal {
    Decimal::from_i128_with_scale(d.mantissa, d.scale)
}

fn from_decimal(d: Decimal) -> Dec {
    Dec { mantissa: d.mantissa(), scale: d.scale() }
}

#[test]
fn a_third_decimal_is_refused_not_rounded() {
    assert!(matches!(InvoiceAmount::parse("0.005"), Err(ParseAmountError::TooManyDecimals { .. })));
    assert!(matches!(
        InvoiceAmount::from_decimal_exact(Dec::new(5, 3)),
        Err(AmountError::PrecisionLoss { .. })
    ));
}

#[test]
fn decimal_round_trips_exactly() {
    for s in ["1190.00", "-85.00", "0.07", "0.00"] {
        let a = parse(s);
        assert_eq!(InvoiceAmount::from_decimal_exact(a.into_decimal()).unwrap(), a);
    }
}

#[test]
fn annex_a_1_6_negative_invoice_line() {
    let line1 = parse("212.50");
    let line2 = parse("-85.00");

    let bt_106 = InvoiceAmount::checked_sum(&[line1, line2]).unwrap();
    assert_eq!(bt_106, parse("127.50"));

    let bt_117 = parse("31.88");
    let exact = to_decimal(bt_106.into_decimal()) * Decimal::from(25) / Decimal::from(100);
    assert_eq!(exact, Decimal::new(31875, 3));
    assert!(InvoiceAmount::from_decimal_exact(from_decimal(exact)).is_err());
    assert!((to_decimal(bt_117.into_decimal()) - exact).abs() < Decimal::ONE);

    let bt_112 = bt_106.checked_add(bt_117).unwrap();
    assert_eq!(bt_112, parse("159.38"));
    assert_eq!(bt_112.checked_sub(InvoiceAmount::zero()).unwrap(), bt_112);
}

#[test]
fn a_unit_price_is_not_capped_at_two_decimals() {
    let p = UnitPriceAmount::new(Dec::new(100001234, 4));
    assert_eq!(p.to_string(), "10000.1234");
    assert!(InvoiceAmount::from_decimal_exact(Dec::new(100001234, 4)).is_err());
}

#[test]
fn metering_precision_survives() {
    assert_eq!(UnitPriceAmount::new(Dec::new(28901, 5)).to_string(), "0.28901");
}

#[test]
fn r046_derives_the_net_price_exactly() {
    let gross = UnitPriceAmount::new(Dec::new(950, 2));
    let discount = UnitPriceAmount::new(Dec::new(100, 2));
    assert_eq!(gross.checked_sub(discount).unwrap(), UnitPriceAmount::new(Dec::new(850, 2)));
}

#[test]
fn negative_is_representable_because_br_27_is_a_rule() {
    let p = UnitPriceAmount::new(Dec::new(-5, 3));
    assert!(p.is_negative(), "reportable as a BR-27 finding, not a parse error");
}

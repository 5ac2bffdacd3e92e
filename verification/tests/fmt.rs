use en16931::amount::{InvoiceAmount, UnitPriceAmount};
use en16931::decimal::Dec;
use en16931::numeric::{Percentage, Quantity};
use en16931::date::Date;
use en16931::fmt::{Alignment, FormatSpec, number, padded};

fn spec(fill: char, align: Option<Alignment>, width: Option<usize>, precision: Option<usize>) -> FormatSpec {
    FormatSpec { fill, align, width, precision }
}

#[test]
fn precision_never_truncates_a_value() {
    let a = InvoiceAmount::parse("1190.00").expect("amount").to_string();
    assert_eq!(number(&spec(' ', None, None, Some(2)), &a), "1190.00");
    assert_eq!(number(&spec(' ', None, None, Some(3)), &a), "1190.000");
    assert_eq!(number(&spec(' ', None, None, Some(0)), &a), "1190.00", "precision is a minimum");
    assert_eq!(number(&spec(' ', Some(Alignment::Right), Some(12), Some(4)), &a), "   1190.0000");

    let d = Date::parse("2026-07-31").expect("date").to_string();
    assert_eq!(padded(&spec(' ', None, None, Some(4)), &d), "2026-07-31", "was \"2026\"");
    assert_eq!(padded(&spec(' ', None, None, Some(2)), &d), "2026-07-31");
}

#[test]
fn width_fill_and_alignment_still_behave() {
    let a = InvoiceAmount::parse("1.00").expect("amount").to_string();
    assert_eq!(padded(&spec(' ', Some(Alignment::Right), Some(10), None), &a), "      1.00");
    assert_eq!(padded(&spec(' ', Some(Alignment::Left), Some(10), None), &a), "1.00      ");
    assert_eq!(padded(&spec(' ', Some(Alignment::Center), Some(10), None), &a), "   1.00   ");
    assert_eq!(padded(&spec('*', Some(Alignment::Right), Some(10), None), &a), "******1.00");
    assert_eq!(padded(&FormatSpec::plain(), &a), "1.00", "no width, no padding");
    assert_eq!(padded(&spec(' ', Some(Alignment::Right), Some(2), None), &a), "1.00");
    assert_eq!(padded(&spec('—', Some(Alignment::Right), Some(8), None), &a), "————1.00");
}

#[test]
fn precision_pads_to_the_requested_scale() {
    let p = |precision: usize| spec(' ', None, None, Some(precision));
    assert_eq!(number(&p(4), &Percentage::new(Dec::new(19, 0)).to_string()), "19.0000");
    assert_eq!(number(&p(2), &Quantity::new(Dec::new(10000, 0)).to_string()), "10000.00");
    assert_eq!(number(&p(7), &UnitPriceAmount::new(Dec::new(28901, 5)).to_string()), "0.2890100");
    assert_eq!(number(&p(2), &UnitPriceAmount::new(Dec::new(28901, 5)).to_string()), "0.28901");
}

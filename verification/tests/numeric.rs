use en16931::decimal::Dec;
use en16931::numeric::{Percentage, Quantity};
use rust_decimal::Decimal;

fn to_decimal(d: Dec) -> Decimal {
    Decimal::from_i128_with_scale(d.mantissa, d.scale)
}

#[test]
fn percentage_is_per_cent_not_a_fraction() {
    let p = Percentage::new(Dec::new(3478, 2));
    assert_eq!(p.to_string(), "34.78");
    assert_eq!(p.as_fraction().map(to_decimal), Some(Decimal::new(3478, 4)));
    assert_eq!(Percentage::from_fraction(Dec::new(19, 2)).unwrap(), Percentage::new(Dec::new(19, 0)));
}

#[test]
fn percentage_display_strips_trailing_zeros() {
    assert_eq!(Percentage::new(Dec::new(1900, 2)).to_string(), "19");
    assert_eq!(Percentage::new(Dec::new(750, 2)).to_string(), "7.5");
    assert_eq!(Percentage::zero().to_string(), "0");
}

#[test]
fn rate_predicates_match_the_category_rules() {
    assert!(Percentage::new(Dec::new(19, 0)).is_positive());
    assert!(Percentage::zero().is_zero());
    assert!(!Percentage::zero().is_positive());
    assert!(Percentage::new(Dec::new(-1, 0)).is_negative());
}

#[test]
fn quantity_may_be_negative() {
    let q = Quantity::new(Dec::new(-10, 0));
    assert!(q.is_negative());
    assert_eq!(q.to_string(), "-10");
    assert_eq!(Quantity::new(Dec::new(10, 0)).checked_neg().unwrap(), q);
}

#[test]
fn quantity_one_is_exact_for_a_flat_charge() {
    assert_eq!(to_decimal(Quantity::one().into_decimal()), Decimal::ONE);
    assert_eq!(to_decimal(Quantity::one().into_decimal()) * Decimal::new(850, 2), Decimal::new(850, 2));
}

#[test]
fn quantity_keeps_metering_precision() {
    let q = Quantity::new(Dec::new(1234567, 3));
    assert_eq!(q.to_string(), "1234.567");
}

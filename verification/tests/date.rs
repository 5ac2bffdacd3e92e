use en16931::date::Date;

fn d(s: &str) -> Date {
    Date::parse(s).unwrap_or_else(|_| panic!("{s} should parse"))
}

#[test]
fn parses_and_renders_iso_8601() {
    let x = d("2026-06-30");
    assert_eq!((x.year(), x.month(), x.day()), (2026, 6, 30));
    assert_eq!(x.to_string(), "2026-06-30");
}

#[test]
fn epoch_days_round_trip_over_a_century_including_every_leap_case() {
    let mut x = d("1970-01-01");
    for _ in 0..40_000 {
        let n = x.to_epoch_day();
        assert_eq!(Date::from_epoch_day(n).expect("in range"), x, "{}", x.to_string());
        x = x.checked_add_days(1).expect("next day");
    }
    let mut x = d("1970-01-01");
    for _ in 0..30_000 {
        let n = x.to_epoch_day();
        assert_eq!(Date::from_epoch_day(n).expect("in range"), x, "{}", x.to_string());
        x = x.checked_add_days(-1).expect("previous day");
    }
}

#[test]
fn day_arithmetic_crosses_months_years_and_leap_days() {
    let add = |s: &str, n: i32| d(s).checked_add_days(n).expect("in range").to_string();
    assert_eq!(add("2026-07-31", 14), "2026-08-14", "the §40c EnWG default");
    assert_eq!(add("2026-12-31", 1), "2027-01-01");
    assert_eq!(add("2024-02-28", 1), "2024-02-29", "2024 is a leap year");
    assert_eq!(add("2100-02-28", 1), "2100-03-01", "2100 is not");
    assert_eq!(add("2000-02-28", 1), "2000-02-29", "2000 is");
    assert_eq!(add("2026-01-01", -1), "2025-12-31");

    let from = d("2026-06-01");
    let to = d("2026-06-30");
    assert_eq!(from.days_until(to), 29);
    assert_eq!(to.days_until(from), -29);
    assert_eq!(from.days_until(from), 0);
}

#[test]
fn epoch_day_agrees_with_known_dates() {
    let day = |s: &str| d(s).to_epoch_day();
    assert_eq!(day("1970-01-01"), 0);
    assert_eq!(day("1969-12-31"), -1);
    assert_eq!(day("2000-01-01"), 10_957);
    assert_eq!(day("2026-07-31"), 20_665);
}

#[test]
fn rejects_non_calendar_days() {
    for bad in ["2026-02-30", "2026-13-01", "2026-00-01", "2026-01-00", "2026-04-31"] {
        assert!(Date::parse(bad).is_err(), "{bad} should not parse");
    }
    assert!(Date::parse("2024-02-29").is_ok(), "2024 is a leap year");
    assert!(Date::parse("2026-02-29").is_err(), "2026 is not");
    assert!(Date::parse("2000-02-29").is_ok(), "400-year rule");
    assert!(Date::parse("1900-02-29").is_err(), "100-year rule");
}

#[test]
fn rejects_anything_that_is_not_a_bare_calendar_date() {
    for bad in [
        "2026-06-01T00:00:00",
        "2026-06-01Z",
        "2026-6-1",
        "26-06-01",
        "2026/06/01",
        "",
        "today",
    ] {
        assert!(Date::parse(bad).is_err(), "{bad:?} should not parse");
    }
}

#[test]
fn ordering_is_chronological() {
    assert!(d("2026-01-31") < d("2026-02-01"));
    assert!(d("2025-12-31") < d("2026-01-01"));
    assert!(d("2026-06-30") >= d("2026-06-01"));
    let mut v = [d("2026-03-01"), d("2025-12-31"), d("2026-01-15")];
    v.sort();
    assert_eq!(v[0], d("2025-12-31"));
    assert_eq!(v[2], d("2026-03-01"));
    assert!(d("2025-12-31").is_on_or_before(d("2026-01-01")));
    assert!(!d("2026-01-02").is_on_or_before(d("2026-01-01")));
}

#[test]
fn new_checks_the_calendar() {
    assert!(Date::new(2024, 2, 29).is_ok());
    assert!(Date::new(2023, 2, 29).is_err());
    assert!(Date::new(2023, 13, 1).is_err());
}

#[test]
fn chrono_and_time_days_convert_both_ways() {
    let n = chrono::NaiveDate::from_ymd_opt(2024, 2, 29).expect("leap day");
    let x = Date::from_chrono(n);
    assert_eq!(x, d("2024-02-29"));
    assert_eq!(x.to_chrono(), Ok(n));
    let far = Date::new(300_000, 1, 1).expect("a valid day");
    assert_eq!(far.to_chrono(), Err(far), "outside chrono's range");

    let t = time::Date::from_calendar_date(2026, time::Month::July, 31).expect("valid");
    assert_eq!(Date::from_time(t).expect("always valid"), d("2026-07-31"));
}

#[test]
fn a_day_whose_year_does_not_fit_is_an_error_not_a_panic() {
    assert!(Date::from_epoch_day(i64::MAX).is_err());
    assert!(Date::from_epoch_day(i64::MIN).is_err());
    assert!(Date::from_epoch_day(i64::MAX - 719_468).is_err());
}

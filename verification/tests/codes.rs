use en16931::codes::guard::{CodeList, eas_value, vat_category_list, vat_point_date_list};
use en16931::codes::{VatCategory, contains, vat_category_codes, vat_point_date_codes};
use en16931::validation::rules::all;

#[test]
fn vat_category_round_trips_and_is_case_sensitive() {
    let codes = vat_category_codes();
    for c in VatCategory::all() {
        assert_eq!(VatCategory::from_code(c.code()), Some(c));
        assert!(contains(&codes, c.code()), "{} missing from BR-CL-17", c.code());
    }
    assert_eq!(codes.len(), VatCategory::all().len());
    assert_eq!(VatCategory::from_code("ae"), None);
    assert_eq!(VatCategory::from_code("Q"), None);
}

#[test]
fn zero_rated_and_exempt_differ_on_the_reason() {
    assert!(!VatCategory::ZeroRated.carries_tax());
    assert!(!VatCategory::Exempt.carries_tax());
    assert!(VatCategory::ZeroRated.forbids_exemption_reason());
    assert!(VatCategory::Exempt.requires_exemption_reason());
}

#[test]
fn split_payment_is_the_only_category_with_neither_reason_rule() {
    for c in VatCategory::all() {
        let neither = !c.requires_exemption_reason() && !c.forbids_exemption_reason();
        assert_eq!(neither, c == VatCategory::SplitPayment, "{}", c.code());
    }
    assert!(VatCategory::SplitPayment.carries_tax(), "B is taxed, unlike AE");
}

#[test]
fn only_out_of_scope_suppresses_the_line_rate_and_is_exclusive() {
    for c in VatCategory::all() {
        assert_eq!(c.states_rate(), c != VatCategory::OutOfScope);
        assert_eq!(c.is_exclusive(), c == VatCategory::OutOfScope);
    }
}

#[test]
fn the_carried_lists_are_sorted_and_unique() {
    for (name, list) in [("VAT_CATEGORY_CODES", vat_category_codes()), ("VAT_POINT_DATE_CODES", vat_point_date_codes())] {
        assert!(!list.is_empty(), "{name} is empty");
        for w in list.windows(2) {
            assert!(w[0] < w[1], "{name} is not sorted/unique at {w:?}");
        }
    }
}

#[test]
fn vat_point_date_codes_are_the_three_of_en_16931() {
    assert_eq!(vat_point_date_codes(), vec!["3", "35", "432"]);
    assert!(contains(&vat_point_date_codes(), "35"));
    assert!(!contains(&vat_point_date_codes(), "29"));
}

#[test]
fn an_exclusive_category_cannot_share_a_document() {
    assert!(VatCategory::can_share_document(&[VatCategory::Standard, VatCategory::ZeroRated]).is_ok());
    let err = VatCategory::can_share_document(&[VatCategory::Standard, VatCategory::OutOfScope])
        .expect_err("O is exclusive");
    assert_eq!(err.category, VatCategory::OutOfScope);
    assert!(!err.to_string().is_empty());
}

#[test]
fn case_folding_is_unambiguous() {
    for list in [vat_category_list(), vat_point_date_list()] {
        let mut folded: Vec<String> = list.values.iter().map(|v| v.to_uppercase()).collect();
        folded.sort_unstable();
        let before = folded.len();
        folded.dedup();
        assert_eq!(before, folded.len(), "{} has two values differing only in case", list.name);
    }
}

#[test]
fn no_rule_text_or_advice_contains_a_run_of_spaces() {
    for r in all() {
        assert!(!r.text.contains("  "), "{}'s text contains a run of spaces: {:?}", r.id, r.text);
    }
    let eas = CodeList {
        terms: "BT-34, BT-49",
        name: "EAS",
        rule: "BR-CL-25",
        values: vec!["0088", "0204"],
        tracks_withdrawals: true,
    };
    let categories = vat_category_list();
    for msg in [
        eas_value("0088", "12345").expect_err("too short").to_string(),
        eas_value("0088", "4012345000008").expect_err("bad check digit").to_string(),
        eas.advice("9958").expect("withdrawn"),
        categories.advice("s").expect("case"),
        categories.advice(" S").expect("whitespace"),
    ] {
        assert!(!msg.contains("  "), "advice contains a run of spaces: {msg:?}");
    }
}

use en16931::validation::Severity;
use en16931::validation::rules::explain;
use en16931::bt::{BtId, Group, Path};
use en16931::invoice::{Code, DirectDebit, Invoice, PaymentInstructions, PaymentMeans};
use en16931::validation::rules::xrechnung::{
    br_de_18, br_de_19, br_de_20, br_de_23_a, br_de_25_a, br_de_27, br_de_28, br_de_30, en_sepa_01,
    is_absolute_url, is_skonto_line, is_valid_creditor_identifier, is_valid_iban, is_valid_iban_checksum,
    plausible_email,
};

#[test]
fn iban_mod_97_accepts_real_ibans_and_rejects_typos() {
    for ok in ["DE89370400440532013000", "GB82 WEST 1234 5698 7654 32", "FR1420041010050500013M02606", "NL91ABNA0417164300"] {
        assert!(is_valid_iban(ok), "{ok} should be valid");
    }
    for bad in ["DE89370400440532013001", "DE8937040044053201300", "XX00", "0089370400440532013000", "DE89-3704-0044", ""] {
        assert!(!is_valid_iban(bad), "{bad:?} should be invalid");
    }
}

#[test]
fn br_de_28_is_a_shape_test_not_an_rfc_parser() {
    for ok in ["rechnung@seller.de", "a.b@example.co.uk"] {
        assert!(plausible_email(ok), "{ok}");
    }
    for bad in ["no-at-sign", "two@@ats.de", "a@b.de", "ab@c", "ab .@seller.de", "ab.@seller.de", ".ab@seller.de", "ab@seller.de."] {
        assert!(!plausible_email(bad), "{bad:?} should be rejected");
    }
}

#[test]
fn the_registry_check_is_strictly_stronger() {
    for good in ["DE89370400440532013000", "NL91ABNA0417164300", "GB29NWBK60161331926819"] {
        assert!(is_valid_iban_checksum(good), "{good}");
        assert!(is_valid_iban(good), "{good}");
    }
    assert!(!is_valid_iban_checksum("DE89370400440532013001"));
    assert!(!is_valid_iban("DE89370400440532013001"));
}

#[test]
fn the_registry_catches_a_wrong_length_iban() {
    let short = "DE29100000001234567";
    if is_valid_iban_checksum(short) {
        assert!(!is_valid_iban(short), "the ISO 13616 registry must reject a 19-character DE IBAN");
    }
    assert!(is_valid_iban("DE89370400440532013000"));
}

#[test]
fn a_malformed_creditor_identifier_is_rejected_either_way() {
    assert!(!is_valid_creditor_identifier("not a creditor id"));
    assert!(!is_valid_creditor_identifier(""));
    assert!(is_valid_creditor_identifier("DE98ZZZ09999999999"));
}

#[test]
fn the_checksum_ignores_whitespace_and_case() {
    assert!(is_valid_iban_checksum("de89 3704 0044 0532 0130 00"));
    assert!(!is_valid_iban_checksum("DE89 3704 0044 0532 0130 01"));
    assert!(!is_valid_iban_checksum("D"));
}

#[test]
fn skonto_lines_are_exact_about_two_decimals() {
    assert!(is_skonto_line("#SKONTO#TAGE=14#PROZENT=2.00#"));
    assert!(is_skonto_line("#SKONTO#TAGE=7#PROZENT=3.00#BASISBETRAG=-100.00#"));
    assert!(!is_skonto_line("#SKONTO#TAGE=14#PROZENT=2#"));
    assert!(!is_skonto_line("#SKONTO#TAGE=14#PROZENT=2.0#"));
    assert!(!is_skonto_line("#SKONTO#TAGE=#PROZENT=2.00#"));
    assert!(!is_skonto_line("#SKONTO#TAGE=14#PROZENT=2.00"));
    assert!(!is_skonto_line("#SKONTO#TAGE=14#PROZENT=2.00#BASISBETRAG=1#"));
}

#[test]
fn br_de_18_wants_a_newline_after_the_block() {
    let mut inv = Invoice::default();
    inv.payment_terms = Some("#SKONTO#TAGE=14#PROZENT=2.00#\n".into());
    assert_eq!(br_de_18(&inv), None);
    inv.payment_terms = Some("#SKONTO#TAGE=14#PROZENT=2.00#".into());
    assert_eq!(br_de_18(&inv), Some(Path::term(BtId(20))));
    inv.payment_terms = Some("Zahlbar sofort\n#SKONTO#TAGE=14#PROZENT=2#\n".into());
    assert_eq!(br_de_18(&inv), Some(Path::term(BtId(20))));
    inv.payment_terms = Some("Zahlbar innerhalb 14 Tagen".into());
    assert_eq!(br_de_18(&inv), None);
}

#[test]
fn absolute_urls_need_a_scheme_and_a_rest() {
    assert!(is_absolute_url("https://example.com/a.pdf"));
    assert!(is_absolute_url("urn+x-1.2://x"));
    assert!(!is_absolute_url("example.com"));
    assert!(!is_absolute_url("1http://x"));
    assert!(!is_absolute_url("https://"));
    assert!(!is_absolute_url("://x"));
}

fn with_means(code: &str, means: Option<PaymentMeans>) -> Invoice {
    let mut inv = Invoice::default();
    inv.payment = Some(PaymentInstructions {
        means_code: Some(Code::new(code)),
        means_text: None,
        remittance_information: None,
        means,
    });
    inv
}

#[test]
fn the_payment_group_must_match_bt_81() {
    let pay = Path::group_term(Group::Payment, BtId(81));
    assert_eq!(br_de_23_a(&with_means("58", None)), Some(pay));
    assert_eq!(br_de_23_a(&with_means("58", Some(PaymentMeans::CreditTransfer(vec![])))), None);
    let debit = DirectDebit { mandate_reference: None, creditor_identifier: None, debited_account: None };
    assert_eq!(br_de_25_a(&with_means("59", Some(PaymentMeans::DirectDebit(debit.clone())))), None);
    assert_eq!(br_de_25_a(&with_means("59", None)), Some(pay));
    assert_eq!(br_de_23_a(&with_means("10", None)), None, "cash names no group");
}

#[test]
fn direct_debit_detail_is_required_and_checked() {
    let debit = DirectDebit {
        mandate_reference: Some("M-1".into()),
        creditor_identifier: Some("DE98ZZZ09999999999".into()),
        debited_account: Some("DE89370400440532013000".into()),
    };
    let inv = with_means("59", Some(PaymentMeans::DirectDebit(debit.clone())));
    assert_eq!(br_de_30(&inv), None);
    assert_eq!(en_sepa_01(&inv), None);
    assert_eq!(br_de_20(&inv), None);

    let mut bad = debit.clone();
    bad.creditor_identifier = Some("not a creditor id".into());
    bad.debited_account = Some("DE89370400440532013001".into());
    let inv = with_means("59", Some(PaymentMeans::DirectDebit(bad)));
    assert_eq!(en_sepa_01(&inv), Some(Path::group_term(Group::Payment, BtId(90))));
    assert_eq!(br_de_20(&inv), Some(Path::group_term(Group::Payment, BtId(91))));

    let mut missing = debit;
    missing.creditor_identifier = Some(String::new());
    let inv = with_means("59", Some(PaymentMeans::DirectDebit(missing)));
    assert_eq!(br_de_30(&inv), Some(Path::group_term(Group::Payment, BtId(90))));
    assert_eq!(en_sepa_01(&inv), None, "an empty identifier is BR-DE-30's finding");
    assert_eq!(br_de_19(&inv), None);
}

#[test]
fn contact_formats() {
    let mut inv = Invoice::default();
    inv.seller.contact.phone = Some("+49 30".into());
    inv.seller.contact.email = Some("a@b.de".into());
    assert_eq!(br_de_27(&inv), None);
    assert_eq!(br_de_28(&inv), Some(Path::group_term(Group::Seller, BtId(43))));
    inv.seller.contact.phone = Some("+4".into());
    assert_eq!(br_de_27(&inv), Some(Path::group_term(Group::Seller, BtId(42))));
}

#[test]
fn both_iban_rules_are_advisory() {
    assert_eq!(explain("BR-DE-19").expect("registered").severity, Severity::Warning);
    assert_eq!(explain("BR-DE-20").expect("registered").severity, Severity::Warning);
}

#[test]
fn the_b_halves_are_unrepresentable_rather_than_unchecked() {
    let rules = en16931::validation::rules::registry::registry();
    for id in ["BR-DE-23-b", "BR-DE-24-b", "BR-DE-25-b"] {
        let k = rules.iter().position(|r| r.id == id).expect("registered");
        let out = en16931::validation::engine::rule_failures(k, &Invoice::default());
        assert!(out.is_empty(), "{id}");
    }
}

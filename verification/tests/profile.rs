use en16931::validation::engine::validate;
use en16931::edition::Edition;
use en16931::invoice::{Code, Invoice, Party, PartyRole};
use en16931::validation::Severity;
use en16931::profiles::{
    En16931, XRechnung, XRechnungCvd, en16931, for_specification_id, xrechnung, xrechnung_cvd,
};
use en16931::validation::profile::{Profile, ProfileMarker, Restriction, TermAccessor, Validated};

fn every_variant() -> Profile {
    Profile {
        id: "test",
        specification_id: "urn:test",
        edition: Edition::En2017A1,
        underlying: vec!["EN 16931"],
        restrictions: vec![
            Restriction::Mandatory { id: "T-MANDATORY", term: TermAccessor::BuyerReference },
            Restriction::NotUsed { id: "T-NOTUSED", term: TermAccessor::SellerCity },
            Restriction::CodeValues { id: "T-CODES", term: TermAccessor::TypeCode, allowed: vec!["380"] },
        ],
        extra_rules: vec![],
        extensions: vec![],
        suppressed: vec![],
    }
}

fn has(p: &Profile, inv: &Invoice, id: &str) -> bool {
    p.validate(inv).has(id)
}

fn subject() -> Invoice {
    let mut inv = Invoice::default();
    inv.type_code = Some(Code::new("380"));
    inv.buyer_reference = Some("REF-1".to_owned());
    inv
}

#[test]
fn mandatory_fires_only_when_the_term_is_absent_or_blank() {
    let p = every_variant();
    let mut inv = subject();
    assert!(!has(&p, &inv, "T-MANDATORY"));
    inv.buyer_reference = None;
    assert!(has(&p, &inv, "T-MANDATORY"));
    inv.buyer_reference = Some("   ".to_owned());
    assert!(has(&p, &inv, "T-MANDATORY"), "whitespace is not a value");
}

#[test]
fn not_used_fires_only_when_the_term_carries_something() {
    let p = every_variant();
    let mut inv = subject();
    assert!(!has(&p, &inv, "T-NOTUSED"));
    inv.seller.address.city = Some("Berlin".to_owned());
    assert!(has(&p, &inv, "T-NOTUSED"));
    inv.seller.address.city = Some("  ".to_owned());
    assert!(!has(&p, &inv, "T-NOTUSED"), "blank is not 'used'");
}

#[test]
fn code_values_fires_only_on_a_value_outside_the_list() {
    let p = every_variant();
    let mut inv = subject();
    assert!(!has(&p, &inv, "T-CODES"));
    inv.type_code = Some(Code::new("381"));
    assert!(has(&p, &inv, "T-CODES"));
    inv.type_code = None;
    assert!(!has(&p, &inv, "T-CODES"));
}

#[test]
fn a_derived_finding_is_indistinguishable_from_a_hand_written_one() {
    let p = every_variant();
    let mut inv = subject();
    inv.buyer_reference = None;
    let report = p.validate(&inv);
    let f = report.findings.into_iter().find(|f| f.rule == "T-MANDATORY").expect("finding");
    assert_eq!(f.severity, Severity::Fatal);
    assert_eq!(f.path.to_string(), "BT-10");
    assert!(f.message.contains("Buyer reference"), "{}", f.message);
    assert_eq!(f.message, "Buyer reference (BT-10) shall be present");
}

#[test]
fn a_code_values_finding_says_which_values_remain_and_names_a_case_slip() {
    let r = Restriction::CodeValues { id: "T-CAT", term: TermAccessor::TypeCode, allowed: vec!["S", "Z"] };
    let mut inv = Invoice::default();
    inv.type_code = Some(Code::new("s"));
    let fs = r.check(&inv);
    assert_eq!(fs.len(), 1);
    assert_eq!(fs[0].message, "Invoice type code (BT-3) shall be one of: S, Z");
    let hint = fs[0].hint.as_deref().expect("a case hint");
    assert!(hint.starts_with("did you mean \"S\"?"), "{hint}");

    inv.type_code = Some(Code::new("AE"));
    let fs = r.check(&inv);
    let hint = fs[0].hint.as_deref().expect("a scope hint");
    assert!(hint.contains("is a valid UNCL 5305 value but this profile does not admit it"), "{hint}");

    inv.type_code = Some(Code::new("QQ"));
    assert_eq!(r.check(&inv)[0].hint, None, "nothing is guessed");
}

#[test]
fn vat_rate_is_read_once_per_breakdown_group() {
    let r = Restriction::Mandatory { id: "T-RATE", term: TermAccessor::VatRate };
    assert!(r.check(&Invoice::default()).is_empty(), "no groups, nothing to require");
}

#[test]
fn missing_terms_and_missing_for_answer_from_the_restrictions() {
    let p = Profile {
        id: "XR",
        specification_id: "urn:xr",
        edition: Edition::En2017A1,
        underlying: vec!["EN 16931"],
        restrictions: vec![
            Restriction::Mandatory { id: "BR-DE-3", term: TermAccessor::SellerCity },
            Restriction::Mandatory { id: "BR-DE-8", term: TermAccessor::BuyerCity },
            Restriction::Mandatory { id: "BR-DE-9", term: TermAccessor::BuyerPostCode },
            Restriction::Mandatory { id: "BR-DE-15", term: TermAccessor::BuyerReference },
        ],
        extra_rules: vec![],
        extensions: vec![],
        suppressed: vec![],
    };
    assert!(p.is_conformant_cius());
    let missing = p.missing_terms(&Invoice::default());
    let ids: Vec<_> = missing.iter().map(|m| m.rule).collect();
    assert_eq!(ids, ["BR-DE-3", "BR-DE-8", "BR-DE-9", "BR-DE-15"]);
    assert_eq!(missing[0].to_string(), "[BR-DE-3] BG-4/BT-37 — Seller city");

    let gaps = Party::default().missing_for(&p, PartyRole::Buyer);
    let terms: Vec<_> = gaps.iter().map(|m| m.term.0).collect();
    assert!(terms.contains(&52), "BT-52 Buyer city — BR-DE-8");
    assert!(terms.contains(&53), "BT-53 Buyer post code — BR-DE-9");
    let seller = Party::default().missing_for(&p, PartyRole::Seller);
    assert!(seller.iter().map(|m| m.term.0).any(|t| t == 37));
    assert!(!seller.iter().map(|m| m.term.0).any(|t| t == 52));

    let mut with_city = Party::default();
    with_city.address.city = Some("Berlin".into());
    assert!(with_city.missing_for(&p, PartyRole::Seller).is_empty());
}

#[test]
fn a_profile_report_is_the_core_report_plus_its_own() {
    let mut p = every_variant();
    p.extra_rules = vec!["BR-DE-16", "BR-DE-2", "NOT-A-RULE"];
    let inv = Invoice::default();
    let core = validate(&inv);
    let report = p.validate(&inv);
    assert_eq!(report.profile.as_deref(), Some("test"));
    assert!(report.findings.len() > core.findings.len());
    for (a, b) in core.findings.iter().zip(report.findings.iter()) {
        assert_eq!((&a.rule, a.severity, a.path), (&b.rule, b.severity, b.path));
    }
    assert!(report.has("BR-DE-2"), "no seller contact at all");
    assert!(report.has("T-MANDATORY"));
    assert!(!report.has("NOT-A-RULE"));
    assert!(!core.is_valid());
    assert!(!report.is_valid());
}

#[test]
fn a_suppressed_rule_is_not_run_and_is_recorded() {
    let mut p = every_variant();
    p.suppressed = vec!["BR-02"];
    assert!(!p.is_conformant_cius());
    let report = p.validate(&Invoice::default());
    assert!(!report.has("BR-02"));
    assert!(report.has("BR-01"));
    assert_eq!(report.suppressed, vec!["BR-02".to_string()]);
}

#[test]
fn a_cius_states_what_4_4_2_requires() {
    let p = XRechnung::profile();
    assert!(!p.specification_id.is_empty(), "§7.6: BT-24 identifier");
    assert!(!p.underlying.is_empty(), "§4.4.2: underlying specifications");
    assert!(p.is_conformant_cius());
}

#[test]
fn restrictions_are_data_not_code() {
    let p = XRechnung::profile();
    assert!(p.restrictions.len() >= 10, "XRechnung has eleven pure Mandatory rules and two CodeValues");
    let ids: Vec<_> = p.restrictions.iter().map(Restriction::id).collect();
    for expect in ["BR-DE-3", "BR-DE-15", "BR-DE-14", "BR-DE-17"] {
        assert!(ids.contains(&expect), "{expect} missing from {ids:?}");
    }
}

fn takes_core(_: Validated<En16931>) {}

fn round_trip(v: Validated<XRechnung>) {
    takes_core(v.widen());
}

#[test]
fn core_is_reachable_from_a_cius_proof() {
    let _ = round_trip;
}

#[test]
fn the_shipped_profiles_answer_missing_terms_and_missing_for() {
    let missing = xrechnung().missing_terms(&Invoice::default());
    let ids: Vec<_> = missing.iter().map(|m| m.rule).collect();
    assert!(ids.contains(&"BR-DE-3"), "Seller city (BT-37)");
    assert!(ids.contains(&"BR-DE-15"), "Buyer reference (BT-10)");

    let gaps = Party::default().missing_for(&xrechnung(), PartyRole::Buyer);
    let terms: Vec<_> = gaps.iter().map(|m| m.term.0).collect();
    assert!(terms.contains(&52), "BT-52 Buyer city — BR-DE-8");
    assert!(terms.contains(&53), "BT-53 Buyer post code — BR-DE-9");
    let seller = Party::default().missing_for(&xrechnung(), PartyRole::Seller);
    assert!(seller.iter().map(|m| m.term.0).any(|t| t == 37));
    assert!(!seller.iter().map(|m| m.term.0).any(|t| t == 52));
}

#[test]
fn xrechnung_admits_self_billing_and_narrows_bt_24() {
    let mut inv = Invoice::default();
    inv.type_code = Some(Code::new("389"));
    assert!(!xrechnung().validate(&inv).has("BR-DE-17"), "389 is self-billed and admitted");
    inv.type_code = Some(Code::new("386"));
    assert!(xrechnung().validate(&inv).has("BR-DE-17"));
    inv.specification_id = Some("urn:cen.eu:en16931:2017".into());
    assert!(xrechnung().validate(&inv).has("BR-DE-21"));
    assert!(!en16931().validate(&inv).has("BR-DE-21"), "the core model has no BR-DE rules");
}

#[test]
fn the_cvd_variant_runs_xrechnungs_rules_and_its_own() {
    let p = xrechnung_cvd();
    assert_eq!(p.id, "XRechnung 3.0 CVD");
    assert!(p.extra_rules.contains(&"BR-DE-23-a"));
    assert!(p.extra_rules.contains(&"BR-DE-CVD-01"));
    assert_eq!(p.restrictions.len(), xrechnung().restrictions.len());
    let report = XRechnungCvd::profile().validate(&Invoice::default());
    assert!(report.has("BR-DE-15"));
}

#[test]
fn a_validated_invoice_is_one_the_profile_accepts() {
    let rejected = Validated::<XRechnung>::new(Invoice::default()).expect_err("an empty invoice");
    assert!(!rejected.1.is_valid());
    assert!(rejected.1.has("BR-DE-15"));
    assert_eq!(rejected.0, Invoice::default(), "the invoice comes back unchanged");
}

#[test]
fn a_document_selects_a_shipped_profile_through_bt_24() {
    let select = |id: &str| for_specification_id(id).map(|p| p.id);
    assert_eq!(select(xrechnung().specification_id), Some("XRechnung 3.0"));
    assert_eq!(select(xrechnung_cvd().specification_id), Some("XRechnung 3.0 CVD"));
    assert_eq!(
        select(&format!("{}#conformant#urn:nope", xrechnung().specification_id)),
        Some("XRechnung 3.0"),
        "an unknown KoSIT variant still resolves to the CIUS it embeds"
    );
    assert_eq!(select(en16931().specification_id), Some("EN 16931"));
    assert!(for_specification_id("urn:nonsense").is_none());
}

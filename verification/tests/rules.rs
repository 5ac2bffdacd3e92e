use en16931::bt::BtId;
use en16931::validation::Source;
use en16931::validation::rules::registry::{category_extras_rules, family_rules};
use en16931::validation::rules::{all, canonical, explain, touching};

#[test]
fn the_registry_has_no_duplicate_ids() {
    let mut ids: Vec<String> = all().into_iter().map(|r| r.id).collect();
    ids.sort_unstable();
    let before = ids.len();
    ids.dedup();
    assert_eq!(before, ids.len(), "duplicate rule id in the registry");
}

#[test]
fn explain_accepts_every_spelling() {
    assert!(explain("BR-CO-14").is_some());
    assert!(explain("br-co-14").is_some());
    assert_eq!(explain("BR-CO-04").map(|r| r.id), Some("BR-CO-04".to_string()));
    assert!(explain("nonsense").is_none());
}

#[test]
fn touching_finds_the_arithmetic_rules_for_a_term() {
    let rules: Vec<String> = touching(BtId(117)).into_iter().map(|r| r.id).collect();
    assert!(rules.contains(&"BR-CO-14".to_string()), "{rules:?}");
    assert!(rules.contains(&"BR-CO-17".to_string()), "{rules:?}");
}

#[test]
fn our_own_rules_are_namespaced_and_marked() {
    for r in all() {
        if r.source == Source::Crate {
            assert!(r.id.starts_with("EN-"), "{} is ours but not namespaced", r.id);
        } else {
            assert!(r.id.starts_with("BR-"), "{}", r.id);
        }
    }
}

#[test]
fn exactly_one_rule_is_standard_only() {
    let only: Vec<String> = all().into_iter().filter(|r| r.source == Source::StandardOnly).map(|r| r.id).collect();
    assert_eq!(only, ["BR-CO-25"], "BR-CO-27 does not exist in this edition");
}

#[test]
fn provenance_is_recorded_for_every_rule() {
    let mut standard_only = 0;
    let mut crate_only = 0;
    for r in all() {
        match r.source {
            Source::StandardOnly => standard_only += 1,
            Source::Crate => {
                crate_only += 1;
                assert!(r.id.starts_with("EN-"), "{}", r.id);
            }
            _ => assert!(r.id.starts_with("BR-"), "{}", r.id),
        }
    }
    assert_eq!(standard_only, 1, "BR-CO-25 is the only one");
    assert!(crate_only >= 1);
}

#[test]
fn all_nine_category_families_are_registered() {
    for prefix in ["BR-S", "BR-Z", "BR-E", "BR-AE", "BR-IC", "BR-G", "BR-O", "BR-AF", "BR-AG"] {
        for row in ["01", "05", "08", "09", "10"] {
            let id = format!("{prefix}-{row}");
            assert!(explain(&id).is_some(), "{id} missing");
        }
    }
    assert_eq!(explain("BR-IG-8").map(|r| r.id), Some("BR-AF-08".to_string()));
    assert_eq!(explain("BR-IP-9").map(|r| r.id), Some("BR-AG-09".to_string()));
}

#[test]
fn the_en_namespace_means_exactly_source_crate() {
    for r in all() {
        assert_eq!(
            r.id.starts_with("EN-"),
            matches!(r.source, Source::Crate),
            "{} is {:?} — the `EN-` prefix and `Source::Crate` must agree",
            r.id,
            r.source
        );
    }
}

#[test]
fn br_co_25_is_the_only_standard_only_rule() {
    let ids: Vec<String> = all().into_iter().filter(|r| matches!(r.source, Source::StandardOnly)).map(|r| r.id).collect();
    assert_eq!(ids, ["BR-CO-25"]);
}

#[test]
fn every_family_emits_its_own_real_id() {
    let ids: Vec<String> = family_rules().into_iter().chain(category_extras_rules()).map(|r| r.id).collect();
    for expect in [
        "BR-S-02", "BR-S-06", "BR-S-07", "BR-S-08", "BR-Z-09", "BR-E-10", "BR-AE-01", "BR-AE-03", "BR-IC-04",
        "BR-IC-05", "BR-G-08", "BR-O-05", "BR-O-14", "BR-AF-10", "BR-AG-09", "BR-B-01",
    ] {
        assert!(ids.contains(&expect.to_string()), "{expect} missing from {ids:?}");
    }
    assert_eq!(ids.len(), 9 * 10 + 6);
}

#[test]
fn the_standards_ig_ip_spellings_resolve_to_the_artefacts_af_ag() {
    assert_eq!(explain("BR-IG-1").map(|r| r.id), Some("BR-AF-01".to_string()));
    assert_eq!(explain("BR-IP-10").map(|r| r.id), Some("BR-AG-10".to_string()));
}

#[test]
fn rule_texts_are_single_sentences_without_runs_of_spaces() {
    for r in all() {
        assert!(!r.text.contains("  "), "{}'s text contains a run of spaces: {:?}", r.id, r.text);
        assert!(!r.text.is_empty(), "{}", r.id);
    }
}

#[test]
fn canonical_spellings() {
    let s = |q: &str| canonical(q).into_iter().collect::<String>();
    assert_eq!(s("br-co-03"), "BR-CO-3");
    assert_eq!(s("BR-CO-3"), "BR-CO-3");
    assert_eq!(s("BR-IG-08"), "BR-AF-8");
    assert_eq!(s("BR-DE-23-a"), "BR-DE-23-A");
    assert_eq!(s("BR-CO-00"), "BR-CO-0");
}

#[test]
fn a_rule_answers_to_its_unpadded_and_lower_case_spellings() {
    assert_eq!(explain("BR-CO-4").map(|r| r.id), Some("BR-CO-04".to_string()));
    assert_eq!(explain("br-s-8").map(|r| r.id), Some("BR-S-08".to_string()));
    assert_eq!(explain("Br-Co-004").map(|r| r.id), Some("BR-CO-04".to_string()));
}

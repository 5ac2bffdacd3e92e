use en16931::bt::{BtId, Path};
use en16931::edition::Edition;
use en16931::invoice::Invoice;
use en16931::profiles::{en16931, xrechnung};
use en16931::svrl::{SVRL_NS, comment, escape, to_svrl};
use en16931::validation::rules::all;
use en16931::validation::{Detail, Finding, Severity, ValidationReport};

#[test]
fn comments_are_not_entity_escaped() {
    let mut s = String::new();
    comment("a & b < c", &mut s);
    assert_eq!(s, "<!-- a & b < c -->");
}

#[test]
fn text_is_escaped() {
    let mut s = String::new();
    escape("a & b < c > d \" e ' f", &mut s);
    assert_eq!(s, "a &amp; b &lt; c &gt; d &quot; e &apos; f");
    let mut s = String::new();
    escape("a\u{7}b", &mut s);
    assert_eq!(s, "ab");
}

#[test]
fn every_rule_text_survives_escaping() {
    for r in all() {
        let mut s = String::new();
        escape(&r.text, &mut s);
        assert!(!s.contains('<'), "{}", r.id);
        assert!(!s.contains('>'), "{}", r.id);
        for (i, _) in s.match_indices('&') {
            assert!(
                s[i..].starts_with("&amp;")
                    || s[i..].starts_with("&lt;")
                    || s[i..].starts_with("&gt;")
                    || s[i..].starts_with("&quot;")
                    || s[i..].starts_with("&apos;"),
                "{} has a bare ampersand",
                r.id
            );
        }
    }
}

#[test]
fn hostile_comment_bodies_lose_their_double_hyphens() {
    for (body, expected) in [
        ("BR--CO-26", "<!-- BR-CO-26 -->"),
        ("BR-CO-26--", "<!-- BR-CO-26- -->"),
        ("----------", "<!-- - -->"),
        ("BR\u{7}CO", "<!-- BRCO -->"),
    ] {
        let mut s = String::new();
        comment(body, &mut s);
        assert_eq!(s, expected);
        assert!(!s["<!--".len()..s.len() - "-->".len()].contains("--"), "{s}");
    }
}

fn report() -> ValidationReport {
    ValidationReport {
        profile: Some("XRechnung 3.0".into()),
        edition: Edition::En2017A1,
        suppressed: vec!["BR--CO-26".into()],
        findings: vec![
            Finding {
                rule: "BR-02".into(),
                severity: Severity::Fatal,
                path: Path::term(BtId(1)),
                message: "An Invoice shall have an Invoice number (BT-1).".into(),
                detail: None,
                hint: None,
            },
            Finding {
                rule: "BR-CO-10".into(),
                severity: Severity::Warning,
                path: Path::group_term(en16931::bt::Group::Totals, BtId(106)),
                message: "Sum <of> lines".into(),
                detail: Some(Detail { expected: "10.00".into(), actual: "9.00".into() }),
                hint: Some("check & fix".into()),
            },
        ],
    }
}

#[test]
fn the_document_carries_the_findings_and_the_caveats() {
    let xml = to_svrl(&report());
    assert!(xml.starts_with("<?xml version=\"1.0\""));
    assert!(xml.contains("xmlns:svrl=\"http://purl.oclc.org/dsdl/svrl\""));
    assert!(xml.contains("title=\"EN 16931 — XRechnung 3.0\""));
    assert!(xml.contains("schemaVersion=\"EN 16931-1:2017+A1:2019\""));
    assert!(xml.contains("<svrl:active-pattern name=\"XRechnung 3.0\"/>"));
    assert!(xml.contains("id=\"BR-02\" flag=\"fatal\" location=\"BT-1\" test=\"en16931:BR-02\""));
    assert!(xml.contains("flag=\"warning\" location=\"BG-22/BT-106\""));
    assert!(xml.contains("<svrl:diagnostic-reference diagnostic=\"en16931-hint\">check &amp; fix</svrl:diagnostic-reference>"));
    assert!(xml.contains("<svrl:text>Sum &lt;of&gt; lines (expected 10.00, found 9.00)</svrl:text>"));
    assert!(xml.contains("<!-- suppressed, NOT checked: BR-CO-26 -->"));
    assert!(xml.contains("implementation of the EN 16931-1 semantic data model"));
    assert!(xml.contains("© CEN"));
    assert!(xml.ends_with("</svrl:schematron-output>\n"));
    assert_eq!(xml.matches("<svrl:failed-assert").count(), 2);
}

#[test]
fn without_a_profile_the_pattern_is_the_core_model() {
    let mut r = report();
    r.profile = None;
    r.findings.clear();
    r.suppressed.clear();
    let xml = to_svrl(&r);
    assert!(xml.contains("title=\"EN 16931\" schemaVersion"));
    assert!(xml.contains("<svrl:active-pattern name=\"EN 16931\"/>"));
    assert_eq!(xml.matches("<svrl:failed-assert").count(), 0);
}

#[test]
fn the_output_is_well_formed_xml() {
    let report = xrechnung().validate(&Invoice::default());
    let xml = to_svrl(&report);
    let doc = roxmltree::Document::parse(&xml).expect("well-formed SVRL");

    let root = doc.root_element();
    assert_eq!(root.tag_name().name(), "schematron-output");
    assert_eq!(root.tag_name().namespace(), Some(SVRL_NS));
    assert!(root.attribute("title").is_some_and(|t| t.contains("XRechnung")));
    assert_eq!(root.attribute("schemaVersion"), Some("EN 16931-1:2017+A1:2019"));

    let asserts: Vec<_> = root.children().filter(|n| n.has_tag_name((SVRL_NS, "failed-assert"))).collect();
    assert_eq!(asserts.len(), report.findings.len());

    for (node, finding) in asserts.iter().zip(report.findings.iter()) {
        assert_eq!(node.attribute("id"), Some(finding.rule.as_str()));
        assert_eq!(node.attribute("location"), Some(finding.path.to_string().as_str()));
        assert_eq!(node.attribute("test"), Some(format!("en16931:{}", finding.rule).as_str()));
        assert!(matches!(node.attribute("flag"), Some("fatal" | "warning" | "information")));
        let text = node
            .children()
            .find(|n| n.has_tag_name((SVRL_NS, "text")))
            .and_then(|n| n.text())
            .unwrap_or_default();
        assert!(text.starts_with(&finding.message), "{text:?}");
    }
}

#[test]
fn hostile_suppressions_stay_well_formed() {
    for id in ["BR--CO-26", "BR-CO-26--", "BR-CO-26-", "a<b&c>d", "BR\u{7}CO", "----------"] {
        let mut p = en16931();
        p.suppressed.push(id);
        let report = p.validate(&Invoice::default());
        let xml = to_svrl(&report);
        roxmltree::Document::parse(&xml)
            .unwrap_or_else(|e| panic!("suppressing {id:?} produced invalid XML: {e}\n{xml}"));
    }
}

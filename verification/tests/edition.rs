use en16931::edition::{Edition, default_edition};

#[test]
fn the_default_is_the_deployed_edition() {
    assert_eq!(Edition::default(), Edition::En2017A1);
    assert_eq!(default_edition(), Edition::En2017A1);
    assert_eq!(en16931::DEFAULT_EDITION, Edition::En2017A1);
    assert!(Edition::En2017A1.is_implemented());
}

#[test]
fn en2026_is_classified_but_not_implemented() {
    assert!(!Edition::En2026.is_implemented());
    assert_eq!(Edition::En2026.designation(), "EN 16931-1:2026");
    assert_eq!(Edition::En2017A1.designation(), "EN 16931-1:2017+A1:2019");
}

#[test]
fn editions_order_oldest_first() {
    assert!(Edition::En2017A1 < Edition::En2026);
    assert!(Edition::En2017A1.is_older_than(Edition::En2026));
    assert!(!Edition::En2026.is_older_than(Edition::En2017A1));
}

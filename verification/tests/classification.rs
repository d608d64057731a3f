use polykit::classification::{
    classify, glob_match, Classification, ClassificationPolicy, ClassificationRule,
    ScatterPolicy,
};

#[test]
fn scatter_policies_per_tier() {
    assert_eq!(
        Classification::Public.scatter_policy(),
        ScatterPolicy { k: 2, n: 3, jurisdictions: 1 }
    );
    assert_eq!(
        Classification::Internal.scatter_policy(),
        ScatterPolicy { k: 3, n: 5, jurisdictions: 2 }
    );
    assert_eq!(
        Classification::Confidential.scatter_policy(),
        ScatterPolicy { k: 5, n: 7, jurisdictions: 3 }
    );
    assert_eq!(
        Classification::Restricted.scatter_policy(),
        ScatterPolicy { k: 7, n: 9, jurisdictions: 3 }
    );
    assert_eq!(
        Classification::Sovereign.scatter_policy(),
        ScatterPolicy { k: 9, n: 13, jurisdictions: 5 }
    );
}

#[test]
fn tier_names_parse_case_insensitively() {
    assert_eq!(Classification::from_str("PUBLIC"), Some(Classification::Public));
    assert_eq!(Classification::from_str("public"), Some(Classification::Public));
    assert_eq!(Classification::from_str("Sovereign"), Some(Classification::Sovereign));
    assert_eq!(Classification::from_str("cOnFiDeNtIaL"), Some(Classification::Confidential));
    assert_eq!(Classification::from_str("unknown"), None);
    assert_eq!(Classification::from_str(""), None);
}

#[test]
fn tier_names_round_trip() {
    for c in [
        Classification::Public,
        Classification::Internal,
        Classification::Confidential,
        Classification::Restricted,
        Classification::Sovereign,
    ] {
        assert_eq!(Classification::from_str(c.as_str()), Some(c));
    }
}

#[test]
fn glob_dialect() {
    assert!(glob_match("**", "anything/at/all.txt"));
    assert!(glob_match("*.xlsx", "report.xlsx"));
    assert!(!glob_match("*.xlsx", "report.xls"));
    assert!(glob_match("/finance/**", "/finance/q1/report.pdf"));
    assert!(!glob_match("/finance/**", "/hr/report.pdf"));
    assert!(glob_match("exact.txt", "exact.txt"));
    assert!(!glob_match("exact.txt", "other.txt"));
}

#[test]
fn classify_takes_the_highest_matching_tier() {
    let policy = ClassificationPolicy {
        rules: vec![
            ClassificationRule {
                pattern: "*.xlsx".to_string(),
                classification: Classification::Confidential,
            },
            ClassificationRule {
                pattern: "/finance/**".to_string(),
                classification: Classification::Restricted,
            },
            ClassificationRule {
                pattern: "**".to_string(),
                classification: Classification::Internal,
            },
        ],
        minimum: None,
    };
    assert_eq!(classify("/finance/q1.xlsx", &policy), Classification::Restricted);
    assert_eq!(classify("/hr/notes.txt", &policy), Classification::Internal);
}

#[test]
fn classify_defaults_to_minimum_floor() {
    let floor = ClassificationPolicy { rules: vec![], minimum: Some(Classification::Confidential) };
    assert_eq!(classify("anything", &floor), Classification::Confidential);
    let bare = ClassificationPolicy { rules: vec![], minimum: None };
    assert_eq!(classify("anything", &bare), Classification::Public);
}

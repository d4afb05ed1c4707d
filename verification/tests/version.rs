use micasa::error::MicasaError;
use micasa::version::{normalize_version, satisfies_requirement, verdict};

#[test]
fn test_normalize_version() {
    assert_eq!(normalize_version("7.81.0"), "7.81.0");
    assert_eq!(normalize_version("7.81.0-1ubuntu1.18"), "7.81.0");
    assert_eq!(normalize_version("0.11.5-2"), "0.11.5");
}

#[test]
fn test_no_version_spec() {
    assert!(satisfies_requirement("1.0.0", None).unwrap());
    assert!(satisfies_requirement("0.11.5", None).unwrap());
}

#[test]
fn test_exact_version() {
    assert!(satisfies_requirement("0.11.5", Some("==0.11.5")).unwrap());
    assert!(!satisfies_requirement("0.11.4", Some("==0.11.5")).unwrap());
}

#[test]
fn test_minimum_version() {
    assert!(satisfies_requirement("0.11.5", Some(">=0.11.0")).unwrap());
    assert!(satisfies_requirement("0.12.0", Some(">=0.11.0")).unwrap());
    assert!(!satisfies_requirement("0.10.0", Some(">=0.11.0")).unwrap());
}

#[test]
fn test_compatible_release() {
    assert!(satisfies_requirement("0.9.17", Some("~=0.9.17")).unwrap());
    assert!(satisfies_requirement("0.9.20", Some("~=0.9.17")).unwrap());
    assert!(!satisfies_requirement("0.10.0", Some("~=0.9.17")).unwrap());
    assert!(!satisfies_requirement("0.9.16", Some("~=0.9.17")).unwrap());
}

#[test]
fn test_ubuntu_version_format() {
    assert!(satisfies_requirement("7.81.0-1ubuntu1.18", Some(">=7.81.0")).unwrap());
    assert!(satisfies_requirement("0.11.5-2", Some(">=0.11.5")).unwrap());
}

#[test]
fn test_version_range() {
    assert!(satisfies_requirement("1.5.0", Some(">=1.0.0,<2.0.0")).unwrap());
    assert!(!satisfies_requirement("2.0.0", Some(">=1.0.0,<2.0.0")).unwrap());
}

#[test]
fn normalize_cuts_at_the_first_hyphen_only() {
    assert_eq!(normalize_version(""), "");
    assert_eq!(normalize_version("-1"), "");
    assert_eq!(normalize_version("1.0-2-3"), "1.0");
    assert_eq!(normalize_version("1.0\u{2013}2"), "1.0\u{2013}2");
}

#[test]
fn no_constraint_admits_what_is_no_version_at_all() {
    assert!(satisfies_requirement("not a version", None).unwrap());
    assert!(satisfies_requirement("", None).unwrap());
}

#[test]
fn suffix_does_not_change_the_answer() {
    let constraints = [">=7.81.0", "<7.81.0", "==7.81.0", "~=7.80.1", ">=1.0,<8"];
    for c in constraints {
        assert_eq!(
            satisfies_requirement("7.81.0-1ubuntu1.18", Some(c)).unwrap(),
            satisfies_requirement("7.81.0", Some(c)).unwrap()
        );
    }
}

#[test]
fn other_operators() {
    assert!(satisfies_requirement("1.2.3", Some("<=1.2.3")).unwrap());
    assert!(!satisfies_requirement("1.2.4", Some("<=1.2.3")).unwrap());
    assert!(satisfies_requirement("1.2.4", Some(">1.2.3")).unwrap());
    assert!(!satisfies_requirement("1.2.3", Some(">1.2.3")).unwrap());
    assert!(satisfies_requirement("1.2.2", Some("<1.2.3")).unwrap());
    assert!(!satisfies_requirement("1.2.3", Some("<1.2.3")).unwrap());
    assert!(satisfies_requirement("1.2.3", Some("")).unwrap());
}

#[test]
fn unparseable_version_is_an_error_that_names_it() {
    let err = satisfies_requirement("abc-1", Some(">=1.0")).unwrap_err();
    match err {
        MicasaError::InvalidVersionSpec(text, why) => {
            assert_eq!(text, "abc");
            assert!(why.starts_with("Failed to parse version: "));
            assert!(why.len() > "Failed to parse version: ".len());
        }
        other => panic!("unexpected error: {:?}", other),
    }
}

#[test]
fn unparseable_specifier_is_an_error_that_names_it() {
    let err = satisfies_requirement("1.0", Some("at least 1")).unwrap_err();
    match err {
        MicasaError::InvalidVersionSpec(text, why) => {
            assert_eq!(text, "at least 1");
            assert!(why.starts_with("Failed to parse version specifier: "));
            assert!(why.len() > "Failed to parse version specifier: ".len());
        }
        other => panic!("unexpected error: {:?}", other),
    }
    let err = satisfies_requirement("1.0", Some("~=1")).unwrap_err();
    assert!(matches!(err, MicasaError::InvalidVersionSpec(ref t, _) if t == "~=1"));
}

#[test]
fn a_bad_version_is_reported_before_a_bad_specifier() {
    let err = satisfies_requirement("abc", Some("nonsense")).unwrap_err();
    assert!(matches!(err, MicasaError::InvalidVersionSpec(ref t, _) if t == "abc"));
}

#[test]
fn verdict_for_each_answer() {
    assert!(verdict("1.0", ">=1", None, None, true).unwrap());
    assert!(!verdict("1.0", ">=2", None, None, false).unwrap());
    let err = verdict("x", ">=2", Some("bad".to_string()), None, true).unwrap_err();
    assert_eq!(
        err.message(),
        "Invalid version specification 'x': Failed to parse version: bad"
    );
    let err = verdict("1.0", "y", None, Some("worse".to_string()), true).unwrap_err();
    assert_eq!(
        err.message(),
        "Invalid version specification 'y': Failed to parse version specifier: worse"
    );
    let err = verdict("x", "y", Some("bad".to_string()), Some("worse".to_string()), true)
        .unwrap_err();
    assert!(matches!(err, MicasaError::InvalidVersionSpec(ref t, _) if t == "x"));
}

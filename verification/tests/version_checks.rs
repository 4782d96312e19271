use purin::version::{get_glibc_list, parse_glibc_entry, parse_version, validate_version, version_string};

#[test]
fn rejects_malformed_versions() {
    let bad = vec![
        "", ".", "2", "2.", ".5", "a.b", "2.3.4", "2..3", "v2.31", "2.31 ", " 2.31", "2,31",
        "2.3a", "-2.3", "2.-3",
    ];
    for s in bad {
        assert!(!validate_version(s), "{:?} must be rejected", s);
        assert!(parse_version(s).is_none());
    }
}

#[test]
fn accepts_well_formed_versions() {
    let good = vec!["2.31", "10.0", "2.09", "0.0", "123.456"];
    for s in good {
        assert!(validate_version(s), "{:?} must be accepted", s);
    }
}

#[test]
fn parses_numeric_components() {
    assert_eq!(parse_version("2.31"), Some((2, 31)));
    assert_eq!(parse_version("10.0"), Some((10, 0)));
    assert_eq!(parse_version("2.09"), Some((2, 9)));
    assert_eq!(parse_version("4294967295.4294967295"), Some((u32::MAX, u32::MAX)));
}

#[test]
fn rejects_components_too_large_for_u32() {
    assert!(validate_version("4294967296.1"));
    assert_eq!(parse_version("4294967296.1"), None);
    assert_eq!(parse_version("1.99999999999999"), None);
}

#[test]
fn formats_versions() {
    assert_eq!(version_string((2, 31)), "2.31");
    assert_eq!(version_string((10, 0)), "10.0");
    assert_eq!(version_string((0, 0)), "0.0");
}

#[test]
fn parses_cache_entry_names() {
    assert_eq!(parse_glibc_entry("glibc-2.31"), Some((2, 31)));
    assert_eq!(parse_glibc_entry("glibc-10.0"), Some((10, 0)));
    assert_eq!(parse_glibc_entry("glibc-"), None);
    assert_eq!(parse_glibc_entry("glibc-2"), None);
    assert_eq!(parse_glibc_entry("glibc-x.y"), None);
    assert_eq!(parse_glibc_entry("Dockerfile"), None);
    assert_eq!(parse_glibc_entry("notglibc-2.31"), None);
}

#[test]
fn lists_versions_numerically_not_lexicographically() {
    let names = vec![
        "glibc-2.9".to_string(),
        "glibc-10.0".to_string(),
        "glibc-2.17".to_string(),
    ];
    let listed = get_glibc_list(&names);
    assert_eq!(listed, vec!["2.9".to_string(), "2.17".to_string(), "10.0".to_string()]);
}

#[test]
fn listing_discards_foreign_entries_silently() {
    let names = vec![
        "Dockerfile".to_string(),
        "glibc-2.31".to_string(),
        "glibc-broken".to_string(),
        "cache.tmp".to_string(),
        "glibc-1.07".to_string(),
    ];
    let listed = get_glibc_list(&names);
    assert_eq!(listed, vec!["1.7".to_string(), "2.31".to_string()]);
}

use sisr::version::{is_dev_build, parse_semver, version_acceptable};

#[test]
fn parses_plain_version() {
    assert_eq!(parse_semver("1.2.3"), Some((1, 2, 3)));
}

#[test]
fn parses_lenient_forms() {
    assert_eq!(parse_semver(" v0.4.1-12-gabcdef \n"), Some((0, 4, 1)));
    assert_eq!(parse_semver("2"), Some((2, 0, 0)));
    assert_eq!(parse_semver("2.5"), Some((2, 5, 0)));
    assert_eq!(parse_semver("1.2.3.4"), Some((1, 2, 3)));
    assert_eq!(parse_semver("+1.2.3"), Some((1, 2, 3)));
}

#[test]
fn rejects_what_is_no_version() {
    assert_eq!(parse_semver(""), None);
    assert_eq!(parse_semver("abc"), None);
    assert_eq!(parse_semver("1..2"), None);
    assert_eq!(parse_semver("1.x"), None);
    assert_eq!(parse_semver("18446744073709551616"), None);
    assert_eq!(parse_semver("18446744073709551615"), Some((u64::MAX, 0, 0)));
}

#[test]
fn dev_builds_are_told_by_their_suffix() {
    assert!(is_dev_build("0.3.0-dev"));
    assert!(is_dev_build("0.3.0-5-g12ab"));
    assert!(!is_dev_build("0.3.0"));
    assert!(!is_dev_build("0.3.0-rc1"));
}

#[test]
fn acceptance_compares_components_in_order() {
    assert!(version_acceptable("0.4.0", "0.4.0", false));
    assert!(version_acceptable("v0.10.0", "0.9.9", false));
    assert!(!version_acceptable("0.3.9", "0.4.0", false));
    assert!(!version_acceptable("garbage", "0.4.0", false));
    assert!(!version_acceptable("0.1.0-dev", "0.4.0", false));
    assert!(version_acceptable("0.1.0-dev", "0.4.0", true));
    assert!(!version_acceptable("0.1.0", "0.4.0", true));
}

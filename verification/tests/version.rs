use grav_launcher::update::{
    check_for_update, github_api_releases_url, is_newer_version, parse_version,
};

#[test]
fn test_higher_version_returns_true() {
    assert!(is_newer_version("1.0.0", "1.0.1"), "Patch version bump");
    assert!(is_newer_version("1.0.0", "1.1.0"), "Minor version bump");
    assert!(is_newer_version("1.0.0", "2.0.0"), "Major version bump");
}

#[test]
fn test_lower_version_returns_false() {
    assert!(!is_newer_version("1.0.1", "1.0.0"), "Lower patch version");
    assert!(!is_newer_version("1.1.0", "1.0.0"), "Lower minor version");
    assert!(!is_newer_version("2.0.0", "1.0.0"), "Lower major version");
}

#[test]
fn test_equal_version_returns_false() {
    assert!(!is_newer_version("1.0.0", "1.0.0"));
}

#[test]
fn test_different_length_versions() {
    assert!(
        is_newer_version("1.0", "1.0.1"),
        "Target has extra component"
    );
    assert!(
        !is_newer_version("1.0.1", "1.0"),
        "Current has extra component"
    );
    assert!(
        is_newer_version("1.0.0", "1.0.0.1"),
        "Target has additional component"
    );
}

#[test]
fn test_version_with_large_numbers() {
    assert!(
        is_newer_version("1.9.0", "1.10.0"),
        "Properly compare 10 > 9"
    );
    assert!(
        is_newer_version("2.0.9", "2.0.10"),
        "Properly compare 10 > 9 in patch"
    );
}

#[test]
fn test_parse_version_components() {
    assert_eq!(parse_version("1.2.3"), vec![1, 2, 3]);
    assert_eq!(parse_version("0.10.0"), vec![0, 10, 0]);
    assert_eq!(parse_version(""), vec![0]);
    assert_eq!(parse_version("7"), vec![7]);
}

#[test]
fn test_parse_version_malformed_parts_read_as_zero() {
    assert_eq!(parse_version("1..2"), vec![1, 0, 2]);
    assert_eq!(parse_version("1.x.2"), vec![1, 0, 2]);
    assert_eq!(parse_version("+5.3"), vec![5, 3]);
    assert_eq!(parse_version("1."), vec![1, 0]);
    // A component too large for 32 bits reads as zero, as `parse` failing does.
    assert_eq!(parse_version("99999999999.1"), vec![0, 1]);
    assert_eq!(parse_version("4294967295.4294967296"), vec![4294967295, 0]);
}

#[test]
fn test_longer_all_zero_suffix_is_newer() {
    // A strictly longer, otherwise-equal sequence counts as newer.
    assert!(is_newer_version("1.0", "1.0.0"));
    assert!(!is_newer_version("1.0.0", "1.0"));
}

#[test]
fn test_github_api_releases_url_builds_endpoint() {
    assert_eq!(
        github_api_releases_url("https://github.com/owner/repo"),
        "https://api.github.com/repos/owner/repo/releases/latest"
    );
    // A repository path without the host prefix passes through unchanged.
    assert_eq!(
        github_api_releases_url("owner/repo"),
        "https://api.github.com/repos/owner/repo/releases/latest"
    );
}

#[test]
fn test_check_for_update_trims_v_and_returns_tag() {
    assert_eq!(
        check_for_update("0.1.0", "v0.2.0"),
        Some(String::from("v0.2.0"))
    );
    assert_eq!(check_for_update("v0.2.0", "v0.2.0"), None);
    assert_eq!(check_for_update("0.3.0", "v0.2.0"), None);
    assert_eq!(
        check_for_update("v1.2.2", "1.2.3"),
        Some(String::from("1.2.3"))
    );
}

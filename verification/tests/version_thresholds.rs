use dream_launcher::java::java_config::JavaConfig;
use dream_launcher::platform::Platform;

#[test]
fn release_triples_parse() {
    assert_eq!(JavaConfig::parse_version_number_static("1.16.5"), Some((1, 16, 5)));
    assert_eq!(JavaConfig::parse_version_number_static("1.21"), Some((1, 21, 0)));
    assert_eq!(JavaConfig::parse_version_number_static("1.21.1"), Some((1, 21, 1)));
    assert_eq!(JavaConfig::parse_version_number_static("1.7.10"), Some((1, 7, 10)));
}

#[test]
fn recent_snapshots_parse_as_the_newest_line() {
    assert_eq!(JavaConfig::parse_version_number_static("24w45a"), Some((1, 21, 0)));
    assert_eq!(JavaConfig::parse_version_number_static("25w03b"), Some((1, 21, 0)));
}

#[test]
fn malformed_versions_do_not_parse() {
    assert_eq!(JavaConfig::parse_version_number_static("release"), None);
    assert_eq!(JavaConfig::parse_version_number_static("1.x"), None);
    assert_eq!(JavaConfig::parse_version_number_static(""), None);
    // An old snapshot spelling has no dot-separated numbers either.
    assert_eq!(JavaConfig::parse_version_number_static("16w05a"), None);
}

#[test]
fn malformed_patch_counts_as_zero() {
    assert_eq!(JavaConfig::parse_version_number_static("1.8.x"), Some((1, 8, 0)));
}

#[test]
fn identity_threshold() {
    assert!(JavaConfig::needs_user_properties("1.8.9"));
    assert!(JavaConfig::needs_user_properties("1.7.10"));
    assert!(JavaConfig::needs_user_properties("1.6.4"));
    assert!(!JavaConfig::needs_user_properties("1.9"));
    assert!(!JavaConfig::needs_user_properties("1.12.2"));
    assert!(!JavaConfig::needs_user_properties("1.21.1"));
    // Snapshot-looking strings are kept on the safe side.
    assert!(JavaConfig::needs_user_properties("16w05a"));
    assert!(JavaConfig::needs_user_properties("1.9-pre1"));
}

#[test]
fn display_threshold() {
    assert!(JavaConfig::needs_legacy_macos_args("1.12.2"));
    assert!(JavaConfig::needs_legacy_macos_args("1.12"));
    assert!(JavaConfig::needs_legacy_macos_args("1.0"));
    assert!(!JavaConfig::needs_legacy_macos_args("1.13"));
    assert!(!JavaConfig::needs_legacy_macos_args("1.21.1"));
    // Unparseable but clearly of the oldest line.
    assert!(JavaConfig::needs_legacy_macos_args("1.RV-Pre1"));
}

#[test]
fn natives_threshold() {
    let old = JavaConfig::new("1.12.2", Platform::Linux);
    assert!(old.needs_natives_directory());
    let mid = JavaConfig::new("1.20.6", Platform::Linux);
    assert!(mid.needs_natives_directory());
    let new = JavaConfig::new("1.21.1", Platform::Linux);
    assert!(!new.needs_natives_directory());
    let exact = JavaConfig::new("1.21", Platform::Linux);
    assert!(!exact.needs_natives_directory());
    let odd = JavaConfig::new("not-a-version", Platform::Linux);
    assert!(odd.needs_natives_directory());
}

#[test]
fn game_args_include_identity_argument_only_for_old_versions() {
    let old = JavaConfig::get_version_specific_args("1.8.9");
    assert!(old.iter().any(|(k, _)| k == "--userProperties"));
    let new = JavaConfig::get_version_specific_args("1.21.1");
    assert!(!new.iter().any(|(k, _)| k == "--userProperties"));
    assert!(new.iter().any(|(k, v)| k == "--username" && v == "Player"));
    assert!(new.iter().any(|(k, v)| k == "--version" && v == "1.21.1"));
}

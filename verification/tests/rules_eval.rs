use dream_launcher::models::{Library, OsRule, Rule};
use dream_launcher::platform::Platform;
use dream_launcher::rules::{rules_decision, should_use_library};

fn rule(action: &str, os_name: Option<&str>) -> Rule {
    Rule {
        action: action.to_string(),
        os: os_name.map(|n| OsRule { name: Some(n.to_string()) }),
    }
}

fn lib_with_rules(rules: Option<Vec<Rule>>) -> Library {
    Library {
        name: "org.lwjgl:lwjgl:2.9.4".to_string(),
        downloads: None,
        natives: None,
        extract: None,
        rules,
    }
}

#[test]
fn allow_then_disallow_linux_on_linux_is_excluded() {
    let lib = lib_with_rules(Some(vec![
        rule("allow", None),
        rule("disallow", Some("linux")),
    ]));
    assert!(!should_use_library(&lib, Platform::Linux));
}

#[test]
fn allow_then_disallow_linux_on_windows_is_included() {
    let lib = lib_with_rules(Some(vec![
        rule("allow", None),
        rule("disallow", Some("linux")),
    ]));
    assert!(should_use_library(&lib, Platform::Windows));
}

#[test]
fn no_rule_list_means_included_everywhere() {
    let lib = lib_with_rules(None);
    assert!(should_use_library(&lib, Platform::Linux));
    assert!(should_use_library(&lib, Platform::Windows));
    assert!(should_use_library(&lib, Platform::Macos));
}

#[test]
fn empty_rule_list_excludes() {
    let lib = lib_with_rules(Some(vec![]));
    assert!(!should_use_library(&lib, Platform::Linux));
}

#[test]
fn last_match_wins_not_first() {
    // First rule disallows everywhere, last rule allows on osx: on osx the
    // later rule decides.
    let rules = vec![rule("disallow", None), rule("allow", Some("osx"))];
    assert!(rules_decision(&rules, Platform::Macos));
    assert!(!rules_decision(&rules, Platform::Linux));
}

#[test]
fn rule_with_filterless_os_matches_everywhere() {
    let lib = lib_with_rules(Some(vec![Rule {
        action: "allow".to_string(),
        os: Some(OsRule { name: None }),
    }]));
    assert!(should_use_library(&lib, Platform::Windows));
}

#[test]
fn unmatched_rules_leave_default_exclusion() {
    let lib = lib_with_rules(Some(vec![rule("allow", Some("osx"))]));
    assert!(!should_use_library(&lib, Platform::Linux));
    assert!(should_use_library(&lib, Platform::Macos));
}

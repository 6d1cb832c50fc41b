use dream_launcher::commands::{choose_version, data_folder_path, parse_command, LauncherCommand};
use dream_launcher::layout::{assets_dir, install_subdirectories, join_path, manifest_cache_path};
use dream_launcher::platform::Platform;
use dream_launcher::progress::ProgressBar;
use dream_launcher::strutil::{
    contains_substr, ends_with, parse_u32, replace_char, split_on, starts_with, str_eq, trim,
    u64_to_string,
};

#[test]
fn string_primitives_behave() {
    assert!(str_eq("abc", "abc"));
    assert!(!str_eq("abc", "abd"));
    assert!(contains_substr("Sound engine started", "engine"));
    assert!(!contains_substr("engine", "engines"));
    assert!(starts_with("24w45a", "24w"));
    assert!(!starts_with("4w", "24w"));
    assert!(ends_with("openjdk-8.tar.gz", ".tar.gz"));
    assert!(!ends_with("openjdk-8.zip", ".tar.gz"));
}

#[test]
fn split_matches_the_separator_semantics() {
    let parts = split_on("1.16.5", '.');
    assert_eq!(parts, vec!["1", "16", "5"]);
    assert_eq!(split_on("", '.'), vec![""]);
    assert_eq!(split_on("a..b", '.'), vec!["a", "", "b"]);
    assert_eq!(split_on(".x.", '.'), vec!["", "x", ""]);
}

#[test]
fn digit_parsing_is_exact() {
    assert_eq!(parse_u32("0"), Some(0));
    assert_eq!(parse_u32("16"), Some(16));
    assert_eq!(parse_u32("4294967295"), Some(4294967295));
    assert_eq!(parse_u32("4294967296"), None);
    assert_eq!(parse_u32(""), None);
    assert_eq!(parse_u32("1a"), None);
    assert_eq!(parse_u32("+1"), None);
}

#[test]
fn digit_rendering_is_exact() {
    assert_eq!(u64_to_string(0), "0");
    assert_eq!(u64_to_string(8), "8");
    assert_eq!(u64_to_string(1234567890), "1234567890");
    assert_eq!(u64_to_string(u64::MAX), "18446744073709551615");
}

#[test]
fn trim_and_replace() {
    assert_eq!(trim("  1.21.7 \r\n"), "1.21.7");
    assert_eq!(trim(" \t \n"), "");
    assert_eq!(trim("x"), "x");
    assert_eq!(replace_char("a/b/c", '/', '_', "_"), "a_b_c");
}

#[test]
fn commands_parse_as_the_menu_says() {
    assert!(matches!(parse_command(" 1 \n"), LauncherCommand::LaunchVanilla));
    assert!(matches!(parse_command("2"), LauncherCommand::LaunchFabric));
    assert!(matches!(parse_command("3"), LauncherCommand::LaunchForge));
    assert!(matches!(parse_command("4\n"), LauncherCommand::Quit));
    match parse_command("help\n") {
        LauncherCommand::Unknown(s) => assert_eq!(s, "help"),
        _ => panic!("unrecognized input must be echoed back"),
    }
}

#[test]
fn blank_version_prompt_takes_the_default() {
    assert_eq!(choose_version("\n"), "1.21.7");
    assert_eq!(choose_version("  1.12.2 \n"), "1.12.2");
}

#[test]
fn data_folder_per_platform() {
    assert_eq!(
        data_folder_path(Platform::Macos, "/Users/me"),
        "/Users/me/Library/Application Support/DreamLauncher"
    );
    assert_eq!(
        data_folder_path(Platform::Linux, "/home/me"),
        "/home/me/DreamLauncher"
    );
    assert_eq!(
        data_folder_path(Platform::Windows, "C:/Users/me/AppData/Roaming"),
        "C:/Users/me/AppData/Roaming/DreamLauncher"
    );
}

#[test]
fn layout_helpers() {
    assert_eq!(join_path("a", "b/c"), "a/b/c");
    assert_eq!(assets_dir(".minecraft"), ".minecraft/assets");
    assert_eq!(manifest_cache_path(), ".cache/version_manifest_v2.json");
    assert_eq!(
        install_subdirectories(),
        vec!["libraries", "versions", "assets/objects", "assets/indexes"]
    );
}

#[test]
fn progress_counter_moves_forward_only() {
    let mut pb = ProgressBar::new(3, "Downloading assets".to_string());
    assert_eq!(pb.counts(), (0, 3));
    assert!(!pb.is_complete());
    pb.increment();
    pb.increment();
    assert_eq!(pb.counts(), (2, 3));
    assert!(!pb.is_complete());
    pb.increment();
    assert_eq!(pb.counts(), (3, 3));
    assert!(pb.is_complete());
}

#[test]
fn platform_names_match_the_catalog() {
    assert_eq!(Platform::Windows.name(), "windows");
    assert_eq!(Platform::Linux.name(), "linux");
    assert_eq!(Platform::Macos.name(), "osx");
    assert_eq!(Platform::Other.name(), "unknown");
}

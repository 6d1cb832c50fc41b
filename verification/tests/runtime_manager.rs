use dream_launcher::java::java_downloader::{ArchiveKind, JavaManager};
use dream_launcher::platform::Platform;

#[test]
fn oldest_line_takes_the_oldest_runtime() {
    let m = JavaManager::new(Platform::Linux);
    assert_eq!(m.get_java_for_minecraft(Some("1.0")).major_version, 8);
    assert_eq!(m.get_java_for_minecraft(Some("1.8.9")).major_version, 8);
    assert_eq!(m.get_java_for_minecraft(Some("1.16.5")).major_version, 8);
    assert_eq!(m.get_java_for_minecraft(Some("1.16.6")).major_version, 8);
}

#[test]
fn middle_line_takes_the_middle_runtime() {
    let m = JavaManager::new(Platform::Linux);
    assert_eq!(m.get_java_for_minecraft(Some("1.17")).major_version, 17);
    assert_eq!(m.get_java_for_minecraft(Some("1.20.6")).major_version, 17);
}

#[test]
fn newest_line_and_everything_unknown_take_the_newest_runtime() {
    let m = JavaManager::new(Platform::Linux);
    assert_eq!(m.get_java_for_minecraft(Some("1.21")).major_version, 21);
    assert_eq!(m.get_java_for_minecraft(Some("1.21.7")).major_version, 21);
    assert_eq!(m.get_java_for_minecraft(Some("2.0")).major_version, 21);
    assert_eq!(m.get_java_for_minecraft(Some("garbage")).major_version, 21);
    assert_eq!(m.get_java_for_minecraft(None).major_version, 21);
}

#[test]
fn archives_match_the_platform() {
    let linux = JavaManager::new(Platform::Linux);
    assert!(linux.java17.download_url.contains("linux"));
    assert_eq!(linux.java17.filename, "openjdk-17.tar.gz");
    let windows = JavaManager::new(Platform::Windows);
    assert!(windows.java17.download_url.contains("windows"));
    assert_eq!(windows.java17.filename, "openjdk-17.zip");
    let mac = JavaManager::new(Platform::Macos);
    assert!(mac.java8.download_url.contains("mac"));
    assert_eq!(mac.java8.filename, "openjdk-8.tar.gz");
}

#[test]
fn provisioning_directory_is_named_by_major() {
    assert_eq!(JavaManager::java_dir_name(8), "java-8");
    assert_eq!(JavaManager::java_dir_name(17), "java-17");
    assert_eq!(JavaManager::java_dir_name(21), "java-21");
}

#[test]
fn executable_candidate_per_platform() {
    assert_eq!(
        JavaManager::java_bin_path("java-17", Platform::Windows),
        "java-17/bin/java.exe"
    );
    assert_eq!(
        JavaManager::java_bin_path("java-17", Platform::Linux),
        "java-17/bin/java"
    );
}

#[test]
fn modern_version_report_is_matched_by_major() {
    let m = JavaManager::new(Platform::Linux);
    let report = "openjdk version \"17.0.9\" 2023-10-17\nOpenJDK Runtime Environment";
    assert!(m.is_system_java_compatible(report, 17));
    assert!(!m.is_system_java_compatible(report, 21));
    assert!(!m.is_system_java_compatible(report, 8));
}

#[test]
fn legacy_version_report_matches_the_oldest_runtime() {
    let m = JavaManager::new(Platform::Linux);
    let report = "java version \"1.8.0_392\"\nJava(TM) SE Runtime Environment";
    assert!(m.is_system_java_compatible(report, 8));
    assert!(!m.is_system_java_compatible(report, 17));
}

#[test]
fn report_without_version_line_is_incompatible() {
    let m = JavaManager::new(Platform::Linux);
    assert!(!m.is_system_java_compatible("no runtime here", 17));
    assert!(!m.is_system_java_compatible("", 17));
}

#[test]
fn archive_kind_follows_the_file_name() {
    assert_eq!(JavaManager::archive_kind("openjdk-17.zip"), ArchiveKind::Zip);
    assert_eq!(JavaManager::archive_kind("openjdk-17.tar.gz"), ArchiveKind::TarGz);
    assert_eq!(JavaManager::archive_kind("openjdk-17.pkg"), ArchiveKind::Other);
}

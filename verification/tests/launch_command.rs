use dream_launcher::java::java_config::JavaConfig;
use dream_launcher::java_config::JavaConfig as FixedJavaConfig;
use dream_launcher::platform::Platform;

fn command_for(version: &str, platform: Platform) -> Vec<String> {
    let cfg = JavaConfig::new(version, platform);
    cfg.build_command_with_executable(
        "java-21/bin/java",
        "libs/a.jar:client.jar",
        "net.minecraft.client.main.Main",
        ".minecraft",
        "17",
    )
}

#[test]
fn legacy_version_gets_display_and_natives_flags() {
    let cmd = command_for("1.12.2", Platform::Macos);
    assert!(cmd.iter().any(|a| a == "-Djava.awt.headless=false"));
    assert!(cmd.iter().any(|a| a == "-Dos.name=Mac OS X"));
    assert!(cmd
        .iter()
        .any(|a| a == "-Djava.library.path=.minecraft/versions/1.12.2/natives"));
}

#[test]
fn modern_version_gets_neither_flag() {
    let cmd = command_for("1.21.1", Platform::Macos);
    assert!(!cmd.iter().any(|a| a == "-Djava.awt.headless=false"));
    assert!(!cmd.iter().any(|a| a.starts_with("-Djava.library.path=")));
}

#[test]
fn display_flags_are_macos_only() {
    let cmd = command_for("1.12.2", Platform::Linux);
    assert!(!cmd.iter().any(|a| a == "-Djava.awt.headless=false"));
    assert!(!cmd.iter().any(|a| a == "-XstartOnFirstThread"));
    // The natives path is platform-independent.
    assert!(cmd
        .iter()
        .any(|a| a == "-Djava.library.path=.minecraft/versions/1.12.2/natives"));
}

#[test]
fn full_command_for_a_legacy_launch_on_macos() {
    let cmd = command_for("1.12.2", Platform::Macos);
    let expected: Vec<&str> = vec![
        "java-21/bin/java",
        "-Xmx6G",
        "-Xms1G",
        "-XstartOnFirstThread",
        "-Djava.awt.headless=false",
        "-Dapple.awt.application.name=Minecraft",
        "-Dos.name=Mac OS X",
        "-Dos.version=10.15",
        "-Dfile.encoding=UTF-8",
        "-Djava.library.path=.minecraft/versions/1.12.2/natives",
        "-Dminecraft.launcher.brand=Dream Launcher",
        "-Dminecraft.launcher.version=1.0.0",
        "-cp",
        "libs/a.jar:client.jar",
        "net.minecraft.client.main.Main",
        "--username",
        "Player",
        "--uuid",
        "00000000-0000-0000-0000-000000000000",
        "--accessToken",
        "0",
        "--userType",
        "legacy",
        "--versionType",
        "release",
        "--version",
        "1.12.2",
        "--gameDir",
        ".minecraft",
        "--assetsDir",
        ".minecraft/assets",
        "--assetIndex",
        "17",
    ];
    let got: Vec<&str> = cmd.iter().map(|s| s.as_str()).collect();
    assert_eq!(got, expected);
}

#[test]
fn full_command_for_a_modern_launch_on_linux() {
    let cmd = command_for("1.21.1", Platform::Linux);
    let expected: Vec<&str> = vec![
        "java-21/bin/java",
        "-Xmx6G",
        "-Xms1G",
        "-Dminecraft.launcher.brand=Dream Launcher",
        "-Dminecraft.launcher.version=1.0.0",
        "-cp",
        "libs/a.jar:client.jar",
        "net.minecraft.client.main.Main",
        "--username",
        "Player",
        "--uuid",
        "00000000-0000-0000-0000-000000000000",
        "--accessToken",
        "0",
        "--userType",
        "legacy",
        "--versionType",
        "release",
        "--version",
        "1.21.1",
        "--gameDir",
        ".minecraft",
        "--assetsDir",
        ".minecraft/assets",
        "--assetIndex",
        "17",
    ];
    let got: Vec<&str> = cmd.iter().map(|s| s.as_str()).collect();
    assert_eq!(got, expected);
}

#[test]
fn fixed_builder_pins_the_default_version() {
    let cfg = FixedJavaConfig::new(Platform::Linux);
    let cmd = cfg.build_command("cp.jar", "net.minecraft.client.main.Main", ".minecraft", "17");
    let expected: Vec<&str> = vec![
        "java",
        "-Xmx4G",
        "-Xms1G",
        "-cp",
        "cp.jar",
        "net.minecraft.client.main.Main",
        "--username",
        "Player",
        "--version",
        "1.21.7",
        "--userType",
        "mojang",
        "--versionType",
        "release",
        "--uuid",
        "00000000-0000-0000-0000-000000000000",
        "--accessToken",
        "0",
        "--gameDir",
        ".minecraft",
        "--assetsDir",
        ".minecraft/assets",
        "--assetIndex",
        "17",
    ];
    let got: Vec<&str> = cmd.iter().map(|s| s.as_str()).collect();
    assert_eq!(got, expected);
}

#[test]
fn fixed_builder_adds_first_thread_flag_on_macos() {
    let cfg = FixedJavaConfig::new(Platform::Macos);
    let cmd = cfg.build_command("cp.jar", "m.Main", "d", "i");
    assert!(cmd.iter().any(|a| a == "-XstartOnFirstThread"));
}

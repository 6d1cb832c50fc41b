//! One end-to-end planning pass: manifest resolution, task planning for
//! the client archive, the libraries and the assets, and the classpath.

use dream_launcher::assets::asset_tasks;
use dream_launcher::filesystem::FileSystem;
use dream_launcher::layout::{
    asset_index_path, assets_objects_dir, libraries_dir, natives_dir, version_jar_path,
};
use dream_launcher::libraries::{library_tasks, native_tasks};
use dream_launcher::models::{
    Artifact, AssetIndex, AssetObject, DownloadInfo, Downloads, Library, LibraryDownloads,
    VersionDetails, VersionInfo, VersionManifest,
};
use dream_launcher::platform::Platform;

fn scenario_details() -> VersionDetails {
    VersionDetails {
        downloads: Downloads {
            client: DownloadInfo {
                url: "https://launcher.example.net/1.21.7/client.jar".to_string(),
            },
        },
        libraries: vec![Library {
            name: "com.example:lib:1.0".to_string(),
            downloads: Some(LibraryDownloads {
                artifact: Some(Artifact {
                    url: "https://libraries.example.net/com/example/lib-1.0.jar".to_string(),
                    path: "com/example/lib-1.0.jar".to_string(),
                }),
                classifiers: None,
            }),
            natives: None,
            extract: None,
            rules: None,
        }],
        main_class: "net.minecraft.client.main.Main".to_string(),
        asset_index: AssetIndex {
            id: "17".to_string(),
            url: "https://launchermeta.example.net/17.json".to_string(),
        },
    }
}

#[test]
fn manifest_names_the_version_and_its_details() {
    let manifest = VersionManifest {
        versions: vec![
            VersionInfo {
                id: "1.21.8".to_string(),
                url: "https://launchermeta.example.net/1.21.8.json".to_string(),
            },
            VersionInfo {
                id: "1.21.7".to_string(),
                url: "https://launchermeta.example.net/1.21.7.json".to_string(),
            },
        ],
    };
    let i = manifest.resolve_version("1.21.7").unwrap();
    assert_eq!(manifest.versions[i].url, "https://launchermeta.example.net/1.21.7.json");
    assert!(manifest.resolve_version("1.4.7").is_err());
}

#[test]
fn files_land_in_the_documented_layout() {
    let root = ".minecraft";
    assert_eq!(
        version_jar_path(root, "1.21.7"),
        ".minecraft/versions/1.21.7/1.21.7.jar"
    );
    assert_eq!(libraries_dir(root), ".minecraft/libraries");
    assert_eq!(natives_dir(root, "1.21.7"), ".minecraft/versions/1.21.7/natives");
    assert_eq!(asset_index_path(root, "17"), ".minecraft/assets/indexes/17.json");
    assert_eq!(assets_objects_dir(root), ".minecraft/assets/objects");
}

#[test]
fn planning_covers_library_asset_and_client() {
    let details = scenario_details();
    let root = ".minecraft";

    let lib_tasks = library_tasks(&details.libraries, &libraries_dir(root), Platform::Linux);
    assert_eq!(lib_tasks.len(), 1);
    assert_eq!(lib_tasks[0].dest, ".minecraft/libraries/com/example/lib-1.0.jar");
    assert_eq!(lib_tasks[0].url, "https://libraries.example.net/com/example/lib-1.0.jar");
    assert_eq!(lib_tasks[0].expected_size, None);

    let objects = vec![(
        "minecraft/sounds/ambient.ogg".to_string(),
        AssetObject { hash: "abcd1234".to_string(), size: 11 },
    )];
    let a_tasks = asset_tasks(&objects, &assets_objects_dir(root));
    assert_eq!(a_tasks.len(), 1);
    assert_eq!(a_tasks[0].dest, ".minecraft/assets/objects/ab/abcd1234");

    assert_eq!(
        version_jar_path(root, "1.21.7"),
        ".minecraft/versions/1.21.7/1.21.7.jar"
    );
}

#[test]
fn classpath_lists_libraries_then_client() {
    let fs = FileSystem::new();
    let jars = vec![
        ".minecraft/libraries/com/example/lib-1.0.jar".to_string(),
        ".minecraft/libraries/org/other/other-2.0.jar".to_string(),
    ];
    let cp = fs.build_classpath(&jars, ".minecraft/versions/1.21.7/1.21.7.jar");
    assert_eq!(
        cp,
        ".minecraft/libraries/com/example/lib-1.0.jar:.minecraft/libraries/org/other/other-2.0.jar:.minecraft/versions/1.21.7/1.21.7.jar"
    );
}

#[test]
fn classpath_with_no_libraries_is_just_the_client() {
    let fs = FileSystem::new();
    let jars: Vec<String> = vec![];
    assert_eq!(fs.build_classpath(&jars, "client.jar"), "client.jar");
}

#[test]
fn no_native_entries_for_this_platform_is_a_no_op() {
    let details = scenario_details();
    let plans = native_tasks(
        &details.libraries,
        &natives_dir(".minecraft", "1.21.7"),
        Platform::Linux,
    );
    assert_eq!(plans.len(), 0);
}

#[test]
fn native_classifier_for_the_platform_is_planned() {
    let lib = Library {
        name: "org.lwjgl:lwjgl-platform:2.9.4".to_string(),
        downloads: Some(LibraryDownloads {
            artifact: None,
            classifiers: Some(vec![(
                "natives-linux".to_string(),
                Artifact {
                    url: "https://libraries.example.net/lwjgl-natives-linux.jar".to_string(),
                    path: "org/lwjgl/lwjgl-platform-2.9.4-natives-linux.jar".to_string(),
                },
            )]),
        }),
        natives: Some(vec![
            ("linux".to_string(), "natives-linux".to_string()),
            ("windows".to_string(), "natives-windows".to_string()),
        ]),
        extract: None,
        rules: None,
    };
    let plans = native_tasks(&vec![lib], "natives", Platform::Linux);
    assert_eq!(plans.len(), 1);
    assert_eq!(plans[0].url, "https://libraries.example.net/lwjgl-natives-linux.jar");
    assert_eq!(
        plans[0].temp_path,
        "natives/temp_org_lwjgl_lwjgl-platform-2.9.4-natives-linux.jar.jar"
    );
    // No extraction rule: the metadata directory is excluded by default.
    assert_eq!(plans[0].excludes, vec!["META-INF/*".to_string()]);
    // On a platform without a classifier the stage is empty.
    let none = native_tasks(
        &vec![Library {
            name: "org.lwjgl:lwjgl-platform:2.9.4".to_string(),
            downloads: None,
            natives: None,
            extract: None,
            rules: None,
        }],
        "natives",
        Platform::Macos,
    );
    assert_eq!(none.len(), 0);
}

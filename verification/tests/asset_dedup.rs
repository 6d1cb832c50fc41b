use dream_launcher::assets::{asset_object_path, asset_tasks, asset_url, unique_assets};
use dream_launcher::models::AssetObject;

fn entry(path: &str, hash: &str, size: u64) -> (String, AssetObject) {
    (path.to_string(), AssetObject { hash: hash.to_string(), size })
}

#[test]
fn two_paths_one_hash_give_one_task() {
    let objects = vec![
        entry("icons/icon_16x16.png", "abcd1234", 100),
        entry("icons/icon_32x32.png", "abcd1234", 100),
    ];
    let uniq = unique_assets(&objects);
    assert_eq!(uniq.len(), 1);
    assert_eq!(uniq[0].hash, "abcd1234");
    let tasks = asset_tasks(&objects, ".minecraft/assets/objects");
    assert_eq!(tasks.len(), 1);
}

#[test]
fn distinct_hashes_all_survive_in_order() {
    let objects = vec![
        entry("a", "aa11", 1),
        entry("b", "bb22", 2),
        entry("c", "aa11", 1),
        entry("d", "cc33", 3),
    ];
    let uniq = unique_assets(&objects);
    assert_eq!(uniq.len(), 3);
    assert_eq!(uniq[0].hash, "aa11");
    assert_eq!(uniq[1].hash, "bb22");
    assert_eq!(uniq[2].hash, "cc33");
}

#[test]
fn empty_index_gives_no_tasks() {
    let objects: Vec<(String, AssetObject)> = vec![];
    assert_eq!(unique_assets(&objects).len(), 0);
    assert_eq!(asset_tasks(&objects, "o").len(), 0);
}

#[test]
fn asset_url_uses_two_level_sharding() {
    assert_eq!(
        asset_url("abcd1234"),
        "https://resources.download.minecraft.net/ab/abcd1234"
    );
}

#[test]
fn asset_destination_uses_two_level_sharding() {
    assert_eq!(
        asset_object_path(".minecraft/assets/objects", "abcd1234"),
        ".minecraft/assets/objects/ab/abcd1234"
    );
}

#[test]
fn tasks_carry_the_indexed_size() {
    let objects = vec![entry("sounds/ding.ogg", "ef567890", 4242)];
    let tasks = asset_tasks(&objects, "objects");
    assert_eq!(tasks.len(), 1);
    assert_eq!(tasks[0].expected_size, Some(4242));
    assert_eq!(tasks[0].url, "https://resources.download.minecraft.net/ef/ef567890");
    assert_eq!(tasks[0].dest, "objects/ef/ef567890");
}

#[test]
fn first_occurrence_size_is_kept() {
    // Two entries share a hash but disagree on size: the first one wins.
    let objects = vec![entry("a", "dd44", 7), entry("b", "dd44", 9)];
    let uniq = unique_assets(&objects);
    assert_eq!(uniq.len(), 1);
    assert_eq!(uniq[0].size, 7);
}

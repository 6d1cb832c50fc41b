use dream_launcher::download::{
    batch_ok, check_size, count_failures, plan_cache, plan_fetch, CacheStep, FetchStep,
};
use dream_launcher::errors::{DownloadError, LauncherError};

#[test]
fn size_mismatch_reports_both_numbers() {
    let r = check_size(Some(100), 99);
    match r {
        Err(DownloadError::SizeMismatch { expected, actual }) => {
            assert_eq!(expected, 100);
            assert_eq!(actual, 99);
        }
        _ => panic!("a short body must be a size mismatch"),
    }
}

#[test]
fn matching_size_passes() {
    assert!(check_size(Some(100), 100).is_ok());
}

#[test]
fn absent_expected_size_accepts_any_count() {
    assert!(check_size(None, 0).is_ok());
    assert!(check_size(None, 12345).is_ok());
}

#[test]
fn present_destination_is_a_cache_hit() {
    assert_eq!(plan_fetch(true), FetchStep::UseExisting);
    assert_eq!(plan_fetch(false), FetchStep::Transfer);
}

#[test]
fn second_fetch_of_same_destination_makes_no_request() {
    // First run: destination absent, one transfer. After it the file is on
    // disk, so the second run short-circuits.
    assert_eq!(plan_fetch(false), FetchStep::Transfer);
    assert_eq!(plan_fetch(true), FetchStep::UseExisting);
}

#[test]
fn cached_document_is_used_when_present() {
    assert_eq!(plan_cache(true), CacheStep::UseCached);
    assert_eq!(plan_cache(false), CacheStep::FetchAndPersist);
}

#[test]
fn failures_are_counted_not_short_circuited() {
    let results: Vec<Result<(), DownloadError>> = vec![
        Ok(()),
        Err(DownloadError::Http {
            url: "https://example.net/a".to_string(),
            detail: "HTTP 500".to_string(),
        }),
        Ok(()),
        Err(DownloadError::SizeMismatch { expected: 2, actual: 1 }),
    ];
    assert_eq!(count_failures(&results), 2);
    assert!(!batch_ok(&results));
}

#[test]
fn clean_batch_counts_zero_failures() {
    let results: Vec<Result<(), DownloadError>> = vec![Ok(()), Ok(())];
    assert_eq!(count_failures(&results), 0);
    assert!(batch_ok(&results));
}

#[test]
fn http_failure_message_names_the_url() {
    let e = DownloadError::Http {
        url: "https://example.net/thing.jar".to_string(),
        detail: "HTTP 404".to_string(),
    };
    assert!(e.describe().contains("https://example.net/thing.jar"));
}

#[test]
fn size_mismatch_message_renders_the_numbers() {
    let e = DownloadError::SizeMismatch { expected: 100, actual: 99 };
    assert_eq!(e.describe(), "size mismatch: expected 100 bytes, got 99");
}

#[test]
fn not_found_message_names_the_version() {
    let e = LauncherError::NotFound { version: "1.4.7".to_string() };
    assert!(e.describe().contains("1.4.7"));
}

#[test]
fn pipeline_error_messages_cover_every_kind() {
    assert!(
        LauncherError::Parse { detail: "bad json".to_string() }
            .describe()
            .contains("parse")
    );
    assert!(
        LauncherError::Extraction { detail: "unzip failed".to_string() }
            .describe()
            .contains("extraction")
    );
    assert!(
        LauncherError::ProcessSpawn { detail: "no such file".to_string() }
            .describe()
            .contains("process")
    );
    assert!(
        LauncherError::RuntimeNotFound { dir: "java-17".to_string() }
            .describe()
            .contains("java-17")
    );
    let wrapped = LauncherError::Download {
        cause: DownloadError::Http {
            url: "https://example.net/x".to_string(),
            detail: "timed out".to_string(),
        },
    };
    assert!(wrapped.describe().contains("https://example.net/x"));
}

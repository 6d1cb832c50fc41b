//! The launcher's error taxonomy. Individual artifact failures inside a
//! batch are collected and counted; resolution, runtime and spawn failures
//! abort the launch.

use vstd::prelude::*;
use vstd::string::{StrSliceExecFns, StringExecFns};
use crate::strutil::has_substring;

verus! {

/// A failure of one artifact transfer.
#[derive(Debug)]
pub enum DownloadError {
    /// A non-success status or a transport error while fetching `url`.
    Http { url: String, detail: String },
    /// The byte count written differs from the size the index promised.
    SizeMismatch { expected: u64, actual: u64 },
}

/// A failure of the launch pipeline as a whole.
#[derive(Debug)]
pub enum LauncherError {
    /// The requested version is absent from the manifest.
    NotFound { version: String },
    /// An artifact transfer failed.
    Download { cause: DownloadError },
    /// Cached or fetched catalog data does not parse.
    Parse { detail: String },
    /// A native or runtime archive could not be extracted.
    Extraction { detail: String },
    /// The runtime executable is missing or not runnable.
    ProcessSpawn { detail: String },
    /// No runtime executable was found after provisioning.
    RuntimeNotFound { dir: String },
}

impl DownloadError {
    /// A printable account of the failure; for a transfer failure it names
    /// the artifact's URL.
    pub fn describe(&self) -> (r: String)
        ensures
            self matches DownloadError::Http { url, .. } ==> has_substring(r@, url@),
    {
        match self {
            DownloadError::Http { url, detail } => {
                let mut s = String::from_str("failed to fetch ");
                s.append(url.as_str());
                s.append(": ");
                s.append(detail.as_str());
                proof {
                    let whole = "failed to fetch "@ + url@ + ": "@ + detail@;
                    assert(s@ =~= whole);
                    assert(whole.subrange(
                        "failed to fetch "@.len() as int,
                        ("failed to fetch "@.len() + url@.len()) as int,
                    ) =~= url@);
                    assert(crate::strutil::is_substring_at(
                        whole,
                        url@,
                        "failed to fetch "@.len() as int,
                    ));
                }
                s
            },
            DownloadError::SizeMismatch { expected, actual } => {
                let mut s = String::from_str("size mismatch: expected ");
                s.append(crate::strutil::u64_to_string(*expected).as_str());
                s.append(" bytes, got ");
                s.append(crate::strutil::u64_to_string(*actual).as_str());
                s
            },
        }
    }
}

impl LauncherError {
    /// A printable account of the failure; it names the version, directory
    /// or URL involved where there is one.
    pub fn describe(&self) -> (r: String)
        ensures
            self matches LauncherError::NotFound { version } ==> has_substring(r@, version@),
            self matches LauncherError::RuntimeNotFound { dir } ==> has_substring(r@, dir@),
            self matches LauncherError::Download {
                cause: DownloadError::Http { url, .. },
            } ==> has_substring(r@, url@),
    {
        match self {
            LauncherError::NotFound { version } => {
                let mut s = String::from_str("version ");
                s.append(version.as_str());
                s.append(" not found");
                proof {
                    let whole = "version "@ + version@ + " not found"@;
                    assert(s@ =~= whole);
                    assert(whole.subrange(
                        "version "@.len() as int,
                        ("version "@.len() + version@.len()) as int,
                    ) =~= version@);
                    assert(crate::strutil::is_substring_at(
                        whole,
                        version@,
                        "version "@.len() as int,
                    ));
                }
                s
            },
            LauncherError::Download { cause } => cause.describe(),
            LauncherError::Parse { detail } => {
                let mut s = String::from_str("parse failure: ");
                s.append(detail.as_str());
                s
            },
            LauncherError::Extraction { detail } => {
                let mut s = String::from_str("extraction failure: ");
                s.append(detail.as_str());
                s
            },
            LauncherError::ProcessSpawn { detail } => {
                let mut s = String::from_str("could not start process: ");
                s.append(detail.as_str());
                s
            },
            LauncherError::RuntimeNotFound { dir } => {
                let mut s = String::from_str("runtime executable not found in ");
                s.append(dir.as_str());
                proof {
                    let whole = "runtime executable not found in "@ + dir@;
                    assert(s@ =~= whole);
                    assert(whole.subrange(
                        "runtime executable not found in "@.len() as int,
                        ("runtime executable not found in "@.len() + dir@.len()) as int,
                    ) =~= dir@);
                    assert(crate::strutil::is_substring_at(
                        whole,
                        dir@,
                        "runtime executable not found in "@.len() as int,
                    ));
                }
                s
            },
        }
    }
}

} // verus!

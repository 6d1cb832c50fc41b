//! The artifact catalog's data model: the version manifest, per-version
//! details, libraries with their conditional rules and native classifiers,
//! and the asset index. Maps arrive as ordered lists of key/value pairs.

use vstd::prelude::*;
use vstd::string::{StrSliceExecFns, StringExecFns};
use crate::errors::LauncherError;
use crate::strutil::str_eq;

verus! {

/// The root manifest: every known version and where its details live.
pub struct VersionManifest {
    pub versions: Vec<VersionInfo>,
}

/// One entry of the root manifest.
pub struct VersionInfo {
    pub id: String,
    pub url: String,
}

/// The full description of one version: its client archive, libraries,
/// entry point and asset index.
pub struct VersionDetails {
    pub downloads: Downloads,
    pub libraries: Vec<Library>,
    pub main_class: String,
    pub asset_index: AssetIndex,
}

/// The downloadable archives of a version.
pub struct Downloads {
    pub client: DownloadInfo,
}

/// Where one archive can be fetched.
pub struct DownloadInfo {
    pub url: String,
}

/// A pointer to the asset index of a version.
pub struct AssetIndex {
    pub id: String,
    pub url: String,
}

/// One library of a version: an optional plain artifact, optional native
/// classifiers keyed by platform name, extraction exclusions, and the rules
/// that decide on which platforms it applies.
pub struct Library {
    pub name: String,
    pub downloads: Option<LibraryDownloads>,
    pub natives: Option<Vec<(String, String)>>,
    pub extract: Option<ExtractRule>,
    pub rules: Option<Vec<Rule>>,
}

/// The downloads of a library: the plain artifact and the classifier-keyed
/// native artifacts.
pub struct LibraryDownloads {
    pub artifact: Option<Artifact>,
    pub classifiers: Option<Vec<(String, Artifact)>>,
}

/// One downloadable file of a library and its path below the libraries
/// directory.
pub struct Artifact {
    pub url: String,
    pub path: String,
}

/// What to leave out when a native archive is extracted.
pub struct ExtractRule {
    pub exclude: Option<Vec<String>>,
}

/// One platform rule: an action ("allow" or "disallow") and an optional
/// platform filter.
pub struct Rule {
    pub action: String,
    pub os: Option<OsRule>,
}

/// The platform filter of a rule; an absent name matches every platform.
pub struct OsRule {
    pub name: Option<String>,
}

/// The asset index: virtual paths mapped to content-addressed objects.
pub struct AssetIndexManifest {
    pub objects: Vec<(String, AssetObject)>,
}

/// One asset: its content hash, which doubles as its storage key, and its
/// size in bytes.
pub struct AssetObject {
    pub hash: String,
    pub size: u64,
}

impl AssetObject {
    /// A field-for-field copy.
    pub fn duplicate(&self) -> (r: AssetObject)
        ensures
            r == *self,
    {
        AssetObject { hash: self.hash.clone(), size: self.size }
    }
}

impl VersionManifest {
    /// Finds the first manifest entry with the given id.
    pub fn find_version(&self, id: &str) -> (r: Option<usize>)
        ensures
            match r {
                Some(i) => i < self.versions@.len() && self.versions@[i as int].id@ == id@
                    && forall|j: int| 0 <= j < i ==> self.versions@[j].id@ != id@,
                None => forall|j: int|
                    0 <= j < self.versions@.len() ==> self.versions@[j].id@ != id@,
            },
    {
        let n = self.versions.len();
        let mut i: usize = 0;
        while i < n
            invariant
                n == self.versions@.len(),
                i <= n,
                forall|j: int| 0 <= j < i ==> self.versions@[j].id@ != id@,
            decreases n - i,
        {
            if str_eq(self.versions[i].id.as_str(), id) {
                return Some(i);
            }
            i += 1;
        }
        None
    }

    /// Resolves a version id to its manifest entry; a version absent from
    /// the manifest is the fatal not-found error, surfaced immediately.
    pub fn resolve_version(&self, id: &str) -> (r: Result<usize, LauncherError>)
        ensures
            r is Ok <==> exists|j: int|
                0 <= j < self.versions@.len() && (#[trigger] self.versions@[j]).id@ == id@,
            r matches Ok(i) ==> i < self.versions@.len() && self.versions@[i as int].id@ == id@
                && forall|j: int| 0 <= j < i ==> self.versions@[j].id@ != id@,
            r matches Err(e) ==> e matches LauncherError::NotFound { version } && version@ == id@,
    {
        match self.find_version(id) {
            Some(i) => Ok(i),
            None => Err(LauncherError::NotFound { version: String::from_str(id) }),
        }
    }
}

} // verus!

//! The on-disk layout below the install root: where the client archive,
//! libraries, natives and assets are placed, and where the catalog caches
//! live. Paths are built as strings with `/` separators.

use vstd::prelude::*;
use vstd::string::{StrSliceExecFns, StringExecFns};

verus! {

/// `base`, a separator, and `name`.
pub fn join_path(base: &str, name: &str) -> (r: String)
    ensures
        r@ == base@ + "/"@ + name@,
{
    let mut s = String::from_str(base);
    s.append("/");
    s.append(name);
    proof {
        assert(s@ =~= base@ + "/"@ + name@);
    }
    s
}

/// The libraries directory below the install root.
pub fn libraries_dir(root: &str) -> (r: String)
    ensures
        r@ == root@ + "/libraries"@,
{
    let mut s = String::from_str(root);
    s.append("/libraries");
    s
}

/// The directory of one version below the install root.
pub fn version_dir(root: &str, id: &str) -> (r: String)
    ensures
        r@ == root@ + "/versions/"@ + id@,
{
    let mut s = String::from_str(root);
    s.append("/versions/");
    s.append(id);
    proof {
        assert(s@ =~= root@ + "/versions/"@ + id@);
    }
    s
}

/// The client archive of one version: `versions/<id>/<id>.jar` below the
/// install root.
pub fn version_jar_path(root: &str, id: &str) -> (r: String)
    ensures
        r@ == root@ + "/versions/"@ + id@ + "/"@ + id@ + ".jar"@,
{
    let mut s = String::from_str(root);
    s.append("/versions/");
    s.append(id);
    s.append("/");
    s.append(id);
    s.append(".jar");
    proof {
        assert(s@ =~= root@ + "/versions/"@ + id@ + "/"@ + id@ + ".jar"@);
    }
    s
}

/// The natives directory of one version.
pub fn natives_dir(root: &str, id: &str) -> (r: String)
    ensures
        r@ == root@ + "/versions/"@ + id@ + "/natives"@,
{
    let mut s = String::from_str(root);
    s.append("/versions/");
    s.append(id);
    s.append("/natives");
    proof {
        assert(s@ =~= root@ + "/versions/"@ + id@ + "/natives"@);
    }
    s
}

/// The assets directory below the install root.
pub fn assets_dir(root: &str) -> (r: String)
    ensures
        r@ == root@ + "/assets"@,
{
    let mut s = String::from_str(root);
    s.append("/assets");
    s
}

/// The content-addressed asset store below the install root.
pub fn assets_objects_dir(root: &str) -> (r: String)
    ensures
        r@ == root@ + "/assets/objects"@,
{
    let mut s = String::from_str(root);
    s.append("/assets/objects");
    s
}

/// The cached copy of the asset index named `index_id`.
pub fn asset_index_path(root: &str, index_id: &str) -> (r: String)
    ensures
        r@ == root@ + "/assets/indexes/"@ + index_id@ + ".json"@,
{
    let mut s = String::from_str(root);
    s.append("/assets/indexes/");
    s.append(index_id);
    s.append(".json");
    proof {
        assert(s@ =~= root@ + "/assets/indexes/"@ + index_id@ + ".json"@);
    }
    s
}

/// Where the root manifest is cached between runs.
pub fn manifest_cache_path() -> (r: String)
    ensures
        r@ == ".cache/version_manifest_v2.json"@,
{
    String::from_str(".cache/version_manifest_v2.json")
}

/// The subdirectories that must exist below the install root before a
/// pipeline run.
pub fn install_subdirectories() -> (r: Vec<String>)
    ensures
        crate::strutil::seq_views(r@) == seq![
            "libraries"@,
            "versions"@,
            "assets/objects"@,
            "assets/indexes"@,
        ],
{
    let mut v: Vec<String> = Vec::new();
    v.push(String::from_str("libraries"));
    v.push(String::from_str("versions"));
    v.push(String::from_str("assets/objects"));
    v.push(String::from_str("assets/indexes"));
    proof {
        assert(crate::strutil::seq_views(v@) =~= seq![
            "libraries"@,
            "versions"@,
            "assets/objects"@,
            "assets/indexes"@,
        ]);
    }
    v
}

} // verus!

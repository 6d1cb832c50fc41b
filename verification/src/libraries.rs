//! The library pipeline's planning half: plain artifacts for every library
//! the rule evaluator admits, and native classifier archives for the
//! current platform, each with its extraction exclusions.

use vstd::prelude::*;
use vstd::string::{StrSliceExecFns, StringExecFns};
use crate::download::FetchTask;
use crate::models::{Artifact, Library};
use crate::platform::Platform;
use crate::rules::{should_use_library, spec_library_allowed};
use crate::strutil::{seq_views, str_eq};

verus! {

/// The first value bound to `key` in an ordered key/value list.
pub open spec fn spec_lookup<T>(entries: Seq<(String, T)>, key: Seq<char>) -> Option<T>
    decreases entries.len(),
{
    if entries.len() == 0 {
        None
    } else if entries[0].0@ == key {
        Some(entries[0].1)
    } else {
        spec_lookup(entries.drop_first(), key)
    }
}

/// Finds the first value bound to `key`.
pub fn lookup<'a, T>(entries: &'a Vec<(String, T)>, key: &str) -> (r: Option<&'a T>)
    ensures
        r is Some <==> spec_lookup(entries@, key@) is Some,
        r matches Some(v) ==> Some(*v) == spec_lookup(entries@, key@),
{
    let n = entries.len();
    let mut i: usize = 0;
    proof {
        assert(entries@.skip(0) =~= entries@);
    }
    while i < n
        invariant
            n == entries@.len(),
            i <= n,
            spec_lookup(entries@, key@) == spec_lookup(entries@.skip(i as int), key@),
        decreases n - i,
    {
        proof {
            assert(entries@.skip(i as int)[0] == entries@[i as int]);
            assert(entries@.skip(i as int).drop_first() =~= entries@.skip(i + 1));
        }
        if str_eq(entries[i].0.as_str(), key) {
            return Some(&entries[i].1);
        }
        i += 1;
    }
    proof {
        assert(entries@.skip(n as int) =~= Seq::<(String, T)>::empty());
    }
    None
}

/// The plain artifact of a library, when it has one.
pub open spec fn spec_plain_artifact(lib: Library) -> Option<Artifact> {
    match lib.downloads {
        None => None,
        Some(dl) => dl.artifact,
    }
}

/// The plain artifacts of the libraries the rule evaluator admits, in
/// order.
pub open spec fn spec_plain_artifacts(libs: Seq<Library>, platform: Platform) -> Seq<Artifact>
    decreases libs.len(),
{
    if libs.len() == 0 {
        Seq::<Artifact>::empty()
    } else {
        let front = spec_plain_artifacts(libs.drop_last(), platform);
        if spec_library_allowed(libs.last(), platform) && spec_plain_artifact(
            libs.last(),
        ) is Some {
            front.push(spec_plain_artifact(libs.last())->0)
        } else {
            front
        }
    }
}

/// Plans the plain-artifact batch: one fetch task per admitted library
/// with an artifact, downloaded to its relative path below the libraries
/// directory, with no size check.
pub fn library_tasks(libraries: &Vec<Library>, libraries_dir: &str, platform: Platform) -> (r: Vec<
    FetchTask,
>)
    ensures
        r@.len() == spec_plain_artifacts(libraries@, platform).len(),
        forall|i: int|
            0 <= i < r@.len() ==> {
                let arts = spec_plain_artifacts(libraries@, platform);
                &&& (#[trigger] r@[i]).url@ == arts[i].url@
                &&& r@[i].dest@ == libraries_dir@ + "/"@ + arts[i].path@
                &&& r@[i].expected_size is None
            },
{
    let n = libraries.len();
    let mut r: Vec<FetchTask> = Vec::new();
    let mut k: usize = 0;
    proof {
        assert(libraries@.take(0) =~= Seq::<Library>::empty());
    }
    while k < n
        invariant
            n == libraries@.len(),
            k <= n,
            r@.len() == spec_plain_artifacts(libraries@.take(k as int), platform).len(),
            forall|i: int|
                0 <= i < r@.len() ==> {
                    let arts = spec_plain_artifacts(libraries@.take(k as int), platform);
                    &&& (#[trigger] r@[i]).url@ == arts[i].url@
                    &&& r@[i].dest@ == libraries_dir@ + "/"@ + arts[i].path@
                    &&& r@[i].expected_size is None
                },
        decreases n - k,
    {
        proof {
            assert(libraries@.take(k + 1).drop_last() =~= libraries@.take(k as int));
            assert(libraries@.take(k + 1).last() == libraries@[k as int]);
        }
        let lib = &libraries[k];
        if should_use_library(lib, platform) {
            match &lib.downloads {
                Some(dl) => match &dl.artifact {
                    Some(art) => {
                        let dest = crate::layout::join_path(libraries_dir, art.path.as_str());
                        r.push(FetchTask { url: art.url.clone(), dest, expected_size: None });
                    },
                    None => {},
                },
                None => {},
            }
        }
        k += 1;
    }
    proof {
        assert(libraries@.take(n as int) =~= libraries@);
    }
    r
}

/// The native artifact of a library on `platform`: the classifier named
/// for the platform, resolved in the classifier artifact map.
pub open spec fn spec_native_artifact(lib: Library, platform: Platform) -> Option<Artifact> {
    match (lib.natives, lib.downloads) {
        (Some(nats), Some(dl)) => match spec_lookup(nats@, platform.spec_name()) {
            None => None,
            Some(classifier) => match dl.classifiers {
                None => None,
                Some(cls) => spec_lookup(cls@, classifier@),
            },
        },
        _ => None,
    }
}

/// The admitted libraries that have a native artifact on `platform`,
/// paired with that artifact, in order.
pub open spec fn spec_native_pairs(libs: Seq<Library>, platform: Platform) -> Seq<
    (Library, Artifact),
>
    decreases libs.len(),
{
    if libs.len() == 0 {
        Seq::<(Library, Artifact)>::empty()
    } else {
        let front = spec_native_pairs(libs.drop_last(), platform);
        if spec_library_allowed(libs.last(), platform) && spec_native_artifact(
            libs.last(),
            platform,
        ) is Some {
            front.push((libs.last(), spec_native_artifact(libs.last(), platform)->0))
        } else {
            front
        }
    }
}

/// What a native archive's extraction leaves out: the library's stated
/// patterns when it has any; with an extraction rule but no patterns,
/// nothing; with no extraction rule at all, the metadata directory.
pub open spec fn spec_excludes(lib: Library) -> Seq<Seq<char>> {
    match lib.extract {
        Some(ex) => match ex.exclude {
            Some(pats) => seq_views(pats@),
            None => Seq::<Seq<char>>::empty(),
        },
        None => seq!["META-INF/*"@],
    }
}

/// The patterns this library's native archive extraction excludes.
pub fn exclude_patterns(lib: &Library) -> (r: Vec<String>)
    ensures
        seq_views(r@) == spec_excludes(*lib),
{
    match &lib.extract {
        Some(ex) => match &ex.exclude {
            Some(pats) => {
                let n = pats.len();
                let mut r: Vec<String> = Vec::new();
                let mut i: usize = 0;
                while i < n
                    invariant
                        n == pats@.len(),
                        i <= n,
                        r@.len() == i,
                        forall|j: int| 0 <= j < i ==> (#[trigger] r@[j])@ == pats@[j]@,
                    decreases n - i,
                {
                    r.push(pats[i].clone());
                    i += 1;
                }
                proof {
                    assert(seq_views(r@) =~~= seq_views(pats@));
                }
                r
            },
            None => Vec::new(),
        },
        None => {
            let mut r: Vec<String> = Vec::new();
            r.push(String::from_str("META-INF/*"));
            proof {
                assert(seq_views(r@) =~= seq!["META-INF/*"@]);
            }
            r
        },
    }
}

/// The artifact path with separators flattened to underscores.
pub open spec fn spec_flat_path(path: Seq<char>) -> Seq<char> {
    path.map_values(|c: char| if c == '/' { '_' } else { c })
}

/// The name of the temporary file a native archive is downloaded to.
pub open spec fn spec_temp_name(path: Seq<char>) -> Seq<char> {
    "temp_"@ + spec_flat_path(path) + ".jar"@
}

/// The temporary file name for a native artifact at `path`.
pub fn temp_jar_name(path: &str) -> (r: String)
    ensures
        r@ == spec_temp_name(path@),
{
    proof {
        reveal_strlit("_");
        assert("_"@ =~= seq!['_']);
    }
    let flat = crate::strutil::replace_char(path, '/', '_', "_");
    let mut s = String::from_str("temp_");
    s.append(flat.as_str());
    s.append(".jar");
    proof {
        assert(s@ =~= spec_temp_name(path@));
    }
    s
}

/// One planned native download and extraction: the archive's source, the
/// temporary file it lands in below the natives directory, and what its
/// extraction leaves out. The archive is deleted after extraction.
pub struct NativeTask {
    pub url: String,
    pub temp_path: String,
    pub excludes: Vec<String>,
}

/// Plans the natives stage: one task per admitted library with a native
/// artifact for `platform`. An empty plan is the documented no-op for
/// platforms without natives.
pub fn native_tasks(libraries: &Vec<Library>, natives_dir: &str, platform: Platform) -> (r: Vec<
    NativeTask,
>)
    ensures
        r@.len() == spec_native_pairs(libraries@, platform).len(),
        forall|i: int|
            0 <= i < r@.len() ==> {
                let pairs = spec_native_pairs(libraries@, platform);
                &&& (#[trigger] r@[i]).url@ == pairs[i].1.url@
                &&& r@[i].temp_path@ == natives_dir@ + "/"@ + spec_temp_name(pairs[i].1.path@)
                &&& seq_views(r@[i].excludes@) == spec_excludes(pairs[i].0)
            },
{
    let n = libraries.len();
    let mut r: Vec<NativeTask> = Vec::new();
    let mut k: usize = 0;
    proof {
        assert(libraries@.take(0) =~= Seq::<Library>::empty());
    }
    while k < n
        invariant
            n == libraries@.len(),
            k <= n,
            r@.len() == spec_native_pairs(libraries@.take(k as int), platform).len(),
            forall|i: int|
                0 <= i < r@.len() ==> {
                    let pairs = spec_native_pairs(libraries@.take(k as int), platform);
                    &&& (#[trigger] r@[i]).url@ == pairs[i].1.url@
                    &&& r@[i].temp_path@ == natives_dir@ + "/"@ + spec_temp_name(pairs[i].1.path@)
                    &&& seq_views(r@[i].excludes@) == spec_excludes(pairs[i].0)
                },
        decreases n - k,
    {
        proof {
            assert(libraries@.take(k + 1).drop_last() =~= libraries@.take(k as int));
            assert(libraries@.take(k + 1).last() == libraries@[k as int]);
        }
        let lib = &libraries[k];
        if should_use_library(lib, platform) {
            match (&lib.natives, &lib.downloads) {
                (Some(nats), Some(dl)) => {
                    let pname = platform.name();
                    match lookup(nats, pname.as_str()) {
                        Some(classifier) => match &dl.classifiers {
                            Some(cls) => match lookup(cls, classifier.as_str()) {
                                Some(art) => {
                                    let name = temp_jar_name(art.path.as_str());
                                    let temp_path = crate::layout::join_path(
                                        natives_dir,
                                        name.as_str(),
                                    );
                                    let excludes = exclude_patterns(lib);
                                    r.push(
                                        NativeTask { url: art.url.clone(), temp_path, excludes },
                                    );
                                },
                                None => {},
                            },
                            None => {},
                        },
                        None => {},
                    }
                },
                _ => {},
            }
        }
        k += 1;
    }
    proof {
        assert(libraries@.take(n as int) =~= libraries@);
    }
    r
}

} // verus!

//! Filesystem-facing helpers: the classpath builder over an already
//! enumerated jar list, and the one probe the planner needs — whether a
//! path exists on disk right now.

use vstd::prelude::*;
use vstd::string::{StrSliceExecFns, StringExecFns};
use crate::strutil::seq_views;

verus! {

/// Relies on std::path::Path::exists: whether something is at `path` on
/// disk at this moment. The answer depends on the machine's state, so
/// nothing is promised of it.
#[verifier::external_body]
pub(crate) fn path_exists(path: &str) -> bool {
    std::path::Path::new(path).exists()
}

/// Jar paths joined in order, each followed by a separator.
pub open spec fn spec_joined(ps: Seq<Seq<char>>) -> Seq<char>
    decreases ps.len(),
{
    if ps.len() == 0 {
        Seq::<char>::empty()
    } else {
        spec_joined(ps.drop_last()) + ps.last() + ":"@
    }
}

/// The classpath over a jar list: every jar in order, each with a
/// trailing separator, then the client archive.
pub open spec fn spec_classpath(ps: Seq<Seq<char>>, client: Seq<char>) -> Seq<char> {
    spec_joined(ps) + client
}

/// Filesystem access for the pipeline.
pub struct FileSystem;

impl FileSystem {
    /// A fresh handle.
    pub fn new() -> (r: FileSystem) {
        FileSystem
    }

    /// Whether something is at `path` on disk at this moment.
    pub fn exists_at(&self, path: &str) -> bool {
        path_exists(path)
    }

    /// Joins the enumerated library jars and the client archive into one
    /// classpath string: every jar in order, separators between, the
    /// client archive last.
    pub fn build_classpath(&self, jar_paths: &Vec<String>, client_jar_path: &str) -> (r: String)
        ensures
            r@ == spec_classpath(seq_views(jar_paths@), client_jar_path@),
    {
        let n = jar_paths.len();
        let mut acc = String::new();
        let mut i: usize = 0;
        proof {
            assert(seq_views(jar_paths@).take(0) =~= Seq::<Seq<char>>::empty());
        }
        while i < n
            invariant
                n == jar_paths@.len(),
                i <= n,
                acc@ == spec_joined(seq_views(jar_paths@).take(i as int)),
            decreases n - i,
        {
            acc.append(jar_paths[i].as_str());
            acc.append(":");
            proof {
                let views = seq_views(jar_paths@);
                assert(views.take(i + 1).drop_last() =~= views.take(i as int));
                assert(views.take(i + 1).last() == views[i as int]);
                assert(views[i as int] == jar_paths@[i as int]@);
                assert(acc@ =~= spec_joined(views.take(i + 1)));
            }
            i += 1;
        }
        proof {
            assert(seq_views(jar_paths@).take(n as int) =~= seq_views(jar_paths@));
        }
        acc.append(client_jar_path);
        acc
    }
}

} // verus!

//! The asset pipeline's planning half: deduplicate the index by content
//! hash — one download per unique hash — and turn the unique set into
//! fetch tasks addressed by the two-level hash sharding.

use vstd::prelude::*;
use vstd::string::{StrSliceExecFns, StringExecFns};
use crate::download::FetchTask;
use crate::models::AssetObject;
use crate::strutil::str_eq;

verus! {

/// The asset objects of an index, in entry order, virtual paths dropped.
pub open spec fn asset_values(objs: Seq<(String, AssetObject)>) -> Seq<AssetObject> {
    objs.map_values(|e: (String, AssetObject)| e.1)
}

/// Some asset in `s` carries content hash `h`.
pub open spec fn hash_in(s: Seq<AssetObject>, h: Seq<char>) -> bool {
    exists|i: int| 0 <= i < s.len() && s[i].hash@ == h
}

/// First-occurrence deduplication by content hash: an asset is kept exactly
/// when no earlier asset has its hash.
pub open spec fn spec_dedup(s: Seq<AssetObject>) -> Seq<AssetObject>
    decreases s.len(),
{
    if s.len() == 0 {
        Seq::<AssetObject>::empty()
    } else {
        let front = spec_dedup(s.drop_last());
        if hash_in(s.drop_last(), s.last().hash@) {
            front
        } else {
            front.push(s.last())
        }
    }
}

/// Deduplication neither invents nor loses hashes.
pub proof fn lemma_dedup_same_hashes(s: Seq<AssetObject>, h: Seq<char>)
    ensures
        hash_in(spec_dedup(s), h) == hash_in(s, h),
    decreases s.len(),
{
    if s.len() == 0 {
    } else {
        let front = s.drop_last();
        lemma_dedup_same_hashes(front, h);
        let d = spec_dedup(s);
        if hash_in(front, s.last().hash@) {
            if hash_in(s, h) {
                let i = choose|i: int| 0 <= i < s.len() && s[i].hash@ == h;
                if i < front.len() {
                    assert(front[i].hash@ == h);
                } else {
                    assert(s[i] == s.last());
                    let j = choose|j: int| 0 <= j < front.len() && front[j].hash@ == s.last().hash@;
                    assert(front[j].hash@ == h);
                }
                assert(hash_in(front, h));
            }
            if hash_in(front, h) {
                let i = choose|i: int| 0 <= i < front.len() && front[i].hash@ == h;
                assert(s[i].hash@ == h);
                assert(hash_in(s, h));
            }
        } else {
            assert(d == spec_dedup(front).push(s.last()));
            if hash_in(s, h) {
                let i = choose|i: int| 0 <= i < s.len() && s[i].hash@ == h;
                if i < front.len() {
                    assert(front[i].hash@ == h);
                    let j = choose|j: int|
                        0 <= j < spec_dedup(front).len() && spec_dedup(front)[j].hash@ == h;
                    assert(d[j].hash@ == h);
                } else {
                    assert(s[i] == s.last());
                    assert(d[d.len() - 1].hash@ == h);
                }
                assert(hash_in(d, h));
            }
            if hash_in(d, h) {
                let i = choose|i: int| 0 <= i < d.len() && d[i].hash@ == h;
                if i < d.len() - 1 {
                    assert(spec_dedup(front)[i].hash@ == h);
                    let j = choose|j: int| 0 <= j < front.len() && front[j].hash@ == h;
                    assert(s[j].hash@ == h);
                } else {
                    assert(s[s.len() - 1].hash@ == h);
                }
                assert(hash_in(s, h));
            }
        }
    }
}

/// No two assets of the deduplicated set share a hash.
pub proof fn lemma_dedup_no_duplicates(s: Seq<AssetObject>)
    ensures
        forall|i: int, j: int|
            0 <= i < j < spec_dedup(s).len() ==> spec_dedup(s)[i].hash@ != spec_dedup(s)[j].hash@,
    decreases s.len(),
{
    if s.len() == 0 {
    } else {
        let front = s.drop_last();
        lemma_dedup_no_duplicates(front);
        if !hash_in(front, s.last().hash@) {
            lemma_dedup_same_hashes(front, s.last().hash@);
            let d = spec_dedup(s);
            assert forall|i: int, j: int| 0 <= i < j < d.len() implies d[i].hash@ != d[j].hash@ by {
                if j < d.len() - 1 {
                    assert(spec_dedup(front)[i].hash@ != spec_dedup(front)[j].hash@);
                } else {
                    assert(d[j] == s.last());
                    if d[i].hash@ == s.last().hash@ {
                        assert(spec_dedup(front)[i].hash@ == s.last().hash@);
                        assert(hash_in(spec_dedup(front), s.last().hash@));
                    }
                }
            }
        }
    }
}

/// Every deduplicated asset is one of the input assets.
pub proof fn lemma_dedup_membership(s: Seq<AssetObject>)
    ensures
        forall|i: int|
            0 <= i < spec_dedup(s).len() ==> exists|k: int|
                0 <= k < s.len() && #[trigger] spec_dedup(s)[i] == #[trigger] s[k],
    decreases s.len(),
{
    if s.len() == 0 {
    } else {
        let front = s.drop_last();
        lemma_dedup_membership(front);
        let d = spec_dedup(s);
        assert forall|i: int| 0 <= i < d.len() implies exists|k: int|
            0 <= k < s.len() && #[trigger] d[i] == #[trigger] s[k] by {
            if i < spec_dedup(front).len() {
                let k = choose|k: int| 0 <= k < front.len() && spec_dedup(front)[i] == front[k];
                assert(d[i] == s[k]);
            } else {
                assert(d[i] == s.last());
                assert(d[i] == s[s.len() - 1]);
            }
        }
    }
}

/// How many assets of `s` carry hash `h`.
pub open spec fn count_hash(s: Seq<AssetObject>, h: Seq<char>) -> int
    decreases s.len(),
{
    if s.len() == 0 {
        0
    } else {
        count_hash(s.drop_last(), h) + if s.last().hash@ == h {
            1int
        } else {
            0int
        }
    }
}

proof fn lemma_count_zero(s: Seq<AssetObject>, h: Seq<char>)
    requires
        !hash_in(s, h),
    ensures
        count_hash(s, h) == 0,
    decreases s.len(),
{
    if s.len() > 0 {
        assert(!hash_in(s.drop_last(), h)) by {
            if hash_in(s.drop_last(), h) {
                let i = choose|i: int|
                    0 <= i < s.drop_last().len() && s.drop_last()[i].hash@ == h;
                assert(s[i].hash@ == h);
            }
        }
        lemma_count_zero(s.drop_last(), h);
        assert(s.last().hash@ != h) by {
            if s.last().hash@ == h {
                assert(s[s.len() - 1].hash@ == h);
            }
        }
    }
}

/// One download per unique hash: every hash that occurs in the index
/// occurs exactly once in the deduplicated set.
pub proof fn lemma_dedup_one_per_hash(s: Seq<AssetObject>, h: Seq<char>)
    requires
        hash_in(s, h),
    ensures
        count_hash(spec_dedup(s), h) == 1,
    decreases s.len(),
{
    let front = s.drop_last();
    let d = spec_dedup(s);
    if hash_in(front, h) {
        lemma_dedup_one_per_hash(front, h);
        if hash_in(front, s.last().hash@) {
            assert(d == spec_dedup(front));
        } else {
            assert(d == spec_dedup(front).push(s.last()));
            assert(d.drop_last() =~= spec_dedup(front));
            assert(s.last().hash@ != h) by {
                if s.last().hash@ == h {
                    let i = choose|i: int| 0 <= i < front.len() && front[i].hash@ == h;
                    assert(hash_in(front, s.last().hash@));
                }
            }
        }
    } else {
        assert(s.last().hash@ == h) by {
            let i = choose|i: int| 0 <= i < s.len() && s[i].hash@ == h;
            if i < front.len() {
                assert(front[i].hash@ == h);
                assert(hash_in(front, h));
            } else {
                assert(s[i] == s.last());
            }
        }
        assert(!hash_in(front, s.last().hash@));
        assert(d == spec_dedup(front).push(s.last()));
        assert(d.drop_last() =~= spec_dedup(front));
        lemma_dedup_same_hashes(front, h);
        lemma_count_zero(spec_dedup(front), h);
    }
}

/// Whether some already-kept asset carries hash `h`.
fn contains_hash(kept: &Vec<AssetObject>, h: &str) -> (r: bool)
    ensures
        r == hash_in(kept@, h@),
{
    let n = kept.len();
    let mut i: usize = 0;
    while i < n
        invariant
            n == kept@.len(),
            i <= n,
            forall|j: int| 0 <= j < i ==> kept@[j].hash@ != h@,
        decreases n - i,
    {
        if str_eq(kept[i].hash.as_str(), h) {
            return true;
        }
        i += 1;
    }
    false
}

/// Builds the unique work set of an asset index: the first occurrence of
/// each content hash, in entry order, virtual paths discarded.
pub fn unique_assets(objects: &Vec<(String, AssetObject)>) -> (r: Vec<AssetObject>)
    ensures
        r@ == spec_dedup(asset_values(objects@)),
{
    let n = objects.len();
    let mut r: Vec<AssetObject> = Vec::new();
    let mut k: usize = 0;
    proof {
        assert(asset_values(objects@).take(0) =~= Seq::<AssetObject>::empty());
    }
    while k < n
        invariant
            n == objects@.len(),
            k <= n,
            r@ == spec_dedup(asset_values(objects@).take(k as int)),
        decreases n - k,
    {
        let ghost vals = asset_values(objects@);
        proof {
            assert(vals.take(k + 1).drop_last() =~= vals.take(k as int));
            assert(vals.take(k + 1).last() == vals[k as int]);
            assert(vals[k as int] == objects@[k as int].1);
            lemma_dedup_same_hashes(vals.take(k as int), objects@[k as int].1.hash@);
        }
        let seen = contains_hash(&r, objects[k].1.hash.as_str());
        if !seen {
            r.push(objects[k].1.duplicate());
        }
        k += 1;
    }
    proof {
        assert(asset_values(objects@).take(n as int) =~= asset_values(objects@));
    }
    r
}

/// The sharded relative location of a content-addressed asset: the first
/// two characters of its hash, a separator, and the full hash.
pub open spec fn spec_asset_rel(h: Seq<char>) -> Seq<char> {
    h.take(2) + "/"@ + h
}

/// The canonical content-addressed source of an asset.
pub open spec fn spec_asset_url(h: Seq<char>) -> Seq<char> {
    "https://resources.download.minecraft.net/"@ + spec_asset_rel(h)
}

/// The URL an asset with hash `hash` is fetched from.
pub fn asset_url(hash: &str) -> (r: String)
    requires
        hash@.len() >= 2,
    ensures
        r@ == spec_asset_url(hash@),
{
    let sub = hash.substring_char(0, 2);
    let mut s = String::from_str("https://resources.download.minecraft.net/");
    s.append(sub);
    s.append("/");
    s.append(hash);
    proof {
        assert(hash@.subrange(0, 2) =~= hash@.take(2));
        assert(s@ =~= spec_asset_url(hash@));
    }
    s
}

/// The destination of an asset with hash `hash` below the object store.
pub fn asset_object_path(objects_dir: &str, hash: &str) -> (r: String)
    requires
        hash@.len() >= 2,
    ensures
        r@ == objects_dir@ + "/"@ + spec_asset_rel(hash@),
{
    let sub = hash.substring_char(0, 2);
    let mut s = String::from_str(objects_dir);
    s.append("/");
    s.append(sub);
    s.append("/");
    s.append(hash);
    proof {
        assert(hash@.subrange(0, 2) =~= hash@.take(2));
        assert(s@ =~= objects_dir@ + "/"@ + spec_asset_rel(hash@));
    }
    s
}

/// Plans the asset batch: one fetch task per unique content hash, each
/// addressed by the two-level sharding and carrying the indexed size.
pub fn asset_tasks(objects: &Vec<(String, AssetObject)>, objects_dir: &str) -> (r: Vec<FetchTask>)
    requires
        forall|k: int| 0 <= k < objects@.len() ==> objects@[k].1.hash@.len() >= 2,
    ensures
        r@.len() == spec_dedup(asset_values(objects@)).len(),
        forall|i: int|
            0 <= i < r@.len() ==> {
                let uniq = spec_dedup(asset_values(objects@));
                &&& (#[trigger] r@[i]).url@ == spec_asset_url(uniq[i].hash@)
                &&& r@[i].dest@ == objects_dir@ + "/"@ + spec_asset_rel(uniq[i].hash@)
                &&& r@[i].expected_size == Some(uniq[i].size)
            },
{
    let uniq = unique_assets(objects);
    proof {
        lemma_dedup_membership(asset_values(objects@));
        assert(forall|i: int|
            0 <= i < uniq@.len() ==> (#[trigger] uniq@[i]).hash@.len() >= 2) by {
            assert forall|i: int| 0 <= i < uniq@.len() implies (#[trigger] uniq@[i]).hash@.len()
                >= 2 by {
                let vals = asset_values(objects@);
                let k = choose|k: int| 0 <= k < vals.len() && uniq@[i] == vals[k];
                assert(vals[k] == objects@[k].1);
            }
        }
    }
    let n = uniq.len();
    let mut r: Vec<FetchTask> = Vec::new();
    let mut i: usize = 0;
    while i < n
        invariant
            n == uniq@.len(),
            uniq@ == spec_dedup(asset_values(objects@)),
            forall|t: int| 0 <= t < uniq@.len() ==> (#[trigger] uniq@[t]).hash@.len() >= 2,
            i <= n,
            r@.len() == i,
            forall|t: int|
                0 <= t < i ==> {
                    &&& (#[trigger] r@[t]).url@ == spec_asset_url(uniq@[t].hash@)
                    &&& r@[t].dest@ == objects_dir@ + "/"@ + spec_asset_rel(uniq@[t].hash@)
                    &&& r@[t].expected_size == Some(uniq@[t].size)
                },
        decreases n - i,
    {
        let url = asset_url(uniq[i].hash.as_str());
        let dest = asset_object_path(objects_dir, uniq[i].hash.as_str());
        r.push(FetchTask { url, dest, expected_size: Some(uniq[i].size) });
        i += 1;
    }
    r
}

} // verus!

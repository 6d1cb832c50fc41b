//! The download engine's decision core: when a transfer is issued at all,
//! how a finished transfer's size is judged, and how a batch's per-task
//! results are aggregated. The engine never stops a batch early: every task
//! runs, failures are counted and reported together.

use vstd::prelude::*;
use crate::errors::DownloadError;

verus! {

/// What a single fetch does once the destination has been probed.
#[derive(Clone, Copy, Debug, PartialEq, Eq, Structural)]
pub enum FetchStep {
    /// The destination already exists: no request is made, the task counts
    /// as complete at once.
    UseExisting,
    /// The destination is absent: parent directories are created and one
    /// request transfers the body to disk.
    Transfer,
}

/// The step a fetch takes for a given destination probe.
pub open spec fn spec_plan_fetch(dest_exists: bool) -> FetchStep {
    if dest_exists {
        FetchStep::UseExisting
    } else {
        FetchStep::Transfer
    }
}

/// How many network requests a step performs.
pub open spec fn spec_requests_of(step: FetchStep) -> int {
    match step {
        FetchStep::UseExisting => 0,
        FetchStep::Transfer => 1,
    }
}

/// Decides what a single fetch does: a present destination is a cache hit
/// and is never re-requested; an absent one is transferred.
pub fn plan_fetch(dest_exists: bool) -> (r: FetchStep)
    ensures
        r == spec_plan_fetch(dest_exists),
        spec_requests_of(r) == if dest_exists { 0int } else { 1int },
{
    if dest_exists {
        FetchStep::UseExisting
    } else {
        FetchStep::Transfer
    }
}

/// Fetching the same destination twice performs exactly one request: the
/// first run transfers, and once the transfer has left the file in place
/// the second run finds it and makes no request at all. (That a completed
/// transfer leaves the file on disk is the I/O driver's part.)
pub proof fn lemma_fetch_idempotent()
    ensures
        spec_requests_of(spec_plan_fetch(false)) + spec_requests_of(spec_plan_fetch(true)) == 1,
        spec_plan_fetch(true) == FetchStep::UseExisting,
{
}

/// Judges a finished transfer: with no expected size every byte count
/// passes; with one, any other byte count is a size mismatch carrying both
/// numbers.
pub fn check_size(expected: Option<u64>, actual: u64) -> (r: Result<(), DownloadError>)
    ensures
        r is Ok <==> (expected is None || expected == Some(actual)),
        r matches Err(e) ==> expected is Some && e == (DownloadError::SizeMismatch {
            expected: expected->0,
            actual,
        }),
{
    match expected {
        None => Ok(()),
        Some(n) => {
            if n == actual {
                Ok(())
            } else {
                Err(DownloadError::SizeMismatch { expected: n, actual })
            }
        },
    }
}

/// What a read-through cache does for one key: a present cache file is
/// parsed and used — corruption there is a hard failure, never silently
/// bypassed — and an absent one is fetched and persisted before use.
#[derive(Clone, Copy, Debug, PartialEq, Eq, Structural)]
pub enum CacheStep {
    UseCached,
    FetchAndPersist,
}

/// Decides how a cached catalog document is resolved.
pub fn plan_cache(cache_exists: bool) -> (r: CacheStep)
    ensures
        r == CacheStep::UseCached <==> cache_exists,
        r == CacheStep::FetchAndPersist <==> !cache_exists,
{
    if cache_exists {
        CacheStep::UseCached
    } else {
        CacheStep::FetchAndPersist
    }
}

/// One planned transfer: source URL, destination path, and the expected
/// size when the catalog states one.
pub struct FetchTask {
    pub url: String,
    pub dest: String,
    pub expected_size: Option<u64>,
}

/// How many results of a finished batch are failures.
pub open spec fn spec_count_failures(rs: Seq<Result<(), DownloadError>>) -> int
    decreases rs.len(),
{
    if rs.len() == 0 {
        0
    } else {
        spec_count_failures(rs.drop_last()) + if rs.last() is Err {
            1int
        } else {
            0int
        }
    }
}

/// Counts the failures of a finished batch; the batch reports this count
/// as a warning and keeps every successful result.
pub fn count_failures(results: &Vec<Result<(), DownloadError>>) -> (n: usize)
    ensures
        n == spec_count_failures(results@),
{
    let len = results.len();
    let mut n: usize = 0;
    let mut i: usize = 0;
    while i < len
        invariant
            len == results@.len(),
            i <= len,
            n <= i,
            n == spec_count_failures(results@.take(i as int)),
        decreases len - i,
    {
        proof {
            assert(results@.take(i + 1).drop_last() =~= results@.take(i as int));
            assert(results@.take(i + 1).last() == results@[i as int]);
        }
        if results[i].is_err() {
            n += 1;
        }
        i += 1;
    }
    proof {
        assert(results@.take(len as int) =~= results@);
    }
    n
}

/// Whether a finished batch succeeded as a whole.
pub fn batch_ok(results: &Vec<Result<(), DownloadError>>) -> (r: bool)
    ensures
        r == (spec_count_failures(results@) == 0),
{
    count_failures(results) == 0
}

} // verus!

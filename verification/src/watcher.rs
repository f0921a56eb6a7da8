//! The download completion watcher: given the names that were in the
//! directory before the export was triggered, it decides on each poll
//! whether a new, complete file has appeared, and when to give up.

use vstd::prelude::*;
use vstd::hash_set::StringHashSet;
use crate::text::{ends_with, str_ends_with};

verus! {

/// Suffix that the browser gives to a download it is still writing.
pub const PARTIAL_SUFFIX: &'static str = ".crdownload";

/// Milliseconds to sleep between two polls.
pub const POLL_INTERVAL_MS: u64 = 250;

/// The file names that were in the directory before the export was
/// triggered.
pub struct Baseline {
    names: StringHashSet,
}

impl View for Baseline {
    type V = Set<Seq<char>>;

    closed spec fn view(&self) -> Set<Seq<char>> {
        self.names@
    }
}

impl Baseline {
    /// Whether `name` was in the directory when the snapshot was taken.
    pub fn contains(&self, name: &str) -> (found: bool)
        ensures
            found == self@.contains(name@),
    {
        self.names.contains(name)
    }
}

/// The names in `listing`, as a set.
pub open spec fn names_of(listing: Seq<String>) -> Set<Seq<char>> {
    Set::new(
        |name: Seq<char>| exists|i: int| 0 <= i < listing.len() && #[trigger] listing[i]@ == name,
    )
}

/// Takes the snapshot of a directory listing: the set of its names.
pub fn snapshot_files(listing: &Vec<String>) -> (baseline: Baseline)
    ensures
        baseline@ == names_of(listing@),
{
    let mut names = StringHashSet::new();
    let mut i: usize = 0;
    while i < listing.len()
        invariant
            i <= listing.len(),
            names@ =~= names_of(listing@.take(i as int)),
        decreases listing.len() - i,
    {
        let ghost before = listing@.take(i as int);
        let ghost after = listing@.take(i + 1);
        names.insert(listing[i].clone());
        assert(names@ =~= names_of(after)) by {
            assert forall|name: Seq<char>| names_of(after).contains(name) implies names@.contains(
                name,
            ) by {
                let k = choose|k: int| 0 <= k < after.len() && #[trigger] after[k]@ == name;
                if k < i {
                    assert(before[k]@ == name);
                }
            }
            assert forall|name: Seq<char>| names@.contains(name) implies names_of(after).contains(
                name,
            ) by {
                if name == listing[i as int]@ {
                    assert(after[i as int]@ == name);
                } else {
                    let k = choose|k: int| 0 <= k < before.len() && #[trigger] before[k]@ == name;
                    assert(after[k]@ == name);
                }
            }
        }
        i += 1;
    }
    assert(listing@.take(listing.len() as int) =~= listing@);
    Baseline { names }
}

/// Whether `name` is a completed download: it was not there at the
/// snapshot, and it does not carry the suffix of a partial download.
pub open spec fn is_completed_download(name: Seq<char>, baseline: Set<Seq<char>>) -> bool {
    !baseline.contains(name) && !ends_with(name, PARTIAL_SUFFIX@)
}

/// Whether entry `index` of `listing` is the first completed download.
pub open spec fn is_first_completed(
    listing: Seq<String>,
    baseline: Set<Seq<char>>,
    index: int,
) -> bool {
    &&& 0 <= index < listing.len()
    &&& is_completed_download(listing[index]@, baseline)
    &&& forall|j: int| 0 <= j < index ==> !is_completed_download(#[trigger] listing[j]@, baseline)
}

/// Whether `listing` holds no completed download.
pub open spec fn none_completed(listing: Seq<String>, baseline: Set<Seq<char>>) -> bool {
    forall|j: int|
        0 <= j < listing.len() ==> !is_completed_download(#[trigger] listing[j]@, baseline)
}

/// The watcher gave up.
#[derive(Debug, Clone, Copy, PartialEq, Eq, Structural)]
pub enum WatchError {
    /// No completed download appeared in time; `elapsed_ms` milliseconds had
    /// gone by when the watcher gave up.
    TimedOut { elapsed_ms: u64 },
}

/// What one pass over a listing found.
#[derive(Debug, Clone, Copy, PartialEq, Eq, Structural)]
pub enum Poll {
    /// Entry `index` of the listing is the completed download.
    Completed { index: usize },
    /// Nothing yet: sleep for `sleep_ms` milliseconds and poll again.
    Retry { sleep_ms: u64 },
}

/// Decides at the start of a pass whether the watcher goes on: it does
/// while less than `timeout_ms` milliseconds have gone by, and gives up with
/// the elapsed time otherwise.
pub fn check_deadline(elapsed_ms: u64, timeout_ms: u64) -> (r: Result<(), WatchError>)
    ensures
        r is Ok <==> elapsed_ms < timeout_ms,
        r matches Err(error) ==> error == (WatchError::TimedOut { elapsed_ms }),
{
    if elapsed_ms < timeout_ms {
        Ok(())
    } else {
        Err(WatchError::TimedOut { elapsed_ms })
    }
}

/// Looks through one listing of the directory, in order, for the first
/// entry that is new and complete.
pub fn find_new_download(listing: &Vec<String>, baseline: &Baseline) -> (poll: Poll)
    ensures
        match poll {
            Poll::Completed { index } => is_first_completed(listing@, baseline@, index as int),
            Poll::Retry { sleep_ms } => sleep_ms == POLL_INTERVAL_MS && none_completed(
                listing@,
                baseline@,
            ),
        },
{
    let mut i: usize = 0;
    while i < listing.len()
        invariant
            i <= listing.len(),
            forall|j: int| 0 <= j < i ==> !is_completed_download(#[trigger] listing[j]@, baseline@),
        decreases listing.len() - i,
    {
        let name = listing[i].as_str();
        if !baseline.contains(name) && !str_ends_with(name, PARTIAL_SUFFIX) {
            return Poll::Completed { index: i };
        }
        i += 1;
    }
    Poll::Retry { sleep_ms: POLL_INTERVAL_MS }
}

} // verus!

//! Counting changes in the working tree and index of a repository.
//!
//! Each status entry carries a flag word; an entry is counted in every
//! bucket whose mask it intersects, so one file may count in more than one
//! bucket. The buckets do not partition the entries.

use crate::git_access::repository_status_flags;
use crate::summary::ChangeCounters;
use vstd::prelude::*;

verus! {

/// The working-tree-new bit: an untracked file.
pub const UNTRACKED_MASK: u32 = 0x0080;

/// The working-tree modified, deleted, type-changed and renamed bits: a
/// file changed in the working tree relative to the index.
pub const UNSTAGED_MASK: u32 = 0x0f00;

/// The index new, modified, deleted, renamed and type-changed bits: a file
/// changed in the index relative to `HEAD`.
pub const STAGED_MASK: u32 = 0x001f;

/// The conflicted bit: a file with an unresolved merge conflict.
pub const CONFLICTED_MASK: u32 = 0x8000;

/// How many flag words intersect `mask`.
pub open spec fn count_matching(flags: Seq<u32>, mask: u32) -> nat
    decreases flags.len(),
{
    if flags.len() == 0 {
        0
    } else {
        count_matching(flags.drop_last(), mask) + (if flags.last() & mask != 0 {
            1nat
        } else {
            0nat
        })
    }
}

/// A count clipped to what a machine word holds; counting saturates rather
/// than overflow.
pub open spec fn sat_usize(n: nat) -> usize {
    if n > usize::MAX {
        usize::MAX as usize
    } else {
        n as usize
    }
}

/// The counters a sequence of status flag words classifies into.
pub open spec fn spec_count_changes(flags: Seq<u32>) -> ChangeCounters {
    ChangeCounters {
        untracked: sat_usize(count_matching(flags, UNTRACKED_MASK)),
        unstaged: sat_usize(count_matching(flags, UNSTAGED_MASK)),
        staged: sat_usize(count_matching(flags, STAGED_MASK)),
        conflicted: sat_usize(count_matching(flags, CONFLICTED_MASK)),
    }
}

/// Classify a snapshot of status flag words into the four buckets.
pub fn count_from_statuses(flags: &Vec<u32>) -> (c: ChangeCounters)
    ensures
        c == spec_count_changes(flags@),
{
    let len = flags.len();
    let mut untracked: usize = 0;
    let mut unstaged: usize = 0;
    let mut staged: usize = 0;
    let mut conflicted: usize = 0;
    let mut i: usize = 0;
    while i < len
        invariant
            len == flags@.len(),
            0 <= i <= len,
            untracked == count_matching(flags@.take(i as int), UNTRACKED_MASK),
            unstaged == count_matching(flags@.take(i as int), UNSTAGED_MASK),
            staged == count_matching(flags@.take(i as int), STAGED_MASK),
            conflicted == count_matching(flags@.take(i as int), CONFLICTED_MASK),
            untracked <= i && unstaged <= i && staged <= i && conflicted <= i,
        decreases len - i,
    {
        let word = flags[i];
        proof {
            let t = flags@.take(i + 1);
            assert(t.drop_last() =~= flags@.take(i as int));
            assert(t.last() == flags@[i as int]);
        }
        if word & UNTRACKED_MASK != 0 {
            untracked = untracked + 1;
        }
        if word & UNSTAGED_MASK != 0 {
            unstaged = unstaged + 1;
        }
        if word & STAGED_MASK != 0 {
            staged = staged + 1;
        }
        if word & CONFLICTED_MASK != 0 {
            conflicted = conflicted + 1;
        }
        i = i + 1;
    }
    proof {
        assert(flags@.take(len as int) =~= flags@);
    }
    ChangeCounters { untracked, unstaged, staged, conflicted }
}

/// Count changes in a repository whose bareness is already known. A bare
/// repository has no working tree, so its counters are all zero and no
/// status snapshot is requested; otherwise the counters classify the
/// snapshot the git library reports.
pub fn count_repository_changes(repo: &git2::Repository, bare: bool) -> (r: Result<
    ChangeCounters,
    git2::Error,
>)
    ensures
        bare ==> r == Ok::<ChangeCounters, git2::Error>(
            ChangeCounters { untracked: 0, unstaged: 0, staged: 0, conflicted: 0 },
        ),
        r matches Ok(c) ==> exists|flags: Seq<u32>| c == spec_count_changes(flags),
{
    if bare {
        let c = ChangeCounters { untracked: 0, unstaged: 0, staged: 0, conflicted: 0 };
        proof {
            let flags = Seq::<u32>::empty();
            assert(c == spec_count_changes(flags));
        }
        return Ok(c);
    }
    match repository_status_flags(repo) {
        Ok(flags) => {
            let c = count_from_statuses(&flags);
            proof {
                assert(c == spec_count_changes(flags@));
            }
            Ok(c)
        },
        Err(e) => Err(e),
    }
}

/// Count changes in the working tree and index (staged area) of a
/// repository. This asks the repository whether it is bare and hands the
/// answer to [`count_repository_changes`], which carries the exact
/// contract.
pub fn count_changes(repo: &git2::Repository) -> (r: Result<ChangeCounters, git2::Error>)
    ensures
        r matches Ok(c) ==> exists|flags: Seq<u32>| c == spec_count_changes(flags),
{
    let bare = repo.is_bare();
    count_repository_changes(repo, bare)
}

} // verus!

//! Orchestrating one repository summary: gather every fact first, then
//! write the whole block — so a failure after a successful open never
//! leaves partial output behind.

use crate::changes::count_repository_changes;
use crate::git_access::git_error_detail;
use crate::git_access::git_error_info;
use crate::git_access::repository_state_debug;
use crate::git_access::repository_workdir;
use crate::git_access::GitError;
use crate::head_resolve::head_info;
use crate::head_resolve::head_trail_wf;
use crate::head_resolve::upstream_wf;
use crate::shell_writer::ShellWriter;
use crate::strutil::bool_str;
use crate::summary::ChangeCounters;
use crate::summary::error_repr;
use crate::summary::notfound_repr;
use crate::summary::summary_repr;
use crate::summary::Head;
use crate::summary::SummaryFacts;
use vstd::prelude::*;

verus! {

/// What one repository's worth of output can be: the block for a path that
/// is not a repository, the block for a failure with its diagnostic detail,
/// or the full summary of gathered facts.
pub open spec fn is_summary_output(delta: Seq<char>, prefix: Seq<char>) -> bool {
    ||| delta == notfound_repr(prefix)
    ||| (exists|detail: Seq<char>| delta == error_repr(prefix, detail))
    ||| (exists|f: SummaryFacts|
        head_trail_wf(f.head) && upstream_wf(f.head) && delta == summary_repr(f, prefix))
}

/// Write the block for a failure to open a repository: a path that is
/// simply not a repository gets `repo_state=NotFound` alone, any other
/// failure gets `repo_state=Error` with the failure's diagnostic detail.
pub fn write_open_failure(w: &ShellWriter, out: &mut String, error: &GitError)
    ensures
        error matches GitError::NotFound { .. } ==> final(out)@ == old(out)@ + notfound_repr(
            w.prefix_spec(),
        ),
        error matches GitError::Other { .. } ==> final(out)@ == old(out)@ + error_repr(
            w.prefix_spec(),
            git_error_detail(*error),
        ),
{
    match error {
        GitError::NotFound { .. } => {
            w.write_var(out, "repo_state", "NotFound");
        },
        GitError::Other { detail } => {
            w.write_var(out, "repo_state", "Error");
            w.write_var_debug(out, "repo_error", detail.as_str());
            proof {
                assert(final(out)@ =~= old(out)@ + error_repr(
                    w.prefix_spec(),
                    git_error_detail(*error),
                ));
            }
        },
    }
}

/// Write the block for a failure while gathering repository facts:
/// `repo_state=Error` with the failure's diagnostic detail, whatever kind
/// of failure it was.
pub fn write_gather_failure(w: &ShellWriter, out: &mut String, error: &GitError)
    ensures
        final(out)@ == old(out)@ + error_repr(w.prefix_spec(), git_error_detail(*error)),
{
    w.write_var(out, "repo_state", "Error");
    w.write_var_debug(out, "repo_error", error.detail_str());
    proof {
        assert(final(out)@ =~= old(out)@ + error_repr(w.prefix_spec(), git_error_detail(*error)));
    }
}

/// The working directory as the summary displays it: the path itself, or
/// the empty string exactly when the repository has none (it is bare).
pub fn workdir_or_empty(workdir: Option<String>) -> (r: String)
    ensures
        match workdir {
            Some(path) => r@ == path@,
            None => r@.len() == 0,
        },
{
    match workdir {
        Some(path) => path,
        None => String::new(),
    }
}

/// Summarize information about a successfully opened repository.
///
/// All repository facts are gathered before any line is written: on an
/// error nothing at all has been written, and the caller reports the error
/// instead.
pub fn summarize_opened_repository(w: &ShellWriter, out: &mut String, repository: &git2::Repository) -> (r:
    Result<(), git2::Error>)
    ensures
        r is Err ==> final(out)@ == old(out)@,
        r is Ok ==> exists|f: SummaryFacts|
            head_trail_wf(f.head) && upstream_wf(f.head) && final(out)@ == old(out)@
                + summary_repr(f, w.prefix_spec()),
{
    let state = repository_state_debug(repository);
    let workdir = workdir_or_empty(repository_workdir(repository));
    let empty = match repository.is_empty() {
        Ok(b) => b,
        Err(e) => return Err(e),
    };
    let bare = repository.is_bare();
    let head = head_info(repository);
    let changes = match count_repository_changes(repository, bare) {
        Ok(c) => c,
        Err(e) => return Err(e),
    };
    render_summary(w, out, state.as_str(), workdir.as_str(), empty, bare, &head, &changes);
    proof {
        let f = SummaryFacts {
            state: state@,
            workdir: workdir@,
            empty,
            bare,
            head: head@,
            counters: changes,
        };
        assert(head_trail_wf(f.head) && upstream_wf(f.head) && final(out)@ == old(out)@
            + summary_repr(f, w.prefix_spec()));
    }
    Ok(())
}

/// Write the full summary block for already-gathered repository facts:
/// exactly the state, working directory, emptiness and bareness values
/// given, then the head block under the `head_` group, then the change
/// counters.
#[verifier::rlimit(60)]
pub fn render_summary(
    w: &ShellWriter,
    out: &mut String,
    state: &str,
    workdir: &str,
    empty: bool,
    bare: bool,
    head: &Head,
    counters: &ChangeCounters,
)
    ensures
        final(out)@ == old(out)@ + summary_repr(
            (SummaryFacts {
                state: state@,
                workdir: workdir@,
                empty,
                bare,
                head: head@,
                counters: *counters,
            }),
            w.prefix_spec(),
        ),
{
    w.write_var_debug(out, "repo_state", state);
    w.write_var(out, "repo_workdir", workdir);
    w.write_var(out, "repo_empty", bool_str(empty));
    w.write_var(out, "repo_bare", bool_str(bare));
    let head_writer = w.group("head");
    head_writer.write_vars(out, head);
    w.write_vars(out, counters);
    proof {
        assert(head_writer.prefix_spec() == w.prefix_spec() + "head"@ + seq!['_']);
        assert(final(out)@ =~= old(out)@ + summary_repr(
            (SummaryFacts {
                state: state@,
                workdir: workdir@,
                empty,
                bare,
                head: head@,
                counters: *counters,
            }),
            w.prefix_spec(),
        ));
    }
}

/// Summarize information about a repository.
///
/// This takes the `Result` from one of the `git2::Repository` open
/// functions. Whatever happened — a missing repository, an open failure, a
/// gather failure, or success — exactly one well-formed block of
/// `key=value` lines is appended to `out`: a failed open yields the
/// not-found block or an error block, never a summary; a successful open
/// yields a full summary or, when gathering failed, an error block, never
/// the not-found block.
pub fn summarize_repository(
    w: &ShellWriter,
    out: &mut String,
    opened: Result<git2::Repository, git2::Error>,
)
    ensures
        exists|delta: Seq<char>|
            final(out)@ == old(out)@ + delta && is_summary_output(delta, w.prefix_spec()),
        opened is Err ==> (final(out)@ == old(out)@ + notfound_repr(w.prefix_spec()) || (exists|
            detail: Seq<char>,
        |
            final(out)@ == old(out)@ + error_repr(w.prefix_spec(), detail))),
        opened is Ok ==> ((exists|f: SummaryFacts|
            head_trail_wf(f.head) && upstream_wf(f.head) && final(out)@ == old(out)@ + summary_repr(
                f,
                w.prefix_spec(),
            )) || (exists|detail: Seq<char>|
            final(out)@ == old(out)@ + error_repr(w.prefix_spec(), detail))),
{
    let ghost p = w.prefix_spec();
    match opened {
        Ok(repository) => {
            match summarize_opened_repository(w, out, &repository) {
                Ok(()) => {
                    proof {
                        let f = choose|f: SummaryFacts|
                            head_trail_wf(f.head) && upstream_wf(f.head) && final(out)@ == old(
                                out,
                            )@ + summary_repr(f, p);
                        assert(is_summary_output(summary_repr(f, p), p));
                    }
                },
                Err(error) => {
                    let info = git_error_info(&error);
                    write_gather_failure(w, out, &info);
                    proof {
                        assert(is_summary_output(error_repr(p, git_error_detail(info)), p));
                    }
                },
            }
        },
        Err(error) => {
            let info = git_error_info(&error);
            write_open_failure(w, out, &info);
            proof {
                match info {
                    GitError::NotFound { .. } => {
                        assert(is_summary_output(notfound_repr(p), p));
                    },
                    GitError::Other { .. } => {
                        assert(is_summary_output(error_repr(p, git_error_detail(info)), p));
                    },
                }
            }
        },
    }
}

} // verus!

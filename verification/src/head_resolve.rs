//! Resolving the `HEAD` reference trail and the upstream divergence.
//!
//! The resolver walks from `HEAD` through symbolic references until it
//! reaches a direct reference, an unknown kind, or a lookup failure,
//! recording every hop. What each possible lookup outcome contributes is
//! pinned by [`record_hop`]; the walk itself is capped, so a cyclic chain
//! of symbolic references ends in an error hop instead of looping forever.
//! The upstream computation likewise reduces to a plain
//! [`UpstreamOutcome`], and [`apply_upstream_outcome`] pins how each
//! outcome lands in the [`Head`].

use crate::git_access::git_error_detail;
use crate::git_access::git_error_info;
use crate::git_access::head_resolved_target;
use crate::git_access::head_upstream_target;
use crate::git_access::is_hex_digit_char;
use crate::git_access::lookup_reference;
use crate::git_access::oid_hex_string;
use crate::git_access::GitError;
use crate::git_access::RefLookup;
use crate::summary::Head;
use crate::summary::HeadView;
use crate::summary::Reference;
use crate::summary::RefView;
use vstd::prelude::*;
use vstd::string::StringExecFns;

verus! {

/// The most symbolic hops the resolver follows before it declares the
/// chain cyclic.
pub const MAX_SYMBOLIC_HOPS: usize = 64;

/// A hop the walk passed through: a symbolic reference, cleanly resolved.
pub open spec fn hop_is_symbolic(r: RefView) -> bool {
    r.kind == "symbolic"@ && r.error.len() == 0
}

/// A hop the walk ends on: a direct reference, an unrecognized kind, or a
/// failure hop, which carries the empty kind and an error detail.
pub open spec fn terminal_hop(r: RefView) -> bool {
    ||| (r.kind == "direct"@ && r.error.len() == 0)
    ||| (r.kind == "unknown"@ && r.error.len() == 0)
    ||| r.kind.len() == 0
}

/// A forty-digit lowercase hexadecimal rendering of an object id.
pub open spec fn is_hex_id(s: Seq<char>) -> bool {
    s.len() == 40 && forall|i: int| 0 <= i < s.len() ==> is_hex_digit_char(#[trigger] s[i])
}

/// What resolution guarantees of a trail: it is never empty, every hop
/// before the last resolved a symbolic reference, the last hop is terminal,
/// an error detail appears only on a hop of the empty kind, the walk was
/// capped, and a hash is present only when the walk ended on a direct
/// reference.
pub open spec fn head_trail_wf(v: HeadView) -> bool {
    &&& 1 <= v.trail.len() <= MAX_SYMBOLIC_HOPS + 1
    &&& forall|i: int| 0 <= i < v.trail.len() - 1 ==> hop_is_symbolic(#[trigger] v.trail[i])
    &&& terminal_hop(v.trail[v.trail.len() - 1])
    &&& forall|i: int|
        0 <= i < v.trail.len() ==> ((#[trigger] v.trail[i]).error.len() > 0 ==> v.trail[i].kind.len()
            == 0)
    &&& (v.trail[v.trail.len() - 1].kind == "direct"@ ==> (v.hash.len() == 0 || is_hex_id(v.hash)))
    &&& (v.trail[v.trail.len() - 1].kind != "direct"@ ==> v.hash.len() == 0)
}

/// What resolution guarantees of the upstream fields: ahead and behind are
/// present together, and only when no upstream failure was recorded.
pub open spec fn upstream_wf(v: HeadView) -> bool {
    &&& (v.ahead is Some <==> v.behind is Some)
    &&& (v.ahead is Some ==> v.upstream_error.len() == 0)
}

/// Turn one reference-lookup outcome into the hop it records, the hash it
/// yields, and the name the walk continues with: a direct reference stops
/// the walk with its rendered target id; a symbolic reference with a target
/// records a clean symbolic hop and continues at the target; a symbolic
/// reference without a reported target, an unrecognized kind and a failed
/// lookup all stop the walk, the failures as empty-kind hops carrying their
/// detail.
pub fn record_hop(current: &str, lookup: RefLookup) -> (r: (Reference, String, Option<String>))
    ensures
        ({
            let (hop, hash, next) = r;
            match lookup {
                RefLookup::Direct { name, id } => {
                    &&& hop@.name == name@
                    &&& hop@.kind == "direct"@
                    &&& hop@.error.len() == 0
                    &&& next is None
                    &&& (id is Some ==> is_hex_id(hash@))
                    &&& (id is None ==> hash@.len() == 0)
                },
                RefLookup::Symbolic { name, target } => match target {
                    Some(t) => {
                        &&& hop@.name == name@
                        &&& hop@.kind == "symbolic"@
                        &&& hop@.error.len() == 0
                        &&& (match next {
                            Some(n) => n@ == t@,
                            None => false,
                        })
                        &&& hash@.len() == 0
                    },
                    None => {
                        &&& hop@.name == name@
                        &&& hop@.kind.len() == 0
                        &&& hop@.error == "symbolic reference has no symbolic target"@
                        &&& next is None
                        &&& hash@.len() == 0
                    },
                },
                RefLookup::Unknown { name } => {
                    &&& hop@.name == name@
                    &&& hop@.kind == "unknown"@
                    &&& hop@.error.len() == 0
                    &&& next is None
                    &&& hash@.len() == 0
                },
                RefLookup::Failed { error } => {
                    &&& hop@.name == current@
                    &&& hop@.kind.len() == 0
                    &&& hop@.error == git_error_detail(error)
                    &&& next is None
                    &&& hash@.len() == 0
                },
            }
        }),
{
    proof {
        reveal_strlit("");
    }
    match lookup {
        RefLookup::Direct { name, id } => {
            let hash = match id {
                Some(oid) => oid_hex_string(&oid),
                None => String::new(),
            };
            (Reference::direct(name.as_str()), hash, None)
        },
        RefLookup::Symbolic { name, target } => match target {
            Some(t) => (Reference::symbolic(name.as_str()), String::new(), Some(t)),
            None => (
                Reference::new_with_error(
                    name.as_str(),
                    "",
                    "symbolic reference has no symbolic target",
                ),
                String::new(),
                None,
            ),
        },
        RefLookup::Unknown { name } => (Reference::new(name.as_str(), "unknown"), String::new(), None),
        RefLookup::Failed { error } => {
            let detail = error.into_detail();
            (Reference::new_with_error(current, "", detail.as_str()), String::new(), None)
        },
    }
}

/// The upstream divergence of `HEAD`, as plain values: no comparable
/// upstream, the ahead/behind counts, or a failure with its diagnostic
/// detail.
pub enum UpstreamOutcome {
    /// Divergence is meaningless: `HEAD` has no resolved object id (an
    /// unborn branch), or no upstream object id is configured.
    NoComparison,
    /// The commit-graph counts against the upstream branch.
    Counts { ahead: usize, behind: usize },
    /// Resolving `HEAD`, finding the upstream, or walking the graph failed.
    Failure { detail: String },
}

/// One object-id resolution step of the upstream walk: stop with a final
/// outcome, or proceed with the id the step produced.
pub enum OidStep {
    /// The walk is over; this is the divergence outcome.
    Stop(UpstreamOutcome),
    /// The step produced an object id; the walk goes on with it.
    Proceed(git2::Oid),
}

/// Classify one object-id resolution step: an id means the walk proceeds
/// with it, an absent id means divergence is meaningless (no comparison),
/// and a failure stops the walk carrying that failure's rendering.
pub fn oid_step(step: Result<Option<git2::Oid>, GitError>) -> (r: OidStep)
    ensures
        match step {
            Ok(Some(oid)) => r == OidStep::Proceed(oid),
            Ok(None) => r == OidStep::Stop(UpstreamOutcome::NoComparison),
            Err(e) => match r {
                OidStep::Stop(UpstreamOutcome::Failure { detail }) => detail@ == git_error_detail(
                    e,
                ),
                _ => false,
            },
        },
{
    match step {
        Ok(Some(oid)) => OidStep::Proceed(oid),
        Ok(None) => OidStep::Stop(UpstreamOutcome::NoComparison),
        Err(e) => OidStep::Stop(UpstreamOutcome::Failure { detail: e.into_detail() }),
    }
}

/// Classify the commit-graph comparison: the pair lands as ahead and
/// behind, in that order, and a failure carries its rendering.
pub fn counts_outcome(counts: Result<(usize, usize), GitError>) -> (r: UpstreamOutcome)
    ensures
        match counts {
            Ok(pair) => r == (UpstreamOutcome::Counts { ahead: pair.0, behind: pair.1 }),
            Err(e) => match r {
                UpstreamOutcome::Failure { detail } => detail@ == git_error_detail(e),
                _ => false,
            },
        },
{
    match counts {
        Ok((ahead, behind)) => UpstreamOutcome::Counts { ahead, behind },
        Err(e) => UpstreamOutcome::Failure { detail: e.into_detail() },
    }
}

/// Get the divergence of `HEAD` versus its upstream branch.
///
/// The walk draws up to three results from the repository — the id `HEAD`
/// resolves to, the id of its configured upstream, and the commit-graph
/// comparison of the two — and each is classified by [`oid_step`] or
/// [`counts_outcome`], whose contracts pin what every drawn value yields.
/// Which values are drawn depends on the repository on disk, which only
/// the git library sees, so only what holds of every outcome is promised
/// here; what each outcome means for a [`Head`] is pinned by
/// [`apply_upstream_outcome`].
pub fn get_upstream_difference(repo: &git2::Repository) -> (r: UpstreamOutcome)
    ensures
        r matches UpstreamOutcome::Failure { detail } ==> detail@.len() > 0,
{
    let local = match head_resolved_target(repo) {
        Ok(o) => oid_step(Ok(o)),
        Err(e) => oid_step(Err(git_error_info(&e))),
    };
    let local_oid = match local {
        OidStep::Stop(outcome) => {
            return outcome;
        },
        OidStep::Proceed(oid) => oid,
    };
    let upstream = match head_upstream_target(repo) {
        Ok(o) => oid_step(Ok(o)),
        Err(e) => oid_step(Err(git_error_info(&e))),
    };
    let upstream_oid = match upstream {
        OidStep::Stop(outcome) => {
            return outcome;
        },
        OidStep::Proceed(oid) => oid,
    };
    match repo.graph_ahead_behind(local_oid, upstream_oid) {
        Ok(pair) => counts_outcome(Ok(pair)),
        Err(e) => counts_outcome(Err(git_error_info(&e))),
    }
}

/// Record one upstream outcome in a head: no comparison leaves ahead and
/// behind absent with no error, counts land in ahead and behind with no
/// error, and a failure leaves both absent and carries its detail into
/// `upstream_error`. The trail and hash are untouched.
pub fn apply_upstream_outcome(head: &mut Head, outcome: UpstreamOutcome)
    ensures
        final(head)@.trail == old(head)@.trail,
        final(head)@.hash == old(head)@.hash,
        match outcome {
            UpstreamOutcome::NoComparison => {
                &&& final(head)@.ahead is None
                &&& final(head)@.behind is None
                &&& final(head)@.upstream_error.len() == 0
            },
            UpstreamOutcome::Counts { ahead, behind } => {
                &&& final(head)@.ahead == Some(ahead)
                &&& final(head)@.behind == Some(behind)
                &&& final(head)@.upstream_error.len() == 0
            },
            UpstreamOutcome::Failure { detail } => {
                &&& final(head)@.ahead is None
                &&& final(head)@.behind is None
                &&& final(head)@.upstream_error == detail@
            },
        },
{
    match outcome {
        UpstreamOutcome::NoComparison => {
            head.ahead_of_upstream = None;
            head.behind_upstream = None;
            head.upstream_error = String::new();
        },
        UpstreamOutcome::Counts { ahead, behind } => {
            head.ahead_of_upstream = Some(ahead);
            head.behind_upstream = Some(behind);
            head.upstream_error = String::new();
        },
        UpstreamOutcome::Failure { detail } => {
            head.ahead_of_upstream = None;
            head.behind_upstream = None;
            head.upstream_error = detail;
        },
    }
}

/// Trace the `HEAD` reference for a repository.
///
/// Every hop of the walk is recorded; the first entry is the lookup of the
/// literal name `HEAD` itself. Each hop is exactly what [`record_hop`]
/// makes of the lookup outcome, so a lookup failure becomes an error hop
/// rather than a crash; a chain of more than [`MAX_SYMBOLIC_HOPS`] symbolic
/// references — a cycle, in any sane repository — ends in an error hop.
/// The upstream fields are exactly what [`apply_upstream_outcome`] makes of
/// the computed [`UpstreamOutcome`].
pub fn head_info(repo: &git2::Repository) -> (h: Head)
    ensures
        head_trail_wf(h@),
        upstream_wf(h@),
{
    let mut trail: Vec<Reference> = Vec::new();
    let mut hash = String::new();
    let mut current = String::from_str("HEAD");
    let mut hops: usize = 0;
    let mut walking = true;
    while walking && hops < MAX_SYMBOLIC_HOPS
        invariant
            hops <= MAX_SYMBOLIC_HOPS,
            walking ==> trail@.len() == hops,
            walking ==> hash@.len() == 0,
            walking ==> forall|i: int|
                0 <= i < trail@.len() ==> hop_is_symbolic((#[trigger] trail@[i])@),
            !walking ==> {
                &&& 1 <= trail@.len() <= hops
                &&& forall|i: int|
                    0 <= i < trail@.len() - 1 ==> hop_is_symbolic((#[trigger] trail@[i])@)
                &&& terminal_hop(trail@[trail@.len() - 1]@)
                &&& (trail@[trail@.len() - 1]@.kind == "direct"@ ==> (hash@.len() == 0 || is_hex_id(
                    hash@,
                )))
                &&& (trail@[trail@.len() - 1]@.kind != "direct"@ ==> hash@.len() == 0)
            },
        decreases MAX_SYMBOLIC_HOPS - hops,
    {
        let ghost prev = trail@;
        let lookup = lookup_reference(repo, current.as_str());
        let (hop, hop_hash, next) = record_hop(current.as_str(), lookup);
        let ghost hv = hop@;
        trail.push(hop);
        proof {
            assert(forall|i: int| 0 <= i < prev.len() ==> trail@[i] == #[trigger] prev[i]);
            assert(trail@[trail@.len() - 1]@ == hv);
        }
        match next {
            Some(n) => {
                proof {
                    assert(hop_is_symbolic(hv));
                }
                current = n;
            },
            None => {
                proof {
                    assert(terminal_hop(hv));
                }
                hash = hop_hash;
                walking = false;
            },
        }
        hops = hops + 1;
    }
    if walking {
        // More symbolic hops than any reasonable chain: almost certainly a
        // reference cycle. Surface it as a failed hop instead of looping.
        let ghost prev = trail@;
        let hop = Reference::new_with_error(
            current.as_str(),
            "",
            "symbolic reference chain too long (possible cycle)",
        );
        let ghost hv = hop@;
        trail.push(hop);
        proof {
            reveal_strlit("");
            assert(forall|i: int| 0 <= i < prev.len() ==> trail@[i] == #[trigger] prev[i]);
            assert(trail@[trail@.len() - 1]@ == hv);
            assert(terminal_hop(hv));
        }
    }
    proof {
        reveal_strlit("");
        assert(forall|i: int|
            0 <= i < trail@.len() ==> trail.deep_view()[i] == (#[trigger] trail@[i])@);
        assert(forall|i: int|
            0 <= i < trail@.len() ==> (((#[trigger] trail@[i])@).error.len() > 0 ==> trail@[i]@.kind.len()
                == 0));
    }
    let ghost tv = trail.deep_view();
    let mut head = Head {
        trail,
        hash,
        ahead_of_upstream: None,
        behind_upstream: None,
        upstream_error: String::new(),
    };
    proof {
        assert(head.trail.deep_view() == tv);
        assert(head_trail_wf(head@));
    }
    let outcome = get_upstream_difference(repo);
    apply_upstream_outcome(&mut head, outcome);
    head
}

} // verus!

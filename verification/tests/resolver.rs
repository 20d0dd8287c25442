//! The per-outcome steps of the HEAD resolver: what each reference-lookup
//! outcome records, and how each upstream outcome lands in a head.

use git_status_vars::{
    apply_upstream_outcome, counts_outcome, oid_step, record_hop, GitError, Head, OidStep,
    RefLookup, Reference, UpstreamOutcome,
};

fn empty_head() -> Head {
    Head {
        trail: vec![Reference::symbolic("HEAD")],
        hash: "1234567890123456789012345678901234567890".to_owned(),
        ahead_of_upstream: None,
        behind_upstream: None,
        upstream_error: String::new(),
    }
}

#[test]
fn record_hop_direct_without_id() {
    let (hop, hash, next) = record_hop(
        "HEAD",
        RefLookup::Direct { name: "refs/heads/main".to_owned(), id: None },
    );
    assert_eq!(hop.name, "refs/heads/main");
    assert_eq!(hop.kind, "direct");
    assert_eq!(hop.error, "");
    assert_eq!(hash, "");
    assert!(next.is_none());
}

#[test]
fn record_hop_direct_with_id() {
    let oid = git2::Oid::from_str("0123456789abcdef0123456789abcdef01234567").unwrap();
    let (hop, hash, next) = record_hop(
        "HEAD",
        RefLookup::Direct { name: "refs/heads/main".to_owned(), id: Some(oid) },
    );
    assert_eq!(hop.kind, "direct");
    assert_eq!(hash, "0123456789abcdef0123456789abcdef01234567");
    assert!(next.is_none());
}

#[test]
fn record_hop_symbolic_continues() {
    let (hop, hash, next) = record_hop(
        "HEAD",
        RefLookup::Symbolic {
            name: "refs/heads/sym".to_owned(),
            target: Some("refs/heads/main".to_owned()),
        },
    );
    assert_eq!(hop.name, "refs/heads/sym");
    assert_eq!(hop.kind, "symbolic");
    assert_eq!(hop.error, "");
    assert_eq!(hash, "");
    assert_eq!(next.as_deref(), Some("refs/heads/main"));
}

#[test]
fn record_hop_symbolic_without_target_stops() {
    let (hop, hash, next) = record_hop(
        "HEAD",
        RefLookup::Symbolic { name: "refs/heads/sym".to_owned(), target: None },
    );
    assert_eq!(hop.name, "refs/heads/sym");
    assert_eq!(hop.kind, "");
    assert_eq!(hop.error, "symbolic reference has no symbolic target");
    assert_eq!(hash, "");
    assert!(next.is_none());
}

#[test]
fn record_hop_unknown_kind() {
    let (hop, hash, next) = record_hop(
        "HEAD",
        RefLookup::Unknown { name: "refs/heads/odd".to_owned() },
    );
    assert_eq!(hop.name, "refs/heads/odd");
    assert_eq!(hop.kind, "unknown");
    assert_eq!(hop.error, "");
    assert_eq!(hash, "");
    assert!(next.is_none());
}

#[test]
fn record_hop_failed_uses_looked_up_name() {
    let (hop, hash, next) = record_hop(
        "refs/heads/main",
        RefLookup::Failed {
            error: GitError::Other { detail: "Error { code: -3 }".to_owned() },
        },
    );
    assert_eq!(hop.name, "refs/heads/main");
    assert_eq!(hop.kind, "");
    assert_eq!(hop.error, "Error { code: -3 }");
    assert_eq!(hash, "");
    assert!(next.is_none());
}

#[test]
fn oid_step_proceeds_with_the_id() {
    let oid = git2::Oid::from_str("0123456789abcdef0123456789abcdef01234567").unwrap();
    match oid_step(Ok(Some(oid))) {
        OidStep::Proceed(o) => assert_eq!(o, oid),
        OidStep::Stop(_) => panic!("expected the walk to proceed"),
    }
}

#[test]
fn oid_step_absent_id_means_no_comparison() {
    match oid_step(Ok(None)) {
        OidStep::Stop(UpstreamOutcome::NoComparison) => {}
        _ => panic!("expected no comparison"),
    }
}

#[test]
fn oid_step_failure_carries_detail() {
    let step = oid_step(Err(GitError::Other { detail: "Error { code: -1 }".to_owned() }));
    match step {
        OidStep::Stop(UpstreamOutcome::Failure { detail }) => {
            assert_eq!(detail, "Error { code: -1 }");
        }
        _ => panic!("expected a failure outcome"),
    }
}

#[test]
fn counts_outcome_keeps_order() {
    match counts_outcome(Ok((1, 2))) {
        UpstreamOutcome::Counts { ahead, behind } => {
            assert_eq!(ahead, 1);
            assert_eq!(behind, 2);
        }
        _ => panic!("expected counts"),
    }
}

#[test]
fn counts_outcome_failure_carries_detail() {
    match counts_outcome(Err(GitError::NotFound { detail: "gone".to_owned() })) {
        UpstreamOutcome::Failure { detail } => assert_eq!(detail, "gone"),
        _ => panic!("expected a failure outcome"),
    }
}

#[test]
fn upstream_counts_land_in_head() {
    let mut head = empty_head();
    apply_upstream_outcome(&mut head, UpstreamOutcome::Counts { ahead: 1, behind: 2 });
    assert_eq!(head.ahead_of_upstream, Some(1));
    assert_eq!(head.behind_upstream, Some(2));
    assert_eq!(head.upstream_error, "");
    assert_eq!(head.trail.len(), 1);
    assert_eq!(head.hash, "1234567890123456789012345678901234567890");
}

#[test]
fn upstream_failure_lands_in_head() {
    let mut head = empty_head();
    apply_upstream_outcome(
        &mut head,
        UpstreamOutcome::Failure { detail: "Error { code: -1 }".to_owned() },
    );
    assert_eq!(head.ahead_of_upstream, None);
    assert_eq!(head.behind_upstream, None);
    assert_eq!(head.upstream_error, "Error { code: -1 }");
}

#[test]
fn upstream_no_comparison_lands_in_head() {
    let mut head = empty_head();
    apply_upstream_outcome(&mut head, UpstreamOutcome::NoComparison);
    assert_eq!(head.ahead_of_upstream, None);
    assert_eq!(head.behind_upstream, None);
    assert_eq!(head.upstream_error, "");
}

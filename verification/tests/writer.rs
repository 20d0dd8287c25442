//! The shell writer: lines, prefixes, groups, and the rendering of the
//! summary data types.

use git_status_vars::{
    count_from_statuses, render_summary, write_key_value, ChangeCounters, Head, Reference,
    ShellWriter,
};

#[test]
fn write_var_plain() {
    let w = ShellWriter::new("");
    let mut out = String::new();
    w.write_var(&mut out, "var", "value");
    assert_eq!(out, "var=value\n");
}

#[test]
fn write_var_grouped() {
    let mut out = String::new();
    ShellWriter::new("").group("group").write_var(&mut out, "var", "value");
    assert_eq!(out, "group_var=value\n");
}

#[test]
fn write_var_quotes_value() {
    let w = ShellWriter::new("");
    let mut out = String::new();
    w.write_var(&mut out, "var", "two words");
    assert_eq!(out, "var='two words'\n");
}

#[test]
fn write_var_debug_same_quoting() {
    let w = ShellWriter::new("pre_");
    let mut out = String::new();
    w.write_var_debug(&mut out, "err", "Error { code: -3 }");
    assert_eq!(out, "pre_err='Error { code: -3 }'\n");
}

#[test]
fn group_n_numbers() {
    let w = ShellWriter::new("head_");
    let mut out = String::new();
    w.group_n("ref", 12).write_var(&mut out, "name", "refs/heads/main");
    assert_eq!(out, "head_ref12_name=refs/heads/main\n");
}

#[test]
fn groups_share_one_sink_in_order() {
    let w = ShellWriter::new("");
    let mut out = String::new();
    w.write_var(&mut out, "first", "1");
    w.group("g").write_var(&mut out, "second", "2");
    w.write_var(&mut out, "third", "3");
    assert_eq!(out, "first=1\ng_second=2\nthird=3\n");
}

#[test]
fn write_key_value_line() {
    let mut out = String::new();
    write_key_value(&mut out, "p_", "key", "a value");
    assert_eq!(out, "p_key='a value'\n");
}

#[test]
fn reference_writes_four_lines() {
    let r = Reference::new("refs/heads/main", "direct");
    let w = ShellWriter::new("ref1_");
    let mut out = String::new();
    w.write_vars(&mut out, &r);
    assert_eq!(
        out,
        "ref1_name=refs/heads/main\nref1_short=main\nref1_kind=direct\nref1_error=''\n"
    );
}

#[test]
fn reference_with_error_keeps_detail() {
    let r = Reference::new_with_error("HEAD", "", "it broke");
    assert_eq!(r.name, "HEAD");
    assert_eq!(r.kind, "");
    assert_eq!(r.error, "it broke");
}

#[test]
fn reference_constructors() {
    let s = Reference::symbolic("refs/heads/sym");
    assert_eq!(s.kind, "symbolic");
    assert_eq!(s.error, "");
    let d = Reference::direct("refs/heads/main");
    assert_eq!(d.kind, "direct");
    assert_eq!(d.error, "");
}

#[test]
fn short_strips_heads_prefix() {
    assert_eq!(Reference::new("refs/heads/main", "direct").short(), "main");
}

#[test]
fn short_strips_tags_prefix() {
    assert_eq!(Reference::new("refs/tags/v1", "direct").short(), "v1");
}

#[test]
fn short_keeps_other_names() {
    assert_eq!(
        Reference::new("refs/notes/foo", "direct").short(),
        "refs/notes/foo"
    );
    assert_eq!(Reference::new("HEAD", "symbolic").short(), "HEAD");
}

#[test]
fn head_renders_trail_from_second_hop() {
    let head = Head {
        trail: vec![
            Reference::symbolic("HEAD"),
            Reference::symbolic("refs/heads/sym"),
            Reference::direct("refs/heads/main"),
        ],
        hash: "1234567890123456789012345678901234567890".to_owned(),
        ahead_of_upstream: Some(1),
        behind_upstream: Some(0),
        upstream_error: String::new(),
    };
    let w = ShellWriter::new("head_");
    let mut out = String::new();
    w.write_vars(&mut out, &head);
    assert_eq!(
        out,
        "head_ref_length=2\n\
         head_ref1_name=refs/heads/sym\n\
         head_ref1_short=sym\n\
         head_ref1_kind=symbolic\n\
         head_ref1_error=''\n\
         head_ref2_name=refs/heads/main\n\
         head_ref2_short=main\n\
         head_ref2_kind=direct\n\
         head_ref2_error=''\n\
         head_hash=1234567890123456789012345678901234567890\n\
         head_ahead=1\n\
         head_behind=0\n\
         head_upstream_error=''\n"
    );
}

#[test]
fn head_with_empty_trail_renders_length_zero() {
    let head = Head {
        trail: vec![],
        hash: String::new(),
        ahead_of_upstream: None,
        behind_upstream: None,
        upstream_error: String::new(),
    };
    let w = ShellWriter::new("head_");
    let mut out = String::new();
    w.write_vars(&mut out, &head);
    assert_eq!(
        out,
        "head_ref_length=0\nhead_hash=''\nhead_ahead=''\nhead_behind=''\nhead_upstream_error=''\n"
    );
}

#[test]
fn nested_groups_compose_prefixes() {
    let w = ShellWriter::new("a_");
    let mut out = String::new();
    w.group("b").group_n("c", 3).write_var(&mut out, "var", "v");
    assert_eq!(out, "a_b_c3_var=v\n");
}

#[test]
fn ref_length_counts_emitted_references() {
    // The ref_length value equals the number of reference groups that
    // follow it; the synthetic initial HEAD hop is not counted.
    for hops in 0..4usize {
        let mut trail = vec![Reference::symbolic("HEAD")];
        for _ in 0..hops {
            trail.push(Reference::symbolic("refs/heads/x"));
        }
        let head = Head {
            trail,
            hash: String::new(),
            ahead_of_upstream: None,
            behind_upstream: None,
            upstream_error: String::new(),
        };
        let w = ShellWriter::new("head_");
        let mut out = String::new();
        w.write_vars(&mut out, &head);
        let length_line = out.lines().next().unwrap().to_owned();
        assert_eq!(length_line, format!("head_ref_length={hops}"));
        let emitted = out.lines().filter(|l| l.contains("_name=")).count();
        assert_eq!(emitted, hops);
    }
}

#[test]
fn counters_render_four_lines() {
    let c = ChangeCounters { untracked: 1, unstaged: 2, staged: 3, conflicted: 4 };
    let w = ShellWriter::new("");
    let mut out = String::new();
    w.write_vars(&mut out, &c);
    assert_eq!(
        out,
        "untracked_count=1\nunstaged_count=2\nstaged_count=3\nconflicted_count=4\n"
    );
}

#[test]
fn render_summary_emits_given_facts() {
    let head = Head {
        trail: vec![Reference::symbolic("HEAD"), Reference::direct("refs/heads/main")],
        hash: "1234567890123456789012345678901234567890".to_owned(),
        ahead_of_upstream: None,
        behind_upstream: None,
        upstream_error: String::new(),
    };
    let counters = ChangeCounters { untracked: 0, unstaged: 1, staged: 0, conflicted: 0 };
    let w = ShellWriter::new("");
    let mut out = String::new();
    render_summary(&w, &mut out, "Clean", "/work/dir/", false, false, &head, &counters);
    assert_eq!(
        out,
        "repo_state=Clean\n\
         repo_workdir=/work/dir/\n\
         repo_empty=false\n\
         repo_bare=false\n\
         head_ref_length=1\n\
         head_ref1_name=refs/heads/main\n\
         head_ref1_short=main\n\
         head_ref1_kind=direct\n\
         head_ref1_error=''\n\
         head_hash=1234567890123456789012345678901234567890\n\
         head_ahead=''\n\
         head_behind=''\n\
         head_upstream_error=''\n\
         untracked_count=0\n\
         unstaged_count=1\n\
         staged_count=0\n\
         conflicted_count=0\n"
    );
}

#[test]
fn counters_from_array() {
    let c = ChangeCounters::from([1, 2, 3, 4]);
    assert_eq!(c, ChangeCounters { untracked: 1, unstaged: 2, staged: 3, conflicted: 4 });
}

#[test]
fn counters_default_is_zero() {
    assert_eq!(
        ChangeCounters::default(),
        ChangeCounters { untracked: 0, unstaged: 0, staged: 0, conflicted: 0 }
    );
}

const INDEX_NEW: u32 = 1 << 0;
const INDEX_DELETED: u32 = 1 << 2;
const WT_NEW: u32 = 1 << 7;
const WT_MODIFIED: u32 = 1 << 8;
const CONFLICTED: u32 = 1 << 15;

#[test]
fn count_staged_deletion() {
    let c = count_from_statuses(&vec![INDEX_DELETED]);
    assert_eq!(c.staged, 1);
    assert_eq!(c.unstaged, 0);
    assert_eq!(c.untracked, 0);
    assert_eq!(c.conflicted, 0);
}

#[test]
fn count_unstaged_modification() {
    let c = count_from_statuses(&vec![WT_MODIFIED]);
    assert_eq!(c.unstaged, 1);
    assert_eq!(c.staged, 0);
}

#[test]
fn count_file_in_both_buckets() {
    let c = count_from_statuses(&vec![INDEX_NEW | WT_MODIFIED]);
    assert_eq!(c.staged, 1);
    assert_eq!(c.unstaged, 1);
    assert_eq!(c.untracked, 0);
}

#[test]
fn count_untracked_and_conflicted() {
    let c = count_from_statuses(&vec![WT_NEW, CONFLICTED, WT_NEW]);
    assert_eq!(c.untracked, 2);
    assert_eq!(c.conflicted, 1);
    assert_eq!(c.staged, 0);
    assert_eq!(c.unstaged, 0);
}

#[test]
fn count_empty_snapshot() {
    let c = count_from_statuses(&vec![]);
    assert_eq!(c, ChangeCounters::default());
}

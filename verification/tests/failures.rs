//! The failure blocks, and the small rendering helpers.

use git_status_vars::{
    display_option, usize_to_string, workdir_or_empty, write_gather_failure, write_open_failure,
    GitError, ShellWriter,
};

#[test]
fn open_failure_not_found_writes_one_line() {
    let w = ShellWriter::new("");
    let mut out = String::new();
    let error = GitError::NotFound { detail: "Error { code: -3 }".to_owned() };
    write_open_failure(&w, &mut out, &error);
    assert_eq!(out, "repo_state=NotFound\n");
}

#[test]
fn open_failure_other_writes_detail() {
    let w = ShellWriter::new("");
    let mut out = String::new();
    let error = GitError::Other { detail: "Error { code: -1, klass: 2 }".to_owned() };
    write_open_failure(&w, &mut out, &error);
    assert_eq!(
        out,
        "repo_state=Error\nrepo_error='Error { code: -1, klass: 2 }'\n"
    );
}

#[test]
fn gather_failure_always_writes_error_block() {
    // A gather failure is reported as an error even when it carries the
    // not-found classification; only the open step treats that specially.
    let w = ShellWriter::new("");
    let mut out = String::new();
    let error = GitError::NotFound { detail: "Error { code: -3 }".to_owned() };
    write_gather_failure(&w, &mut out, &error);
    assert_eq!(out, "repo_state=Error\nrepo_error='Error { code: -3 }'\n");
}

#[test]
fn failure_blocks_respect_prefix() {
    let w = ShellWriter::new("repo2_");
    let mut out = String::new();
    let error = GitError::NotFound { detail: String::new() };
    write_open_failure(&w, &mut out, &error);
    assert_eq!(out, "repo2_repo_state=NotFound\n");
}

#[test]
fn error_detail_is_kept() {
    let error = GitError::Other { detail: "boom".to_owned() };
    assert_eq!(error.detail_str(), "boom");
    let error = GitError::NotFound { detail: "gone".to_owned() };
    assert_eq!(error.detail_str(), "gone");
}

#[test]
fn workdir_renders_path_or_empty() {
    assert_eq!(workdir_or_empty(Some("/work/dir/".to_owned())), "/work/dir/");
    assert_eq!(workdir_or_empty(None), "");
}

#[test]
fn display_option_renders_counts() {
    assert_eq!(display_option(Some(0)), "0");
    assert_eq!(display_option(Some(42)), "42");
    assert_eq!(display_option(None), "");
}

#[test]
fn usize_to_string_renders_decimal() {
    assert_eq!(usize_to_string(0), "0");
    assert_eq!(usize_to_string(7), "7");
    assert_eq!(usize_to_string(105), "105");
    assert_eq!(usize_to_string(usize::MAX), usize::MAX.to_string());
}

//! Inspect a git repository's working state and render it as shell-assignable
//! `key=value` lines: the `HEAD` reference chain, ahead/behind counts against
//! the configured upstream, and working-tree/index change counts.
//!
//! The entry point is [`summarize_repository`], which takes the result of
//! opening a repository and writes one block of variables through a
//! [`ShellWriter`].

pub mod changes;
pub mod git_access;
pub mod head_resolve;
pub mod params;
pub mod shell_quote;
pub mod shell_writer;
pub mod strutil;
pub mod summarize;
pub mod summary;

pub use changes::count_changes;
pub use changes::count_from_statuses;
pub use changes::count_repository_changes;
pub use git_access::GitError;
pub use git_access::RefLookup;
pub use head_resolve::apply_upstream_outcome;
pub use head_resolve::counts_outcome;
pub use head_resolve::get_upstream_difference;
pub use head_resolve::head_info;
pub use head_resolve::oid_step;
pub use head_resolve::record_hop;
pub use head_resolve::OidStep;
pub use head_resolve::UpstreamOutcome;
pub use params::parse_duration;
pub use params::DurationValue;
pub use params::Params;
pub use shell_quote::shell_quote;
pub use shell_quote::shell_quote_debug;
pub use shell_writer::write_key_value;
pub use shell_writer::ShellVars;
pub use shell_writer::ShellWriter;
pub use summarize::render_summary;
pub use summarize::summarize_opened_repository;
pub use summarize::summarize_repository;
pub use summarize::workdir_or_empty;
pub use summarize::write_gather_failure;
pub use summarize::write_open_failure;
pub use summary::ChangeCounters;
pub use summary::Head;
pub use summary::Reference;
pub use strutil::display_option;
pub use strutil::usize_to_string;

//! The boundary to the git2 library.
//!
//! Every declaration and wrapper in this module is trusted: it states, over
//! plain values, what a git2 call returns, and the verified code builds on
//! those statements. Repository contents live on disk and can differ between
//! calls, so the contracts say only what holds of every outcome; the one
//! exception is the fixed shape of a rendered object id.

use vstd::prelude::*;

verus! {

#[verifier::external_type_specification]
#[verifier::external_body]
pub struct ExRepository(git2::Repository);

#[verifier::external_type_specification]
#[verifier::external_body]
pub struct ExGitError(git2::Error);

#[verifier::external_type_specification]
#[verifier::external_body]
pub struct ExOid(git2::Oid);

pub assume_specification[ git2::Repository::is_bare ](repo: &git2::Repository) -> bool;

pub assume_specification[ git2::Repository::is_empty ](repo: &git2::Repository) -> Result<
    bool,
    git2::Error,
>;

pub assume_specification[ git2::Repository::graph_ahead_behind ](
    repo: &git2::Repository,
    local: git2::Oid,
    upstream: git2::Oid,
) -> Result<(usize, usize), git2::Error>;

/// A failure reported by the git library, reduced to what this crate reads
/// of it: whether it says the opened path is not a repository, and its
/// diagnostic rendering.
pub enum GitError {
    /// The path is simply not a git repository.
    NotFound { detail: String },
    /// Any other failure.
    Other { detail: String },
}

/// The diagnostic rendering a git failure carries.
pub open spec fn git_error_detail(e: GitError) -> Seq<char> {
    match e {
        GitError::NotFound { detail } => detail@,
        GitError::Other { detail } => detail@,
    }
}

impl GitError {
    /// The diagnostic rendering of this failure.
    pub fn detail_str(&self) -> (r: &str)
        ensures
            r@ == git_error_detail(*self),
    {
        match self {
            GitError::NotFound { detail } => detail.as_str(),
            GitError::Other { detail } => detail.as_str(),
        }
    }

    /// The diagnostic rendering of this failure, taking ownership.
    pub fn into_detail(self) -> (r: String)
        ensures
            r@ == git_error_detail(self),
    {
        match self {
            GitError::NotFound { detail } => detail,
            GitError::Other { detail } => detail,
        }
    }
}

/// Relies on `git2::Error::code`, `git2::Error::class` and the derived
/// `Debug` of `git2::Error`: a not-found error of the repository class is
/// how git2 reports that a path is not a repository. The derived `Debug`
/// always renders at least the structure's name, so the detail is never
/// empty.
#[verifier::external_body]
pub(crate) fn git_error_info(e: &git2::Error) -> (r: GitError)
    ensures
        git_error_detail(r).len() > 0,
{
    let detail = format!("{:?}", e);
    if e.code() == git2::ErrorCode::NotFound && e.class() == git2::ErrorClass::Repository {
        GitError::NotFound { detail }
    } else {
        GitError::Other { detail }
    }
}

/// The outcome of looking up one named reference: the hop kinds of the
/// `HEAD` trail.
pub enum RefLookup {
    /// A reference that points straight at an object id (the id can be
    /// absent in principle; git2 reports it as an `Option`).
    Direct { name: String, id: Option<git2::Oid> },
    /// A reference that points at another reference by name; a symbolic
    /// reference whose target name git2 cannot report comes back with
    /// `target` absent.
    Symbolic { name: String, target: Option<String> },
    /// A reference of a kind git2 does not recognize.
    Unknown { name: String },
    /// The lookup failed.
    Failed { error: GitError },
}

/// Relies on `git2::Repository::find_reference` and, on the reference found,
/// `kind`, `name`, `target` and `symbolic_target`: the repository's
/// "resolve a named reference" operation, reduced to plain values. A name
/// that is not valid UTF-8 is reported as `""`.
#[verifier::external_body]
pub(crate) fn lookup_reference(repo: &git2::Repository, name: &str) -> RefLookup {
    let r = match repo.find_reference(name) {
        Ok(r) => r,
        Err(e) => return RefLookup::Failed { error: git_error_info(&e) },
    };
    let name = r.name().unwrap_or("").to_owned();
    let target = match r.symbolic_target() {
        Ok(Some(t)) => Some(t.to_owned()),
        _ => None,
    };
    match r.kind() {
        Some(git2::ReferenceType::Direct) => RefLookup::Direct { name, id: r.target() },
        Some(git2::ReferenceType::Symbolic) => RefLookup::Symbolic { name, target },
        None => RefLookup::Unknown { name },
    }
}

/// A character of a lowercase hexadecimal rendering.
pub open spec fn is_hex_digit_char(c: char) -> bool {
    ('0' <= c && c <= '9') || ('a' <= c && c <= 'f')
}

/// Relies on the `Display` impl of `git2::Oid`: it renders the id's twenty
/// bytes as forty lowercase hexadecimal digits.
#[verifier::external_body]
pub(crate) fn oid_hex_string(oid: &git2::Oid) -> (r: String)
    ensures
        r@.len() == 40,
        forall|i: int| 0 <= i < r@.len() ==> is_hex_digit_char(#[trigger] r@[i]),
{
    format!("{}", oid)
}

/// Relies on `git2::Repository::head`, `git2::Reference::resolve` and
/// `git2::Reference::target`: the object id `HEAD` resolves to, absent when
/// the fully dereferenced `HEAD` has none.
#[verifier::external_body]
pub(crate) fn head_resolved_target(repo: &git2::Repository) -> Result<
    Option<git2::Oid>,
    git2::Error,
> {
    Ok(repo.head()?.resolve()?.target())
}

/// Relies on `git2::Repository::head`, `git2::Reference::resolve`,
/// `git2::Branch::wrap`, `git2::Branch::upstream`, `git2::Branch::get` and
/// `git2::Reference::target`: the object id of the upstream branch
/// configured for the branch `HEAD` points at.
#[verifier::external_body]
pub(crate) fn head_upstream_target(repo: &git2::Repository) -> Result<
    Option<git2::Oid>,
    git2::Error,
> {
    let local = repo.head()?.resolve()?;
    Ok(git2::Branch::wrap(local).upstream()?.get().target())
}

/// Relies on `git2::Repository::state` and the derived `Debug` of
/// `git2::RepositoryState`: the repository's current operation (Clean,
/// Merge, CherryPick, ...), rendered by name.
#[verifier::external_body]
pub(crate) fn repository_state_debug(repo: &git2::Repository) -> String {
    format!("{:?}", repo.state())
}

/// Relies on `git2::Repository::workdir` and `std::path::Path::display`:
/// the working directory path rendered as text, absent for a bare
/// repository.
#[verifier::external_body]
pub(crate) fn repository_workdir(repo: &git2::Repository) -> Option<String> {
    repo.workdir().map(|p| format!("{}", p.display()))
}

/// Relies on `git2::Repository::statuses`, asked for index and working
/// tree, untracked files included and submodules excluded, and on each
/// entry's `status` flag bits: one plain flag word per status entry, in the
/// order the library reports them.
#[verifier::external_body]
pub(crate) fn repository_status_flags(repo: &git2::Repository) -> Result<Vec<u32>, git2::Error> {
    let mut options = git2::StatusOptions::new();
    options.show(git2::StatusShow::IndexAndWorkdir).include_untracked(true).exclude_submodules(
        true,
    );
    match repo.statuses(Some(&mut options)) {
        Ok(statuses) => Ok(statuses.iter().map(|entry| entry.status().bits()).collect()),
        Err(e) => Err(e),
    }
}

} // verus!

//! The calls into `git2` that a report is drawn from.
//!
//! Nothing in this file is proved. Each function makes the calls into `git2`
//! that its comment names and converts what goes in and what comes out:
//! borrowed strings become owned ones, status flags become their bits. Its
//! contract, where it has one, restates what `git2` documents of the call.

use crate::status::StatusEntry;
use vstd::prelude::*;

verus! {

/// `git2::Repository`: an open repository.
#[verifier::external_type_specification]
#[verifier::external_body]
pub struct ExRepository(git2::Repository);

/// `git2::Error`: why a call into `git2` failed.
#[verifier::external_type_specification]
#[verifier::external_body]
pub struct ExError(git2::Error);

/// `git2::Oid`: the identifier of an object.
#[verifier::external_type_specification]
#[verifier::external_body]
pub struct ExOid(git2::Oid);

/// `git2::string_array::StringArray`: an array of byte strings.
#[verifier::external_type_specification]
#[verifier::external_body]
pub struct ExStringArray(git2::string_array::StringArray);

/// `git2::Remote`: a remote, looked up by name.
#[verifier::external_type_specification]
#[verifier::external_body]
pub struct ExRemote<'repo>(git2::Remote<'repo>);

/// `git2::Branch`: a local or remote-tracking branch.
#[verifier::external_type_specification]
#[verifier::external_body]
pub struct ExBranch<'repo>(git2::Branch<'repo>);

/// `git2::Reference`: a reference, direct or symbolic.
#[verifier::external_type_specification]
#[verifier::external_body]
pub struct ExReference<'repo>(git2::Reference<'repo>);

/// `git2::Statuses`: a status listing.
#[verifier::external_type_specification]
#[verifier::external_body]
pub struct ExStatuses<'repo>(git2::Statuses<'repo>);

/// Which branches a listing covers.
#[derive(Clone, Copy, Debug, PartialEq, Eq, Structural)]
pub enum BranchKind {
    /// Branches under `refs/heads`.
    Local,
    /// Remote-tracking branches, under `refs/remotes`.
    Remote,
}

/// Which comparisons a status listing covers.
#[derive(Clone, Copy, Debug, PartialEq, Eq, Structural)]
pub enum StatusScope {
    /// The last commit against the index.
    Index,
    /// The index against the working directory.
    Workdir,
    /// Both.
    IndexAndWorkdir,
}

/// The strings that an array holds, in order; `None` stands for a string
/// that is not UTF-8.
pub uninterp spec fn strings(array: git2::string_array::StringArray) -> Seq<Option<Seq<char>>>;

/// The entries that a status listing holds, in order: the status bits of each
/// and its path, `None` for a path that is not UTF-8.
pub uninterp spec fn status_entries(list: git2::Statuses<'_>) -> Seq<(u32, Option<Seq<char>>)>;

/// The text that `git2` writes for a set of status bits when it is formatted
/// with `{:?}`.
pub uninterp spec fn status_debug(bits: u32) -> Seq<char>;

/// `Repository::open`: opens the repository at `path`. Nothing is claimed of
/// the outcome.
#[verifier::external_body]
pub(crate) fn open_repository(path: &str) -> (r: Result<git2::Repository, git2::Error>) {
    git2::Repository::open(path)
}

/// `Repository::remotes`: the names of the configured remotes. Nothing is
/// claimed of the outcome.
#[verifier::external_body]
pub(crate) fn remotes(repo: &git2::Repository) -> (r: Result<
    git2::string_array::StringArray,
    git2::Error,
>) {
    repo.remotes()
}

/// `StringArray::len`: the number of strings in the array.
#[verifier::external_body]
pub(crate) fn strings_len(array: &git2::string_array::StringArray) -> (n: usize)
    ensures
        n == strings(*array).len(),
{
    array.len()
}

/// `StringArray::get`: the string at index `i`. Past the end there is none;
/// within the array, a string that is UTF-8 is returned and any other is an
/// error.
#[verifier::external_body]
pub(crate) fn strings_get(array: &git2::string_array::StringArray, i: usize) -> (r: Result<
    Option<String>,
    git2::Error,
>)
    ensures
        i >= strings(*array).len() ==> r matches Ok(None),
        i < strings(*array).len() ==> match strings(*array)[i as int] {
            Some(text) => r matches Ok(Some(s)) && s@ == text,
            None => r is Err,
        },
{
    array.get(i).map(|found| found.map(String::from))
}

/// `Repository::find_remote`: the remote of that name. Nothing is claimed of
/// the outcome.
#[verifier::external_body]
pub(crate) fn find_remote<'r>(repo: &'r git2::Repository, name: &str) -> (r: Result<
    git2::Remote<'r>,
    git2::Error,
>) {
    repo.find_remote(name)
}

/// `Remote::url`: the URL of the remote, an error if it is not UTF-8.
#[verifier::external_body]
pub(crate) fn remote_url(remote: &git2::Remote<'_>) -> (r: Result<String, git2::Error>) {
    remote.url().map(String::from)
}

/// `Repository::branches`: the branches of one kind, each as the listing
/// yielded it. Nothing is claimed of the outcome.
#[verifier::external_body]
pub(crate) fn branches<'r>(repo: &'r git2::Repository, kind: BranchKind) -> (r: Result<
    Vec<Result<git2::Branch<'r>, git2::Error>>,
    git2::Error,
>) {
    let filter = match kind {
        BranchKind::Local => git2::BranchType::Local,
        BranchKind::Remote => git2::BranchType::Remote,
    };
    let listing = repo.branches(Some(filter))?;
    Ok(listing.map(|item| item.map(|(branch, _)| branch)).collect())
}

/// `Branch::name`: the short name of the branch, `None` if it is not UTF-8.
#[verifier::external_body]
pub(crate) fn branch_name(branch: &git2::Branch<'_>) -> (r: Result<Option<String>, git2::Error>) {
    branch.name().map(|found| found.map(String::from))
}

/// `Branch::get`: the reference behind the branch.
#[verifier::external_body]
pub(crate) fn branch_reference<'a, 'r>(branch: &'a git2::Branch<'r>) -> (r: &'a git2::Reference<
    'r,
>) {
    branch.get()
}

/// `Branch::upstream`: the remote-tracking branch that the branch follows.
/// Nothing is claimed of the outcome.
#[verifier::external_body]
pub(crate) fn branch_upstream<'r>(branch: &git2::Branch<'r>) -> (r: Result<
    git2::Branch<'r>,
    git2::Error,
>) {
    branch.upstream()
}

/// `Reference::resolve`: the direct reference that the reference leads to.
/// Nothing is claimed of the outcome.
#[verifier::external_body]
pub(crate) fn reference_resolve<'r>(reference: &git2::Reference<'r>) -> (r: Result<
    git2::Reference<'r>,
    git2::Error,
>) {
    reference.resolve()
}

/// `Reference::name`: the full name of the reference, an error if it is not
/// UTF-8.
#[verifier::external_body]
pub(crate) fn reference_name(reference: &git2::Reference<'_>) -> (r: Result<String, git2::Error>) {
    reference.name().map(String::from)
}

/// `Reference::target`: the object that a direct reference points to, `None`
/// for a symbolic one.
#[verifier::external_body]
pub(crate) fn reference_target(reference: &git2::Reference<'_>) -> (r: Option<git2::Oid>) {
    reference.target()
}

/// `Repository::graph_ahead_behind`: how many commits are reachable from
/// `local` only and from `upstream` only, in that order. Nothing is claimed
/// of the outcome.
#[verifier::external_body]
pub(crate) fn graph_ahead_behind(
    repo: &git2::Repository,
    local: git2::Oid,
    upstream: git2::Oid,
) -> (r: Result<(usize, usize), git2::Error>) {
    repo.graph_ahead_behind(local, upstream)
}

/// `Repository::statuses`, with options made by `StatusOptions::new`, `show`
/// and `include_untracked`: the status listing of the given scope. Nothing is
/// claimed of the outcome.
#[verifier::external_body]
pub(crate) fn statuses<'r>(
    repo: &'r git2::Repository,
    scope: StatusScope,
    include_untracked: bool,
) -> (r: Result<git2::Statuses<'r>, git2::Error>) {
    let show = match scope {
        StatusScope::Index => git2::StatusShow::Index,
        StatusScope::Workdir => git2::StatusShow::Workdir,
        StatusScope::IndexAndWorkdir => git2::StatusShow::IndexAndWorkdir,
    };
    let mut options = git2::StatusOptions::new();
    options.show(show).include_untracked(include_untracked);
    repo.statuses(Some(&mut options))
}

/// `Statuses::len`: the number of entries in the listing.
#[verifier::external_body]
pub(crate) fn statuses_len(list: &git2::Statuses<'_>) -> (n: usize)
    ensures
        n == status_entries(*list).len(),
{
    list.len()
}

/// `Statuses::get`, then `StatusEntry::status` and `StatusEntry::path`: the
/// entry at index `i`, as its status bits and its path. There is an entry
/// exactly within the listing; one whose path is not UTF-8 is an error.
#[verifier::external_body]
pub(crate) fn statuses_get(list: &git2::Statuses<'_>, i: usize) -> (r: Option<Result<StatusEntry, git2::Error>>)
    ensures
        i >= status_entries(*list).len() ==> r is None,
        i < status_entries(*list).len() ==> match status_entries(*list)[i as int].1 {
            Some(text) => r matches Some(Ok(entry)) && entry.path@ == text && entry.status
                == status_entries(*list)[i as int].0,
            None => r matches Some(Err(_)),
        },
{
    list.get(i).map(|entry| {
        let status = entry.status().bits();
        entry.path().map(|path| StatusEntry { status, path: String::from(path) })
    })
}

/// `Status::from_bits_truncate`, then the `Debug` form of the status: the
/// text that `git2` writes for these status bits.
#[verifier::external_body]
pub(crate) fn status_label(bits: u32) -> (s: String)
    ensures
        s@ == status_debug(bits),
{
    format!("{:?}", git2::Status::from_bits_truncate(bits))
}

} // verus!

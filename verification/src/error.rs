//! Why a report could not be made.

use vstd::prelude::*;

verus! {

/// The step of the report at which the repository gave no answer.
#[derive(Clone, Copy, Debug, PartialEq, Eq, Structural)]
pub enum Step {
    /// Opening the repository.
    Open,
    /// Listing the names of the remotes.
    ListRemotes,
    /// Reading the name of a remote.
    RemoteName,
    /// Looking a remote up by its name.
    FindRemote,
    /// Reading the URL of a remote.
    RemoteUrl,
    /// Listing the local branches.
    ListLocalBranches,
    /// Reading the next branch of the local listing.
    NextBranch,
    /// Reading the name of a local branch.
    BranchName,
    /// Reading the commit that a local branch points to.
    BranchTarget,
    /// Reading the name of an upstream branch.
    UpstreamName,
    /// Reading the commit that an upstream branch points to.
    UpstreamTarget,
    /// Counting the commits between a local branch and its upstream.
    AheadBehind,
    /// Listing the remote-tracking branches, for a branch without upstream.
    ListRemoteBranches,
    /// Listing the status entries.
    ListStatuses,
    /// Reading the path of a status entry.
    StatusPath,
}

/// A failed report: the step that failed and, where `git2` reported one, its
/// error. There is no error where a value was simply absent.
#[derive(Debug)]
pub struct ReportError {
    pub step: Step,
    pub cause: Option<git2::Error>,
}

/// Keeps the outcome of a call that is needed at `step`; its failure is the
/// failure of the report.
pub fn succeeded<T>(outcome: Result<T, git2::Error>, step: Step) -> (r: Result<T, ReportError>)
    ensures
        match outcome {
            Ok(value) => r == Ok::<T, ReportError>(value),
            Err(e) => r == Err::<T, ReportError>(ReportError { step, cause: Some(e) }),
        },
{
    match outcome {
        Ok(value) => Ok(value),
        Err(e) => Err(ReportError { step, cause: Some(e) }),
    }
}

/// Keeps a value that is needed at `step`; its absence is the failure of the
/// report.
pub fn present<T>(value: Option<T>, step: Step) -> (r: Result<T, ReportError>)
    ensures
        match value {
            Some(v) => r == Ok::<T, ReportError>(v),
            None => r == Err::<T, ReportError>(ReportError { step, cause: None }),
        },
{
    match value {
        Some(v) => Ok(v),
        None => Err(ReportError { step, cause: None }),
    }
}

/// Keeps a name that is needed at `step`: both a failed call and a name that
/// is not UTF-8 are the failure of the report.
pub fn named(outcome: Result<Option<String>, git2::Error>, step: Step) -> (r: Result<
    String,
    ReportError,
>)
    ensures
        match outcome {
            Ok(Some(name)) => r == Ok::<String, ReportError>(name),
            Ok(None) => r == Err::<String, ReportError>(ReportError { step, cause: None }),
            Err(e) => r == Err::<String, ReportError>(ReportError { step, cause: Some(e) }),
        },
{
    match outcome {
        Ok(Some(name)) => Ok(name),
        Ok(None) => Err(ReportError { step, cause: None }),
        Err(e) => Err(ReportError { step, cause: Some(e) }),
    }
}

} // verus!

//! Reading a repository: remotes, branches and their divergence, status.
//!
//! What the repository answers is not known before it is asked, so the
//! functions that ask state what holds of every answer; the functions that
//! take an answer as an argument state what becomes of it.

use crate::error::{named, present, succeeded, ReportError, Step};
use crate::git::{
    branch_name, branch_reference, branch_upstream, branches, find_remote, graph_ahead_behind,
    open_repository, reference_name, reference_resolve, reference_target, remote_url, remotes,
    status_entries, statuses, statuses_get, statuses_len, strings, strings_get, strings_len,
    BranchKind, StatusScope,
};
use crate::line::{Line, LineView};
use crate::model::{
    BranchState, BranchStateView, Comparison, ComparisonView, RemoteInfo, Snapshot, SnapshotView,
    Tracking, TrackingView,
};
use crate::report::{comparison_line, full_report, report_lines};
use crate::severity::{level_of, Level};
use crate::status::{StatusEntry, StatusEntryView};
use vstd::prelude::*;

verus! {

/// Opens the repository at `path`.
pub fn open(path: &str) -> (r: Result<git2::Repository, ReportError>)
    ensures
        r matches Err(e) ==> e.step == Step::Open && e.cause is Some,
{
    succeeded(open_repository(path), Step::Open)
}

/// Whether `step` is one of the steps of resolving a remote.
pub open spec fn remote_step(step: Step) -> bool {
    step == Step::RemoteName || step == Step::FindRemote || step == Step::RemoteUrl
}

/// Resolves each name of `names` to a remote with its URL.
///
/// On success there is one remote for each name, under that name and in the
/// order of `names`. A name that is not UTF-8 fails the whole listing, as does
/// a remote that cannot be found or has no readable URL. Without names there
/// is nothing to fail.
pub fn resolve_remotes(repo: &git2::Repository, names: &git2::string_array::StringArray) -> (r:
    Result<Vec<RemoteInfo>, ReportError>)
    ensures
        strings(*names).len() == 0 ==> r is Ok,
        match r {
            Ok(found) => {
                &&& found.len() == strings(*names).len()
                &&& forall|i: int|
                    0 <= i < found.len() ==> strings(*names)[i] == Some(#[trigger] found[i].name@)
            },
            Err(e) => {
                &&& remote_step(e.step)
                &&& e.step == Step::RemoteName ==> exists|i: int|
                    0 <= i < strings(*names).len() && strings(*names)[i] is None
            },
        },
{
    let n: usize = strings_len(names);
    let mut found: Vec<RemoteInfo> = Vec::new();
    let mut i: usize = 0;
    while i < n
        invariant
            n == strings(*names).len(),
            i <= n,
            found.len() == i,
            forall|j: int| 0 <= j < i ==> strings(*names)[j] == Some(#[trigger] found[j].name@),
        decreases n - i,
    {
        let name = named(strings_get(names, i), Step::RemoteName)?;
        let remote = succeeded(find_remote(repo, name.as_str()), Step::FindRemote)?;
        let url = succeeded(remote_url(&remote), Step::RemoteUrl)?;
        found.push(RemoteInfo { name, url });
        i = i + 1;
    }
    Ok(found)
}

/// Lists the configured remotes with their URLs, in the order in which the
/// repository names them.
pub fn list_remotes(repo: &git2::Repository) -> (r: Result<Vec<RemoteInfo>, ReportError>)
    ensures
        r matches Err(e) ==> e.step == Step::ListRemotes || remote_step(e.step),
{
    let names = succeeded(remotes(repo), Step::ListRemotes)?;
    resolve_remotes(repo, &names)
}

/// The comparison that three findings about a remote-tracking branch amount
/// to: there is one only if its name, the name of the reference it resolves
/// to and the divergence were all found.
pub open spec fn comparison_from(
    remote: Option<Seq<char>>,
    reference: Option<Seq<char>>,
    divergence: Option<(usize, usize)>,
) -> Option<ComparisonView> {
    match (remote, reference, divergence) {
        (Some(remote), Some(reference), Some((ahead, behind))) => Some(
            ComparisonView { remote, reference, ahead: ahead as nat, behind: behind as nat },
        ),
        _ => None,
    }
}

/// The view of a name that may be absent.
pub open spec fn name_view(name: Option<String>) -> Option<Seq<char>> {
    match name {
        Some(name) => Some(name@),
        None => None,
    }
}

/// Puts a comparison together from what was found about a remote-tracking
/// branch; anything absent means that there is no comparison.
pub fn comparison_of(
    remote: Option<String>,
    reference: Option<String>,
    divergence: Option<(usize, usize)>,
) -> (r: Option<Comparison>)
    ensures
        match comparison_from(name_view(remote), name_view(reference), divergence) {
            Some(expected) => r matches Some(comparison) && comparison@ == expected,
            None => r is None,
        },
{
    match (remote, reference, divergence) {
        (Some(remote), Some(reference), Some((ahead, behind))) => Some(
            Comparison { remote, reference, ahead, behind },
        ),
        _ => None,
    }
}

/// What was found about one remote-tracking branch when a commit was
/// measured against it. Each part may be missing: the short name of the
/// branch, the full name of the reference that the branch resolves to, and
/// the counts of commits ahead and behind, in that order.
#[derive(Clone, Debug, PartialEq, Eq)]
pub struct Finding {
    /// The short name of the remote-tracking branch, if it is readable.
    pub remote: Option<String>,
    /// The full name of the reference that the branch resolves to, if the
    /// branch resolves and the name is readable.
    pub reference: Option<String>,
    /// The commits reachable from the measured commit only, then those
    /// reachable from the branch only, if they were counted.
    pub divergence: Option<(usize, usize)>,
}

/// What a [`Finding`] holds.
pub ghost struct FindingView {
    pub remote: Option<Seq<char>>,
    pub reference: Option<Seq<char>>,
    pub divergence: Option<(usize, usize)>,
}

impl View for Finding {
    type V = FindingView;

    open spec fn view(&self) -> FindingView {
        FindingView {
            remote: name_view(self.remote),
            reference: name_view(self.reference),
            divergence: self.divergence,
        }
    }
}

impl DeepView for Finding {
    type V = FindingView;

    open spec fn deep_view(&self) -> FindingView {
        self@
    }
}

impl FindingView {
    /// The comparison that the finding amounts to, if nothing is missing.
    pub open spec fn comparison(self) -> Option<ComparisonView> {
        comparison_from(self.remote, self.reference, self.divergence)
    }
}

/// The comparisons that a run of findings amounts to: the comparison of each
/// finding that misses nothing, in the order of the findings. A finding that
/// misses a part is passed over.
pub open spec fn comparisons_from(findings: Seq<FindingView>) -> Seq<ComparisonView> {
    findings.filter_map(|finding: FindingView| finding.comparison())
}

/// Turns findings into comparisons: one for each finding that misses
/// nothing, in order, and none for any other.
pub fn comparisons_of(findings: Vec<Finding>) -> (comparisons: Vec<Comparison>)
    ensures
        comparisons.deep_view() == comparisons_from(findings.deep_view()),
{
    let mut comparisons: Vec<Comparison> = Vec::new();
    let ghost all = findings.deep_view();
    let ghost pick = |finding: FindingView| finding.comparison();
    assert(comparisons.deep_view() =~= all.take(0).filter_map(pick));
    for finding in items: findings
        invariant
            items.seq() == findings@,
            all == findings.deep_view(),
            pick == |finding: FindingView| finding.comparison(),
            comparisons.deep_view() == all.take(items.index() as int).filter_map(pick),
    {
        let ghost before = comparisons.deep_view();
        let ghost at = items.index() as int;
        proof {
            all.lemma_filter_map_take_succ(pick, at);
            assert(all[at] == finding@);
        }
        match comparison_of(finding.remote, finding.reference, finding.divergence) {
            Some(comparison) => {
                comparisons.push(comparison);
                assert(comparisons.deep_view() =~= before + seq![comparison@]);
            },
            None => {
                assert(before + Seq::<ComparisonView>::empty() =~= before);
            },
        }
    }
    assert(all.take(findings.len() as int) =~= all);
    comparisons
}

/// Findings that miss nothing are all turned into comparisons: there is one
/// comparison for each finding, in order, and it is the comparison of that
/// finding, under the names found and with the counts as found.
pub proof fn lemma_complete_findings_all_compared(findings: Seq<FindingView>)
    requires
        forall|i: int| 0 <= i < findings.len() ==> (#[trigger] findings[i]).comparison() is Some,
    ensures
        comparisons_from(findings).len() == findings.len(),
        forall|i: int|
            0 <= i < findings.len() ==> Some(#[trigger] comparisons_from(findings)[i])
                == findings[i].comparison(),
    decreases findings.len(),
{
    if findings.len() > 0 {
        let rest = findings.drop_last();
        assert forall|i: int| 0 <= i < rest.len() implies (#[trigger] rest[i]).comparison()
            is Some by {
            assert(rest[i] == findings[i]);
        }
        lemma_complete_findings_all_compared(rest);
        assert(findings.last() == findings[findings.len() - 1]);
        assert forall|i: int| 0 <= i < findings.len() implies Some(
            #[trigger] comparisons_from(findings)[i],
        ) == findings[i].comparison() by {
            if i < rest.len() {
                assert(comparisons_from(findings)[i] == comparisons_from(rest)[i]);
                assert(rest[i] == findings[i]);
            }
        }
    }
}

/// A finding that misses nothing is reported in one line: under the name of
/// the branch and the name of the reference, with the count ahead first and
/// the count behind second, and as a warning exactly if the count ahead is
/// above zero.
pub proof fn lemma_finding_line(
    remote: Seq<char>,
    reference: Seq<char>,
    ahead: usize,
    behind: usize,
)
    ensures
        ({
            let finding = FindingView {
                remote: Some(remote),
                reference: Some(reference),
                divergence: Some((ahead, behind)),
            };
            let line = LineView::RemoteBranch {
                remote,
                reference,
                ahead: ahead as nat,
                behind: behind as nat,
            };
            &&& comparisons_from(seq![finding]).len() == 1
            &&& comparison_line(comparisons_from(seq![finding])[0]) == line
            &&& line.level() == level_of(ahead as nat)
            &&& line.level() == Level::Warn <==> ahead > 0
        }),
{
    let finding = FindingView {
        remote: Some(remote),
        reference: Some(reference),
        divergence: Some((ahead, behind)),
    };
    assert(seq![finding][0] == finding);
    lemma_complete_findings_all_compared(seq![finding]);
}

/// Joining two runs of findings joins their comparisons.
pub proof fn lemma_comparisons_joined(front: Seq<FindingView>, back: Seq<FindingView>)
    ensures
        comparisons_from(front + back) == comparisons_from(front) + comparisons_from(back),
    decreases back.len(),
{
    if back.len() == 0 {
        assert(front + back =~= front);
        assert(comparisons_from(front) + comparisons_from(back) =~= comparisons_from(front));
    } else {
        lemma_comparisons_joined(front, back.drop_last());
        assert((front + back).drop_last() =~= front + back.drop_last());
        assert((front + back).last() == back.last());
        assert(comparisons_from(front + back) =~= comparisons_from(front) + comparisons_from(
            back,
        ));
    }
}

/// A finding that misses a part is passed over: the comparisons are those of
/// the findings before it and after it, as if it were not there.
pub proof fn lemma_incomplete_finding_passed_over(
    before: Seq<FindingView>,
    finding: FindingView,
    after: Seq<FindingView>,
)
    requires
        finding.comparison() is None,
    ensures
        comparisons_from(before.push(finding) + after) == comparisons_from(before + after),
{
    lemma_comparisons_joined(before.push(finding), after);
    lemma_comparisons_joined(before, after);
    assert(before.push(finding).drop_last() =~= before);
}

/// There are never more comparisons than findings.
pub proof fn lemma_comparisons_bounded(findings: Seq<FindingView>)
    ensures
        comparisons_from(findings).len() <= findings.len(),
    decreases findings.len(),
{
    if findings.len() > 0 {
        lemma_comparisons_bounded(findings.drop_last());
    }
}

/// What is read of a branch as soon as it is listed: its short name and the
/// commit it points to. The functions here go by these two values; the branch
/// itself is kept beside them as what later lookups start from.
pub struct ListedBranch<'repo> {
    /// The short name of the branch: `Ok(None)` if it is not UTF-8, an error
    /// if it could not be read.
    pub name: Result<Option<String>, git2::Error>,
    /// The commit that the branch points to, none for a symbolic branch.
    pub target: Option<git2::Oid>,
    /// The branch, as it was listed.
    pub branch: git2::Branch<'repo>,
}

/// The name of a branch, if it was read and is UTF-8.
pub open spec fn readable_name(name: Result<Option<String>, git2::Error>) -> Option<Seq<char>> {
    match name {
        Ok(Some(name)) => Some(name@),
        _ => None,
    }
}

/// The readable name of an item of a listing; an item that is no branch has
/// none.
pub open spec fn item_name(item: Result<ListedBranch<'_>, git2::Error>) -> Option<Seq<char>> {
    match item {
        Ok(listed) => readable_name(listed.name),
        Err(_) => None,
    }
}

/// Reads the name and the target of a branch.
pub fn read_branch<'r>(branch: git2::Branch<'r>) -> (read: ListedBranch<'r>)
    ensures
        read.branch == branch,
{
    let name = branch_name(&branch);
    let target = reference_target(branch_reference(&branch));
    ListedBranch { name, target, branch }
}

/// Reads the name and the target of each branch of a listing. The items keep
/// their places, and an item that is no branch stays the error it was.
pub fn read_listing<'r>(listing: Vec<Result<git2::Branch<'r>, git2::Error>>) -> (read: Vec<
    Result<ListedBranch<'r>, git2::Error>,
>)
    ensures
        read.len() == listing.len(),
        forall|i: int|
            0 <= i < listing.len() ==> match #[trigger] listing[i] {
                Ok(branch) => read[i] matches Ok(listed) && listed.branch == branch,
                Err(e) => read[i] == Err::<ListedBranch<'r>, git2::Error>(e),
            },
{
    let mut read: Vec<Result<ListedBranch<'r>, git2::Error>> = Vec::new();
    for item in items: listing
        invariant
            items.seq() == listing@,
            read.len() == items.index(),
            forall|i: int|
                0 <= i < items.index() ==> match #[trigger] listing[i] {
                    Ok(branch) => read[i] matches Ok(listed) && listed.branch == branch,
                    Err(e) => read[i] == Err::<ListedBranch<'r>, git2::Error>(e),
                },
    {
        match item {
            Ok(branch) => {
                read.push(Ok(read_branch(branch)));
            },
            Err(e) => {
                read.push(Err(e));
            },
        }
    }
    read
}

/// A copy of the name of a branch, if it was read and is UTF-8.
pub fn name_of(listed: &ListedBranch<'_>) -> (name: Option<String>)
    ensures
        name_view(name) == readable_name(listed.name),
{
    match &listed.name {
        Ok(Some(name)) => Some(name.clone()),
        _ => None,
    }
}

/// What a branch resolves to: the full name of the direct reference at the
/// end, if it is UTF-8, and the commit that the reference points to.
pub struct Resolved {
    /// The full name of the direct reference, if it is UTF-8.
    pub name: Option<String>,
    /// The commit that the direct reference points to.
    pub target: Option<git2::Oid>,
}

/// The commit that the counting is asked for: the target of the resolved
/// reference, and only where the branch has a readable name and resolves to a
/// reference with a readable name.
pub open spec fn wanted_target(remote: Option<String>, resolved: Option<Resolved>) -> Option<
    git2::Oid,
> {
    match (remote, resolved) {
        (Some(_), Some(resolved)) => if resolved.name is Some {
            resolved.target
        } else {
            None
        },
        _ => None,
    }
}

/// Says which commit to count against, if any: none where something is
/// already known to be missing.
pub fn target_to_count(remote: &Option<String>, resolved: &Option<Resolved>) -> (target: Option<
    git2::Oid,
>)
    ensures
        target == wanted_target(*remote, *resolved),
{
    match (remote, resolved) {
        (Some(_), Some(resolved)) => {
            if resolved.name.is_some() {
                resolved.target
            } else {
                None
            }
        },
        _ => None,
    }
}

/// The name of the reference that a branch resolved to; none where it did not
/// resolve.
pub open spec fn resolved_name(resolved: Option<Resolved>) -> Option<Seq<char>> {
    match resolved {
        Some(resolved) => name_view(resolved.name),
        None => None,
    }
}

/// Puts down what was found about a branch: its name, the name of the
/// reference it resolved to, and the counts as they came.
pub fn finding_of(
    remote: Option<String>,
    resolved: Option<Resolved>,
    counted: Option<(usize, usize)>,
) -> (finding: Finding)
    ensures
        finding@ == (FindingView {
            remote: name_view(remote),
            reference: resolved_name(resolved),
            divergence: counted,
        }),
{
    let reference = match resolved {
        Some(resolved) => resolved.name,
        None => None,
    };
    Finding { remote, reference, divergence: counted }
}

/// The finding for an item of a listing that is no branch: nothing.
pub fn no_finding() -> (finding: Finding)
    ensures
        finding@ == (FindingView { remote: None, reference: None, divergence: None }),
{
    Finding { remote: None, reference: None, divergence: None }
}

/// Measures the commit `local` against one remote-tracking branch and puts
/// down what was found. The finding is under the name of the branch, and the
/// commits are counted only where the branch has a readable name and resolves
/// to a reference with a readable name and a target.
fn compare_to_branch(repo: &git2::Repository, local: git2::Oid, listed: &ListedBranch<'_>) -> (finding:
    Finding)
    ensures
        finding@.remote == readable_name(listed.name),
        finding@.divergence is Some ==> finding@.remote is Some && finding@.reference is Some,
{
    let remote = name_of(listed);
    let resolved = match reference_resolve(branch_reference(&listed.branch)) {
        Ok(reference) => Some(
            Resolved { name: reference_name(&reference).ok(), target: reference_target(&reference) },
        ),
        Err(_) => None,
    };
    let counted = match target_to_count(&remote, &resolved) {
        Some(target) => graph_ahead_behind(repo, local, target).ok(),
        None => None,
    };
    finding_of(remote, resolved, counted)
}

/// How many items of a branch listing are branches.
pub open spec fn listed(listing: Seq<Result<ListedBranch<'_>, git2::Error>>) -> nat {
    listing.filter(|item: Result<ListedBranch<'_>, git2::Error>| item is Ok).len()
}

/// Whether the findings are those of the listing: one finding for each item,
/// in place and under the readable name of the item, and nothing found for an
/// item that is no branch.
pub open spec fn found_in(
    findings: Seq<FindingView>,
    listing: Seq<Result<ListedBranch<'_>, git2::Error>>,
) -> bool {
    &&& findings.len() == listing.len()
    &&& forall|i: int|
        0 <= i < findings.len() ==> {
            &&& (#[trigger] findings[i]).remote == item_name(listing[i])
            &&& listing[i] is Err ==> findings[i].reference is None && findings[i].divergence
                is None
        }
}

/// Findings of a listing give no more comparisons than the listing has
/// branches.
pub proof fn lemma_comparisons_within_listing(
    findings: Seq<FindingView>,
    listing: Seq<Result<ListedBranch<'_>, git2::Error>>,
)
    requires
        found_in(findings, listing),
    ensures
        comparisons_from(findings).len() <= listed(listing),
    decreases findings.len(),
{
    reveal(Seq::filter);
    if findings.len() > 0 {
        assert(found_in(findings.drop_last(), listing.drop_last())) by {
            assert forall|i: int| 0 <= i < findings.len() - 1 implies {
                &&& (#[trigger] findings.drop_last()[i]).remote == item_name(
                    listing.drop_last()[i],
                )
                &&& listing.drop_last()[i] is Err ==> findings.drop_last()[i].reference is None
                    && findings.drop_last()[i].divergence is None
            } by {
                assert(findings.drop_last()[i] == findings[i]);
                assert(listing.drop_last()[i] == listing[i]);
            }
        }
        lemma_comparisons_within_listing(findings.drop_last(), listing.drop_last());
        assert(findings.last() == findings[findings.len() - 1]);
        assert(listing.last() == listing[listing.len() - 1]);
    }
}

/// Measures the commit `local` against each branch of `listing`, in order.
///
/// The comparisons are those of the findings of the listing: there is a
/// finding for each item, under its readable name, and each finding that
/// misses nothing gives one comparison, in the order of the listing. An item
/// that is no branch, a branch without readable name and a branch that does
/// not resolve are passed over, so there are no more comparisons than
/// branches.
pub fn compare_to_branches(
    repo: &git2::Repository,
    local: git2::Oid,
    listing: &Vec<Result<ListedBranch<'_>, git2::Error>>,
) -> (comparisons: Vec<Comparison>)
    ensures
        exists|findings: Seq<FindingView>|
            found_in(findings, listing@) && comparisons.deep_view() == comparisons_from(findings),
        comparisons.len() <= listed(listing@),
{
    let mut findings: Vec<Finding> = Vec::new();
    let mut i: usize = 0;
    while i < listing.len()
        invariant
            i <= listing.len(),
            findings.len() == i,
            forall|j: int|
                0 <= j < i ==> {
                    &&& (#[trigger] findings[j])@.remote == item_name(listing[j])
                    &&& listing[j] is Err ==> findings[j]@.reference is None
                        && findings[j]@.divergence is None
                },
        decreases listing.len() - i,
    {
        let finding = match &listing[i] {
            Ok(branch) => compare_to_branch(repo, local, branch),
            Err(_) => no_finding(),
        };
        findings.push(finding);
        i = i + 1;
    }
    proof {
        assert(found_in(findings.deep_view(), listing@));
        lemma_comparisons_within_listing(findings.deep_view(), listing@);
    }
    comparisons_of(findings)
}

/// Measures a branch without upstream, whose commit is `local`, against
/// every remote-tracking branch of the repository. Only the listing of those
/// branches can fail; what is returned otherwise are the comparisons of the
/// findings, one for each finding that misses nothing.
pub fn compare_orphan_to_remotes(repo: &git2::Repository, local: git2::Oid) -> (r: Result<
    Vec<Comparison>,
    ReportError,
>)
    ensures
        match r {
            Ok(comparisons) => exists|findings: Seq<FindingView>|
                comparisons.deep_view() == comparisons_from(findings),
            Err(e) => e.step == Step::ListRemoteBranches && e.cause is Some,
        },
{
    let listing = succeeded(branches(repo, BranchKind::Remote), Step::ListRemoteBranches)?;
    let listing = read_listing(listing);
    Ok(compare_to_branches(repo, local, &listing))
}

/// Whether `step` is one of the steps that follow the reading of a local
/// branch's own name and target.
pub open spec fn upstream_step(step: Step) -> bool {
    ||| step == Step::UpstreamName
    ||| step == Step::UpstreamTarget
    ||| step == Step::AheadBehind
    ||| step == Step::ListRemoteBranches
}

/// Whether `step` is one of the steps of inspecting a local branch.
pub open spec fn branch_step(step: Step) -> bool {
    step == Step::BranchName || step == Step::BranchTarget || upstream_step(step)
}

/// The state of a branch that follows an upstream, from the outcome of
/// counting the commits between the two: the counts as they came, or the
/// failure of the count.
pub fn upstream_state(name: String, upstream: String, counted: Result<(usize, usize), git2::Error>) -> (r:
    Result<BranchState, ReportError>)
    ensures
        match counted {
            Ok((ahead, behind)) => r matches Ok(state) && state@ == (BranchStateView {
                name: name@,
                tracking: TrackingView::Upstream {
                    name: upstream@,
                    ahead: ahead as nat,
                    behind: behind as nat,
                },
            }),
            Err(e) => r == Err::<BranchState, ReportError>(
                ReportError { step: Step::AheadBehind, cause: Some(e) },
            ),
        },
{
    match counted {
        Ok((ahead, behind)) => Ok(
            BranchState { name, tracking: Tracking::Upstream { name: upstream, ahead, behind } },
        ),
        Err(e) => Err(ReportError { step: Step::AheadBehind, cause: Some(e) }),
    }
}

/// The state of a branch without upstream, from the outcome of measuring it
/// against the remote-tracking branches: the comparisons as they came, or the
/// failure as it came.
pub fn orphan_state(name: String, compared: Result<Vec<Comparison>, ReportError>) -> (r: Result<
    BranchState,
    ReportError,
>)
    ensures
        match compared {
            Ok(comparisons) => r matches Ok(state) && state@ == (BranchStateView {
                name: name@,
                tracking: TrackingView::Orphan { comparisons: comparisons.deep_view() },
            }),
            Err(e) => r == Err::<BranchState, ReportError>(e),
        },
{
    match compared {
        Ok(comparisons) => Ok(BranchState { name, tracking: Tracking::Orphan { comparisons } }),
        Err(e) => Err(e),
    }
}

/// Inspects one local branch: its divergence from the upstream or, without
/// one, from every remote-tracking branch.
///
/// A branch whose name is unreadable fails at its name, and one that has a
/// name and no target fails at its target. For any other branch the state, if
/// there is one, is under the name of the branch, and a failure lies in what
/// was looked up after it.
pub fn inspect_branch(repo: &git2::Repository, listed: ListedBranch<'_>) -> (r: Result<
    BranchState,
    ReportError,
>)
    ensures
        readable_name(listed.name) is None ==> (r matches Err(e) && e.step == Step::BranchName),
        readable_name(listed.name) is Some && listed.target is None ==> (r matches Err(e) && e.step
            == Step::BranchTarget && e.cause is None),
        readable_name(listed.name) is Some && listed.target is Some ==> match r {
            Ok(state) => Some(state.name@) == readable_name(listed.name),
            Err(e) => upstream_step(e.step),
        },
{
    let name = named(listed.name, Step::BranchName)?;
    let local = present(listed.target, Step::BranchTarget)?;
    match branch_upstream(&listed.branch) {
        Ok(upstream) => {
            let upstream = read_branch(upstream);
            let upstream_name = named(upstream.name, Step::UpstreamName)?;
            let target = present(upstream.target, Step::UpstreamTarget)?;
            upstream_state(name, upstream_name, graph_ahead_behind(repo, local, target))
        },
        Err(_) => orphan_state(name, compare_orphan_to_remotes(repo, local)),
    }
}

/// Inspects each branch of a local listing, in order. An item of the listing
/// that is no branch fails the whole walk, as does a branch without readable
/// name or without target: on success there is one state for each item, in
/// the order of the listing and under the name of its branch. An empty
/// listing gives no state and cannot fail.
pub fn inspect_branches(
    repo: &git2::Repository,
    listing: Vec<Result<ListedBranch<'_>, git2::Error>>,
) -> (r: Result<Vec<BranchState>, ReportError>)
    ensures
        listing.len() == 0 ==> r is Ok,
        match r {
            Ok(states) => {
                &&& states.len() == listing.len()
                &&& forall|i: int|
                    0 <= i < listing.len() ==> {
                        &&& item_name(#[trigger] listing[i]) == Some(states[i].name@)
                        &&& listing[i] matches Ok(listed) && listed.target is Some
                    }
            },
            Err(e) => {
                &&& e.step == Step::NextBranch || branch_step(e.step)
                &&& e.step == Step::NextBranch ==> exists|i: int|
                    0 <= i < listing.len() && #[trigger] listing[i] is Err
                &&& e.step == Step::BranchName ==> exists|i: int|
                    0 <= i < listing.len() && (#[trigger] listing[i]) is Ok && item_name(listing[i])
                        is None
                &&& e.step == Step::BranchTarget ==> exists|i: int|
                    0 <= i < listing.len() && ((#[trigger] listing[i]) matches Ok(listed)
                        && listed.target is None)
            },
        },
{
    let mut states: Vec<BranchState> = Vec::new();
    for item in items: listing
        invariant
            items.seq() == listing@,
            states.len() == items.index(),
            forall|i: int|
                0 <= i < items.index() ==> {
                    &&& item_name(#[trigger] listing[i]) == Some(states[i].name@)
                    &&& listing[i] matches Ok(listed) && listed.target is Some
                },
    {
        let listed = succeeded(item, Step::NextBranch)?;
        let state = inspect_branch(repo, listed)?;
        states.push(state);
    }
    Ok(states)
}

/// Walks the local branches of the repository.
pub fn walk_branches(repo: &git2::Repository) -> (r: Result<Vec<BranchState>, ReportError>)
    ensures
        r matches Err(e) ==> e.step == Step::ListLocalBranches || e.step == Step::NextBranch
            || branch_step(e.step),
{
    let listing = succeeded(branches(repo, BranchKind::Local), Step::ListLocalBranches)?;
    inspect_branches(repo, read_listing(listing))
}

/// Whether every path of a status listing is UTF-8.
pub open spec fn all_readable(listing: Seq<(u32, Option<Seq<char>>)>) -> bool {
    forall|i: int| 0 <= i < listing.len() ==> (#[trigger] listing[i]).1 is Some
}

/// The entries of a status listing whose paths are all UTF-8: the status bits
/// and the path of each, in order.
pub open spec fn entries_of(listing: Seq<(u32, Option<Seq<char>>)>) -> Seq<StatusEntryView>
    recommends
        all_readable(listing),
{
    listing.map_values(
        |entry: (u32, Option<Seq<char>>)| StatusEntryView { status: entry.0, path: entry.1->0 },
    )
}

/// Copies the entries of a status listing, in order.
///
/// This succeeds exactly if every path of the listing is UTF-8, and then the
/// entries are those of the listing, each with its status bits and its path.
pub fn collect_statuses(list: &git2::Statuses<'_>) -> (r: Result<Vec<StatusEntry>, ReportError>)
    ensures
        all_readable(status_entries(*list)) ==> (r matches Ok(entries) && entries.deep_view()
            == entries_of(status_entries(*list))),
        !all_readable(status_entries(*list)) ==> (r matches Err(e) && e.step == Step::StatusPath
            && e.cause is Some),
{
    let n: usize = statuses_len(list);
    let mut entries: Vec<StatusEntry> = Vec::new();
    let mut i: usize = 0;
    while i < n
        invariant
            n == status_entries(*list).len(),
            i <= n,
            entries.len() == i,
            forall|j: int| 0 <= j < i ==> (#[trigger] status_entries(*list)[j]).1 is Some,
            forall|j: int|
                0 <= j < i ==> (#[trigger] entries[j])@ == entries_of(status_entries(*list))[j],
        decreases n - i,
    {
        match statuses_get(list, i) {
            Some(Ok(entry)) => {
                entries.push(entry);
            },
            Some(Err(e)) => {
                assert(status_entries(*list)[i as int].1 is None);
                return Err(ReportError { step: Step::StatusPath, cause: Some(e) });
            },
            None => {
                assert(false);
            },
        }
        i = i + 1;
    }
    assert(entries.deep_view() =~= entries_of(status_entries(*list)));
    Ok(entries)
}

/// Lists the status entries of index and working directory together,
/// untracked files included.
pub fn scan_statuses(repo: &git2::Repository) -> (r: Result<Vec<StatusEntry>, ReportError>)
    ensures
        r matches Err(e) ==> e.step == Step::ListStatuses || e.step == Step::StatusPath,
{
    let list = succeeded(statuses(repo, StatusScope::IndexAndWorkdir, true), Step::ListStatuses)?;
    collect_statuses(&list)
}

/// Reads everything that a report is drawn from: remotes, then branches, then
/// status. The first failure ends the reading.
pub fn take_snapshot(repo: &git2::Repository) -> (r: Result<Snapshot, ReportError>)
    ensures
        r matches Err(e) ==> e.step != Step::Open,
{
    let remotes = list_remotes(repo)?;
    let branches = walk_branches(repo)?;
    let statuses = scan_statuses(repo)?;
    Ok(Snapshot { remotes, branches, statuses })
}

/// Reports the state of a repository: whatever was read, the lines are the
/// report of one snapshot, and nothing is reported if the reading failed.
pub fn report_on(repo: &git2::Repository) -> (r: Result<Vec<Line>, ReportError>)
    ensures
        match r {
            Ok(lines) => exists|snapshot: SnapshotView|
                lines.deep_view() == #[trigger] full_report(snapshot),
            Err(e) => e.step != Step::Open,
        },
{
    let snapshot = take_snapshot(repo)?;
    Ok(report_lines(&snapshot))
}

/// Opens the repository at `path` and reports its state.
pub fn report_at(path: &str) -> (r: Result<Vec<Line>, ReportError>)
    ensures
        r matches Ok(lines) ==> exists|snapshot: SnapshotView|
            lines.deep_view() == #[trigger] full_report(snapshot),
{
    let repo = open(path)?;
    report_on(&repo)
}

} // verus!

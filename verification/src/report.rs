//! From what was learnt about a repository to the lines of its report.

use crate::line::{Line, LineView};
use crate::model::{
    BranchState, BranchStateView, ComparisonView, RemoteInfo, RemoteInfoView, Snapshot,
    SnapshotView, Tracking, TrackingView,
};
use crate::severity::Level;
use crate::status::{lemma_buckets_partition, tally, tally_of, StatusEntry, StatusEntryView};
use vstd::prelude::*;

verus! {

/// The line for one remote.
pub open spec fn remote_line(remote: RemoteInfoView) -> LineView {
    LineView::Remote { name: remote.name, url: remote.url }
}

/// The remote part of a report: one line for each remote, in the order
/// given; a single notice where there is none.
pub open spec fn remote_report(remotes: Seq<RemoteInfoView>) -> Seq<LineView> {
    if remotes.len() == 0 {
        seq![LineView::NoRemotes]
    } else {
        remotes.map_values(|remote: RemoteInfoView| remote_line(remote))
    }
}

/// The line for one comparison of an orphan branch.
pub open spec fn comparison_line(comparison: ComparisonView) -> LineView {
    LineView::RemoteBranch {
        remote: comparison.remote,
        reference: comparison.reference,
        ahead: comparison.ahead,
        behind: comparison.behind,
    }
}

/// The lines for one local branch: its divergence from the upstream, or, for
/// an orphan, a notice followed by one line for each comparison.
pub open spec fn branch_report(branch: BranchStateView) -> Seq<LineView> {
    match branch.tracking {
        TrackingView::Upstream { name, ahead, behind } => seq![
            LineView::Upstream { local: branch.name, upstream: name, ahead, behind },
        ],
        TrackingView::Orphan { comparisons } => seq![LineView::Orphan { name: branch.name }]
            + comparisons.map_values(|comparison: ComparisonView| comparison_line(comparison)),
    }
}

/// The branch part of a report: the lines of each branch, one branch after
/// the other.
pub open spec fn branches_report(branches: Seq<BranchStateView>) -> Seq<LineView> {
    branches.map_values(|branch: BranchStateView| branch_report(branch)).flatten()
}

/// The line for one status entry.
pub open spec fn status_line(entry: StatusEntryView) -> LineView {
    LineView::Status { status: entry.status, path: entry.path }
}

/// The status part of a report: one line for each entry, then the summary of
/// the four counters.
pub open spec fn status_report(entries: Seq<StatusEntryView>) -> Seq<LineView> {
    entries.map_values(|entry: StatusEntryView| status_line(entry)).push(
        LineView::Summary { counts: tally_of(entries) },
    )
}

/// The whole report: remotes, then branches, then status.
pub open spec fn full_report(snapshot: SnapshotView) -> Seq<LineView> {
    remote_report(snapshot.remotes) + branches_report(snapshot.branches) + status_report(
        snapshot.statuses,
    )
}

/// Reports the configured remotes.
pub fn remote_lines(remotes: &Vec<RemoteInfo>) -> (lines: Vec<Line>)
    ensures
        lines.deep_view() == remote_report(remotes.deep_view()),
{
    let mut lines: Vec<Line> = Vec::new();
    if remotes.len() == 0 {
        lines.push(Line::NoRemotes);
        assert(lines.deep_view() =~= remote_report(remotes.deep_view()));
        return lines;
    }
    let mut i: usize = 0;
    while i < remotes.len()
        invariant
            i <= remotes.len(),
            lines.len() == i,
            forall|j: int| 0 <= j < i ==> (#[trigger] lines[j])@ == remote_line(remotes[j]@),
        decreases remotes.len() - i,
    {
        let remote = &remotes[i];
        lines.push(Line::Remote { name: remote.name.clone(), url: remote.url.clone() });
        i = i + 1;
    }
    assert(lines.deep_view() =~= remote_report(remotes.deep_view()));
    lines
}

/// Reports one local branch.
pub fn branch_lines(branch: &BranchState) -> (lines: Vec<Line>)
    ensures
        lines.deep_view() == branch_report(branch@),
{
    let mut lines: Vec<Line> = Vec::new();
    match &branch.tracking {
        Tracking::Upstream { name, ahead, behind } => {
            lines.push(
                Line::Upstream {
                    local: branch.name.clone(),
                    upstream: name.clone(),
                    ahead: *ahead,
                    behind: *behind,
                },
            );
            assert(lines.deep_view() =~= branch_report(branch@));
        },
        Tracking::Orphan { comparisons } => {
            lines.push(Line::Orphan { name: branch.name.clone() });
            let mut i: usize = 0;
            while i < comparisons.len()
                invariant
                    i <= comparisons.len(),
                    lines.len() == i + 1,
                    lines[0]@ == (LineView::Orphan { name: branch.name@ }),
                    forall|j: int|
                        0 <= j < i ==> (#[trigger] lines[j + 1])@ == comparison_line(
                            comparisons[j]@,
                        ),
                decreases comparisons.len() - i,
            {
                let comparison = &comparisons[i];
                lines.push(
                    Line::RemoteBranch {
                        remote: comparison.remote.clone(),
                        reference: comparison.reference.clone(),
                        ahead: comparison.ahead,
                        behind: comparison.behind,
                    },
                );
                i = i + 1;
            }
            assert(lines.deep_view() =~= branch_report(branch@)) by {
                let expected = branch_report(branch@);
                assert(expected.len() == lines.len());
                assert forall|k: int| 0 <= k < lines.len() implies lines.deep_view()[k]
                    == expected[k] by {
                    if k > 0 {
                        assert(lines[(k - 1) + 1]@ == comparison_line(comparisons[k - 1]@));
                    }
                }
            }
        },
    }
    lines
}

/// The views of two vectors joined are the views of the vectors, joined.
proof fn lemma_lines_joined(whole: Vec<Line>, front: Vec<Line>, back: Vec<Line>)
    requires
        whole@ == front@ + back@,
    ensures
        whole.deep_view() == front.deep_view() + back.deep_view(),
{
    assert(whole.deep_view() =~= front.deep_view() + back.deep_view());
}

/// Reports every local branch, in the order given.
pub fn branches_lines(branches: &Vec<BranchState>) -> (lines: Vec<Line>)
    ensures
        lines.deep_view() == branches_report(branches.deep_view()),
{
    let mut lines: Vec<Line> = Vec::new();
    let mut i: usize = 0;
    let ghost per_branch = |branch: BranchStateView| branch_report(branch);
    assert(lines.deep_view() =~= Seq::<LineView>::empty());
    assert(branches.deep_view().take(0).map_values(per_branch) =~= Seq::<Seq<LineView>>::empty());
    while i < branches.len()
        invariant
            i <= branches.len(),
            per_branch == |branch: BranchStateView| branch_report(branch),
            lines.deep_view() == branches.deep_view().take(i as int).map_values(
                per_branch,
            ).flatten(),
        decreases branches.len() - i,
    {
        let mut more = branch_lines(&branches[i]);
        let ghost before = lines;
        let ghost added = more;
        lines.append(&mut more);
        proof {
            let all = branches.deep_view();
            lemma_lines_joined(lines, before, added);
            assert(all.take(i + 1).map_values(per_branch) =~= all.take(i as int).map_values(
                per_branch,
            ).push(branch_report(all[i as int])));
            all.take(i as int).map_values(per_branch).lemma_flatten_push(
                branch_report(all[i as int]),
            );
        }
        i = i + 1;
    }
    assert(branches.deep_view().take(i as int) =~= branches.deep_view());
    lines
}

/// Reports the status entries and their summary.
pub fn status_lines(entries: &Vec<StatusEntry>) -> (lines: Vec<Line>)
    ensures
        lines.deep_view() == status_report(entries.deep_view()),
{
    let mut lines: Vec<Line> = Vec::new();
    let mut i: usize = 0;
    while i < entries.len()
        invariant
            i <= entries.len(),
            lines.len() == i,
            forall|j: int| 0 <= j < i ==> (#[trigger] lines[j])@ == status_line(entries[j]@),
        decreases entries.len() - i,
    {
        let entry = &entries[i];
        lines.push(Line::Status { status: entry.status, path: entry.path.clone() });
        i = i + 1;
    }
    lines.push(Line::Summary { counts: tally(entries) });
    assert(lines.deep_view() =~= status_report(entries.deep_view()));
    lines
}

/// Reports a whole snapshot: remotes first, then branches, then status.
pub fn report_lines(snapshot: &Snapshot) -> (lines: Vec<Line>)
    ensures
        lines.deep_view() == full_report(snapshot@),
{
    let mut lines = remote_lines(&snapshot.remotes);
    let mut middle = branches_lines(&snapshot.branches);
    let mut end = status_lines(&snapshot.statuses);
    let ghost first = lines;
    let ghost second = middle;
    let ghost third = end;
    lines.append(&mut middle);
    let ghost joined = lines;
    lines.append(&mut end);
    proof {
        lemma_lines_joined(joined, first, second);
        lemma_lines_joined(lines, joined, third);
    }
    lines
}

/// Without remotes the remote part is one warning and nothing else.
pub proof fn lemma_no_remotes_one_warning(remotes: Seq<RemoteInfoView>)
    requires
        remotes.len() == 0,
    ensures
        remote_report(remotes) == seq![LineView::NoRemotes],
        LineView::NoRemotes.level() == Level::Warn,
{
}

/// With remotes, each is reported exactly once and in the order given: line
/// `i` is the informational line of remote `i`, and there is no other line.
pub proof fn lemma_remotes_once_in_order(remotes: Seq<RemoteInfoView>)
    requires
        remotes.len() > 0,
    ensures
        remote_report(remotes).len() == remotes.len(),
        forall|i: int|
            0 <= i < remotes.len() ==> {
                &&& (#[trigger] remote_report(remotes)[i]) == (LineView::Remote {
                    name: remotes[i].name,
                    url: remotes[i].url,
                })
                &&& remote_report(remotes)[i].level() == Level::Info
            },
{
}

/// A branch with an upstream is reported in one line that carries both
/// counts; the line is a warning exactly if the branch is ahead.
pub proof fn lemma_upstream_one_line(branch: BranchStateView)
    requires
        branch.tracking is Upstream,
    ensures
        branch_report(branch) == seq![
            LineView::Upstream {
                local: branch.name,
                upstream: branch.tracking->Upstream_name,
                ahead: branch.tracking->Upstream_ahead,
                behind: branch.tracking->Upstream_behind,
            },
        ],
        branch_report(branch)[0].level() == Level::Warn <==> branch.tracking->Upstream_ahead > 0,
        branch_report(branch)[0].level() == Level::Info <==> branch.tracking->Upstream_ahead == 0,
{
}

/// An orphan branch is reported as a warning, followed by exactly one line
/// for each comparison, in order; a comparison line is a warning exactly if
/// the branch is ahead of that remote-tracking branch.
pub proof fn lemma_orphan_one_line_each(branch: BranchStateView)
    requires
        branch.tracking is Orphan,
    ensures
        branch_report(branch).len() == 1 + branch.tracking->comparisons.len(),
        branch_report(branch)[0] == (LineView::Orphan { name: branch.name }),
        branch_report(branch)[0].level() == Level::Warn,
        forall|i: int|
            0 <= i < branch.tracking->comparisons.len() ==> {
                &&& (#[trigger] branch_report(branch)[i + 1]) == comparison_line(
                    branch.tracking->comparisons[i],
                )
                &&& branch_report(branch)[i + 1].level() == Level::Warn
                    <==> branch.tracking->comparisons[i].ahead > 0
            },
{
}

/// The status part has one warning line for each entry, in order, and the
/// summary after them. The four counters of the summary add up to the number
/// of entries, and the summary is a warning exactly if there is an entry.
pub proof fn lemma_status_lines_and_summary(entries: Seq<StatusEntryView>)
    ensures
        status_report(entries).len() == entries.len() + 1,
        forall|i: int|
            0 <= i < entries.len() ==> {
                &&& (#[trigger] status_report(entries)[i]) == (LineView::Status {
                    status: entries[i].status,
                    path: entries[i].path,
                })
                &&& status_report(entries)[i].level() == Level::Warn
            },
        status_report(entries).last() == (LineView::Summary { counts: tally_of(entries) }),
        tally_of(entries).total() == entries.len(),
        status_report(entries).last().level() == Level::Warn <==> entries.len() > 0,
{
    lemma_buckets_partition(entries);
}

/// Whether a line speaks of a remote or of their absence.
pub open spec fn remote_part_line(line: LineView) -> bool {
    line is NoRemotes || line is Remote
}

/// No line of the branch part speaks of remotes.
pub proof fn lemma_branch_part_has_no_remote_line(branches: Seq<BranchStateView>)
    ensures
        forall|i: int|
            0 <= i < branches_report(branches).len() ==> !remote_part_line(
                #[trigger] branches_report(branches)[i],
            ),
    decreases branches.len(),
{
    let per_branch = |branch: BranchStateView| branch_report(branch);
    if branches.len() > 0 {
        let rest = branches.drop_first();
        lemma_branch_part_has_no_remote_line(rest);
        assert(branches.map_values(per_branch).drop_first() =~= rest.map_values(per_branch));
        assert(branches_report(branches) == branch_report(branches[0]) + branches_report(rest));
    }
}

/// Without remotes the whole report holds the notice of their absence exactly
/// once, as its first line, and no line for a remote.
pub proof fn lemma_report_without_remotes(snapshot: SnapshotView)
    requires
        snapshot.remotes.len() == 0,
    ensures
        full_report(snapshot)[0] == LineView::NoRemotes,
        forall|i: int|
            1 <= i < full_report(snapshot).len() ==> !remote_part_line(
                #[trigger] full_report(snapshot)[i],
            ),
{
    lemma_branch_part_has_no_remote_line(snapshot.branches);
    let middle = branches_report(snapshot.branches);
    assert forall|i: int| 1 <= i < full_report(snapshot).len() implies !remote_part_line(
        #[trigger] full_report(snapshot)[i],
    ) by {
        if i < 1 + middle.len() {
            assert(full_report(snapshot)[i] == middle[i - 1]);
        }
    }
}

/// With remotes the whole report begins with their lines, one for each remote
/// in the order given, and holds no other line for a remote and no notice of
/// their absence.
pub proof fn lemma_report_with_remotes(snapshot: SnapshotView)
    requires
        snapshot.remotes.len() > 0,
    ensures
        forall|i: int|
            0 <= i < snapshot.remotes.len() ==> #[trigger] full_report(snapshot)[i] == remote_line(
                snapshot.remotes[i],
            ),
        forall|i: int|
            snapshot.remotes.len() <= i < full_report(snapshot).len() ==> !remote_part_line(
                #[trigger] full_report(snapshot)[i],
            ),
{
    lemma_branch_part_has_no_remote_line(snapshot.branches);
    let count = snapshot.remotes.len() as int;
    let middle = branches_report(snapshot.branches);
    assert forall|i: int| count <= i < full_report(snapshot).len() implies !remote_part_line(
        #[trigger] full_report(snapshot)[i],
    ) by {
        if i < count + middle.len() {
            assert(full_report(snapshot)[i] == middle[i - count]);
        }
    }
}

/// A report is drawn from the snapshot and from nothing else: snapshots that
/// hold the same values give the same counters and the same lines.
pub proof fn lemma_same_snapshot_same_report(first: Snapshot, second: Snapshot)
    requires
        first@ == second@,
    ensures
        tally_of(first@.statuses) == tally_of(second@.statuses),
        branches_report(first@.branches) == branches_report(second@.branches),
        full_report(first@) == full_report(second@),
{
}

} // verus!

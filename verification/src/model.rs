//! What is learnt about a repository before anything is reported.

use crate::status::{StatusEntry, StatusEntryView};
use vstd::prelude::*;

verus! {

/// A configured remote.
#[derive(Clone, Debug, PartialEq, Eq)]
pub struct RemoteInfo {
    /// The name of the remote, unique within the repository.
    pub name: String,
    /// The URL that the remote is fetched from.
    pub url: String,
}

/// What a [`RemoteInfo`] holds.
pub ghost struct RemoteInfoView {
    pub name: Seq<char>,
    pub url: Seq<char>,
}

impl View for RemoteInfo {
    type V = RemoteInfoView;

    open spec fn view(&self) -> RemoteInfoView {
        RemoteInfoView { name: self.name@, url: self.url@ }
    }
}

impl DeepView for RemoteInfo {
    type V = RemoteInfoView;

    open spec fn deep_view(&self) -> RemoteInfoView {
        self@
    }
}

/// How far a local branch has moved away from one remote-tracking branch.
#[derive(Clone, Debug, PartialEq, Eq)]
pub struct Comparison {
    /// The short name of the remote-tracking branch, such as `origin/main`.
    pub remote: String,
    /// The full name of the reference that the remote-tracking branch
    /// resolves to.
    pub reference: String,
    /// Commits reachable from the local branch only.
    pub ahead: usize,
    /// Commits reachable from the remote-tracking branch only.
    pub behind: usize,
}

/// What a [`Comparison`] holds.
pub ghost struct ComparisonView {
    pub remote: Seq<char>,
    pub reference: Seq<char>,
    pub ahead: nat,
    pub behind: nat,
}

impl View for Comparison {
    type V = ComparisonView;

    open spec fn view(&self) -> ComparisonView {
        ComparisonView {
            remote: self.remote@,
            reference: self.reference@,
            ahead: self.ahead as nat,
            behind: self.behind as nat,
        }
    }
}

impl DeepView for Comparison {
    type V = ComparisonView;

    open spec fn deep_view(&self) -> ComparisonView {
        self@
    }
}

/// What a local branch is measured against.
#[derive(Clone, Debug, PartialEq, Eq)]
pub enum Tracking {
    /// The branch has an upstream, and is measured against it alone.
    Upstream {
        /// The short name of the upstream branch.
        name: String,
        /// Commits on the local branch that the upstream lacks.
        ahead: usize,
        /// Commits on the upstream that the local branch lacks.
        behind: usize,
    },
    /// The branch has no upstream, and is measured against every
    /// remote-tracking branch that could be resolved.
    Orphan {
        /// One comparison for each such remote-tracking branch, in the order
        /// in which the repository lists them.
        comparisons: Vec<Comparison>,
    },
}

/// What a [`Tracking`] holds.
pub ghost enum TrackingView {
    Upstream { name: Seq<char>, ahead: nat, behind: nat },
    Orphan { comparisons: Seq<ComparisonView> },
}

impl View for Tracking {
    type V = TrackingView;

    open spec fn view(&self) -> TrackingView {
        match self {
            Tracking::Upstream { name, ahead, behind } => TrackingView::Upstream {
                name: name@,
                ahead: *ahead as nat,
                behind: *behind as nat,
            },
            Tracking::Orphan { comparisons } => TrackingView::Orphan {
                comparisons: comparisons.deep_view(),
            },
        }
    }
}

impl DeepView for Tracking {
    type V = TrackingView;

    open spec fn deep_view(&self) -> TrackingView {
        self@
    }
}

/// A local branch and its divergence.
#[derive(Clone, Debug, PartialEq, Eq)]
pub struct BranchState {
    /// The short name of the local branch.
    pub name: String,
    /// What the branch was measured against, and the outcome.
    pub tracking: Tracking,
}

/// What a [`BranchState`] holds.
pub ghost struct BranchStateView {
    pub name: Seq<char>,
    pub tracking: TrackingView,
}

impl View for BranchState {
    type V = BranchStateView;

    open spec fn view(&self) -> BranchStateView {
        BranchStateView { name: self.name@, tracking: self.tracking@ }
    }
}

impl DeepView for BranchState {
    type V = BranchStateView;

    open spec fn deep_view(&self) -> BranchStateView {
        self@
    }
}

/// Everything that one report is drawn from.
#[derive(Clone, Debug, PartialEq, Eq)]
pub struct Snapshot {
    /// The configured remotes, in the order of the repository's listing.
    pub remotes: Vec<RemoteInfo>,
    /// The local branches, in the order of the repository's listing.
    pub branches: Vec<BranchState>,
    /// The status entries of index and working tree, in listing order.
    pub statuses: Vec<StatusEntry>,
}

/// What a [`Snapshot`] holds.
pub ghost struct SnapshotView {
    pub remotes: Seq<RemoteInfoView>,
    pub branches: Seq<BranchStateView>,
    pub statuses: Seq<StatusEntryView>,
}

impl View for Snapshot {
    type V = SnapshotView;

    open spec fn view(&self) -> SnapshotView {
        SnapshotView {
            remotes: self.remotes.deep_view(),
            branches: self.branches.deep_view(),
            statuses: self.statuses.deep_view(),
        }
    }
}

impl DeepView for Snapshot {
    type V = SnapshotView;

    open spec fn deep_view(&self) -> SnapshotView {
        self@
    }
}

} // verus!

//! The lines of a report.

use crate::git::{status_debug, status_label};
use crate::severity::{get_log_level, level_of, Level};
use crate::status::{StatusCounts, Tally};
use crate::text::{decimal, push_decimal};
use vstd::prelude::*;

verus! {

/// One line of the report. A line knows its severity; whoever emits it
/// chooses the sink.
#[derive(Clone, Debug, PartialEq, Eq)]
pub enum Line {
    /// The repository has no remote.
    NoRemotes,
    /// A configured remote and the URL it points to.
    Remote { name: String, url: String },
    /// The divergence of a local branch from its upstream.
    Upstream { local: String, upstream: String, ahead: usize, behind: usize },
    /// A local branch without an upstream.
    Orphan { name: String },
    /// The divergence of an orphan branch from one remote-tracking branch.
    RemoteBranch { remote: String, reference: String, ahead: usize, behind: usize },
    /// One status entry: its raw status bits and its path.
    Status { status: u32, path: String },
    /// The four counters of the status listing.
    Summary { counts: StatusCounts },
}

/// What a [`Line`] holds.
pub ghost enum LineView {
    NoRemotes,
    Remote { name: Seq<char>, url: Seq<char> },
    Upstream { local: Seq<char>, upstream: Seq<char>, ahead: nat, behind: nat },
    Orphan { name: Seq<char> },
    RemoteBranch { remote: Seq<char>, reference: Seq<char>, ahead: nat, behind: nat },
    Status { status: u32, path: Seq<char> },
    Summary { counts: Tally },
}

impl LineView {
    /// The severity of a line. A divergence line warns when the local branch
    /// is ahead, the summary warns when anything was counted; absences and
    /// status entries always warn, and a remote never does.
    pub open spec fn level(self) -> Level {
        match self {
            LineView::NoRemotes => Level::Warn,
            LineView::Remote { .. } => Level::Info,
            LineView::Upstream { ahead, .. } => level_of(ahead),
            LineView::Orphan { .. } => Level::Warn,
            LineView::RemoteBranch { ahead, .. } => level_of(ahead),
            LineView::Status { .. } => Level::Warn,
            LineView::Summary { counts } => level_of(counts.total()),
        }
    }

    /// The text of a line.
    pub open spec fn text(self) -> Seq<char> {
        match self {
            LineView::NoRemotes => "No remotes found"@,
            LineView::Remote { name, url } => "  remote "@ + name + " -> "@ + url,
            LineView::Upstream { local, upstream, ahead, behind } => "upstream "@ + local
                + " -> "@ + upstream + ": "@ + decimal(ahead) + " > "@ + decimal(behind),
            LineView::Orphan { name } => "  orphan "@ + name,
            LineView::RemoteBranch { remote, reference, ahead, behind } => "  remote "@ + remote
                + " -> "@ + reference + ": "@ + decimal(ahead) + " - "@ + decimal(behind),
            LineView::Status { status, path } => status_debug(status) + ": "@ + path,
            LineView::Summary { counts } => counts.text(),
        }
    }
}

impl View for Line {
    type V = LineView;

    open spec fn view(&self) -> LineView {
        match self {
            Line::NoRemotes => LineView::NoRemotes,
            Line::Remote { name, url } => LineView::Remote { name: name@, url: url@ },
            Line::Upstream { local, upstream, ahead, behind } => LineView::Upstream {
                local: local@,
                upstream: upstream@,
                ahead: *ahead as nat,
                behind: *behind as nat,
            },
            Line::Orphan { name } => LineView::Orphan { name: name@ },
            Line::RemoteBranch { remote, reference, ahead, behind } => LineView::RemoteBranch {
                remote: remote@,
                reference: reference@,
                ahead: *ahead as nat,
                behind: *behind as nat,
            },
            Line::Status { status, path } => LineView::Status { status: *status, path: path@ },
            Line::Summary { counts } => LineView::Summary { counts: counts@ },
        }
    }
}

impl DeepView for Line {
    type V = LineView;

    open spec fn deep_view(&self) -> LineView {
        self@
    }
}

impl Line {
    /// The severity at which the line is emitted.
    pub fn level(&self) -> (level: Level)
        ensures
            level == self@.level(),
    {
        match self {
            Line::NoRemotes => Level::Warn,
            Line::Remote { .. } => Level::Info,
            Line::Upstream { ahead, .. } => get_log_level(*ahead),
            Line::Orphan { .. } => Level::Warn,
            Line::RemoteBranch { ahead, .. } => get_log_level(*ahead),
            Line::Status { .. } => Level::Warn,
            Line::Summary { counts } => counts.level(),
        }
    }

    /// The text of the line, without its severity.
    pub fn text(&self) -> (text: String)
        ensures
            text@ == self@.text(),
    {
        match self {
            Line::NoRemotes => String::from_str("No remotes found"),
            Line::Remote { name, url } => {
                let mut text = String::from_str("  remote ");
                text.append(name.as_str());
                text.append(" -> ");
                text.append(url.as_str());
                text
            },
            Line::Upstream { local, upstream, ahead, behind } => {
                let mut text = String::from_str("upstream ");
                text.append(local.as_str());
                text.append(" -> ");
                text.append(upstream.as_str());
                text.append(": ");
                push_decimal(&mut text, *ahead);
                text.append(" > ");
                push_decimal(&mut text, *behind);
                text
            },
            Line::Orphan { name } => {
                let mut text = String::from_str("  orphan ");
                text.append(name.as_str());
                text
            },
            Line::RemoteBranch { remote, reference, ahead, behind } => {
                let mut text = String::from_str("  remote ");
                text.append(remote.as_str());
                text.append(" -> ");
                text.append(reference.as_str());
                text.append(": ");
                push_decimal(&mut text, *ahead);
                text.append(" - ");
                push_decimal(&mut text, *behind);
                text
            },
            Line::Status { status, path } => {
                let mut text = status_label(*status);
                text.append(": ");
                text.append(path.as_str());
                text
            },
            Line::Summary { counts } => counts.text(),
        }
    }
}

} // verus!

//! Status entries of the index and the working tree, and how they are tallied.

use crate::severity::{get_log_level, level_of, Level};
use crate::text::{decimal, push_decimal};
use vstd::prelude::*;

verus! {

/// Status bits of a path that was added to the index.
pub const INDEX_NEW: u32 = 1;

/// Status bits of a path whose staged content differs from the last commit.
pub const INDEX_MODIFIED: u32 = 2;

/// Status bits of a path whose removal is staged.
pub const INDEX_DELETED: u32 = 4;

/// Status bits of a path that is in the working tree and not in the index.
pub const WT_NEW: u32 = 128;

/// Status bits of a path whose working-tree content differs from the index.
pub const WT_MODIFIED: u32 = 256;

/// Status bits of a path that is in the index and gone from the working tree.
pub const WT_DELETED: u32 = 512;

/// The counter that a status entry is added to.
#[derive(Clone, Copy, Debug, PartialEq, Eq, Structural)]
pub enum Bucket {
    /// Removed from the working tree, or removal staged.
    Deleted,
    /// Changed in the working tree, or change staged.
    Modified,
    /// New in the working tree, or newly staged.
    Untracked,
    /// Any other status: renames, type changes, conflicts, ignored paths, and
    /// every combination of more than one status bit.
    Unspecified,
}

/// The bucket of a status value. Only a value that is exactly one of the six
/// deletion, modification and addition bits has a bucket of its own.
pub open spec fn bucket_of(status: u32) -> Bucket {
    if status == WT_DELETED || status == INDEX_DELETED {
        Bucket::Deleted
    } else if status == WT_MODIFIED || status == INDEX_MODIFIED {
        Bucket::Modified
    } else if status == WT_NEW || status == INDEX_NEW {
        Bucket::Untracked
    } else {
        Bucket::Unspecified
    }
}

/// Sorts a status value into its bucket.
pub fn classify(status: u32) -> (bucket: Bucket)
    ensures
        bucket == bucket_of(status),
{
    if status == WT_DELETED || status == INDEX_DELETED {
        Bucket::Deleted
    } else if status == WT_MODIFIED || status == INDEX_MODIFIED {
        Bucket::Modified
    } else if status == WT_NEW || status == INDEX_NEW {
        Bucket::Untracked
    } else {
        Bucket::Unspecified
    }
}

/// One path that differs between the last commit, the index and the working
/// tree.
#[derive(Clone, Debug, PartialEq, Eq)]
pub struct StatusEntry {
    /// The status bits of the path.
    pub status: u32,
    /// The path, relative to the root of the working tree.
    pub path: String,
}

/// What a [`StatusEntry`] holds.
pub ghost struct StatusEntryView {
    pub status: u32,
    pub path: Seq<char>,
}

impl View for StatusEntry {
    type V = StatusEntryView;

    open spec fn view(&self) -> StatusEntryView {
        StatusEntryView { status: self.status, path: self.path@ }
    }
}

impl DeepView for StatusEntry {
    type V = StatusEntryView;

    open spec fn deep_view(&self) -> StatusEntryView {
        self@
    }
}

/// How many of `entries` fall into `bucket`.
pub open spec fn count_in(entries: Seq<StatusEntryView>, bucket: Bucket) -> nat {
    entries.filter(|e: StatusEntryView| bucket_of(e.status) == bucket).len()
}

/// The four counters of a status listing.
#[derive(Clone, Copy, Debug, PartialEq, Eq, Structural)]
pub struct StatusCounts {
    /// Entries whose content changed, in the working tree or in the index.
    pub modified: usize,
    /// Entries that were removed, from the working tree or from the index.
    pub deleted: usize,
    /// Entries that are new, in the working tree or in the index.
    pub untracked: usize,
    /// All other entries.
    pub unspecified: usize,
}

/// The four counters as natural numbers.
pub ghost struct Tally {
    pub modified: nat,
    pub deleted: nat,
    pub untracked: nat,
    pub unspecified: nat,
}

impl Tally {
    /// The number of entries counted, over all four buckets.
    pub open spec fn total(self) -> nat {
        self.modified + self.deleted + self.untracked + self.unspecified
    }

    /// The text of the summary: the four counters, each with its label.
    pub open spec fn text(self) -> Seq<char> {
        decimal(self.modified) + " modified, "@ + decimal(self.deleted) + " deleted, "@ + decimal(
            self.untracked,
        ) + " untracked, "@ + decimal(self.unspecified) + " unspecified\n"@
    }
}

impl View for StatusCounts {
    type V = Tally;

    open spec fn view(&self) -> Tally {
        Tally {
            modified: self.modified as nat,
            deleted: self.deleted as nat,
            untracked: self.untracked as nat,
            unspecified: self.unspecified as nat,
        }
    }
}

impl DeepView for StatusCounts {
    type V = Tally;

    open spec fn deep_view(&self) -> Tally {
        self@
    }
}

impl StatusCounts {
    /// The number of entries counted over all four buckets, capped at the
    /// largest `usize`.
    pub fn issues(&self) -> (n: usize)
        ensures
            n == if self@.total() <= usize::MAX {
                self@.total()
            } else {
                usize::MAX as nat
            },
    {
        self.modified.saturating_add(self.deleted).saturating_add(self.untracked).saturating_add(
            self.unspecified,
        )
    }

    /// The severity of the summary: a warning as soon as anything was counted.
    pub fn level(&self) -> (level: Level)
        ensures
            level == level_of(self@.total()),
    {
        get_log_level(self.issues())
    }

    /// The text of the summary.
    pub fn text(&self) -> (text: String)
        ensures
            text@ == self@.text(),
    {
        let mut text = String::new();
        push_decimal(&mut text, self.modified);
        text.append(" modified, ");
        push_decimal(&mut text, self.deleted);
        text.append(" deleted, ");
        push_decimal(&mut text, self.untracked);
        text.append(" untracked, ");
        push_decimal(&mut text, self.unspecified);
        text.append(" unspecified\n");
        assert(text@ =~= self@.text());
        text
    }
}

/// The counters of a listing: each entry is counted once, in the bucket of its
/// status.
pub open spec fn tally_of(entries: Seq<StatusEntryView>) -> Tally {
    Tally {
        modified: count_in(entries, Bucket::Modified),
        deleted: count_in(entries, Bucket::Deleted),
        untracked: count_in(entries, Bucket::Untracked),
        unspecified: count_in(entries, Bucket::Unspecified),
    }
}

/// Every entry is counted in exactly one bucket: the four counters of a
/// listing add up to its length.
pub proof fn lemma_buckets_partition(entries: Seq<StatusEntryView>)
    ensures
        tally_of(entries).total() == entries.len(),
    decreases entries.len(),
{
    reveal(Seq::filter);
    if entries.len() > 0 {
        lemma_buckets_partition(entries.drop_last());
    }
}

/// Adding an entry raises the counter of its bucket by one and leaves the
/// other three as they were.
pub proof fn lemma_count_push(entries: Seq<StatusEntryView>, entry: StatusEntryView, bucket: Bucket)
    ensures
        count_in(entries.push(entry), bucket) == count_in(entries, bucket) + (if bucket_of(
            entry.status,
        ) == bucket {
            1nat
        } else {
            0nat
        }),
{
    reveal(Seq::filter);
    assert(entries.push(entry).drop_last() =~= entries);
}

/// Counts the entries of a status listing by bucket.
pub fn tally(entries: &Vec<StatusEntry>) -> (counts: StatusCounts)
    ensures
        counts@ == tally_of(entries.deep_view()),
{
    let mut counts = StatusCounts { modified: 0, deleted: 0, untracked: 0, unspecified: 0 };
    let mut i: usize = 0;
    proof {
        reveal(Seq::filter);
        assert(entries.deep_view().take(0) =~= Seq::<StatusEntryView>::empty());
    }
    while i < entries.len()
        invariant
            i <= entries.len(),
            counts@ == tally_of(entries.deep_view().take(i as int)),
            counts@.total() == i,
        decreases entries.len() - i,
    {
        proof {
            let all = entries.deep_view();
            assert(all.take(i + 1) =~= all.take(i as int).push(all[i as int]));
            lemma_count_push(all.take(i as int), all[i as int], Bucket::Modified);
            lemma_count_push(all.take(i as int), all[i as int], Bucket::Deleted);
            lemma_count_push(all.take(i as int), all[i as int], Bucket::Untracked);
            lemma_count_push(all.take(i as int), all[i as int], Bucket::Unspecified);
            assert(all[i as int].status == entries[i as int].status);
        }
        match classify(entries[i].status) {
            Bucket::Deleted => {
                counts.deleted = counts.deleted + 1;
            },
            Bucket::Modified => {
                counts.modified = counts.modified + 1;
            },
            Bucket::Untracked => {
                counts.untracked = counts.untracked + 1;
            },
            Bucket::Unspecified => {
                counts.unspecified = counts.unspecified + 1;
            },
        }
        i = i + 1;
    }
    proof {
        assert(entries.deep_view().take(i as int) =~= entries.deep_view());
    }
    counts
}

} // verus!

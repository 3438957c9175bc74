use gitrs::severity::Level;
use gitrs::status::{
    classify, tally, Bucket, StatusCounts, StatusEntry, INDEX_DELETED, INDEX_MODIFIED, INDEX_NEW,
    WT_DELETED, WT_MODIFIED, WT_NEW,
};

fn entry(status: u32, path: &str) -> StatusEntry {
    StatusEntry { status, path: path.to_string() }
}

#[test]
fn status_bits_are_those_of_git2() {
    assert_eq!(INDEX_NEW, git2::Status::INDEX_NEW.bits());
    assert_eq!(INDEX_MODIFIED, git2::Status::INDEX_MODIFIED.bits());
    assert_eq!(INDEX_DELETED, git2::Status::INDEX_DELETED.bits());
    assert_eq!(WT_NEW, git2::Status::WT_NEW.bits());
    assert_eq!(WT_MODIFIED, git2::Status::WT_MODIFIED.bits());
    assert_eq!(WT_DELETED, git2::Status::WT_DELETED.bits());
}

#[test]
fn deletions_are_deleted() {
    assert_eq!(classify(WT_DELETED), Bucket::Deleted);
    assert_eq!(classify(INDEX_DELETED), Bucket::Deleted);
}

#[test]
fn modifications_are_modified() {
    assert_eq!(classify(WT_MODIFIED), Bucket::Modified);
    assert_eq!(classify(INDEX_MODIFIED), Bucket::Modified);
}

#[test]
fn additions_are_untracked() {
    assert_eq!(classify(WT_NEW), Bucket::Untracked);
    assert_eq!(classify(INDEX_NEW), Bucket::Untracked);
}

#[test]
fn other_statuses_are_unspecified() {
    assert_eq!(classify(git2::Status::CURRENT.bits()), Bucket::Unspecified);
    assert_eq!(classify(git2::Status::INDEX_RENAMED.bits()), Bucket::Unspecified);
    assert_eq!(classify(git2::Status::INDEX_TYPECHANGE.bits()), Bucket::Unspecified);
    assert_eq!(classify(git2::Status::WT_RENAMED.bits()), Bucket::Unspecified);
    assert_eq!(classify(git2::Status::WT_TYPECHANGE.bits()), Bucket::Unspecified);
    assert_eq!(classify(git2::Status::IGNORED.bits()), Bucket::Unspecified);
    assert_eq!(classify(git2::Status::CONFLICTED.bits()), Bucket::Unspecified);
}

#[test]
fn combined_statuses_are_unspecified() {
    assert_eq!(classify(WT_MODIFIED | INDEX_MODIFIED), Bucket::Unspecified);
    assert_eq!(classify(WT_DELETED | INDEX_DELETED), Bucket::Unspecified);
    assert_eq!(classify(WT_NEW | INDEX_NEW), Bucket::Unspecified);
    assert_eq!(classify(INDEX_NEW | WT_MODIFIED), Bucket::Unspecified);
}

#[test]
fn classification_agrees_with_matching_on_git2_statuses() {
    for bits in 0..=0xffffu32 {
        let status = git2::Status::from_bits_truncate(bits);
        let expected = match status {
            git2::Status::WT_DELETED | git2::Status::INDEX_DELETED => Bucket::Deleted,
            git2::Status::WT_MODIFIED | git2::Status::INDEX_MODIFIED => Bucket::Modified,
            git2::Status::WT_NEW | git2::Status::INDEX_NEW => Bucket::Untracked,
            _ => Bucket::Unspecified,
        };
        assert_eq!(classify(status.bits()), expected);
    }
}

#[test]
fn empty_listing_counts_nothing() {
    let counts = tally(&vec![]);
    assert_eq!(counts, StatusCounts { modified: 0, deleted: 0, untracked: 0, unspecified: 0 });
    assert_eq!(counts.issues(), 0);
    assert_eq!(counts.level(), Level::Info);
}

#[test]
fn one_modified_and_one_untracked() {
    let counts = tally(&vec![entry(WT_MODIFIED, "a.txt"), entry(WT_NEW, "b.txt")]);
    assert_eq!(counts, StatusCounts { modified: 1, deleted: 0, untracked: 1, unspecified: 0 });
    assert_eq!(counts.level(), Level::Warn);
}

#[test]
fn every_entry_is_counted_once() {
    let entries = vec![
        entry(WT_MODIFIED, "a"),
        entry(INDEX_MODIFIED, "b"),
        entry(WT_DELETED, "c"),
        entry(INDEX_DELETED, "d"),
        entry(INDEX_DELETED, "e"),
        entry(WT_NEW, "f"),
        entry(INDEX_NEW, "g"),
        entry(WT_MODIFIED | INDEX_MODIFIED, "h"),
        entry(0, "i"),
        entry(WT_NEW, "j"),
    ];
    let counts = tally(&entries);
    assert_eq!(counts, StatusCounts { modified: 2, deleted: 3, untracked: 3, unspecified: 2 });
    assert_eq!(counts.issues(), entries.len());
    assert_eq!(counts.modified + counts.deleted + counts.untracked + counts.unspecified, 10);
}

#[test]
fn only_unspecified_entries_still_warn() {
    let counts = tally(&vec![entry(git2::Status::CONFLICTED.bits(), "x")]);
    assert_eq!(counts, StatusCounts { modified: 0, deleted: 0, untracked: 0, unspecified: 1 });
    assert_eq!(counts.level(), Level::Warn);
}

#[test]
fn issues_are_capped() {
    let counts = StatusCounts { modified: usize::MAX, deleted: 1, untracked: 0, unspecified: 5 };
    assert_eq!(counts.issues(), usize::MAX);
    assert_eq!(counts.level(), Level::Warn);
    let counts = StatusCounts { modified: 1, deleted: 2, untracked: 3, unspecified: 4 };
    assert_eq!(counts.issues(), 10);
}

#[test]
fn summary_text_names_each_counter() {
    let counts = StatusCounts { modified: 1, deleted: 0, untracked: 1, unspecified: 0 };
    assert_eq!(counts.text(), "1 modified, 0 deleted, 1 untracked, 0 unspecified\n");
    let counts = StatusCounts { modified: 12, deleted: 3, untracked: 40, unspecified: 105 };
    assert_eq!(counts.text(), "12 modified, 3 deleted, 40 untracked, 105 unspecified\n");
}

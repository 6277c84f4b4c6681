use autosync::event::{dispatch, Operation, SyncEvent};
use autosync::fastforward::{
    merge_decision, MergeDecision, ANALYSIS_FASTFORWARD, ANALYSIS_NORMAL, ANALYSIS_UNBORN,
    ANALYSIS_UP_TO_DATE,
};
use autosync::git::{StatusEntry, SyncError};
use autosync::push::{
    change_set, disposition_of, Change, Disposition, STATUS_ADDED_OR_MODIFIED, STATUS_DELETED,
    STATUS_INDEX_DELETED, STATUS_INDEX_MODIFIED, STATUS_INDEX_NEW, STATUS_WT_DELETED,
    STATUS_WT_MODIFIED, STATUS_WT_NEW,
};

fn entry(path: &str, status: u32) -> StatusEntry {
    StatusEntry { path: Some(path.to_string()), status }
}

fn change(path: &str, disposition: Disposition) -> Change {
    Change { path: path.to_string(), disposition }
}

#[test]
fn a_tick_pulls_and_a_file_change_commits() {
    assert_eq!(dispatch(SyncEvent::Tick), Operation::PullMerge);
    assert_eq!(dispatch(SyncEvent::FileChange), Operation::StageCommitPush);
}

#[test]
fn analysis_flags_are_those_of_git2() {
    assert_eq!(ANALYSIS_NORMAL, git2::MergeAnalysis::ANALYSIS_NORMAL.bits());
    assert_eq!(ANALYSIS_UP_TO_DATE, git2::MergeAnalysis::ANALYSIS_UP_TO_DATE.bits());
    assert_eq!(ANALYSIS_FASTFORWARD, git2::MergeAnalysis::ANALYSIS_FASTFORWARD.bits());
    assert_eq!(ANALYSIS_UNBORN, git2::MergeAnalysis::ANALYSIS_UNBORN.bits());
}

#[test]
fn status_flags_are_those_of_git2() {
    assert_eq!(STATUS_INDEX_NEW, git2::Status::INDEX_NEW.bits());
    assert_eq!(STATUS_INDEX_MODIFIED, git2::Status::INDEX_MODIFIED.bits());
    assert_eq!(STATUS_INDEX_DELETED, git2::Status::INDEX_DELETED.bits());
    assert_eq!(STATUS_WT_NEW, git2::Status::WT_NEW.bits());
    assert_eq!(STATUS_WT_MODIFIED, git2::Status::WT_MODIFIED.bits());
    assert_eq!(STATUS_WT_DELETED, git2::Status::WT_DELETED.bits());
}

#[test]
fn merge_decision_of_each_flag() {
    assert_eq!(merge_decision(0), MergeDecision::Diverged);
    assert_eq!(merge_decision(ANALYSIS_NORMAL), MergeDecision::Diverged);
    assert_eq!(merge_decision(ANALYSIS_UP_TO_DATE), MergeDecision::UpToDate);
    assert_eq!(merge_decision(ANALYSIS_FASTFORWARD), MergeDecision::FastForward);
    assert_eq!(merge_decision(ANALYSIS_UNBORN), MergeDecision::Diverged);
}

#[test]
fn merge_decision_of_combined_flags() {
    assert_eq!(merge_decision(ANALYSIS_NORMAL | ANALYSIS_FASTFORWARD), MergeDecision::FastForward);
    assert_eq!(merge_decision(ANALYSIS_UNBORN | ANALYSIS_FASTFORWARD), MergeDecision::FastForward);
    assert_eq!(
        merge_decision(ANALYSIS_UP_TO_DATE | ANALYSIS_FASTFORWARD),
        MergeDecision::UpToDate
    );
    assert_eq!(merge_decision(u32::MAX), MergeDecision::UpToDate);
    assert_eq!(merge_decision(u32::MAX - ANALYSIS_UP_TO_DATE), MergeDecision::FastForward);
    assert_eq!(
        merge_decision(u32::MAX - ANALYSIS_UP_TO_DATE - ANALYSIS_FASTFORWARD),
        MergeDecision::Diverged
    );
}

#[test]
fn merge_decision_agrees_with_git2_on_every_known_combination() {
    let mut flags: u32 = 0;
    while flags < 16 {
        let analysis = git2::MergeAnalysis::from_bits_retain(flags);
        let expected = if analysis.is_up_to_date() {
            MergeDecision::UpToDate
        } else if analysis.is_fast_forward() {
            MergeDecision::FastForward
        } else {
            MergeDecision::Diverged
        };
        assert_eq!(merge_decision(flags), expected);
        flags += 1;
    }
}

#[test]
fn new_and_modified_are_staged() {
    assert_eq!(disposition_of(git2::Status::WT_NEW.bits()), Some(Disposition::AddedOrModified));
    assert_eq!(
        disposition_of(git2::Status::WT_MODIFIED.bits()),
        Some(Disposition::AddedOrModified)
    );
    assert_eq!(
        disposition_of(git2::Status::INDEX_NEW.bits()),
        Some(Disposition::AddedOrModified)
    );
    assert_eq!(
        disposition_of(git2::Status::INDEX_MODIFIED.bits()),
        Some(Disposition::AddedOrModified)
    );
}

#[test]
fn deleted_is_unstaged() {
    assert_eq!(disposition_of(git2::Status::WT_DELETED.bits()), Some(Disposition::Deleted));
    assert_eq!(disposition_of(git2::Status::INDEX_DELETED.bits()), Some(Disposition::Deleted));
}

#[test]
fn other_statuses_have_no_disposition() {
    assert_eq!(disposition_of(git2::Status::CURRENT.bits()), None);
    assert_eq!(disposition_of(git2::Status::INDEX_RENAMED.bits()), None);
    assert_eq!(disposition_of(git2::Status::INDEX_TYPECHANGE.bits()), None);
    assert_eq!(disposition_of(git2::Status::WT_RENAMED.bits()), None);
    assert_eq!(disposition_of(git2::Status::WT_TYPECHANGE.bits()), None);
    assert_eq!(disposition_of(git2::Status::WT_UNREADABLE.bits()), None);
    assert_eq!(disposition_of(git2::Status::IGNORED.bits()), None);
    assert_eq!(disposition_of(git2::Status::CONFLICTED.bits()), None);
}

#[test]
fn the_two_classes_of_flags() {
    assert_eq!(STATUS_ADDED_OR_MODIFIED, 1 | 2 | 128 | 256);
    assert_eq!(STATUS_DELETED, 4 | 512);
    assert_eq!(
        STATUS_ADDED_OR_MODIFIED,
        (git2::Status::INDEX_NEW
            | git2::Status::INDEX_MODIFIED
            | git2::Status::WT_NEW
            | git2::Status::WT_MODIFIED)
            .bits()
    );
    assert_eq!(STATUS_DELETED, (git2::Status::INDEX_DELETED | git2::Status::WT_DELETED).bits());
}

#[test]
fn combined_flags_for_new_or_modified_are_staged() {
    assert_eq!(
        disposition_of(STATUS_INDEX_NEW | STATUS_WT_MODIFIED),
        Some(Disposition::AddedOrModified)
    );
    assert_eq!(
        disposition_of(STATUS_INDEX_MODIFIED | STATUS_WT_MODIFIED),
        Some(Disposition::AddedOrModified)
    );
    assert_eq!(disposition_of(STATUS_ADDED_OR_MODIFIED), Some(Disposition::AddedOrModified));
}

#[test]
fn combined_flags_for_deleted_are_unstaged() {
    assert_eq!(
        disposition_of(STATUS_INDEX_DELETED | STATUS_WT_DELETED),
        Some(Disposition::Deleted)
    );
}

#[test]
fn flags_of_both_classes_have_no_disposition() {
    assert_eq!(disposition_of(STATUS_WT_NEW | STATUS_WT_DELETED), None);
    assert_eq!(disposition_of(STATUS_INDEX_DELETED | STATUS_WT_NEW), None);
    assert_eq!(disposition_of(STATUS_INDEX_NEW | STATUS_WT_DELETED), None);
    assert_eq!(disposition_of(STATUS_ADDED_OR_MODIFIED | STATUS_DELETED), None);
}

#[test]
fn a_flag_of_another_kind_takes_the_disposition_away() {
    assert_eq!(disposition_of(STATUS_WT_MODIFIED | git2::Status::WT_RENAMED.bits()), None);
    assert_eq!(disposition_of(STATUS_INDEX_NEW | git2::Status::INDEX_TYPECHANGE.bits()), None);
    assert_eq!(disposition_of(STATUS_WT_DELETED | git2::Status::CONFLICTED.bits()), None);
    assert_eq!(disposition_of(STATUS_WT_NEW | (1 << 20)), None);
    assert_eq!(disposition_of(u32::MAX), None);
}

#[test]
fn disposition_of_every_status_of_sixteen_bits() {
    let mut status: u32 = 0;
    while status < (1 << 16) {
        let flags = git2::Status::from_bits_retain(status);
        let added = git2::Status::INDEX_NEW
            | git2::Status::INDEX_MODIFIED
            | git2::Status::WT_NEW
            | git2::Status::WT_MODIFIED;
        let deleted = git2::Status::INDEX_DELETED | git2::Status::WT_DELETED;
        let expected = if flags.is_empty() {
            None
        } else if added.contains(flags) {
            Some(Disposition::AddedOrModified)
        } else if deleted.contains(flags) {
            Some(Disposition::Deleted)
        } else {
            None
        };
        assert_eq!(disposition_of(status), expected);
        status += 1;
    }
}

#[test]
fn change_set_of_nothing_is_empty() {
    assert_eq!(change_set(&vec![]), Ok(vec![]));
}

#[test]
fn change_set_keeps_the_order_and_skips_the_rest() {
    let status = vec![
        entry("a.txt", STATUS_WT_NEW),
        entry("renamed.txt", git2::Status::INDEX_RENAMED.bits()),
        entry("b.txt", STATUS_WT_DELETED),
        entry("conflict.txt", git2::Status::CONFLICTED.bits()),
        entry("c.txt", STATUS_INDEX_MODIFIED),
        entry("d.txt", STATUS_INDEX_DELETED),
    ];
    assert_eq!(
        change_set(&status),
        Ok(vec![
            change("a.txt", Disposition::AddedOrModified),
            change("b.txt", Disposition::Deleted),
            change("c.txt", Disposition::AddedOrModified),
            change("d.txt", Disposition::Deleted),
        ])
    );
}

#[test]
fn change_set_of_skipped_entries_alone_is_empty() {
    let status = vec![
        entry("x", git2::Status::WT_RENAMED.bits()),
        StatusEntry { path: None, status: git2::Status::CONFLICTED.bits() },
    ];
    assert_eq!(change_set(&status), Ok(vec![]));
}

#[test]
fn change_set_names_the_first_entry_that_lacks_its_path() {
    let status = vec![
        entry("a.txt", STATUS_WT_NEW),
        StatusEntry { path: None, status: git2::Status::IGNORED.bits() },
        StatusEntry { path: None, status: STATUS_WT_DELETED },
        StatusEntry { path: None, status: STATUS_WT_NEW },
    ];
    assert_eq!(change_set(&status), Err(SyncError::MissingPath { index: 2 }));
}

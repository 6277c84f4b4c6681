use autosync::git::{
    GitError, GitReply, GitRequest, Oid, Signature, StatusEntry, StatusFilter, Step, SyncError,
};
use autosync::push::{push_worktree, StageCommitPush, COMMIT_MESSAGE, COMMIT_REF};

fn oid(n: u8) -> Oid {
    Oid { bytes: [n; 20] }
}

fn entry(path: &str, status: git2::Status) -> StatusEntry {
    StatusEntry { path: Some(path.to_string()), status: status.bits() }
}

fn refused(message: &str) -> GitError {
    GitError { code: -1, class: 11, message: message.to_string() }
}

fn read_status() -> GitRequest {
    GitRequest::ReadStatus(StatusFilter {
        include_untracked: true,
        recurse_untracked_dirs: true,
        include_ignored: false,
        include_unmodified: false,
        include_unreadable: false,
    })
}

fn daemon() -> Signature {
    Signature {
        name: "Daemon".to_string(),
        email: "daemon@example.com".to_string(),
        seconds: 1_700_000_000,
        offset_minutes: -120,
    }
}

fn on(branch: &str, target: u8) -> GitReply {
    GitReply::Head { name: format!("refs/heads/{}", branch), target: Some(oid(target)) }
}

fn push(branch: &str) -> GitRequest {
    GitRequest::Push { remote: "origin", refspec: format!("refs/heads/{}", branch) }
}

fn commit(tree: u8, parent: u8) -> GitRequest {
    GitRequest::Commit {
        update_ref: "HEAD",
        signature: daemon(),
        message: "Autocommit",
        tree: oid(tree),
        parent: oid(parent),
    }
}

/// Drives an operation with the replies, and collects the requests that it
/// makes until the replies run out or it is over.
fn drive(replies: Vec<GitReply>) -> (Vec<GitRequest>, StageCommitPush) {
    let mut op = StageCommitPush::start();
    let mut requests = Vec::new();
    for reply in replies {
        match op.request() {
            Some(request) => requests.push(request),
            None => break,
        }
        op = push_worktree(op, reply);
    }
    (requests, op)
}

#[test]
fn the_names_of_the_commit_are_fixed() {
    assert_eq!(COMMIT_MESSAGE, "Autocommit");
    assert_eq!(COMMIT_REF, "HEAD");
}

#[test]
fn push_begins_with_the_status_of_what_changed() {
    let op = StageCommitPush::start();
    assert_eq!(op.request(), Some(read_status()));
    assert_eq!(op.outcome(), None);
}

#[test]
fn an_empty_status_is_a_success_without_commit_or_push() {
    let op = push_worktree(StageCommitPush::start(), GitReply::Status(vec![]));
    assert_eq!(op.request(), None);
    assert_eq!(op.outcome(), Some(&Ok(())));
}

#[test]
fn a_new_and_a_deleted_file_make_one_commit_on_the_prior_head() {
    let status = vec![entry("a.txt", git2::Status::WT_NEW), entry("b.txt", git2::Status::WT_DELETED)];
    let (requests, op) = drive(vec![
        GitReply::Status(status),
        GitReply::Done,
        GitReply::Done,
        GitReply::Done,
        on("master", 1),
        GitReply::Object(oid(2)),
        GitReply::Signature(daemon()),
        GitReply::Done,
        GitReply::Done,
    ]);
    assert_eq!(
        requests,
        vec![
            read_status(),
            GitRequest::StagePath { path: "a.txt".to_string() },
            GitRequest::UnstagePath { path: "b.txt".to_string() },
            GitRequest::WriteIndex,
            GitRequest::ResolveHead,
            GitRequest::WriteTree,
            GitRequest::ReadSignature,
            commit(2, 1),
            push("master"),
        ]
    );
    assert_eq!(op.request(), None);
    assert_eq!(op.outcome(), Some(&Ok(())));
}

#[test]
fn staged_changes_are_applied_like_those_of_the_working_tree() {
    let status = vec![
        entry("n", git2::Status::INDEX_NEW),
        entry("m", git2::Status::INDEX_MODIFIED),
        entry("d", git2::Status::INDEX_DELETED),
        entry("w", git2::Status::WT_MODIFIED),
    ];
    let (requests, _) = drive(vec![
        GitReply::Status(status),
        GitReply::Done,
        GitReply::Done,
        GitReply::Done,
        GitReply::Done,
    ]);
    assert_eq!(
        requests,
        vec![
            read_status(),
            GitRequest::StagePath { path: "n".to_string() },
            GitRequest::StagePath { path: "m".to_string() },
            GitRequest::UnstagePath { path: "d".to_string() },
            GitRequest::StagePath { path: "w".to_string() },
        ]
    );
}

#[test]
fn a_status_of_skipped_entries_alone_still_commits() {
    let status = vec![
        entry("r", git2::Status::INDEX_RENAMED),
        entry("c", git2::Status::CONFLICTED),
        entry("gone", git2::Status::INDEX_NEW | git2::Status::WT_DELETED),
        entry("back", git2::Status::INDEX_DELETED | git2::Status::WT_NEW),
    ];
    let (requests, op) = drive(vec![
        GitReply::Status(status),
        GitReply::Done,
        on("main", 5),
        GitReply::Object(oid(6)),
        GitReply::Signature(daemon()),
        GitReply::Done,
        GitReply::Done,
    ]);
    assert_eq!(
        requests,
        vec![
            read_status(),
            GitRequest::WriteIndex,
            GitRequest::ResolveHead,
            GitRequest::WriteTree,
            GitRequest::ReadSignature,
            commit(6, 5),
            push("main"),
        ]
    );
    assert_eq!(op.outcome(), Some(&Ok(())));
}

#[test]
fn an_entry_without_its_path_ends_the_operation_before_anything_is_staged() {
    let status = vec![
        entry("a.txt", git2::Status::WT_NEW),
        StatusEntry { path: None, status: git2::Status::WT_MODIFIED.bits() },
    ];
    let op = push_worktree(StageCommitPush::start(), GitReply::Status(status));
    assert_eq!(op.request(), None);
    assert_eq!(op.outcome(), Some(&Err(SyncError::MissingPath { index: 1 })));
}

#[test]
fn a_failed_push_leaves_the_commit_and_asks_for_nothing_more() {
    let (requests, op) = drive(vec![
        GitReply::Status(vec![entry("a.txt", git2::Status::WT_NEW)]),
        GitReply::Done,
        GitReply::Done,
        on("master", 1),
        GitReply::Object(oid(2)),
        GitReply::Signature(daemon()),
        GitReply::Done,
        GitReply::Failed(refused("non-fast-forward")),
        GitReply::Done,
    ]);
    assert_eq!(requests.len(), 8);
    assert_eq!(requests[6], commit(2, 1));
    assert_eq!(requests[7], push("master"));
    assert_eq!(op.request(), None);
    assert_eq!(
        op.outcome(),
        Some(&Err(SyncError::Rejected { step: Step::Push, cause: refused("non-fast-forward") }))
    );
}

#[test]
fn a_failed_step_ends_the_operation_with_its_error() {
    let status = || {
        GitReply::Status(vec![entry("a", git2::Status::WT_NEW), entry("b", git2::Status::WT_DELETED)])
    };
    let steps = [
        Step::ReadStatus,
        Step::StagePath,
        Step::UnstagePath,
        Step::WriteIndex,
        Step::ResolveHead,
        Step::WriteTree,
        Step::ReadSignature,
        Step::Commit,
        Step::Push,
    ];
    let mut failing = 0;
    while failing < steps.len() {
        let mut replies = vec![
            status(),
            GitReply::Done,
            GitReply::Done,
            GitReply::Done,
            on("master", 1),
            GitReply::Object(oid(2)),
            GitReply::Signature(daemon()),
            GitReply::Done,
            GitReply::Done,
        ];
        replies.truncate(failing);
        replies.push(GitReply::Failed(refused("no")));
        let (requests, op) = drive(replies);
        assert_eq!(requests.len(), failing + 1);
        assert_eq!(requests[failing].step(), steps[failing]);
        assert_eq!(op.request(), None);
        assert_eq!(
            op.outcome(),
            Some(&Err(SyncError::Rejected { step: steps[failing], cause: refused("no") }))
        );
        failing += 1;
    }
}

#[test]
fn a_reply_of_the_wrong_kind_ends_the_operation() {
    let op = push_worktree(StageCommitPush::start(), GitReply::Done);
    assert_eq!(op.outcome(), Some(&Err(SyncError::UnexpectedReply { step: Step::ReadStatus })));

    let (_, op) = drive(vec![
        GitReply::Status(vec![entry("b", git2::Status::WT_DELETED)]),
        on("master", 1),
    ]);
    assert_eq!(op.outcome(), Some(&Err(SyncError::UnexpectedReply { step: Step::UnstagePath })));

    let (_, op) = drive(vec![
        GitReply::Status(vec![entry("r", git2::Status::WT_RENAMED)]),
        GitReply::Done,
        GitReply::Done,
    ]);
    assert_eq!(op.outcome(), Some(&Err(SyncError::UnexpectedReply { step: Step::ResolveHead })));

    let (_, op) = drive(vec![
        GitReply::Status(vec![entry("r", git2::Status::WT_RENAMED)]),
        GitReply::Done,
        on("master", 1),
        GitReply::Analysis(4),
    ]);
    assert_eq!(op.outcome(), Some(&Err(SyncError::UnexpectedReply { step: Step::WriteTree })));
}

#[test]
fn a_finished_operation_stays_finished() {
    let op = push_worktree(StageCommitPush::start(), GitReply::Status(vec![]));
    let op = push_worktree(op, GitReply::Status(vec![entry("a", git2::Status::WT_NEW)]));
    assert_eq!(op.request(), None);
    assert_eq!(op.outcome(), Some(&Ok(())));
}

#[test]
fn a_missing_identity_ends_the_operation_before_the_commit() {
    let (requests, op) = drive(vec![
        GitReply::Status(vec![entry("a.txt", git2::Status::WT_NEW)]),
        GitReply::Done,
        GitReply::Done,
        on("master", 1),
        GitReply::Object(oid(2)),
        GitReply::Failed(refused("config value 'user.name' was not found")),
        GitReply::Done,
    ]);
    assert_eq!(requests.len(), 6);
    assert_eq!(requests[5], GitRequest::ReadSignature);
    assert_eq!(op.request(), None);
    assert_eq!(
        op.outcome(),
        Some(&Err(SyncError::Rejected {
            step: Step::ReadSignature,
            cause: refused("config value 'user.name' was not found"),
        }))
    );
}

#[test]
fn an_empty_status_needs_no_identity() {
    let (requests, op) = drive(vec![GitReply::Status(vec![]), GitReply::Failed(refused("x"))]);
    assert_eq!(requests, vec![read_status()]);
    assert_eq!(op.outcome(), Some(&Ok(())));
}

#[test]
fn a_file_with_several_flags_for_new_or_modified_is_staged() {
    let status = vec![
        entry("f", git2::Status::INDEX_NEW | git2::Status::WT_MODIFIED),
        entry("g", git2::Status::INDEX_MODIFIED | git2::Status::WT_MODIFIED),
        entry("h", git2::Status::INDEX_DELETED | git2::Status::WT_DELETED),
    ];
    let (requests, _) = drive(vec![
        GitReply::Status(status),
        GitReply::Done,
        GitReply::Done,
        GitReply::Done,
        GitReply::Done,
    ]);
    assert_eq!(
        requests,
        vec![
            read_status(),
            GitRequest::StagePath { path: "f".to_string() },
            GitRequest::StagePath { path: "g".to_string() },
            GitRequest::UnstagePath { path: "h".to_string() },
            GitRequest::WriteIndex,
        ]
    );
}

#[test]
fn the_branch_that_head_is_on_is_the_one_that_is_pushed() {
    let (requests, op) = drive(vec![
        GitReply::Status(vec![entry("a.txt", git2::Status::WT_NEW)]),
        GitReply::Done,
        GitReply::Done,
        on("feature/sync", 3),
        GitReply::Object(oid(4)),
        GitReply::Signature(daemon()),
        GitReply::Done,
        GitReply::Done,
    ]);
    assert_eq!(requests[6], commit(4, 3));
    assert_eq!(
        requests[7],
        GitRequest::Push { remote: "origin", refspec: "refs/heads/feature/sync".to_string() }
    );
    assert_eq!(requests.len(), 8);
    assert_eq!(op.outcome(), Some(&Ok(())));
}

#[test]
fn a_branch_that_points_at_nothing_ends_the_operation() {
    let (requests, op) = drive(vec![
        GitReply::Status(vec![entry("a.txt", git2::Status::WT_NEW)]),
        GitReply::Done,
        GitReply::Done,
        GitReply::Head { name: "refs/heads/main".to_string(), target: None },
        GitReply::Done,
    ]);
    assert_eq!(requests.len(), 4);
    assert_eq!(op.request(), None);
    assert_eq!(op.outcome(), Some(&Err(SyncError::NoTarget)));
}

#[test]
fn an_object_does_not_answer_for_the_branch() {
    let (_, op) = drive(vec![
        GitReply::Status(vec![entry("a.txt", git2::Status::WT_NEW)]),
        GitReply::Done,
        GitReply::Done,
        GitReply::Object(oid(1)),
    ]);
    assert_eq!(op.outcome(), Some(&Err(SyncError::UnexpectedReply { step: Step::ResolveHead })));
}

//! Stage-Commit-Push: capture what changed in the working tree as one commit
//! and push it.

use vstd::prelude::*;
use crate::git::{
    failure, fail, GitReply, GitRequest, Oid, Signature, StatusEntry, StatusFilter, Step,
    SyncError, REMOTE,
};

verus! {

/// Status flag: the file is new in the index.
pub const STATUS_INDEX_NEW: u32 = 1;

/// Status flag: the file is modified in the index.
pub const STATUS_INDEX_MODIFIED: u32 = 2;

/// Status flag: the file is deleted from the index.
pub const STATUS_INDEX_DELETED: u32 = 4;

/// Status flag: the file is new in the working tree.
pub const STATUS_WT_NEW: u32 = 128;

/// Status flag: the file is modified in the working tree.
pub const STATUS_WT_MODIFIED: u32 = 256;

/// Status flag: the file is deleted from the working tree.
pub const STATUS_WT_DELETED: u32 = 512;

/// The flags of a file that is new or modified, in the index or in the
/// working tree.
pub const STATUS_ADDED_OR_MODIFIED: u32 = STATUS_INDEX_NEW | STATUS_INDEX_MODIFIED | STATUS_WT_NEW
    | STATUS_WT_MODIFIED;

/// The flags of a file that is deleted, from the index or from the working
/// tree.
pub const STATUS_DELETED: u32 = STATUS_INDEX_DELETED | STATUS_WT_DELETED;

/// The reference that a commit moves.
pub const COMMIT_REF: &'static str = "HEAD";

/// The message of every commit.
pub const COMMIT_MESSAGE: &'static str = "Autocommit";

/// The entries that the status is read with: every file that changed, the
/// untracked ones among them and each by itself, but none that is ignored,
/// unmodified or unreadable.
pub open spec fn status_filter() -> StatusFilter {
    StatusFilter {
        include_untracked: true,
        recurse_untracked_dirs: true,
        include_ignored: false,
        include_unmodified: false,
        include_unreadable: false,
    }
}

/// What has to happen to a path in the index.
#[derive(Clone, Copy, Debug, PartialEq, Eq)]
pub enum Disposition {
    AddedOrModified,
    Deleted,
}

/// One element of a change set.
#[derive(Debug, PartialEq, Eq)]
pub struct Change {
    pub path: String,
    pub disposition: Disposition,
}

/// The disposition that status flags stand for.  A file is added or
/// modified when it has a flag and all its flags say new or modified, be it
/// in the index, in the working tree or in both; it is deleted when it has
/// a flag and all its flags say deleted.  Any other status has no
/// disposition: one without a flag, one with a flag for a rename, a type
/// change, a conflict or the like, and one that says both new or modified
/// and deleted.
pub open spec fn disposition(status: u32) -> Option<Disposition> {
    if status != 0 && status & !STATUS_ADDED_OR_MODIFIED == 0 {
        Some(Disposition::AddedOrModified)
    } else if status != 0 && status & !STATUS_DELETED == 0 {
        Some(Disposition::Deleted)
    } else {
        None
    }
}

/// Classifies raw status flags.
pub fn disposition_of(status: u32) -> (d: Option<Disposition>)
    ensures
        d == disposition(status),
{
    if status != 0 && status & !STATUS_ADDED_OR_MODIFIED == 0 {
        Some(Disposition::AddedOrModified)
    } else if status != 0 && status & !STATUS_DELETED == 0 {
        Some(Disposition::Deleted)
    } else {
        None
    }
}

/// The change that a status entry contributes, if any.
pub open spec fn change_of(entry: StatusEntry) -> Option<Change> {
    match (disposition(entry.status), entry.path) {
        (Some(disposition), Some(path)) => Some(Change { path, disposition }),
        _ => None,
    }
}

/// The changes of the entries that have a disposition, in the order of the
/// entries.
pub open spec fn changes(entries: Seq<StatusEntry>) -> Seq<Change> {
    entries.filter_map(|entry: StatusEntry| change_of(entry))
}

/// Whether an entry has a disposition but no path to apply it to.
pub open spec fn lacks_path(entry: StatusEntry) -> bool {
    disposition(entry.status) is Some && entry.path is None
}

/// Whether `i` is the position of the first entry that lacks its path.
pub open spec fn first_lacking(entries: Seq<StatusEntry>, i: int) -> bool {
    &&& 0 <= i < entries.len()
    &&& lacks_path(entries[i])
    &&& forall|j: int| 0 <= j < i ==> !lacks_path(#[trigger] entries[j])
}

/// The change set of a status: all its changes, unless an entry lacks its
/// path; then the error names the first such entry.
pub open spec fn planned(entries: Seq<StatusEntry>) -> Result<Seq<Change>, SyncError> {
    if exists|i: int| first_lacking(entries, i) {
        Err(SyncError::MissingPath { index: (choose|i: int| first_lacking(entries, i)) as usize })
    } else {
        Ok(changes(entries))
    }
}

/// Derives the change set from the working-tree status.
pub fn change_set(entries: &Vec<StatusEntry>) -> (r: Result<Vec<Change>, SyncError>)
    ensures
        match r {
            Ok(set) => planned(entries@) == Ok::<Seq<Change>, SyncError>(set@),
            Err(e) => planned(entries@) == Err::<Seq<Change>, SyncError>(e),
        },
{
    let mut set: Vec<Change> = Vec::new();
    let mut i: usize = 0;
    proof {
        assert(entries@.take(0) =~= Seq::empty());
    }
    while i < entries.len()
        invariant
            i <= entries.len(),
            set@ == changes(entries@.take(i as int)),
            forall|j: int| 0 <= j < i ==> !lacks_path(#[trigger] entries@[j]),
        decreases entries.len() - i,
    {
        let entry = &entries[i];
        proof {
            entries@.lemma_filter_map_take_succ(|entry: StatusEntry| change_of(entry), i as int);
        }
        match disposition_of(entry.status) {
            Some(disposition) => match &entry.path {
                Some(path) => {
                    set.push(Change { path: path.clone(), disposition });
                },
                None => {
                    proof {
                        assert(first_lacking(entries@, i as int));
                        let k = choose|k: int| first_lacking(entries@, k);
                        assert(k == i) by {
                            if k < i {
                                assert(!lacks_path(entries@[k]));
                            }
                            if i < k {
                                assert(!lacks_path(entries@[i as int]));
                            }
                        }
                    }
                    return Err(SyncError::MissingPath { index: i });
                },
            },
            None => {},
        }
        i += 1;
    }
    proof {
        assert(entries@.take(i as int) =~= entries@);
        assert forall|k: int| !first_lacking(entries@, k) by {
            if 0 <= k < entries@.len() {
                assert(!lacks_path(entries@[k]));
            }
        }
    }
    Ok(set)
}

/// The state of a Stage-Commit-Push, as a value of mathematics.
pub enum PushView {
    /// The status is being read.
    ReadingStatus,
    /// `current` is being applied to the index; `remaining` comes after it.
    Staging { current: Change, remaining: Seq<Change> },
    /// The index is being persisted.
    WritingIndex,
    /// The current branch is being resolved.
    ResolvingHead,
    /// The index is being written out as a tree.  `branch` is the full name
    /// of the current branch's reference, `parent` the commit that it points
    /// at.
    WritingTree { branch: String, parent: Oid },
    /// The identity of the commit is being read.
    Signing { branch: String, parent: Oid, tree: Oid },
    /// The commit is being created.
    Committing { branch: String, parent: Oid, tree: Oid, signature: Signature },
    /// The push of `branch` is outstanding.
    Pushing { branch: String },
    /// The operation is over.
    Finished(Result<(), SyncError>),
}

/// The state in which the first of `set` is applied to the index, or the
/// one in which the index is persisted when there is none.
pub open spec fn stage(set: Seq<Change>) -> PushView {
    if set.len() == 0 {
        PushView::WritingIndex
    } else {
        PushView::Staging { current: set[0], remaining: set.skip(1) }
    }
}

/// The request that applies a change to the index.
pub open spec fn apply(change: Change) -> GitRequest {
    match change.disposition {
        Disposition::AddedOrModified => GitRequest::StagePath { path: change.path },
        Disposition::Deleted => GitRequest::UnstagePath { path: change.path },
    }
}

/// The request that is outstanding in a state; none once it is finished.
pub open spec fn push_request(s: PushView) -> Option<GitRequest> {
    match s {
        PushView::ReadingStatus => Some(GitRequest::ReadStatus(status_filter())),
        PushView::Staging { current, .. } => Some(apply(current)),
        PushView::WritingIndex => Some(GitRequest::WriteIndex),
        PushView::ResolvingHead => Some(GitRequest::ResolveHead),
        PushView::WritingTree { .. } => Some(GitRequest::WriteTree),
        PushView::Signing { .. } => Some(GitRequest::ReadSignature),
        PushView::Committing { parent, tree, signature, .. } => Some(
            GitRequest::Commit {
                update_ref: COMMIT_REF,
                signature,
                message: COMMIT_MESSAGE,
                tree,
                parent,
            },
        ),
        PushView::Pushing { branch } => Some(GitRequest::Push { remote: REMOTE, refspec: branch }),
        PushView::Finished(_) => None,
    }
}

/// The state that follows `s` when its request is answered by `reply`.
///
/// An empty status ends the operation at once, with success and without a
/// commit.  Otherwise every change of the status is applied to the index in
/// turn, the index is persisted and written out as a tree, the tree is
/// committed on top of the current branch's tip under the identity that
/// the repository is configured with, and that branch, whatever its name,
/// is pushed.  A branch that points at no commit ends the operation with
/// an error.  A reply
/// that does not answer the request ends the operation with the error;
/// nothing is undone, not even the commit when it is the push that fails.
pub open spec fn push_step(s: PushView, reply: GitReply) -> PushView {
    match s {
        PushView::ReadingStatus => match reply {
            GitReply::Status(entries) => if entries@.len() == 0 {
                PushView::Finished(Ok(()))
            } else {
                match planned(entries@) {
                    Ok(set) => stage(set),
                    Err(e) => PushView::Finished(Err(e)),
                }
            },
            _ => PushView::Finished(Err(failure(Step::ReadStatus, reply))),
        },
        PushView::Staging { current, remaining } => match reply {
            GitReply::Done => stage(remaining),
            _ => PushView::Finished(Err(failure(apply(current).spec_step(), reply))),
        },
        PushView::WritingIndex => match reply {
            GitReply::Done => PushView::ResolvingHead,
            _ => PushView::Finished(Err(failure(Step::WriteIndex, reply))),
        },
        PushView::ResolvingHead => match reply {
            GitReply::Head { name, target: Some(parent) } => PushView::WritingTree {
                branch: name,
                parent,
            },
            GitReply::Head { target: None, .. } => PushView::Finished(Err(SyncError::NoTarget)),
            _ => PushView::Finished(Err(failure(Step::ResolveHead, reply))),
        },
        PushView::WritingTree { branch, parent } => match reply {
            GitReply::Object(tree) => PushView::Signing { branch, parent, tree },
            _ => PushView::Finished(Err(failure(Step::WriteTree, reply))),
        },
        PushView::Signing { branch, parent, tree } => match reply {
            GitReply::Signature(signature) => PushView::Committing {
                branch,
                parent,
                tree,
                signature,
            },
            _ => PushView::Finished(Err(failure(Step::ReadSignature, reply))),
        },
        PushView::Committing { branch, .. } => match reply {
            GitReply::Done => PushView::Pushing { branch },
            _ => PushView::Finished(Err(failure(Step::Commit, reply))),
        },
        PushView::Pushing { .. } => match reply {
            GitReply::Done => PushView::Finished(Ok(())),
            _ => PushView::Finished(Err(failure(Step::Push, reply))),
        },
        PushView::Finished(_) => s,
    }
}

enum PushPhase {
    ReadingStatus,
    Staging { current: Change, set: Vec<Change>, next: usize },
    WritingIndex,
    ResolvingHead,
    WritingTree { branch: String, parent: Oid },
    Signing { branch: String, parent: Oid, tree: Oid },
    Committing { branch: String, parent: Oid, tree: Oid, signature: Signature },
    Pushing { branch: String },
    Finished(Result<(), SyncError>),
}

/// A Stage-Commit-Push under way.
pub struct StageCommitPush {
    phase: PushPhase,
}

/// The changes from position `next` on.
spec fn pending(set: Seq<Change>, next: usize) -> Seq<Change> {
    if next <= set.len() {
        set.skip(next as int)
    } else {
        Seq::empty()
    }
}

impl View for StageCommitPush {
    type V = PushView;

    closed spec fn view(&self) -> PushView {
        match self.phase {
            PushPhase::ReadingStatus => PushView::ReadingStatus,
            PushPhase::Staging { current, set, next } => PushView::Staging {
                current,
                remaining: pending(set@, next),
            },
            PushPhase::WritingIndex => PushView::WritingIndex,
            PushPhase::ResolvingHead => PushView::ResolvingHead,
            PushPhase::WritingTree { branch, parent } => PushView::WritingTree { branch, parent },
            PushPhase::Signing { branch, parent, tree } => PushView::Signing {
                branch,
                parent,
                tree,
            },
            PushPhase::Committing { branch, parent, tree, signature } => PushView::Committing {
                branch,
                parent,
                tree,
                signature,
            },
            PushPhase::Pushing { branch } => PushView::Pushing { branch },
            PushPhase::Finished(result) => PushView::Finished(result),
        }
    }
}

/// Turns to the change at position `next`, or to persisting the index when
/// there is none.
fn turn(set: Vec<Change>, next: usize) -> (p: StageCommitPush)
    ensures
        p@ == stage(pending(set@, next)),
{
    if next < set.len() {
        let current = Change { path: set[next].path.clone(), disposition: set[next].disposition };
        proof {
            assert(pending(set@, next)[0] == current);
            assert(pending(set@, next).skip(1) =~= pending(set@, (next + 1) as usize));
        }
        StageCommitPush { phase: PushPhase::Staging { current, set, next: next + 1 } }
    } else {
        StageCommitPush { phase: PushPhase::WritingIndex }
    }
}

impl StageCommitPush {
    /// A Stage-Commit-Push at its beginning: the status is being read.
    pub fn start() -> (p: StageCommitPush)
        ensures
            p@ == PushView::ReadingStatus,
    {
        StageCommitPush { phase: PushPhase::ReadingStatus }
    }

    /// The request that the host has to carry out next; none once the
    /// operation is over.
    pub fn request(&self) -> (r: Option<GitRequest>)
        ensures
            r == push_request(self@),
    {
        match &self.phase {
            PushPhase::ReadingStatus => Some(
                GitRequest::ReadStatus(
                    StatusFilter {
                        include_untracked: true,
                        recurse_untracked_dirs: true,
                        include_ignored: false,
                        include_unmodified: false,
                        include_unreadable: false,
                    },
                ),
            ),
            PushPhase::Staging { current, .. } => match current.disposition {
                Disposition::AddedOrModified => Some(
                    GitRequest::StagePath { path: current.path.clone() },
                ),
                Disposition::Deleted => Some(GitRequest::UnstagePath { path: current.path.clone() }),
            },
            PushPhase::WritingIndex => Some(GitRequest::WriteIndex),
            PushPhase::ResolvingHead => Some(GitRequest::ResolveHead),
            PushPhase::WritingTree { .. } => Some(GitRequest::WriteTree),
            PushPhase::Signing { .. } => Some(GitRequest::ReadSignature),
            PushPhase::Committing { parent, tree, signature, .. } => Some(
                GitRequest::Commit {
                    update_ref: COMMIT_REF,
                    signature: Signature {
                        name: signature.name.clone(),
                        email: signature.email.clone(),
                        seconds: signature.seconds,
                        offset_minutes: signature.offset_minutes,
                    },
                    message: COMMIT_MESSAGE,
                    tree: *tree,
                    parent: *parent,
                },
            ),
            PushPhase::Pushing { branch } => Some(
                GitRequest::Push { remote: REMOTE, refspec: branch.clone() },
            ),
            PushPhase::Finished(_) => None,
        }
    }

    /// How the operation ended; none while it is under way.
    pub fn outcome(&self) -> (r: Option<&Result<(), SyncError>>)
        ensures
            r == match self@ {
                PushView::Finished(result) => Some(&result),
                _ => None,
            },
    {
        match &self.phase {
            PushPhase::Finished(result) => Some(result),
            _ => None,
        }
    }
}

/// Ends the operation with the error of a step.
fn give_up(step: Step, reply: GitReply) -> (p: StageCommitPush)
    ensures
        p@ == PushView::Finished(Err(failure(step, reply))),
{
    StageCommitPush { phase: PushPhase::Finished(Err(fail(step, reply))) }
}

/// Advances a Stage-Commit-Push by the reply to its outstanding request.
pub fn push_worktree(state: StageCommitPush, reply: GitReply) -> (next: StageCommitPush)
    ensures
        next@ == push_step(state@, reply),
{
    match state.phase {
        PushPhase::ReadingStatus => match reply {
            GitReply::Status(entries) => {
                if entries.len() == 0 {
                    StageCommitPush { phase: PushPhase::Finished(Ok(())) }
                } else {
                    match change_set(&entries) {
                        Ok(set) => {
                            proof {
                                assert(pending(set@, 0) =~= set@);
                            }
                            turn(set, 0)
                        },
                        Err(e) => StageCommitPush { phase: PushPhase::Finished(Err(e)) },
                    }
                }
            },
            other => give_up(Step::ReadStatus, other),
        },
        PushPhase::Staging { current, set, next } => match reply {
            GitReply::Done => turn(set, next),
            other => match current.disposition {
                Disposition::AddedOrModified => give_up(Step::StagePath, other),
                Disposition::Deleted => give_up(Step::UnstagePath, other),
            },
        },
        PushPhase::WritingIndex => match reply {
            GitReply::Done => StageCommitPush { phase: PushPhase::ResolvingHead },
            other => give_up(Step::WriteIndex, other),
        },
        PushPhase::ResolvingHead => match reply {
            GitReply::Head { name, target: Some(parent) } => StageCommitPush {
                phase: PushPhase::WritingTree { branch: name, parent },
            },
            GitReply::Head { target: None, .. } => StageCommitPush {
                phase: PushPhase::Finished(Err(SyncError::NoTarget)),
            },
            other => give_up(Step::ResolveHead, other),
        },
        PushPhase::WritingTree { branch, parent } => match reply {
            GitReply::Object(tree) => StageCommitPush {
                phase: PushPhase::Signing { branch, parent, tree },
            },
            other => give_up(Step::WriteTree, other),
        },
        PushPhase::Signing { branch, parent, tree } => match reply {
            GitReply::Signature(signature) => StageCommitPush {
                phase: PushPhase::Committing { branch, parent, tree, signature },
            },
            other => give_up(Step::ReadSignature, other),
        },
        PushPhase::Committing { branch, .. } => match reply {
            GitReply::Done => StageCommitPush { phase: PushPhase::Pushing { branch } },
            other => give_up(Step::Commit, other),
        },
        PushPhase::Pushing { .. } => match reply {
            GitReply::Done => StageCommitPush { phase: PushPhase::Finished(Ok(())) },
            other => give_up(Step::Push, other),
        },
        PushPhase::Finished(result) => StageCommitPush { phase: PushPhase::Finished(result) },
    }
}

} // verus!

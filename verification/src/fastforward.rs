//! Pull-Merge: fetch from the remote and fast-forward the current branch to
//! what was fetched, where that needs no merge.

use vstd::prelude::*;
use crate::git::{
    failure, fail, FetchHeadEntry, GitReply, GitRequest, Oid, Step, SyncError, REMOTE,
};

verus! {

/// Flag of a merge analysis: the branch tip and the merge input have diverged.
pub const ANALYSIS_NORMAL: u32 = 1;

/// Flag of a merge analysis: the merge input is reachable from the branch
/// tip, so there is nothing to merge.
pub const ANALYSIS_UP_TO_DATE: u32 = 2;

/// Flag of a merge analysis: the branch tip is an ancestor of the merge
/// input, so the branch can simply be moved to it.
pub const ANALYSIS_FASTFORWARD: u32 = 4;

/// Flag of a merge analysis: the branch has no commit yet.
pub const ANALYSIS_UNBORN: u32 = 8;

/// The reflog message of a fast-forward.
pub const REFLOG_MESSAGE: &'static str = "Fast-forwarded";

/// What is done about one fetched commit.
#[derive(Clone, Copy, Debug, PartialEq, Eq)]
pub enum MergeDecision {
    /// The branch already holds the commit: nothing is done.
    UpToDate,
    /// The branch is moved forward to the commit.
    FastForward,
    /// The histories have diverged: nothing is done, and nothing is merged.
    Diverged,
}

/// Calls `git2::MergeAnalysis::is_up_to_date` on the analysis that
/// `git2::MergeAnalysis::from_bits_retain` makes of the raw flags.  The
/// conversion keeps every bit, and the method tells whether the up-to-date
/// flag is among them.  This is taken on trust.
#[verifier::external_body]
fn analysis_is_up_to_date(flags: u32) -> (set: bool)
    ensures
        set == (flags & ANALYSIS_UP_TO_DATE != 0),
{
    git2::MergeAnalysis::from_bits_retain(flags).is_up_to_date()
}

/// Calls `git2::MergeAnalysis::is_fast_forward` on the analysis that
/// `git2::MergeAnalysis::from_bits_retain` makes of the raw flags.  The
/// conversion keeps every bit, and the method tells whether the fast-forward
/// flag is among them.  This is taken on trust.
#[verifier::external_body]
fn analysis_is_fast_forward(flags: u32) -> (set: bool)
    ensures
        set == (flags & ANALYSIS_FASTFORWARD != 0),
{
    git2::MergeAnalysis::from_bits_retain(flags).is_fast_forward()
}

/// The decision that the flags of a merge analysis call for.  Up to date
/// wins over everything; without the fast-forward flag the histories count
/// as diverged.
pub open spec fn decision(flags: u32) -> MergeDecision {
    if flags & ANALYSIS_UP_TO_DATE != 0 {
        MergeDecision::UpToDate
    } else if flags & ANALYSIS_FASTFORWARD != 0 {
        MergeDecision::FastForward
    } else {
        MergeDecision::Diverged
    }
}

/// Classifies the raw flags of a merge analysis.
pub fn merge_decision(flags: u32) -> (d: MergeDecision)
    ensures
        d == decision(flags),
{
    if analysis_is_up_to_date(flags) {
        MergeDecision::UpToDate
    } else if analysis_is_fast_forward(flags) {
        MergeDecision::FastForward
    } else {
        MergeDecision::Diverged
    }
}

/// The commits of a list of fetch-head entries, in order.
pub open spec fn oids(entries: Seq<FetchHeadEntry>) -> Seq<Oid> {
    entries.map_values(|e: FetchHeadEntry| e.oid)
}

/// The state of a Pull-Merge, as a value of mathematics.  `remaining` holds
/// the fetched commits that come after `target`.
pub enum PullView {
    /// The fetch is outstanding.
    Fetching,
    /// The fetch-head entries are being read.
    Listing,
    /// A merge analysis of `target` is outstanding.
    Analyzing { target: Oid, remaining: Seq<Oid> },
    /// The tree of `target` is being checked out.
    CheckingOut { target: Oid, remaining: Seq<Oid> },
    /// The branch is being moved to `target`.
    Retargeting { target: Oid, remaining: Seq<Oid> },
    /// The operation is over.
    Finished(Result<(), SyncError>),
}

/// The state in which the first of `commits` is under analysis, or the
/// finished state when there is none.
pub open spec fn turn_to(commits: Seq<Oid>) -> PullView {
    if commits.len() == 0 {
        PullView::Finished(Ok(()))
    } else {
        PullView::Analyzing { target: commits[0], remaining: commits.skip(1) }
    }
}

/// The request that is outstanding in a state; none once it is finished.
pub open spec fn pull_request(s: PullView) -> Option<GitRequest> {
    match s {
        PullView::Fetching => Some(GitRequest::Fetch { remote: REMOTE, refspecs: [] }),
        PullView::Listing => Some(GitRequest::ReadFetchHead),
        PullView::Analyzing { target, .. } => Some(GitRequest::AnalyzeMerge { oid: target }),
        PullView::CheckingOut { target, .. } => Some(GitRequest::CheckoutTree { oid: target }),
        PullView::Retargeting { target, .. } => Some(
            GitRequest::SetBranchTarget { oid: target, log_message: REFLOG_MESSAGE },
        ),
        PullView::Finished(_) => None,
    }
}

/// The state that follows `s` when its request is answered by `reply`.
///
/// Every fetched commit is analysed in turn.  Only a commit that the branch
/// can be fast-forwarded to is checked out and made the branch's target; one
/// that the branch already holds, or that has diverged from it, is passed
/// over.  A reply that does not answer the request ends the operation with
/// the error.
pub open spec fn pull_step(s: PullView, reply: GitReply) -> PullView {
    match s {
        PullView::Fetching => match reply {
            GitReply::Done => PullView::Listing,
            _ => PullView::Finished(Err(failure(Step::Fetch, reply))),
        },
        PullView::Listing => match reply {
            GitReply::FetchHead(entries) => turn_to(oids(entries@)),
            _ => PullView::Finished(Err(failure(Step::ReadFetchHead, reply))),
        },
        PullView::Analyzing { target, remaining } => match reply {
            GitReply::Analysis(flags) => match decision(flags) {
                MergeDecision::FastForward => PullView::CheckingOut { target, remaining },
                _ => turn_to(remaining),
            },
            _ => PullView::Finished(Err(failure(Step::AnalyzeMerge, reply))),
        },
        PullView::CheckingOut { target, remaining } => match reply {
            GitReply::Done => PullView::Retargeting { target, remaining },
            _ => PullView::Finished(Err(failure(Step::CheckoutTree, reply))),
        },
        PullView::Retargeting { target, remaining } => match reply {
            GitReply::Done => turn_to(remaining),
            _ => PullView::Finished(Err(failure(Step::SetBranchTarget, reply))),
        },
        PullView::Finished(_) => s,
    }
}

enum PullPhase {
    Fetching,
    Listing,
    Analyzing { target: Oid, entries: Vec<FetchHeadEntry>, next: usize },
    CheckingOut { target: Oid, entries: Vec<FetchHeadEntry>, next: usize },
    Retargeting { target: Oid, entries: Vec<FetchHeadEntry>, next: usize },
    Finished(Result<(), SyncError>),
}

/// A Pull-Merge under way.
pub struct PullMerge {
    phase: PullPhase,
}

/// The commits of the entries from position `next` on.
spec fn pending(entries: Seq<FetchHeadEntry>, next: usize) -> Seq<Oid> {
    if next <= entries.len() {
        oids(entries).skip(next as int)
    } else {
        Seq::empty()
    }
}

impl View for PullMerge {
    type V = PullView;

    closed spec fn view(&self) -> PullView {
        match self.phase {
            PullPhase::Fetching => PullView::Fetching,
            PullPhase::Listing => PullView::Listing,
            PullPhase::Analyzing { target, entries, next } => PullView::Analyzing {
                target,
                remaining: pending(entries@, next),
            },
            PullPhase::CheckingOut { target, entries, next } => PullView::CheckingOut {
                target,
                remaining: pending(entries@, next),
            },
            PullPhase::Retargeting { target, entries, next } => PullView::Retargeting {
                target,
                remaining: pending(entries@, next),
            },
            PullPhase::Finished(result) => PullView::Finished(result),
        }
    }
}

/// Turns to the entry at position `next`, or finishes when there is none.
fn turn(entries: Vec<FetchHeadEntry>, next: usize) -> (p: PullMerge)
    ensures
        p@ == turn_to(pending(entries@, next)),
{
    if next < entries.len() {
        let target = entries[next].oid;
        proof {
            assert(pending(entries@, next)[0] == target);
            assert(pending(entries@, next).skip(1) =~= pending(entries@, (next + 1) as usize));
        }
        PullMerge { phase: PullPhase::Analyzing { target, entries, next: next + 1 } }
    } else {
        PullMerge { phase: PullPhase::Finished(Ok(())) }
    }
}

impl PullMerge {
    /// A Pull-Merge at its beginning: the fetch is outstanding.
    pub fn start() -> (p: PullMerge)
        ensures
            p@ == PullView::Fetching,
    {
        PullMerge { phase: PullPhase::Fetching }
    }

    /// The request that the host has to carry out next; none once the
    /// operation is over.
    pub fn request(&self) -> (r: Option<GitRequest>)
        ensures
            r == pull_request(self@),
    {
        match &self.phase {
            PullPhase::Fetching => Some(GitRequest::Fetch { remote: REMOTE, refspecs: [] }),
            PullPhase::Listing => Some(GitRequest::ReadFetchHead),
            PullPhase::Analyzing { target, .. } => Some(GitRequest::AnalyzeMerge { oid: *target }),
            PullPhase::CheckingOut { target, .. } => Some(GitRequest::CheckoutTree { oid: *target }),
            PullPhase::Retargeting { target, .. } => Some(
                GitRequest::SetBranchTarget { oid: *target, log_message: REFLOG_MESSAGE },
            ),
            PullPhase::Finished(_) => None,
        }
    }

    /// How the operation ended; none while it is under way.
    pub fn outcome(&self) -> (r: Option<&Result<(), SyncError>>)
        ensures
            r == match self@ {
                PullView::Finished(result) => Some(&result),
                _ => None,
            },
    {
        match &self.phase {
            PullPhase::Finished(result) => Some(result),
            _ => None,
        }
    }
}

/// Advances a Pull-Merge by the reply to its outstanding request.
pub fn fast_forward(state: PullMerge, reply: GitReply) -> (next: PullMerge)
    ensures
        next@ == pull_step(state@, reply),
{
    match state.phase {
        PullPhase::Fetching => match reply {
            GitReply::Done => PullMerge { phase: PullPhase::Listing },
            other => PullMerge { phase: PullPhase::Finished(Err(fail(Step::Fetch, other))) },
        },
        PullPhase::Listing => match reply {
            GitReply::FetchHead(entries) => {
                proof {
                    assert(pending(entries@, 0) =~= oids(entries@));
                }
                turn(entries, 0)
            },
            other => PullMerge {
                phase: PullPhase::Finished(Err(fail(Step::ReadFetchHead, other))),
            },
        },
        PullPhase::Analyzing { target, entries, next } => match reply {
            GitReply::Analysis(flags) => match merge_decision(flags) {
                MergeDecision::FastForward => PullMerge {
                    phase: PullPhase::CheckingOut { target, entries, next },
                },
                _ => turn(entries, next),
            },
            other => PullMerge {
                phase: PullPhase::Finished(Err(fail(Step::AnalyzeMerge, other))),
            },
        },
        PullPhase::CheckingOut { target, entries, next } => match reply {
            GitReply::Done => PullMerge { phase: PullPhase::Retargeting { target, entries, next } },
            other => PullMerge {
                phase: PullPhase::Finished(Err(fail(Step::CheckoutTree, other))),
            },
        },
        PullPhase::Retargeting { target, entries, next } => match reply {
            GitReply::Done => turn(entries, next),
            other => PullMerge {
                phase: PullPhase::Finished(Err(fail(Step::SetBranchTarget, other))),
            },
        },
        PullPhase::Finished(result) => PullMerge { phase: PullPhase::Finished(result) },
    }
}

} // verus!

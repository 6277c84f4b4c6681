//! A model of the repository and of the collaborator that serves it, against
//! which the operations are run to their end in proofs.

use vstd::prelude::*;
use crate::fastforward::{
    decision, oids, pull_request, pull_step, turn_to, MergeDecision, PullView,
    ANALYSIS_FASTFORWARD, ANALYSIS_UP_TO_DATE,
};
use crate::git::{FetchHeadEntry, GitReply, GitRequest, Oid, Signature, StatusEntry, REMOTE};
use crate::push::{
    apply, planned, push_request, push_step, stage, status_filter, Change, PushView,
    COMMIT_MESSAGE, COMMIT_REF,
};

verus! {

/// What the model keeps of a repository.
pub struct Repo {
    /// The commit that the current branch points at.
    pub head: Oid,
    /// The commit whose tree the working directory was last made to match.
    pub worktree: Oid,
}

/// The history behind a repository, and the collaborator that reads it.
pub struct History {
    /// `older(a, b)` says that commit `a` is a proper ancestor of commit `b`.
    pub older: spec_fn(Oid, Oid) -> bool,
    /// The flags that a merge analysis gives for a branch tip and a commit
    /// to merge into it.
    pub analysis: spec_fn(Oid, Oid) -> u32,
    /// The entries that a fetch records.
    pub fetched: Vec<FetchHeadEntry>,
}

impl History {
    /// Whether `commit` is reachable from `tip`.
    pub open spec fn holds(self, tip: Oid, commit: Oid) -> bool {
        commit == tip || (self.older)(commit, tip)
    }

    /// Ancestry is a strict partial order, and the analysis tells the truth
    /// about it: up to date where the branch holds the commit, fast-forward
    /// where the tip is a proper ancestor of it.
    pub open spec fn wf(self) -> bool {
        &&& forall|a: Oid| !(#[trigger] (self.older)(a, a))
        &&& forall|a: Oid, b: Oid, c: Oid|
            #[trigger] (self.older)(a, b) && #[trigger] (self.older)(b, c) ==> (self.older)(a, c)
        &&& forall|tip: Oid, commit: Oid|
            ((#[trigger] (self.analysis)(tip, commit)) & ANALYSIS_UP_TO_DATE != 0) == self.holds(
                tip,
                commit,
            )
        &&& forall|tip: Oid, commit: Oid|
            ((#[trigger] (self.analysis)(tip, commit)) & ANALYSIS_FASTFORWARD != 0) == (
            self.older)(tip, commit)
    }

    /// What carrying out a request makes of the repository, and the reply.
    /// Nothing fails.
    pub open spec fn answer(self, repo: Repo, request: GitRequest) -> (Repo, GitReply) {
        match request {
            GitRequest::ReadFetchHead => (repo, GitReply::FetchHead(self.fetched)),
            GitRequest::AnalyzeMerge { oid } => (
                repo,
                GitReply::Analysis((self.analysis)(repo.head, oid)),
            ),
            GitRequest::CheckoutTree { oid } => (
                Repo { head: repo.head, worktree: oid },
                GitReply::Done,
            ),
            GitRequest::SetBranchTarget { oid, .. } => (
                Repo { head: oid, worktree: repo.worktree },
                GitReply::Done,
            ),
            _ => (repo, GitReply::Done),
        }
    }

    /// The repository after one fetched commit was dealt with as the policy
    /// has it: moved forward to the commit when the tip is a proper ancestor
    /// of it, and left alone otherwise.
    pub open spec fn forward(self, repo: Repo, commit: Oid) -> Repo {
        if (self.older)(repo.head, commit) {
            Repo { head: commit, worktree: commit }
        } else {
            repo
        }
    }

    /// The repository after each of the commits was dealt with in turn.
    pub open spec fn settle(self, repo: Repo, commits: Seq<Oid>) -> Repo
        decreases commits.len(),
    {
        if commits.len() == 0 {
            repo
        } else {
            self.settle(self.forward(repo, commits[0]), commits.skip(1))
        }
    }
}

/// The result of running an operation to its end.
pub struct Run {
    /// The repository at the end.
    pub repo: Repo,
    /// The requests that were carried out, in order.
    pub requests: Seq<GitRequest>,
}

/// A bound on the number of requests that a Pull-Merge still makes.
pub open spec fn pull_bound(history: History, s: PullView) -> nat {
    match s {
        PullView::Fetching => 3 * history.fetched@.len() + 2,
        PullView::Listing => 3 * history.fetched@.len() + 1,
        PullView::Analyzing { remaining, .. } => 3 * remaining.len() + 3,
        PullView::CheckingOut { remaining, .. } => 3 * remaining.len() + 2,
        PullView::Retargeting { remaining, .. } => 3 * remaining.len() + 1,
        PullView::Finished(_) => 0,
    }
}

/// Runs a Pull-Merge from state `s` to its end against the collaborator.
pub open spec fn pull_run(history: History, s: PullView, repo: Repo) -> Run
    decreases pull_bound(history, s),
{
    match pull_request(s) {
        None => Run { repo, requests: Seq::empty() },
        Some(request) => {
            let (after, reply) = history.answer(repo, request);
            let rest = pull_run(history, pull_step(s, reply), after);
            Run { repo: rest.repo, requests: seq![request] + rest.requests }
        },
    }
}

/// Whether none of the requests writes.
pub open spec fn harmless(requests: Seq<GitRequest>) -> bool {
    forall|k: int| 0 <= k < requests.len() ==> !(#[trigger] requests[k]).mutates()
}

/// The analysis calls for a fast-forward exactly where the tip is a proper
/// ancestor of the commit.
proof fn lemma_decision(history: History, tip: Oid, commit: Oid)
    requires
        history.wf(),
    ensures
        decision((history.analysis)(tip, commit)) == MergeDecision::FastForward <==> (
        history.older)(tip, commit),
{
    if (history.older)(tip, commit) {
        assert(!(history.older)(tip, tip));
        if (history.older)(commit, tip) {
            assert((history.older)(tip, tip));
        }
        assert(!history.holds(tip, commit));
    }
}

/// From the analysis of the first of `commits` on, a run deals with each of
/// them as the policy has it.
proof fn lemma_run_settles(history: History, repo: Repo, commits: Seq<Oid>)
    requires
        history.wf(),
    ensures
        pull_run(history, turn_to(commits), repo).repo == history.settle(repo, commits),
    decreases commits.len(),
{
    if commits.len() > 0 {
        let target = commits[0];
        let remaining = commits.skip(1);
        let analyzing = PullView::Analyzing { target, remaining };
        lemma_decision(history, repo.head, target);
        lemma_run_settles(history, history.forward(repo, target), remaining);
        if (history.older)(repo.head, target) {
            let checking = PullView::CheckingOut { target, remaining };
            let retargeting = PullView::Retargeting { target, remaining };
            let checked = Repo { head: repo.head, worktree: target };
            let moved = Repo { head: target, worktree: target };
            assert(pull_run(history, retargeting, checked).repo == pull_run(
                history,
                turn_to(remaining),
                moved,
            ).repo);
            assert(pull_run(history, checking, repo).repo == pull_run(
                history,
                retargeting,
                checked,
            ).repo);
            assert(pull_run(history, analyzing, repo).repo == pull_run(
                history,
                checking,
                repo,
            ).repo);
        } else {
            assert(pull_run(history, analyzing, repo).repo == pull_run(
                history,
                turn_to(remaining),
                repo,
            ).repo);
        }
    }
}

/// Where the tip is a proper ancestor of none of `commits`, a run from the
/// analysis of the first of them on leaves the repository as it is and
/// makes no request that writes.
proof fn lemma_run_at_rest(history: History, repo: Repo, commits: Seq<Oid>)
    requires
        history.wf(),
        forall|i: int| 0 <= i < commits.len() ==> !(history.older)(repo.head, #[trigger] commits[i]),
    ensures
        pull_run(history, turn_to(commits), repo).repo == repo,
        harmless(pull_run(history, turn_to(commits), repo).requests),
    decreases commits.len(),
{
    if commits.len() > 0 {
        let target = commits[0];
        let remaining = commits.skip(1);
        let analyzing = PullView::Analyzing { target, remaining };
        lemma_decision(history, repo.head, target);
        assert forall|i: int| 0 <= i < remaining.len() implies !(history.older)(
            repo.head,
            #[trigger] remaining[i],
        ) by {
            assert(remaining[i] == commits[i + 1]);
        }
        lemma_run_at_rest(history, repo, remaining);
        let rest = pull_run(history, turn_to(remaining), repo);
        let request = GitRequest::AnalyzeMerge { oid: target };
        assert(pull_run(history, analyzing, repo) == Run {
            repo: rest.repo,
            requests: seq![request] + rest.requests,
        });
    }
}

/// After the commits were dealt with, the tip that the repository started
/// from is reachable from its tip, and its tip is a proper ancestor of none
/// of the commits.
proof fn lemma_settled(history: History, repo: Repo, commits: Seq<Oid>)
    requires
        history.wf(),
    ensures
        history.holds(history.settle(repo, commits).head, repo.head),
        forall|i: int|
            0 <= i < commits.len() ==> !(history.older)(
                history.settle(repo, commits).head,
                #[trigger] commits[i],
            ),
    decreases commits.len(),
{
    if commits.len() > 0 {
        let first = commits[0];
        let remaining = commits.skip(1);
        let moved = history.forward(repo, first);
        let end = history.settle(repo, commits).head;
        lemma_settled(history, moved, remaining);
        assert(history.holds(end, moved.head));
        assert(history.holds(moved.head, repo.head));
        assert(history.holds(end, repo.head)) by {
            if repo.head != moved.head && moved.head != end {
                assert((history.older)(repo.head, moved.head) && (history.older)(moved.head, end));
            }
        }
        assert(!(history.older)(end, first)) by {
            if (history.older)(end, first) {
                if (history.older)(repo.head, first) {
                    if first != end {
                        assert((history.older)(first, end) && (history.older)(end, first));
                    }
                    assert((history.older)(first, first));
                } else {
                    if repo.head != end {
                        assert((history.older)(repo.head, end) && (history.older)(end, first));
                    }
                    assert((history.older)(repo.head, first));
                }
            }
        }
        assert forall|i: int| 0 <= i < commits.len() implies !(history.older)(
            end,
            #[trigger] commits[i],
        ) by {
            if i > 0 {
                assert(commits[i] == remaining[i - 1]);
            }
        }
    }
}

/// The run of a whole Pull-Merge, from the fetch on, in terms of the run
/// from the analysis of the first fetched commit on.
proof fn lemma_run_from_start(history: History, repo: Repo)
    ensures
        pull_run(history, PullView::Fetching, repo) == ({
            let rest = pull_run(history, turn_to(oids(history.fetched@)), repo);
            Run {
                repo: rest.repo,
                requests: seq![
                    GitRequest::Fetch { remote: REMOTE, refspecs: [] },
                    GitRequest::ReadFetchHead,
                ] + rest.requests,
            }
        }),
{
    let rest = pull_run(history, turn_to(oids(history.fetched@)), repo);
    let listed = pull_run(history, PullView::Listing, repo);
    assert(listed == Run {
        repo: rest.repo,
        requests: seq![GitRequest::ReadFetchHead] + rest.requests,
    });
    let fetch = GitRequest::Fetch { remote: REMOTE, refspecs: [] };
    assert(pull_run(history, PullView::Fetching, repo) == Run {
        repo: listed.repo,
        requests: seq![fetch] + listed.requests,
    });
    assert(seq![fetch] + (seq![GitRequest::ReadFetchHead] + rest.requests) =~= seq![
        fetch,
        GitRequest::ReadFetchHead,
    ] + rest.requests);
}

/// What a Pull-Merge comes to.  Run to its end against a collaborator that
/// does not fail, it leaves the repository as if each fetched commit had
/// been dealt with in turn: the branch moved to it and its tree checked out
/// where the branch's tip was a proper ancestor of it, and nothing done
/// otherwise.
pub proof fn theorem_pull_settles(history: History, repo: Repo)
    requires
        history.wf(),
    ensures
        pull_run(history, PullView::Fetching, repo).repo == history.settle(
            repo,
            oids(history.fetched@),
        ),
{
    lemma_run_from_start(history, repo);
    lemma_run_settles(history, repo, oids(history.fetched@));
}

/// Fast-forward only.  With one commit fetched: where the branch's tip is a
/// proper ancestor of it, the branch points at the commit afterwards and the
/// working directory holds its tree; where it is not, because the histories
/// have diverged or the branch already holds the commit, the repository is
/// as it was and no request was made that writes.
pub proof fn theorem_fast_forward_only(history: History, repo: Repo, commit: Oid)
    requires
        history.wf(),
        oids(history.fetched@) == seq![commit],
    ensures
        (history.older)(repo.head, commit) ==> pull_run(history, PullView::Fetching, repo).repo
            == (Repo { head: commit, worktree: commit }),
        !(history.older)(repo.head, commit) ==> pull_run(history, PullView::Fetching, repo).repo
            == repo && harmless(pull_run(history, PullView::Fetching, repo).requests),
{
    let commits = oids(history.fetched@);
    theorem_pull_settles(history, repo);
    assert(commits.skip(1).len() == 0);
    assert(history.settle(repo, commits) == history.settle(
        history.forward(repo, commit),
        commits.skip(1),
    ));
    if !(history.older)(repo.head, commit) {
        lemma_run_from_start(history, repo);
        lemma_run_at_rest(history, repo, commits);
    }
}

/// Pull-Merge is idempotent.  A second Pull-Merge right after a first, with
/// the same commits fetched, leaves the branch and the working directory as
/// the first left them, and makes no request that writes.
pub proof fn theorem_pull_is_idempotent(history: History, repo: Repo)
    requires
        history.wf(),
    ensures
        ({
            let first = pull_run(history, PullView::Fetching, repo);
            let second = pull_run(history, PullView::Fetching, first.repo);
            second.repo == first.repo && harmless(second.requests)
        }),
{
    let commits = oids(history.fetched@);
    let first = pull_run(history, PullView::Fetching, repo);
    theorem_pull_settles(history, repo);
    lemma_settled(history, repo, commits);
    lemma_run_from_start(history, first.repo);
    lemma_run_at_rest(history, first.repo, commits);
}

/// What a collaborator that does not fail reads out to a Stage-Commit-Push.
pub struct Readings {
    /// The working-tree status.
    pub status: Vec<StatusEntry>,
    /// The full name of the current branch's reference.
    pub branch: String,
    /// The commit that the current branch points at.
    pub head: Oid,
    /// The tree that the index is written out as.
    pub tree: Oid,
    /// The identity that the repository is configured with.
    pub signature: Signature,
}

impl Readings {
    /// The reply to a request.  Nothing fails.
    pub open spec fn answer(self, request: GitRequest) -> GitReply {
        match request {
            GitRequest::ReadStatus(_) => GitReply::Status(self.status),
            GitRequest::ResolveHead => GitReply::Head { name: self.branch, target: Some(self.head) },
            GitRequest::WriteTree => GitReply::Object(self.tree),
            GitRequest::ReadSignature => GitReply::Signature(self.signature),
            _ => GitReply::Done,
        }
    }

    /// The requests that persist the index and commit and push it.
    pub open spec fn conclusion(self) -> Seq<GitRequest> {
        seq![
            GitRequest::WriteIndex,
            GitRequest::ResolveHead,
            GitRequest::WriteTree,
            GitRequest::ReadSignature,
            GitRequest::Commit {
                update_ref: COMMIT_REF,
                signature: self.signature,
                message: COMMIT_MESSAGE,
                tree: self.tree,
                parent: self.head,
            },
            GitRequest::Push { remote: REMOTE, refspec: self.branch },
        ]
    }
}

/// A bound on the number of requests that a Stage-Commit-Push still makes.
pub open spec fn push_bound(readings: Readings, s: PushView) -> nat {
    match s {
        PushView::ReadingStatus => match planned(readings.status@) {
            Ok(set) => set.len() + 8,
            Err(_) => 1,
        },
        PushView::Staging { remaining, .. } => remaining.len() + 7,
        PushView::WritingIndex => 6,
        PushView::ResolvingHead => 5,
        PushView::WritingTree { .. } => 4,
        PushView::Signing { .. } => 3,
        PushView::Committing { .. } => 2,
        PushView::Pushing { .. } => 1,
        PushView::Finished(_) => 0,
    }
}

/// The requests that a Stage-Commit-Push makes from state `s` to its end
/// against the collaborator.
pub open spec fn push_run(readings: Readings, s: PushView) -> Seq<GitRequest>
    decreases push_bound(readings, s),
{
    match push_request(s) {
        None => Seq::empty(),
        Some(request) => seq![request] + push_run(readings, push_step(s, readings.answer(request))),
    }
}

/// From the first of `set` on, a run applies each change to the index and
/// concludes.
proof fn lemma_run_stages(readings: Readings, set: Seq<Change>)
    ensures
        push_run(readings, stage(set)) == set.map_values(|change: Change| apply(change))
            + readings.conclusion(),
    decreases set.len(),
{
    let committing = PushView::Committing {
        branch: readings.branch,
        parent: readings.head,
        tree: readings.tree,
        signature: readings.signature,
    };
    let signing = PushView::Signing {
        branch: readings.branch,
        parent: readings.head,
        tree: readings.tree,
    };
    let writing = PushView::WritingTree { branch: readings.branch, parent: readings.head };
    assert(push_run(readings, PushView::Finished(Ok(()))) == Seq::<GitRequest>::empty());
    let pushing = PushView::Pushing { branch: readings.branch };
    assert(push_run(readings, pushing) =~= readings.conclusion().skip(5));
    assert(push_run(readings, committing) =~= readings.conclusion().skip(4));
    assert(push_run(readings, signing) =~= readings.conclusion().skip(3));
    assert(push_run(readings, writing) =~= readings.conclusion().skip(2));
    assert(push_run(readings, PushView::ResolvingHead) =~= readings.conclusion().skip(1));
    assert(push_run(readings, PushView::WritingIndex) =~= readings.conclusion());
    if set.len() > 0 {
        lemma_run_stages(readings, set.skip(1));
        let staging = PushView::Staging { current: set[0], remaining: set.skip(1) };
        assert(push_run(readings, staging) == seq![apply(set[0])] + push_run(
            readings,
            stage(set.skip(1)),
        ));
        assert(seq![apply(set[0])] + (set.skip(1).map_values(|change: Change| apply(change))
            + readings.conclusion()) =~= set.map_values(|change: Change| apply(change))
            + readings.conclusion());
    } else {
        assert(set.map_values(|change: Change| apply(change)) + readings.conclusion()
            =~= readings.conclusion());
    }
}

/// What a Stage-Commit-Push comes to.  Against a collaborator that does not
/// fail it first reads the status.  Where the status is empty that is all:
/// nothing is staged, no commit is created and nothing is pushed.  So it is
/// where an entry lacks the path that it needs.  Otherwise every change of
/// the status is applied to the index, once and in the order of the status;
/// then the index is persisted, one commit of the tree that the index was
/// written out as is created on top of the commit that the current branch
/// pointed at, under the identity that the repository is configured with,
/// and that branch is pushed under its own name.
pub proof fn theorem_push_requests(readings: Readings)
    ensures
        push_run(readings, PushView::ReadingStatus) == seq![
            GitRequest::ReadStatus(status_filter()),
        ] + (if readings.status@.len() == 0 {
            Seq::empty()
        } else {
            match planned(readings.status@) {
                Ok(set) => set.map_values(|change: Change| apply(change)) + readings.conclusion(),
                Err(_) => Seq::empty(),
            }
        }),
{
    assert(push_run(readings, PushView::Finished(Ok(()))) == Seq::<GitRequest>::empty());
    if readings.status@.len() > 0 {
        match planned(readings.status@) {
            Ok(set) => {
                lemma_run_stages(readings, set);
            },
            Err(e) => {
                assert(push_run(readings, PushView::Finished(Err(e))) == Seq::<GitRequest>::empty());
            },
        }
    }
}

} // verus!

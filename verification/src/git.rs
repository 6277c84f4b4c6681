//! The vocabulary shared by the operations: what they ask of the repository
//! and what they are told in return.

use vstd::prelude::*;

verus! {

/// The one remote that the daemon fetches from and pushes to.
pub const REMOTE: &'static str = "origin";

/// Identifier of an object in the repository: the twenty bytes of its hash.
#[derive(Clone, Copy, Debug, PartialEq, Eq, Hash)]
pub struct Oid {
    pub bytes: [u8; 20],
}

/// What the repository reported when it could not carry out a request.
#[derive(Debug, PartialEq, Eq)]
pub struct GitError {
    pub code: i32,
    pub class: i32,
    pub message: String,
}

/// The kinds of request, without their arguments.
#[derive(Clone, Copy, Debug, PartialEq, Eq)]
pub enum Step {
    Fetch,
    ReadFetchHead,
    AnalyzeMerge,
    CheckoutTree,
    SetBranchTarget,
    ReadStatus,
    StagePath,
    UnstagePath,
    WriteIndex,
    ResolveHead,
    WriteTree,
    ReadSignature,
    Commit,
    Push,
}

/// Why an operation was given up for the current cycle.
#[derive(Debug, PartialEq, Eq)]
pub enum SyncError {
    /// The repository could not carry out the request of this step.
    Rejected { step: Step, cause: GitError },
    /// The reply was not one that answers the request of this step.
    UnexpectedReply { step: Step },
    /// The status entry at this position has to be staged or unstaged but
    /// its path is not valid UTF-8.
    MissingPath { index: usize },
    /// The current branch points at no commit, so there is nothing to commit
    /// on top of.
    NoTarget,
}

/// One reference recorded by the most recent fetch.
#[derive(Debug, PartialEq, Eq)]
pub struct FetchHeadEntry {
    pub ref_name: String,
    pub remote_url: Vec<u8>,
    pub oid: Oid,
    pub is_merge: bool,
}

/// One entry of the working-tree status: a path and its raw status flags.
/// The path is absent when it is not valid UTF-8.
#[derive(Debug, PartialEq, Eq)]
pub struct StatusEntry {
    pub path: Option<String>,
    pub status: u32,
}

/// An identity, and the moment at which it acts.
#[derive(Debug, PartialEq, Eq)]
pub struct Signature {
    pub name: String,
    pub email: String,
    /// Seconds since the epoch.
    pub seconds: i64,
    /// Offset of the time zone, in minutes.
    pub offset_minutes: i32,
}

/// Which entries a working-tree status holds.
#[derive(Clone, Copy, Debug, PartialEq, Eq)]
pub struct StatusFilter {
    /// Files that are not tracked.
    pub include_untracked: bool,
    /// The files below a directory that is not tracked, one by one, in place
    /// of the directory.
    pub recurse_untracked_dirs: bool,
    /// Files that are ignored.
    pub include_ignored: bool,
    /// Files that did not change.
    pub include_unmodified: bool,
    /// Files that cannot be read.
    pub include_unreadable: bool,
}

/// A request to the repository.  The host carries it out and answers with a
/// [`GitReply`].
#[derive(Debug, PartialEq, Eq)]
pub enum GitRequest {
    /// Fetch from the named remote.  The list of refspecs is empty, so that
    /// the ones that the remote is configured with apply.  Answered by
    /// `Done`.
    Fetch { remote: &'static str, refspecs: [&'static str; 0] },
    /// Enumerate the fetch-head entries.  Answered by `FetchHead`.
    ReadFetchHead,
    /// Look up the commit and analyse a merge of it into the current branch.
    /// Answered by `Analysis`.
    AnalyzeMerge { oid: Oid },
    /// Check out the tree of the commit into the working directory,
    /// overwriting what is there.  Answered by `Done`.
    CheckoutTree { oid: Oid },
    /// Point the current branch at the commit.  Answered by `Done`.
    SetBranchTarget { oid: Oid, log_message: &'static str },
    /// Compute the working-tree status with the entries that the filter
    /// admits.  Answered by `Status`.
    ReadStatus(StatusFilter),
    /// Add the file at the path to the index.  Answered by `Done`.
    StagePath { path: String },
    /// Remove the path from the index.  Answered by `Done`.
    UnstagePath { path: String },
    /// Persist the index.  Answered by `Done`.
    WriteIndex,
    /// Resolve the current branch: the name of its reference and the commit
    /// that it points at.  Answered by `Head`.
    ResolveHead,
    /// Write the index out as a tree.  Answered by `Object`.
    WriteTree,
    /// Read the identity that the repository is configured with, at the
    /// present moment.  Answered by `Signature`.
    ReadSignature,
    /// Create a commit of the tree on top of the parent, with the signature
    /// for its author and for its committer alike, and move the reference to
    /// it.  Answered by `Done`.
    Commit {
        update_ref: &'static str,
        signature: Signature,
        message: &'static str,
        tree: Oid,
        parent: Oid,
    },
    /// Push the refspec to the named remote.  Answered by `Done`.
    Push { remote: &'static str, refspec: String },
}

/// The answer to a [`GitRequest`].
#[derive(Debug, PartialEq, Eq)]
pub enum GitReply {
    /// The request was carried out.
    Done,
    /// The request could not be carried out.
    Failed(GitError),
    /// The fetch-head entries, in the order in which they are recorded.
    FetchHead(Vec<FetchHeadEntry>),
    /// The raw flags of a merge analysis.
    Analysis(u32),
    /// The entries of the working-tree status.
    Status(Vec<StatusEntry>),
    /// The reference of the current branch by its full name, and the commit
    /// that it points at, if any.
    Head { name: String, target: Option<Oid> },
    /// The object that the request wrote.
    Object(Oid),
    /// The identity that the request read.
    Signature(Signature),
}

/// The outcome of a step whose reply did not answer its request: the
/// repository's own error where it reported one.
pub open spec fn failure(step: Step, reply: GitReply) -> SyncError {
    match reply {
        GitReply::Failed(cause) => SyncError::Rejected { step, cause },
        _ => SyncError::UnexpectedReply { step },
    }
}

impl GitRequest {
    /// The kind of this request.
    pub open spec fn spec_step(&self) -> Step {
        match *self {
            GitRequest::Fetch { .. } => Step::Fetch,
            GitRequest::ReadFetchHead => Step::ReadFetchHead,
            GitRequest::AnalyzeMerge { .. } => Step::AnalyzeMerge,
            GitRequest::CheckoutTree { .. } => Step::CheckoutTree,
            GitRequest::SetBranchTarget { .. } => Step::SetBranchTarget,
            GitRequest::ReadStatus(_) => Step::ReadStatus,
            GitRequest::StagePath { .. } => Step::StagePath,
            GitRequest::UnstagePath { .. } => Step::UnstagePath,
            GitRequest::WriteIndex => Step::WriteIndex,
            GitRequest::ResolveHead => Step::ResolveHead,
            GitRequest::WriteTree => Step::WriteTree,
            GitRequest::ReadSignature => Step::ReadSignature,
            GitRequest::Commit { .. } => Step::Commit,
            GitRequest::Push { .. } => Step::Push,
        }
    }

    /// The kind of this request.
    #[verifier::when_used_as_spec(spec_step)]
    pub fn step(&self) -> (s: Step)
        ensures
            s == self.spec_step(),
    {
        match self {
            GitRequest::Fetch { .. } => Step::Fetch,
            GitRequest::ReadFetchHead => Step::ReadFetchHead,
            GitRequest::AnalyzeMerge { .. } => Step::AnalyzeMerge,
            GitRequest::CheckoutTree { .. } => Step::CheckoutTree,
            GitRequest::SetBranchTarget { .. } => Step::SetBranchTarget,
            GitRequest::ReadStatus(_) => Step::ReadStatus,
            GitRequest::StagePath { .. } => Step::StagePath,
            GitRequest::UnstagePath { .. } => Step::UnstagePath,
            GitRequest::WriteIndex => Step::WriteIndex,
            GitRequest::ResolveHead => Step::ResolveHead,
            GitRequest::WriteTree => Step::WriteTree,
            GitRequest::ReadSignature => Step::ReadSignature,
            GitRequest::Commit { .. } => Step::Commit,
            GitRequest::Push { .. } => Step::Push,
        }
    }

    /// Whether this request writes: to the current branch, the index, the
    /// working directory or the remote, or objects made of local content.  A
    /// fetch only brings in what the remote holds, and counts as reading.
    pub open spec fn mutates(&self) -> bool {
        match *self {
            GitRequest::CheckoutTree { .. } => true,
            GitRequest::SetBranchTarget { .. } => true,
            GitRequest::StagePath { .. } => true,
            GitRequest::UnstagePath { .. } => true,
            GitRequest::WriteIndex => true,
            GitRequest::WriteTree => true,
            GitRequest::Commit { .. } => true,
            GitRequest::Push { .. } => true,
            _ => false,
        }
    }
}

/// The error with which a step is given up on a reply that does not answer
/// its request.
pub fn fail(step: Step, reply: GitReply) -> (e: SyncError)
    ensures
        e == failure(step, reply),
{
    match reply {
        GitReply::Failed(cause) => SyncError::Rejected { step, cause },
        _ => SyncError::UnexpectedReply { step },
    }
}

} // verus!

//! The signals that travel over the event bus, and what each of them sets
//! off.

use vstd::prelude::*;

verus! {

/// A trigger on the event bus.  It carries nothing but its kind.
#[derive(Clone, Copy, Debug, PartialEq, Eq)]
pub enum SyncEvent {
    /// The interval has elapsed.
    Tick,
    /// Files in the working directory have changed.
    FileChange,
}

/// The two operations on the repository.
#[derive(Clone, Copy, Debug, PartialEq, Eq)]
pub enum Operation {
    PullMerge,
    StageCommitPush,
}

/// The operation that an event sets off: a tick pulls, a file change
/// commits and pushes.
pub open spec fn operation_for(event: SyncEvent) -> Operation {
    match event {
        SyncEvent::Tick => Operation::PullMerge,
        SyncEvent::FileChange => Operation::StageCommitPush,
    }
}

/// The operation that an event sets off.
pub fn dispatch(event: SyncEvent) -> (op: Operation)
    ensures
        op == operation_for(event),
{
    match event {
        SyncEvent::Tick => Operation::PullMerge,
        SyncEvent::FileChange => Operation::StageCommitPush,
    }
}

} // verus!

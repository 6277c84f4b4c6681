//! The Sync Engine: the single consumer of the event bus, which runs one
//! operation at a time against the repository.

use vstd::prelude::*;
use crate::event::{dispatch, operation_for, Operation, SyncEvent};
use crate::fastforward::{fast_forward, pull_request, pull_step, PullMerge, PullView};
use crate::git::{GitReply, GitRequest, SyncError};
use crate::push::{push_request, push_step, push_worktree, PushView, StageCommitPush};

verus! {

/// What the host hands to the engine.
#[derive(Debug, PartialEq, Eq)]
pub enum EngineInput {
    /// The event that was received from the bus.
    Event(SyncEvent),
    /// The bus is closed: every producer is gone.
    BusClosed,
    /// The reply to the request that the engine had outstanding.
    Reply(GitReply),
}

/// What the engine wants of the host next.
#[derive(Debug, PartialEq, Eq)]
pub enum EngineAction {
    /// Wait for the next event on the bus and hand it over.
    NextEvent,
    /// Carry out the request on the repository and hand the reply over.
    Git(GitRequest),
    /// Leave the loop.
    Stop,
}

/// The state of the engine, as a value of mathematics: the operation that
/// is running or was run last.
pub enum EngineView {
    /// No operation was started yet.
    Idle,
    Pulling(PullView),
    Pushing(PushView),
    /// The bus was closed.
    Stopped,
}

/// The operation that has a request outstanding against the repository.
pub open spec fn in_flight(s: EngineView) -> Option<Operation> {
    match s {
        EngineView::Pulling(p) if pull_request(p) is Some => Some(Operation::PullMerge),
        EngineView::Pushing(p) if push_request(p) is Some => Some(Operation::StageCommitPush),
        _ => None,
    }
}

/// The operation that was run last and how it ended.
pub open spec fn finished(s: EngineView) -> Option<(Operation, Result<(), SyncError>)> {
    match s {
        EngineView::Pulling(PullView::Finished(result)) => Some((Operation::PullMerge, result)),
        EngineView::Pushing(PushView::Finished(result)) => Some(
            (Operation::StageCommitPush, result),
        ),
        _ => None,
    }
}

/// What the engine wants next: the request of the operation in flight, and
/// the next event only when none is.
pub open spec fn pending(s: EngineView) -> EngineAction {
    match s {
        EngineView::Idle => EngineAction::NextEvent,
        EngineView::Pulling(p) => match pull_request(p) {
            Some(request) => EngineAction::Git(request),
            None => EngineAction::NextEvent,
        },
        EngineView::Pushing(p) => match push_request(p) {
            Some(request) => EngineAction::Git(request),
            None => EngineAction::NextEvent,
        },
        EngineView::Stopped => EngineAction::Stop,
    }
}

/// The state in which an operation begins.
pub open spec fn begin(op: Operation) -> EngineView {
    match op {
        Operation::PullMerge => EngineView::Pulling(PullView::Fetching),
        Operation::StageCommitPush => EngineView::Pushing(PushView::ReadingStatus),
    }
}

/// The state that follows `s` on an input.
///
/// While an operation is in flight only a reply is taken, and it advances
/// that operation.  An event is taken only when no operation is in flight,
/// and it begins the operation that it stands for, whatever the outcome of
/// the one before.  The closing of the bus, seen while waiting for an event,
/// stops the engine for good.  An input that does not answer what the
/// engine wants leaves it as it is.
pub open spec fn engine_step(s: EngineView, input: EngineInput) -> EngineView {
    match pending(s) {
        EngineAction::NextEvent => match input {
            EngineInput::Event(event) => begin(operation_for(event)),
            EngineInput::BusClosed => EngineView::Stopped,
            EngineInput::Reply(_) => s,
        },
        EngineAction::Git(_) => match (s, input) {
            (EngineView::Pulling(p), EngineInput::Reply(reply)) => EngineView::Pulling(
                pull_step(p, reply),
            ),
            (EngineView::Pushing(p), EngineInput::Reply(reply)) => EngineView::Pushing(
                push_step(p, reply),
            ),
            _ => s,
        },
        EngineAction::Stop => s,
    }
}

enum EngineState {
    Idle,
    Pulling(PullMerge),
    Pushing(StageCommitPush),
    Stopped,
}

/// The Sync Engine.
pub struct SyncEngine {
    state: EngineState,
}

impl View for SyncEngine {
    type V = EngineView;

    closed spec fn view(&self) -> EngineView {
        match self.state {
            EngineState::Idle => EngineView::Idle,
            EngineState::Pulling(p) => EngineView::Pulling(p@),
            EngineState::Pushing(p) => EngineView::Pushing(p@),
            EngineState::Stopped => EngineView::Stopped,
        }
    }
}

impl SyncEngine {
    /// An engine that has run nothing yet.
    pub fn new() -> (engine: SyncEngine)
        ensures
            engine@ == EngineView::Idle,
    {
        SyncEngine { state: EngineState::Idle }
    }

    /// What the host has to do next.
    pub fn pending(&self) -> (action: EngineAction)
        ensures
            action == pending(self@),
    {
        match &self.state {
            EngineState::Idle => EngineAction::NextEvent,
            EngineState::Pulling(p) => match p.request() {
                Some(request) => EngineAction::Git(request),
                None => EngineAction::NextEvent,
            },
            EngineState::Pushing(p) => match p.request() {
                Some(request) => EngineAction::Git(request),
                None => EngineAction::NextEvent,
            },
            EngineState::Stopped => EngineAction::Stop,
        }
    }

    /// The operation that was run last and how it ended; none while an
    /// operation is in flight or before the first.
    pub fn last_outcome(&self) -> (r: Option<(Operation, &Result<(), SyncError>)>)
        ensures
            r == match finished(self@) {
                Some((op, result)) => Some((op, &result)),
                None => None,
            },
    {
        match &self.state {
            EngineState::Pulling(p) => match p.outcome() {
                Some(result) => Some((Operation::PullMerge, result)),
                None => None,
            },
            EngineState::Pushing(p) => match p.outcome() {
                Some(result) => Some((Operation::StageCommitPush, result)),
                None => None,
            },
            _ => None,
        }
    }

    /// Advances the engine by an input.
    pub fn step(self, input: EngineInput) -> (next: SyncEngine)
        ensures
            next@ == engine_step(self@, input),
    {
        match self.state {
            EngineState::Idle => Self::idle_step(EngineState::Idle, input),
            EngineState::Pulling(p) => {
                if p.request().is_some() {
                    match input {
                        EngineInput::Reply(reply) => SyncEngine {
                            state: EngineState::Pulling(fast_forward(p, reply)),
                        },
                        _ => SyncEngine { state: EngineState::Pulling(p) },
                    }
                } else {
                    Self::idle_step(EngineState::Pulling(p), input)
                }
            },
            EngineState::Pushing(p) => {
                if p.request().is_some() {
                    match input {
                        EngineInput::Reply(reply) => SyncEngine {
                            state: EngineState::Pushing(push_worktree(p, reply)),
                        },
                        _ => SyncEngine { state: EngineState::Pushing(p) },
                    }
                } else {
                    Self::idle_step(EngineState::Pushing(p), input)
                }
            },
            EngineState::Stopped => SyncEngine { state: EngineState::Stopped },
        }
    }

    /// The step of an engine that waits for an event.
    fn idle_step(state: EngineState, input: EngineInput) -> (next: SyncEngine)
        requires
            pending((SyncEngine { state })@) == EngineAction::NextEvent,
        ensures
            next@ == engine_step((SyncEngine { state })@, input),
    {
        match input {
            EngineInput::Event(event) => match dispatch(event) {
                Operation::PullMerge => SyncEngine {
                    state: EngineState::Pulling(PullMerge::start()),
                },
                Operation::StageCommitPush => SyncEngine {
                    state: EngineState::Pushing(StageCommitPush::start()),
                },
            },
            EngineInput::BusClosed => SyncEngine { state: EngineState::Stopped },
            EngineInput::Reply(_) => SyncEngine { state },
        }
    }
}

/// The state that a sequence of inputs leads to from `s`.
pub open spec fn run(s: EngineView, inputs: Seq<EngineInput>) -> EngineView
    decreases inputs.len(),
{
    if inputs.len() == 0 {
        s
    } else {
        engine_step(run(s, inputs.drop_last()), inputs.last())
    }
}

/// One operation at a time, step by step.
///
/// The engine asks for a request to be carried out exactly when an
/// operation is in flight, and for the next event exactly when none is and
/// the bus is open.  An operation in flight is advanced by replies alone: no
/// other input changes anything, and whatever the reply, the operation in
/// flight afterwards is the same one or none.  An operation comes to be in
/// flight only from a state in which none was, by the event that stands for
/// it, and in its initial state.
pub proof fn theorem_one_operation_at_a_time(s: EngineView, input: EngineInput)
    ensures
        pending(s) is Git <==> in_flight(s) is Some,
        pending(s) is NextEvent <==> in_flight(s) is None && !(s is Stopped),
        in_flight(s) is Some && !(input is Reply) ==> engine_step(s, input) == s,
        in_flight(s) is Some ==> in_flight(engine_step(s, input)) is None || in_flight(
            engine_step(s, input),
        ) == in_flight(s),
        in_flight(s) is None && in_flight(engine_step(s, input)) is Some ==> {
            &&& input matches EngineInput::Event(event)
            &&& engine_step(s, input) == begin(operation_for(event))
            &&& in_flight(engine_step(s, input)) == Some(operation_for(event))
        },
{
}

/// Serialization: whatever events and replies arrive and in whatever order,
/// the accesses of two operations to the repository never overlap.  Between
/// a moment at which one operation is in flight and a later moment at which
/// another is, there is a moment at which none is.
pub proof fn theorem_serialization(s: EngineView, inputs: Seq<EngineInput>, i: int, j: int)
    requires
        0 <= i <= j <= inputs.len(),
        in_flight(run(s, inputs.take(i))) is Some,
        in_flight(run(s, inputs.take(j))) is Some,
        in_flight(run(s, inputs.take(i))) != in_flight(run(s, inputs.take(j))),
    ensures
        exists|k: int| i < k < j && in_flight(run(s, #[trigger] inputs.take(k))) is None,
    decreases j - i,
{
    if i < j {
        let before = run(s, inputs.take(j - 1));
        assert(inputs.take(j).drop_last() =~= inputs.take(j - 1));
        assert(run(s, inputs.take(j)) == engine_step(before, inputs[j - 1]));
        theorem_one_operation_at_a_time(before, inputs[j - 1]);
        if in_flight(before) is Some {
            theorem_serialization(s, inputs, i, j - 1);
        } else {
            assert(i < j - 1 < j && in_flight(run(s, inputs.take(j - 1))) is None);
        }
    }
}

} // verus!
